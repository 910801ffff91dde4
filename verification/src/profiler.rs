//! Counts of the generate, mutate and update events that values report, one
//! count for each event key.

use vstd::prelude::*;

use crate::util::local_path;

verus! {

/// What happened to a value.
#[derive(Clone, Copy, Debug, PartialEq, Eq, Structural)]
pub enum EventKind {
    Generate,
    Mutate,
    Update,
}

/// One report: the kind of event and the key of the type it happened to.
pub struct Event {
    pub kind: EventKind,
    pub key: String,
}

/// Whether no key is listed twice.
pub open spec fn spec_distinct_keys(list: Seq<(String, usize)>) -> bool {
    forall|i: int, j: int|
        0 <= i < j < list.len() ==> (#[trigger] list[i]).0@ != (#[trigger] list[j]).0@
}

/// Whether the table holds exactly the listed keys, each with its listed
/// count.
pub open spec fn spec_holds_entries(table: Map<Seq<char>, nat>, list: Seq<(String, usize)>) -> bool {
    &&& forall|i: int|
        0 <= i < list.len() ==> table.contains_key((#[trigger] list[i]).0@) && table[list[i].0@]
            == list[i].1
    &&& forall|key: Seq<char>|
        table.contains_key(key) ==> exists|i: int|
            0 <= i < list.len() && (#[trigger] list[i]).0@ == key
}

/// A table from event keys to the number of times each was seen.
pub struct EventCount {
    keys: Vec<String>,
    counts: Vec<usize>,
}

impl EventCount {
    /// The invariant of the table: each key has one count and occurs once.
    pub closed spec fn wf(self) -> bool {
        &&& self.keys@.len() == self.counts@.len()
        &&& forall|i: int, j: int|
            0 <= i < j < self.keys@.len() ==> (#[trigger] self.keys@[i])@ != (
            #[trigger] self.keys@[j])@
    }

    spec fn holds(self, i: int, key: Seq<char>) -> bool {
        0 <= i < self.keys@.len() && self.keys@[i]@ == key
    }

    /// The table as a map from the keys seen so far to their counts.
    pub closed spec fn view(self) -> Map<Seq<char>, nat> {
        Map::new(
            |key: Seq<char>| exists|i: int| self.holds(i, key),
            |key: Seq<char>| self.counts@[choose|i: int| self.holds(i, key)] as nat,
        )
    }

    /// How often `key` was seen; zero for a key that never was.
    pub open spec fn spec_count(self, key: Seq<char>) -> nat {
        if self@.contains_key(key) {
            self@[key]
        } else {
            0
        }
    }

    /// A table that has counted nothing.
    pub fn new() -> (r: Self)
        ensures
            r.wf(),
            r@ == Map::<Seq<char>, nat>::empty(),
    {
        let r = EventCount { keys: Vec::new(), counts: Vec::new() };
        assert(r@ =~= Map::<Seq<char>, nat>::empty());
        r
    }

    fn position(&self, key: &String) -> (r: Option<usize>)
        requires
            self.wf(),
        ensures
            match r {
                Some(i) => self.holds(i as int, key@),
                None => forall|i: int| !self.holds(i, key@),
            },
    {
        let mut i: usize = 0;
        while i < self.keys.len()
            invariant
                i <= self.keys@.len(),
                forall|j: int| 0 <= j < i ==> !self.holds(j, key@),
            decreases self.keys@.len() - i,
        {
            if self.keys[i] == *key {
                return Some(i);
            }
            i += 1;
        }
        None
    }

    /// How often the key was counted; zero for a key that never was.
    pub fn count(&self, key: &String) -> (r: usize)
        requires
            self.wf(),
        ensures
            r == self.spec_count(key@),
    {
        match self.position(key) {
            Some(i) => {
                proof {
                    self.lemma_holds_unique(i as int, key@);
                }
                self.counts[i]
            },
            None => 0,
        }
    }

    proof fn lemma_holds_unique(self, i: int, key: Seq<char>)
        requires
            self.wf(),
            self.holds(i, key),
        ensures
            self@.contains_key(key),
            self@[key] == self.counts@[i],
    {
        let c = choose|j: int| self.holds(j, key);
        assert(self.holds(c, key));
        if c < i {
            assert(self.keys@[c]@ != self.keys@[i]@);
        } else if i < c {
            assert(self.keys@[i]@ != self.keys@[c]@);
        }
    }

    /// The table that holds the listed keys with their counts; there is
    /// none where a key is listed twice.
    pub fn from_entries(list: &Vec<(String, usize)>) -> (r: Option<Self>)
        ensures
            r is Some <==> spec_distinct_keys(list@),
            r matches Some(t) ==> t.wf() && spec_holds_entries(t@, list@),
    {
        let mut table = EventCount { keys: Vec::new(), counts: Vec::new() };
        let mut i: usize = 0;
        while i < list.len()
            invariant
                i <= list@.len(),
                table.wf(),
                table.keys@.len() == i,
                forall|j: int|
                    0 <= j < i ==> (#[trigger] table.keys@[j])@ == list@[j].0@ && table.counts@[j]
                        == list@[j].1,
            decreases list@.len() - i,
        {
            let key = list[i].0.clone();
            match table.position(&key) {
                Some(p) => {
                    proof {
                        assert(table.holds(p as int, key@));
                        assert(list@[p as int].0@ == list@[i as int].0@);
                    }
                    return None;
                },
                None => {
                    proof {
                        assert forall|j: int| 0 <= j < i implies (#[trigger] table.keys@[j])@
                            != key@ by {
                            assert(!table.holds(j, key@));
                        }
                    }
                    table.keys.push(key);
                    table.counts.push(list[i].1);
                },
            }
            i += 1;
        }
        proof {
            assert forall|a: int, b: int| 0 <= a < b < list@.len() implies (#[trigger] list@[a]).0@
                != (#[trigger] list@[b]).0@ by {
                assert(table.keys@[a]@ != table.keys@[b]@);
            }
            assert forall|j: int| 0 <= j < list@.len() implies table@.contains_key(
                (#[trigger] list@[j]).0@,
            ) && table@[list@[j].0@] == list@[j].1 by {
                assert(table.holds(j, list@[j].0@));
                table.lemma_holds_unique(j, list@[j].0@);
            }
            assert forall|key: Seq<char>| table@.contains_key(key) implies exists|j: int|
                0 <= j < list@.len() && (#[trigger] list@[j]).0@ == key by {
                let j = choose|j: int| table.holds(j, key);
                assert(table.holds(j, key));
                assert(list@[j].0@ == key);
            }
        }
        Some(table)
    }

    /// The keys seen so far, each once, with their counts.
    pub fn entries(&self) -> (list: Vec<(String, usize)>)
        requires
            self.wf(),
        ensures
            forall|i: int|
                0 <= i < list@.len() ==> self@.contains_key((#[trigger] list@[i]).0@)
                    && self@[list@[i].0@] == list@[i].1,
            forall|key: Seq<char>|
                self@.contains_key(key) ==> exists|i: int|
                    0 <= i < list@.len() && (#[trigger] list@[i]).0@ == key,
            forall|i: int, j: int|
                0 <= i < j < list@.len() ==> (#[trigger] list@[i]).0@ != (#[trigger] list@[j]).0@,
    {
        let mut list: Vec<(String, usize)> = Vec::new();
        let mut i: usize = 0;
        while i < self.keys.len()
            invariant
                self.wf(),
                i <= self.keys@.len(),
                list@.len() == i,
                forall|j: int|
                    0 <= j < i ==> (#[trigger] list@[j]).0@ == self.keys@[j]@ && list@[j].1
                        == self.counts@[j],
            decreases self.keys@.len() - i,
        {
            list.push((self.keys[i].clone(), self.counts[i]));
            i += 1;
        }
        proof {
            assert forall|j: int| 0 <= j < list@.len() implies self@.contains_key(
                (#[trigger] list@[j]).0@,
            ) && self@[list@[j].0@] == list@[j].1 by {
                assert(self.holds(j, list@[j].0@));
                self.lemma_holds_unique(j, list@[j].0@);
            }
            assert forall|key: Seq<char>| self@.contains_key(key) implies exists|j: int|
                0 <= j < list@.len() && (#[trigger] list@[j]).0@ == key by {
                let j = choose|j: int| self.holds(j, key);
                assert(self.holds(j, key));
                assert(list@[j].0@ == key);
            }
        }
        list
    }

    /// Counts `key` once more.
    pub fn increment(&mut self, key: String)
        requires
            old(self).wf(),
            old(self).spec_count(key@) < usize::MAX,
        ensures
            final(self).wf(),
            final(self)@ == old(self)@.insert(key@, old(self).spec_count(key@) + 1),
    {
        let ghost before = *self;
        match self.position(&key) {
            Some(i) => {
                proof {
                    self.lemma_holds_unique(i as int, key@);
                }
                let c = self.counts[i];
                self.counts.set(i, c + 1);
                proof {
                    let after = *self;
                    assert(after.keys@ == before.keys@);
                    assert forall|k: Seq<char>| #[trigger]
                        after@.contains_key(k) == before@.insert(
                            key@,
                            before.spec_count(key@) + 1,
                        ).contains_key(k) by {
                        if before@.contains_key(k) {
                            let j = choose|j: int| before.holds(j, k);
                            assert(after.holds(j, k));
                        }
                        if after@.contains_key(k) {
                            let j = choose|j: int| after.holds(j, k);
                            assert(before.holds(j, k));
                        }
                        if k == key@ {
                            assert(after.holds(i as int, k));
                        }
                    }
                    assert forall|k: Seq<char>| #[trigger] after@.contains_key(k) implies after@[k]
                        == before@.insert(key@, before.spec_count(key@) + 1)[k] by {
                        let j = choose|j: int| after.holds(j, k);
                        assert(after.holds(j, k));
                        after.lemma_holds_unique(j, k);
                        assert(before.holds(j, k));
                        before.lemma_holds_unique(j, k);
                        if k == key@ {
                            after.lemma_holds_unique(i as int, k);
                        } else {
                            assert(j != i);
                        }
                    }
                    assert(after@ =~= before@.insert(key@, before.spec_count(key@) + 1));
                }
            },
            None => {
                proof {
                    assert(!before@.contains_key(key@));
                }
                self.keys.push(key);
                self.counts.push(1);
                proof {
                    let after = *self;
                    let n = before.keys@.len() as int;
                    assert(after.keys@[n]@ == key@);
                    assert forall|a: int, b: int| 0 <= a < b < after.keys@.len() implies (
                    #[trigger] after.keys@[a])@ != (#[trigger] after.keys@[b])@ by {
                        if b == n {
                            assert(!before.holds(a, key@));
                        }
                    }
                    assert forall|k: Seq<char>| #[trigger]
                        after@.contains_key(k) == before@.insert(key@, 1).contains_key(k) by {
                        if before@.contains_key(k) {
                            let j = choose|j: int| before.holds(j, k);
                            assert(after.holds(j, k));
                        }
                        if after@.contains_key(k) && k != key@ {
                            let j = choose|j: int| after.holds(j, k);
                            assert(before.holds(j, k));
                        }
                        if k == key@ {
                            assert(after.holds(n, k));
                        }
                    }
                    assert forall|k: Seq<char>| #[trigger] after@.contains_key(k) implies after@[k]
                        == before@.insert(key@, 1)[k] by {
                        let j = choose|j: int| after.holds(j, k);
                        assert(after.holds(j, k));
                        after.lemma_holds_unique(j, k);
                        if k == key@ {
                            after.lemma_holds_unique(n, k);
                        } else {
                            assert(before.holds(j, k));
                            before.lemma_holds_unique(j, k);
                        }
                    }
                    assert(after@ =~= before@.insert(key@, 1));
                }
            },
        }
    }
}

/// The three tables of a profile, one for each kind of event.
pub struct MutagenProfiler {
    generated: EventCount,
    mutated: EventCount,
    updated: EventCount,
}

/// Whether events with this key are left out of the profile.
pub open spec fn spec_blacklisted(key: Seq<char>) -> bool {
    key == "NodeSet"@ || key == "NodeTree"@
}

impl MutagenProfiler {
    /// The invariant of the profile: each table is well formed.
    pub closed spec fn wf(self) -> bool {
        self.generated.wf() && self.mutated.wf() && self.updated.wf()
    }

    /// The table for one kind of event, as a map from keys to counts.
    pub closed spec fn table(self, kind: EventKind) -> Map<Seq<char>, nat> {
        match kind {
            EventKind::Generate => self.generated@,
            EventKind::Mutate => self.mutated@,
            EventKind::Update => self.updated@,
        }
    }

    /// How often an event of this kind and key was counted.
    pub open spec fn spec_count(self, kind: EventKind, key: Seq<char>) -> nat {
        if self.table(kind).contains_key(key) {
            self.table(kind)[key]
        } else {
            0
        }
    }

    /// The profile whose three tables hold the listed keys with their
    /// counts; there is none where a list names a key twice.
    pub fn from_entries(
        generated: &Vec<(String, usize)>,
        mutated: &Vec<(String, usize)>,
        updated: &Vec<(String, usize)>,
    ) -> (r: Option<Self>)
        ensures
            r is Some <==> spec_distinct_keys(generated@) && spec_distinct_keys(mutated@)
                && spec_distinct_keys(updated@),
            r matches Some(p) ==> {
                &&& p.wf()
                &&& spec_holds_entries(p.table(EventKind::Generate), generated@)
                &&& spec_holds_entries(p.table(EventKind::Mutate), mutated@)
                &&& spec_holds_entries(p.table(EventKind::Update), updated@)
            },
    {
        let generated = match EventCount::from_entries(generated) {
            Some(table) => table,
            None => {
                return None;
            },
        };
        let mutated = match EventCount::from_entries(mutated) {
            Some(table) => table,
            None => {
                return None;
            },
        };
        let updated = match EventCount::from_entries(updated) {
            Some(table) => table,
            None => {
                return None;
            },
        };
        Some(MutagenProfiler { generated, mutated, updated })
    }

    /// A profile that has counted nothing.
    pub fn new() -> (r: Self)
        ensures
            r.wf(),
            forall|kind: EventKind| #[trigger] r.table(kind) == Map::<Seq<char>, nat>::empty(),
    {
        MutagenProfiler {
            generated: EventCount::new(),
            mutated: EventCount::new(),
            updated: EventCount::new(),
        }
    }

    /// How often an event of this kind and key was counted.
    pub fn count(&self, kind: EventKind, key: &String) -> (r: usize)
        requires
            self.wf(),
        ensures
            r == self.spec_count(kind, key@),
    {
        match kind {
            EventKind::Generate => self.generated.count(key),
            EventKind::Mutate => self.mutated.count(key),
            EventKind::Update => self.updated.count(key),
        }
    }

    /// The keys counted for one kind of event, each once, with their
    /// counts.
    pub fn entries(&self, kind: EventKind) -> (list: Vec<(String, usize)>)
        requires
            self.wf(),
        ensures
            forall|i: int|
                0 <= i < list@.len() ==> self.table(kind).contains_key((#[trigger] list@[i]).0@)
                    && self.table(kind)[list@[i].0@] == list@[i].1,
            forall|key: Seq<char>|
                self.table(kind).contains_key(key) ==> exists|i: int|
                    0 <= i < list@.len() && (#[trigger] list@[i]).0@ == key,
            forall|i: int, j: int|
                0 <= i < j < list@.len() ==> (#[trigger] list@[i]).0@ != (#[trigger] list@[j]).0@,
    {
        match kind {
            EventKind::Generate => self.generated.entries(),
            EventKind::Mutate => self.mutated.entries(),
            EventKind::Update => self.updated.entries(),
        }
    }

    /// Whether events with this key are left out of the profile.
    pub fn is_blacklisted(key: &String) -> (r: bool)
        ensures
            r == spec_blacklisted(key@),
    {
        let node_set = "NodeSet".to_owned();
        let node_tree = "NodeTree".to_owned();
        *key == node_set || *key == node_tree
    }

    /// Counts the event in the table of its kind, unless its key is left out.
    pub fn handle_event(&mut self, event: Event)
        requires
            old(self).wf(),
            old(self).spec_count(event.kind, event.key@) < usize::MAX,
        ensures
            final(self).wf(),
            spec_blacklisted(event.key@) ==> forall|kind: EventKind| #[trigger]
                final(self).table(kind) == old(self).table(kind),
            !spec_blacklisted(event.key@) ==> final(self).table(event.kind) == old(self).table(
                event.kind,
            ).insert(event.key@, old(self).spec_count(event.kind, event.key@) + 1),
            forall|kind: EventKind|
                kind != event.kind ==> #[trigger] final(self).table(kind) == old(self).table(kind),
    {
        if !Self::is_blacklisted(&event.key) {
            match event.kind {
                EventKind::Generate => self.generated.increment(event.key),
                EventKind::Mutate => self.mutated.increment(event.key),
                EventKind::Update => self.updated.increment(event.key),
            }
        }
    }

    /// The components of the path of the profile beside the program.
    pub fn default_path(manifest_dir: Option<String>, current_dir: String) -> (r: Vec<String>)
        ensures
            manifest_dir matches Some(m) ==> r@.len() == 3 && r@[0] == m && r@[1]@ == ".."@
                && r@[2]@ == "profile.json"@,
            manifest_dir is None ==> r@.len() == 2 && r@[0] == current_dir && r@[1]@
                == "profile.json"@,
    {
        local_path(manifest_dir, current_dir, "profile.json".to_owned())
    }

    /// The components of the path of the directory of profile graphs beside
    /// the program.
    pub fn default_graphs_path(manifest_dir: Option<String>, current_dir: String) -> (r: Vec<
        String,
    >)
        ensures
            manifest_dir matches Some(m) ==> r@.len() == 3 && r@[0] == m && r@[1]@ == ".."@
                && r@[2]@ == "profile_graphs"@,
            manifest_dir is None ==> r@.len() == 2 && r@[0] == current_dir && r@[1]@
                == "profile_graphs"@,
    {
        local_path(manifest_dir, current_dir, "profile_graphs".to_owned())
    }
}

} // verus!
