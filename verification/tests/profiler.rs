use procgen_types::mutagen_args::{report, ProtoGenArg, ProtoMutArg, ProtoUpdArg};
use procgen_types::profiler::{Event, EventCount, EventKind, MutagenProfiler};

fn event(kind: EventKind, key: &str) -> Event {
    Event { kind, key: key.to_string() }
}

#[test]
fn a_new_profile_counts_nothing() {
    let profiler = MutagenProfiler::new();
    assert_eq!(profiler.count(EventKind::Generate, &"Byte".to_string()), 0);
    assert_eq!(profiler.count(EventKind::Mutate, &"Byte".to_string()), 0);
    assert_eq!(profiler.count(EventKind::Update, &"Byte".to_string()), 0);
}

#[test]
fn events_are_counted_by_kind_and_key() {
    let mut profiler = MutagenProfiler::new();
    profiler.handle_event(event(EventKind::Generate, "Byte"));
    profiler.handle_event(event(EventKind::Generate, "Byte"));
    profiler.handle_event(event(EventKind::Generate, "Nibble"));
    profiler.handle_event(event(EventKind::Mutate, "Byte"));
    assert_eq!(profiler.count(EventKind::Generate, &"Byte".to_string()), 2);
    assert_eq!(profiler.count(EventKind::Generate, &"Nibble".to_string()), 1);
    assert_eq!(profiler.count(EventKind::Mutate, &"Byte".to_string()), 1);
    assert_eq!(profiler.count(EventKind::Update, &"Byte".to_string()), 0);
}

#[test]
fn node_sets_and_node_trees_are_left_out() {
    let mut profiler = MutagenProfiler::new();
    profiler.handle_event(event(EventKind::Update, "NodeSet"));
    profiler.handle_event(event(EventKind::Update, "NodeTree"));
    profiler.handle_event(event(EventKind::Update, "NodeTrees"));
    assert_eq!(profiler.count(EventKind::Update, &"NodeSet".to_string()), 0);
    assert_eq!(profiler.count(EventKind::Update, &"NodeTree".to_string()), 0);
    assert_eq!(profiler.count(EventKind::Update, &"NodeTrees".to_string()), 1);
    assert!(MutagenProfiler::is_blacklisted(&"NodeSet".to_string()));
    assert!(!MutagenProfiler::is_blacklisted(&"Node".to_string()));
}

#[test]
fn an_event_count_increments_per_key() {
    let mut counts = EventCount::new();
    counts.increment("a".to_string());
    counts.increment("b".to_string());
    counts.increment("a".to_string());
    assert_eq!(counts.count(&"a".to_string()), 2);
    assert_eq!(counts.count(&"b".to_string()), 1);
    assert_eq!(counts.count(&"c".to_string()), 0);
}

#[test]
fn arguments_report_to_the_profile_they_lend() {
    let mut slot = Some(MutagenProfiler::new());
    {
        let mut arg = ProtoMutArg { profiler: &mut slot };
        arg.handle_event(event(EventKind::Mutate, "Angle"));
        {
            let mut inner = arg.reborrow();
            inner.handle_event(event(EventKind::Mutate, "Angle"));
        }
        let mut gen_arg: ProtoGenArg = arg.into_gen_arg();
        gen_arg.handle_event(event(EventKind::Generate, "Angle"));
    }
    {
        let mut arg = ProtoUpdArg { profiler: &mut slot };
        arg.handle_event(event(EventKind::Update, "Angle"));
    }
    let profiler = slot.unwrap();
    assert_eq!(profiler.count(EventKind::Mutate, &"Angle".to_string()), 2);
    assert_eq!(profiler.count(EventKind::Generate, &"Angle".to_string()), 1);
    assert_eq!(profiler.count(EventKind::Update, &"Angle".to_string()), 1);
}

#[test]
fn reporting_without_a_profile_does_nothing() {
    let mut slot: Option<MutagenProfiler> = None;
    report(&mut slot, event(EventKind::Generate, "Byte"));
    assert!(slot.is_none());
}

#[test]
fn default_paths_lie_beside_the_program() {
    assert_eq!(
        MutagenProfiler::default_path(Some("/work/crate".to_string()), "/cwd".to_string()),
        vec!["/work/crate".to_string(), "..".to_string(), "profile.json".to_string()]
    );
    assert_eq!(
        MutagenProfiler::default_path(None, "/cwd".to_string()),
        vec!["/cwd".to_string(), "profile.json".to_string()]
    );
    assert_eq!(
        MutagenProfiler::default_graphs_path(None, "/cwd".to_string()),
        vec!["/cwd".to_string(), "profile_graphs".to_string()]
    );
    assert_eq!(
        MutagenProfiler::default_graphs_path(Some("m".to_string()), "/cwd".to_string()),
        vec!["m".to_string(), "..".to_string(), "profile_graphs".to_string()]
    );
}

#[test]
fn entries_list_each_key_once_with_its_count() {
    let mut profiler = MutagenProfiler::new();
    profiler.handle_event(event(EventKind::Mutate, "b"));
    profiler.handle_event(event(EventKind::Mutate, "a"));
    profiler.handle_event(event(EventKind::Mutate, "b"));
    let mut entries = profiler.entries(EventKind::Mutate);
    entries.sort();
    assert_eq!(entries, vec![("a".to_string(), 1), ("b".to_string(), 2)]);
    assert!(profiler.entries(EventKind::Generate).is_empty());
}

#[test]
fn a_profile_is_built_from_its_entries() {
    let generated = vec![("a".to_string(), 3), ("NodeSet".to_string(), 2)];
    let mutated = vec![("b".to_string(), 1)];
    let updated = vec![];
    let profiler = MutagenProfiler::from_entries(&generated, &mutated, &updated).unwrap();
    assert_eq!(profiler.count(EventKind::Generate, &"a".to_string()), 3);
    assert_eq!(profiler.count(EventKind::Generate, &"NodeSet".to_string()), 2);
    assert_eq!(profiler.count(EventKind::Mutate, &"b".to_string()), 1);
    assert_eq!(profiler.count(EventKind::Update, &"a".to_string()), 0);
    let mut back = profiler.entries(EventKind::Generate);
    back.sort();
    assert_eq!(back, vec![("NodeSet".to_string(), 2), ("a".to_string(), 3)]);
}

#[test]
fn a_key_listed_twice_gives_no_profile() {
    let twice = vec![("a".to_string(), 3), ("b".to_string(), 1), ("a".to_string(), 4)];
    assert!(EventCount::from_entries(&twice).is_none());
    assert!(MutagenProfiler::from_entries(&vec![], &twice, &vec![]).is_none());
    assert!(EventCount::from_entries(&vec![("a".to_string(), 0)]).is_some());
}
