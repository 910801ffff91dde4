//! The arguments that generation, mutation and update hand down: each lends
//! the profile, if there is one, so that events can be counted.

use vstd::prelude::*;

use crate::profiler::{spec_blacklisted, Event, EventKind, MutagenProfiler};

verus! {

/// Whether an event of this kind and key can be counted in the profile, if
/// there is one.
pub open spec fn spec_reportable(
    before: Option<MutagenProfiler>,
    kind: EventKind,
    key: Seq<char>,
) -> bool {
    before matches Some(p) ==> p.wf() && p.spec_count(kind, key) < usize::MAX
}

/// Whether `after` is `before` with one event of this kind and key counted:
/// no profile stays none, and a profile is changed as its own rule says.
pub open spec fn spec_reported(
    before: Option<MutagenProfiler>,
    after: Option<MutagenProfiler>,
    kind: EventKind,
    key: Seq<char>,
) -> bool {
    match before {
        None => after is None,
        Some(p) => {
            &&& after matches Some(q)
            &&& q.wf()
            &&& spec_blacklisted(key) ==> q.table(kind) == p.table(kind)
            &&& !spec_blacklisted(key) ==> q.table(kind) == p.table(kind).insert(
                key,
                p.spec_count(kind, key) + 1,
            )
            &&& forall|other: EventKind|
                other != kind ==> #[trigger] q.table(other) == p.table(other)
        },
    }
}

/// Counts the event in the profile, if there is one.
pub fn report(profiler: &mut Option<MutagenProfiler>, event: Event)
    requires
        spec_reportable(*old(profiler), event.kind, event.key@),
    ensures
        spec_reported(*old(profiler), *final(profiler), event.kind, event.key@),
{
    match profiler {
        Some(p) => {
            p.handle_event(event);
        },
        None => {},
    }
}

/// The argument of an update.
pub struct ProtoUpdArg<'a> {
    pub profiler: &'a mut Option<MutagenProfiler>,
}

impl<'a> ProtoUpdArg<'a> {
    /// Counts the event in the profile that the argument lends.
    pub fn handle_event(&mut self, event: Event)
        requires
            spec_reportable(*old(self).profiler, event.kind, event.key@),
        ensures
            spec_reported(*old(self).profiler, *final(self).profiler, event.kind, event.key@),
            *final(final(self).profiler) == *final(old(self).profiler),
    {
        report(self.profiler, event);
    }

    /// Lends the profile on for a shorter time.
    pub fn reborrow(&mut self) -> (r: ProtoUpdArg<'_>)
        ensures
            *r.profiler == *old(self).profiler,
            *final(self).profiler == *final(r.profiler),
            *final(final(self).profiler) == *final(old(self).profiler),
    {
        ProtoUpdArg { profiler: &mut *self.profiler }
    }
}

/// The argument of a generation.
pub struct ProtoGenArg<'a> {
    pub profiler: &'a mut Option<MutagenProfiler>,
}

impl<'a> ProtoGenArg<'a> {
    /// Counts the event in the profile that the argument lends.
    pub fn handle_event(&mut self, event: Event)
        requires
            spec_reportable(*old(self).profiler, event.kind, event.key@),
        ensures
            spec_reported(*old(self).profiler, *final(self).profiler, event.kind, event.key@),
            *final(final(self).profiler) == *final(old(self).profiler),
    {
        report(self.profiler, event);
    }

    /// Lends the profile on for a shorter time.
    pub fn reborrow(&mut self) -> (r: ProtoGenArg<'_>)
        ensures
            *r.profiler == *old(self).profiler,
            *final(self).profiler == *final(r.profiler),
            *final(final(self).profiler) == *final(old(self).profiler),
    {
        ProtoGenArg { profiler: &mut *self.profiler }
    }
}

/// The argument of a mutation.
pub struct ProtoMutArg<'a> {
    pub profiler: &'a mut Option<MutagenProfiler>,
}

impl<'a> ProtoMutArg<'a> {
    /// Counts the event in the profile that the argument lends.
    pub fn handle_event(&mut self, event: Event)
        requires
            spec_reportable(*old(self).profiler, event.kind, event.key@),
        ensures
            spec_reported(*old(self).profiler, *final(self).profiler, event.kind, event.key@),
            *final(final(self).profiler) == *final(old(self).profiler),
    {
        report(self.profiler, event);
    }

    /// Lends the profile on for a shorter time.
    pub fn reborrow(&mut self) -> (r: ProtoMutArg<'_>)
        ensures
            *r.profiler == *old(self).profiler,
            *final(self).profiler == *final(r.profiler),
            *final(final(self).profiler) == *final(old(self).profiler),
    {
        ProtoMutArg { profiler: &mut *self.profiler }
    }

    /// A mutation that has to generate hands its profile on.
    pub fn into_gen_arg(self) -> (r: ProtoGenArg<'a>)
        ensures
            *r.profiler == *old(self.profiler),
            *final(r.profiler) == *final(self.profiler),
    {
        ProtoGenArg { profiler: self.profiler }
    }
}

} // verus!
