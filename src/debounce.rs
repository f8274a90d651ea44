//! The watcher's debounce decision: which filesystem events become a change
//! signal.

use vstd::prelude::*;

verus! {

/// What a filesystem event says changed.
#[derive(Clone, Copy, Debug, PartialEq, Eq, Structural)]
pub enum ChangeKind {
    /// The file's content was modified.
    Content,
    /// Only metadata changed: permissions, times, attributes.
    Metadata,
    /// Anything else: creation, removal, renaming, access.
    Other,
}

/// Only a content modification can become a change signal.
pub open spec fn is_content(kind: ChangeKind) -> bool {
    kind == ChangeKind::Content
}

/// State of one watch: when a change signal was last emitted (in
/// milliseconds, `None` before the first) and the minimum interval that must
/// elapse before the next one.
pub struct Debouncer {
    pub last_emit: Option<u64>,
    pub min_interval: u64,
}

/// Whether an event at `now` is forwarded: it must be a content modification,
/// and more than `min_interval` must have passed since the last emission.
/// A clock that reads earlier than the last emission counts as no time passed.
pub open spec fn forwards(last_emit: Option<u64>, min_interval: u64, modify: bool, now: u64) -> bool {
    modify && match last_emit {
        None => true,
        Some(t) => now >= t && now - t > min_interval,
    }
}

/// The emission time after an event at `now`.
pub open spec fn last_after(last_emit: Option<u64>, min_interval: u64, modify: bool, now: u64) -> Option<u64> {
    if forwards(last_emit, min_interval, modify, now) {
        Some(now)
    } else {
        last_emit
    }
}

/// What a run of events `(is_modification, time)` makes the watcher forward,
/// one flag per event.
pub open spec fn forwarded(last_emit: Option<u64>, min_interval: u64, events: Seq<(bool, u64)>) -> Seq<bool>
    decreases events.len(),
{
    if events.len() == 0 {
        Seq::empty()
    } else {
        let e = events[0];
        seq![forwards(last_emit, min_interval, e.0, e.1)].add(
            forwarded(last_after(last_emit, min_interval, e.0, e.1), min_interval, events.drop_first()),
        )
    }
}

/// The last emission after a run of events.
pub open spec fn last_after_all(last_emit: Option<u64>, min_interval: u64, events: Seq<(bool, u64)>) -> Option<u64>
    decreases events.len(),
{
    if events.len() == 0 {
        last_emit
    } else {
        let e = events[0];
        last_after_all(last_after(last_emit, min_interval, e.0, e.1), min_interval, events.drop_first())
    }
}

impl Debouncer {
    /// A watch that has emitted nothing yet.
    pub fn new(min_interval: u64) -> (r: Debouncer)
        ensures
            r.last_emit is None,
            r.min_interval == min_interval,
    {
        Debouncer { last_emit: None, min_interval }
    }

    /// Decides whether an event of kind `kind` at `now` is forwarded as a
    /// change signal and records the emission when it is.
    pub fn on_event(&mut self, kind: ChangeKind, now: u64) -> (r: bool)
        ensures
            r == forwards(old(self).last_emit, old(self).min_interval, is_content(kind), now),
            final(self).last_emit == last_after(old(self).last_emit, old(self).min_interval, is_content(kind), now),
            final(self).min_interval == old(self).min_interval,
    {
        if kind != ChangeKind::Content {
            return false;
        }
        let pass = match self.last_emit {
            None => true,
            Some(t) => now >= t && now - t > self.min_interval,
        };
        if pass {
            self.last_emit = Some(now);
        }
        pass
    }
}

/// A burst of modifications that all fall within less than `min_interval` of
/// the first one is forwarded exactly once when the first event passes the
/// debounce (the watch has not emitted yet, or its last emission is more than
/// `min_interval` before the burst): the first event passes, every later one
/// is dropped, and the last emission is then the first event's time.
pub proof fn lemma_burst_forwarded_once(last_emit: Option<u64>, min_interval: u64, events: Seq<(bool, u64)>)
    requires
        events.len() > 0,
        forwards(last_emit, min_interval, true, events[0].1),
        forall|i: int| 0 <= i < events.len() ==> (#[trigger] events[i]).0,
        forall|i: int|
            0 <= i < events.len() ==> events[0].1 <= (#[trigger] events[i]).1 && events[i].1
                < events[0].1 + min_interval,
    ensures
        forwarded(last_emit, min_interval, events)[0],
        forall|i: int| 1 <= i < events.len() ==> !(#[trigger] forwarded(last_emit, min_interval, events)[i]),
        forwarded(last_emit, min_interval, events).len() == events.len(),
        last_after_all(last_emit, min_interval, events) == Some(events[0].1),
{
    let t0 = events[0].1;
    let rest = events.drop_first();
    assert forall|i: int| 0 <= i < rest.len() implies (#[trigger] rest[i]).0 && t0 <= rest[i].1
        && rest[i].1 < t0 + min_interval by {
        assert(rest[i] == events[i + 1]);
    }
    lemma_quiet_window(t0, min_interval, rest);
}

/// After an emission at `t0`, modifications that come less than
/// `min_interval` later are all dropped.
proof fn lemma_quiet_window(t0: u64, min_interval: u64, events: Seq<(bool, u64)>)
    requires
        forall|i: int|
            0 <= i < events.len() ==> t0 <= (#[trigger] events[i]).1 && events[i].1 < t0
                + min_interval,
    ensures
        forwarded(Some(t0), min_interval, events).len() == events.len(),
        forall|i: int| 0 <= i < events.len() ==> !(#[trigger] forwarded(Some(t0), min_interval, events)[i]),
        last_after_all(Some(t0), min_interval, events) == Some(t0),
    decreases events.len(),
{
    if events.len() > 0 {
        let rest = events.drop_first();
        assert forall|i: int| 0 <= i < rest.len() implies t0 <= (#[trigger] rest[i]).1 && rest[i].1
            < t0 + min_interval by {
            assert(rest[i] == events[i + 1]);
        }
        lemma_quiet_window(t0, min_interval, rest);
        let f = forwarded(Some(t0), min_interval, events);
        assert forall|i: int| 0 <= i < events.len() implies !(#[trigger] f[i]) by {
            if i > 0 {
                assert(f[i] == forwarded(Some(t0), min_interval, rest)[i - 1]);
            }
        }
    }
}

} // verus!
