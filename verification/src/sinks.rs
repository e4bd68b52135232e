//! Where failed reads leave their errors.
//!
//! A read through an interface that cannot report an error records it instead.
//! Every disk-less layer has a sink for that, shared by all clones of the
//! layer. A sink keeps the first error recorded in it until it is taken.
use crate::error::IoError;
use std::collections::HashMap;
use vstd::prelude::*;

verus! {

broadcast use vstd::std_specs::hash::group_hash_axioms;

/// Which sink.
pub type SinkId = u64;

/// What a sink holds after `error` was recorded in it: the error it held, and
/// `error` only if it held none.
pub open spec fn keep_first(held: Option<IoError>, error: IoError) -> Option<IoError> {
    match held {
        Some(first) => Some(first),
        None => Some(error),
    }
}

/// What a sink holds after a read with that outcome.
pub open spec fn after_read<T>(held: Option<IoError>, outcome: Result<T, IoError>) -> Option<IoError> {
    match outcome {
        Ok(_) => held,
        Err(e) => keep_first(held, e),
    }
}

/// What a sink holds after reads with those outcomes, one after the other.
pub open spec fn after_reads<T>(held: Option<IoError>, outcomes: Seq<Result<T, IoError>>) -> Option<IoError>
    decreases outcomes.len(),
{
    if outcomes.len() == 0 {
        held
    } else {
        after_read(after_reads(held, outcomes.drop_last()), outcomes.last())
    }
}

/// The sinks that have been handed out, with what they hold.
pub struct ErrorSinks {
    next: SinkId,
    first: HashMap<SinkId, IoError>,
}

impl ErrorSinks {
    /// How many sinks have been handed out. Their ids are the numbers below.
    pub closed spec fn issued(self) -> int {
        self.next as int
    }

    /// The sinks that hold an error, with the error.
    pub closed spec fn errors(self) -> Map<SinkId, IoError> {
        self.first@
    }

    /// What one sink holds.
    pub open spec fn held(self, sink: SinkId) -> Option<IoError> {
        if self.errors().contains_key(sink) {
            Some(self.errors()[sink])
        } else {
            None
        }
    }

    /// Only sinks that have been handed out hold anything.
    pub open spec fn wf(self) -> bool {
        forall|sink: SinkId| #[trigger] self.errors().contains_key(sink) ==> sink < self.issued()
    }

    /// The sinks are the same, and all but `sink` hold the same.
    pub open spec fn differs_only_at(self, before: ErrorSinks, sink: SinkId) -> bool {
        &&& self.issued() == before.issued()
        &&& forall|other: SinkId| other != sink ==> #[trigger] self.held(other) == before.held(other)
    }

    /// No sink has been handed out.
    pub fn new() -> (sinks: ErrorSinks)
        ensures
            sinks.wf(),
            sinks.issued() == 0,
            sinks.errors() == Map::<SinkId, IoError>::empty(),
    {
        ErrorSinks { next: 0, first: HashMap::new() }
    }

    /// Hands out a sink that has not been handed out before, and is empty.
    pub fn fresh(&mut self) -> (sink: SinkId)
        requires
            old(self).wf(),
            old(self).issued() < u64::MAX,
        ensures
            final(self).wf(),
            sink == old(self).issued(),
            final(self).issued() == old(self).issued() + 1,
            final(self).errors() == old(self).errors(),
            final(self).held(sink) is None,
    {
        let sink: SinkId = self.next;
        self.next = sink + 1;
        assert(self.errors() == old(self).errors());
        sink
    }

    /// Sets one sink aside for whoever is going to hand it out later, without
    /// these sinks at hand. What comes back has the same sinks behind it and
    /// hands out the one set aside next.
    pub fn set_aside(&mut self) -> (aside: ErrorSinks)
        requires
            old(self).wf(),
            old(self).issued() < u64::MAX,
        ensures
            final(self).wf(),
            final(self).issued() == old(self).issued() + 1,
            final(self).errors() == old(self).errors(),
            aside.wf(),
            aside.issued() == old(self).issued(),
            aside.errors() == Map::<SinkId, IoError>::empty(),
    {
        let sink: SinkId = self.fresh();
        ErrorSinks { next: sink, first: HashMap::new() }
    }

    /// Records an error. A sink that holds one already keeps that one.
    pub fn record(&mut self, sink: SinkId, error: IoError)
        requires
            old(self).wf(),
            sink < old(self).issued(),
        ensures
            final(self).wf(),
            final(self).held(sink) == keep_first(old(self).held(sink), error),
            final(self).differs_only_at(*old(self), sink),
    {
        if !self.first.contains_key(&sink) {
            self.first.insert(sink, error);
        }
    }

    /// Takes what the sink holds. It is empty afterwards.
    pub fn take(&mut self, sink: SinkId) -> (error: Option<IoError>)
        requires
            old(self).wf(),
        ensures
            final(self).wf(),
            error == old(self).held(sink),
            final(self).held(sink) is None,
            final(self).differs_only_at(*old(self), sink),
    {
        self.first.remove(&sink)
    }
}

/// A sink that was empty is empty after a number of reads exactly if every one
/// of them succeeded. If it is not, it holds the error of the first that did
/// not.
pub proof fn the_first_failed_read_is_kept<T>(outcomes: Seq<Result<T, IoError>>)
    ensures
        match after_reads(None, outcomes) {
            None => forall|i: int| 0 <= i < outcomes.len() ==> (#[trigger] outcomes[i]) is Ok,
            Some(e) => exists|i: int|
                0 <= i < outcomes.len() && #[trigger] outcomes[i] == Err::<T, IoError>(e) && forall|j: int|
                    0 <= j < i ==> (#[trigger] outcomes[j]) is Ok,
        },
    decreases outcomes.len(),
{
    if outcomes.len() > 0 {
        let earlier = outcomes.drop_last();
        the_first_failed_read_is_kept(earlier);
        match after_reads(None, earlier) {
            None => {
                assert forall|i: int| 0 <= i < outcomes.len() - 1 implies (#[trigger] outcomes[i]) is Ok by {
                    assert(earlier[i] is Ok);
                }
            },
            Some(e) => {
                let i = choose|i: int|
                    0 <= i < earlier.len() && #[trigger] earlier[i] == Err::<T, IoError>(e) && forall|j: int|
                        0 <= j < i ==> (#[trigger] earlier[j]) is Ok;
                assert(outcomes[i] == Err::<T, IoError>(e));
                assert forall|j: int| 0 <= j < i implies (#[trigger] outcomes[j]) is Ok by {
                    assert(earlier[j] is Ok);
                }
            },
        }
    }
}

/// A sink that was set aside and then handed out counts as handed out, was not
/// handed out before, and is empty.
pub proof fn a_sink_set_aside_is_new_and_empty(
    before: ErrorSinks,
    after: ErrorSinks,
    aside: ErrorSinks,
    sink: SinkId,
)
    requires
        before.wf(),
        after.issued() == before.issued() + 1,
        after.errors() == before.errors(),
        aside.issued() == before.issued(),
        sink == aside.issued(),
    ensures
        sink < after.issued(),
        !(sink < before.issued()),
        after.held(sink) is None,
{
    assert(!before.errors().contains_key(sink));
}

/// An error that is held stays the one held, however many reads follow.
pub proof fn a_held_error_is_not_displaced<T>(error: IoError, outcomes: Seq<Result<T, IoError>>)
    ensures
        after_reads(Some(error), outcomes) == Some(error),
    decreases outcomes.len(),
{
    if outcomes.len() > 0 {
        a_held_error_is_not_displaced(error, outcomes.drop_last());
    }
}

} // verus!
