//! Starting compaction.
use crate::layer_io::{LayerIo, StoreIo};
use crate::prolog::{PrologError, Raised};
use crate::store::ReadStore;
use crate::store_access::{Journal, StoreCall};
use std::ops::Deref;
use terminus_store::store::sync::SyncStore;
use vstd::prelude::*;

verus! {

/// It is asked for in this module, and nowhere else: what this is can be seen
/// only here.
pub closed spec fn asked_here() -> bool {
    true
}

/// Starts compaction.
pub trait Compacts: LayerIo {
    /// What may come of it.
    spec fn may_spawn_compaction(
        store: &SyncStore,
        max_depth: usize,
        interval_secs: u64,
        reply: (),
    ) -> bool;

    fn spawn_compaction(
        journal: &mut Journal,
        store: &SyncStore,
        max_depth: usize,
        interval_secs: u64,
    ) -> (reply: ())
        requires
            asked_here(),
        ensures
            Self::may_spawn_compaction(store, max_depth, interval_secs, ()),
            final(journal).calls() == old(journal).calls().push(
                StoreCall::SpawnCompaction { store: *store, max_depth, interval_secs },
            ),
    ;
}

impl<T: StoreIo> Compacts for T {
    open spec fn may_spawn_compaction(
        store: &SyncStore,
        max_depth: usize,
        interval_secs: u64,
        reply: (),
    ) -> bool {
        call_ensures(<T as StoreIo>::spawn_compaction, (store, max_depth, interval_secs), reply)
    }

    fn spawn_compaction(
        journal: &mut Journal,
        store: &SyncStore,
        max_depth: usize,
        interval_secs: u64,
    ) -> (reply: ()) {
        let reply = <T as StoreIo>::spawn_compaction(store, max_depth, interval_secs);
        journal.enter(Ghost(StoreCall::SpawnCompaction { store: *store, max_depth, interval_secs }));
        reply
    }
}

/// As `start_compaction`, with a journal.
pub fn start_compaction_in<S: Compacts>(
    journal: &mut Journal,
    store: &ReadStore,
    max_depth: u64,
    interval_secs: u64,
) -> (started: Result<(), PrologError>)
    ensures
        started is Ok <==> max_depth > 0 && interval_secs > 0,
        started matches Err(e) ==> e == PrologError::Exception(Raised::CompactionParamsNotPositive),
        started is Ok ==> S::may_spawn_compaction(&store.store(), max_depth as usize, interval_secs, ()),
        started is Ok ==> final(journal).calls() == old(journal).calls().push(
            StoreCall::SpawnCompaction { store: store.store(), max_depth: max_depth as usize, interval_secs },
        ),
        started is Err ==> final(journal).calls() == old(journal).calls(),
{
    if max_depth == 0 || interval_secs == 0 {
        return Err(PrologError::Exception(Raised::CompactionParamsNotPositive));
    }
    S::spawn_compaction(journal, store.deref(), max_depth as usize, interval_secs);
    Ok(())
}

} // verus!
