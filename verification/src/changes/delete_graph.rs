//! Deleting a named graph.
use crate::error::IoError;
use crate::layer_io::{LayerIo, StoreIo};
use crate::named_graph::did_or_fail;
use crate::prolog::PrologError;
use crate::store::ReadStore;
use crate::store_access::{Journal, StoreCall};
use std::ops::Deref;
use terminus_store::store::sync::SyncStore;
use vstd::prelude::*;

verus! {

/// It is asked for in this module, and nowhere else: what this is can be seen
/// only here.
pub closed spec fn asked_here() -> bool {
    true
}

/// Deletes a named graph.
pub trait DeletesGraphs: LayerIo {
    /// What may come of it.
    spec fn may_delete_graph(store: &SyncStore, label: &str, reply: Result<bool, IoError>) -> bool;

    fn delete_graph(journal: &mut Journal, store: &SyncStore, label: &str) -> (reply: Result<bool, IoError>)
        requires
            asked_here(),
        ensures
            Self::may_delete_graph(store, label, reply),
            final(journal).calls() == old(journal).calls().push(
                StoreCall::DeleteGraph { store: *store, label: label@, reply },
            ),
    ;
}

impl<T: StoreIo> DeletesGraphs for T {
    open spec fn may_delete_graph(store: &SyncStore, label: &str, reply: Result<bool, IoError>) -> bool {
        call_ensures(<T as StoreIo>::delete_graph, (store, label), reply)
    }

    fn delete_graph(journal: &mut Journal, store: &SyncStore, label: &str) -> (reply: Result<bool, IoError>) {
        let reply = <T as StoreIo>::delete_graph(store, label);
        journal.enter(Ghost(StoreCall::DeleteGraph { store: *store, label: label@, reply }));
        reply
    }
}

/// As `delete_named_graph`, with a journal.
pub fn delete_named_graph_in<S: DeletesGraphs>(
    journal: &mut Journal,
    store: &ReadStore,
    label: &str,
) -> (done: Result<(), PrologError>)
    ensures
        exists|reply: Result<bool, IoError>| #[trigger]
            S::may_delete_graph(&store.store(), label, reply) && {
                &&& final(journal).calls() == old(journal).calls().push(
                    StoreCall::DeleteGraph { store: store.store(), label: label@, reply },
                )
                &&& done == crate::named_graph::did(reply)
            },
{
    let reply = S::delete_graph(journal, store.deref(), label);
    assert(S::may_delete_graph(&store.store(), label, reply));
    did_or_fail(reply)
}

} // verus!
