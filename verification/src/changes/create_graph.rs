//! Making a named graph.
use crate::error::IoError;
use crate::layer_io::{LayerIo, StoreIo};
use crate::named_graph::ReadNamedGraph;
use crate::prolog::{PrologError, Raised};
use crate::store::ReadStore;
use crate::store_access::{Journal, StoreCall};
use std::ops::Deref;
use terminus_store::store::sync::{SyncNamedGraph, SyncStore};
use vstd::prelude::*;

verus! {

/// It is asked for in this module, and nowhere else: what this is can be seen
/// only here.
pub closed spec fn asked_here() -> bool {
    true
}

/// Makes a named graph.
pub trait CreatesGraphs: LayerIo {
    /// What may come of it.
    spec fn may_create_graph(
        store: &SyncStore,
        label: &str,
        reply: Result<SyncNamedGraph, IoError>,
    ) -> bool;

    fn create_graph(
        journal: &mut Journal,
        store: &SyncStore,
        label: &str,
    ) -> (reply: Result<SyncNamedGraph, IoError>)
        requires
            asked_here(),
        ensures
            Self::may_create_graph(store, label, reply),
            final(journal).calls() == old(journal).calls().push(
                StoreCall::CreateGraph { store: *store, label: label@, reply },
            ),
    ;
}

impl<T: StoreIo> CreatesGraphs for T {
    open spec fn may_create_graph(
        store: &SyncStore,
        label: &str,
        reply: Result<SyncNamedGraph, IoError>,
    ) -> bool {
        call_ensures(<T as StoreIo>::create_graph, (store, label), reply)
    }

    fn create_graph(
        journal: &mut Journal,
        store: &SyncStore,
        label: &str,
    ) -> (reply: Result<SyncNamedGraph, IoError>) {
        let reply = <T as StoreIo>::create_graph(store, label);
        journal.enter(Ghost(StoreCall::CreateGraph { store: *store, label: label@, reply }));
        reply
    }
}

/// As `create_named_graph`, with a journal.
pub fn create_named_graph_in<S: CreatesGraphs>(
    journal: &mut Journal,
    store: &ReadStore,
    label: &str,
) -> (graph: Result<ReadNamedGraph, PrologError>)
    ensures
        exists|reply: Result<SyncNamedGraph, IoError>| #[trigger]
            S::may_create_graph(&store.store(), label, reply) && {
                &&& final(journal).calls() == old(journal).calls().push(
                    StoreCall::CreateGraph { store: store.store(), label: label@, reply },
                )
                &&& match reply {
                    Ok(inner) => graph matches Ok(g) && crate::named_graph::graph_of(*store, inner, g),
                    Err(e) => graph == Err::<ReadNamedGraph, PrologError>(PrologError::Exception(Raised::Io(e))),
                }
            },
{
    let reply = S::create_graph(journal, store.deref(), label);
    assert(S::may_create_graph(&store.store(), label, reply));
    match reply {
        Ok(inner) => Ok(ReadNamedGraph::new(inner, store.deref().clone(), store.reads_lazily())),
        Err(e) => Err(PrologError::Exception(Raised::Io(e))),
    }
}

} // verus!
