//! Moving the head of a graph to a layer, whatever it is.
use crate::error::IoError;
use crate::layer::ReadLayer;
use crate::layer_io::{LayerIo, StoreIo};
use crate::named_graph::ReadNamedGraph;
use crate::prolog::{try_or_die, PrologError, Raised};
use crate::store_access::{Journal, StoreCall};
use std::ops::Deref;
use terminus_store::store::sync::{SyncNamedGraph, SyncStoreLayer};
use vstd::prelude::*;

verus! {

/// It is asked for in this module, and nowhere else: what this is can be seen
/// only here.
pub closed spec fn asked_here() -> bool {
    true
}

/// Moves the head of a graph to a layer, whatever it is.
pub trait ForcesHeads: LayerIo {
    /// What may come of it.
    spec fn may_force_set_head(
        graph: &SyncNamedGraph,
        layer: &SyncStoreLayer,
        reply: Result<(), IoError>,
    ) -> bool;

    fn force_set_head(
        journal: &mut Journal,
        graph: &SyncNamedGraph,
        layer: &SyncStoreLayer,
    ) -> (reply: Result<(), IoError>)
        requires
            asked_here(),
        ensures
            Self::may_force_set_head(graph, layer, reply),
            final(journal).calls() == old(journal).calls().push(
                StoreCall::ForceSetHead { graph: *graph, layer: *layer, reply },
            ),
    ;
}

impl<T: StoreIo> ForcesHeads for T {
    open spec fn may_force_set_head(
        graph: &SyncNamedGraph,
        layer: &SyncStoreLayer,
        reply: Result<(), IoError>,
    ) -> bool {
        call_ensures(<T as StoreIo>::force_set_head, (graph, layer), reply)
    }

    fn force_set_head(
        journal: &mut Journal,
        graph: &SyncNamedGraph,
        layer: &SyncStoreLayer,
    ) -> (reply: Result<(), IoError>) {
        let reply = <T as StoreIo>::force_set_head(graph, layer);
        journal.enter(Ghost(StoreCall::ForceSetHead { graph: *graph, layer: *layer, reply }));
        reply
    }
}

/// As `nb_force_set_head`, with a journal.
pub fn force_set_head_in<S: ForcesHeads>(
    journal: &mut Journal,
    graph: &ReadNamedGraph,
    layer: &ReadLayer<S>,
) -> (done: Result<(), PrologError>)
    ensures
        exists|built: Result<SyncStoreLayer, IoError>| #[trigger]
            layer.materialized_reply("this operation"@, built) && match built {
                Ok(l) => exists|reply: Result<(), IoError>| #[trigger]
                    S::may_force_set_head(&graph.graph(), &l, reply) && {
                        &&& final(journal).calls() == old(journal).calls().push(
                            StoreCall::ForceSetHead { graph: graph.graph(), layer: l, reply },
                        )
                        &&& done == crate::prolog::or_die(reply)
                    },
                Err(e) => done == Err::<(), PrologError>(PrologError::Exception(Raised::Io(e)))
                    && final(journal).calls() == old(journal).calls(),
            },
{
    let built = layer.require_materialized_head();
    match built {
        Ok(l) => {
            let reply = S::force_set_head(journal, graph.deref(), &l);
            assert(S::may_force_set_head(&graph.graph(), &l, reply));
            try_or_die(reply)
        },
        Err(e) => Err(PrologError::Exception(Raised::Io(e))),
    }
}

} // verus!
