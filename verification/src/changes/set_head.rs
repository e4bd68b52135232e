//! Moving the head of a graph to a layer that extends it.
use crate::error::IoError;
use crate::layer::ReadLayer;
use crate::layer_io::{LayerIo, StoreIo};
use crate::named_graph::{did_or_fail, ReadNamedGraph};
use crate::prolog::{PrologError, Raised};
use crate::store_access::{Journal, StoreCall};
use std::ops::Deref;
use terminus_store::store::sync::{SyncNamedGraph, SyncStoreLayer};
use vstd::prelude::*;

verus! {

/// It is asked for in this module, and nowhere else: what this is can be seen
/// only here.
pub closed spec fn asked_here() -> bool {
    true
}

/// Moves the head of a graph to a layer that extends it.
pub trait SetsHeads: LayerIo {
    /// What may come of it.
    spec fn may_set_head(
        graph: &SyncNamedGraph,
        layer: &SyncStoreLayer,
        reply: Result<bool, IoError>,
    ) -> bool;

    fn set_head(
        journal: &mut Journal,
        graph: &SyncNamedGraph,
        layer: &SyncStoreLayer,
    ) -> (reply: Result<bool, IoError>)
        requires
            asked_here(),
        ensures
            Self::may_set_head(graph, layer, reply),
            final(journal).calls() == old(journal).calls().push(
                StoreCall::SetHead { graph: *graph, layer: *layer, reply },
            ),
    ;
}

impl<T: StoreIo> SetsHeads for T {
    open spec fn may_set_head(
        graph: &SyncNamedGraph,
        layer: &SyncStoreLayer,
        reply: Result<bool, IoError>,
    ) -> bool {
        call_ensures(<T as StoreIo>::set_head, (graph, layer), reply)
    }

    fn set_head(
        journal: &mut Journal,
        graph: &SyncNamedGraph,
        layer: &SyncStoreLayer,
    ) -> (reply: Result<bool, IoError>) {
        let reply = <T as StoreIo>::set_head(graph, layer);
        journal.enter(Ghost(StoreCall::SetHead { graph: *graph, layer: *layer, reply }));
        reply
    }
}

/// As `nb_set_head`, with a journal.
pub fn set_head_in<S: SetsHeads>(
    journal: &mut Journal,
    graph: &ReadNamedGraph,
    layer: &ReadLayer<S>,
) -> (done: Result<(), PrologError>)
    ensures
        exists|built: Result<SyncStoreLayer, IoError>| #[trigger]
            layer.materialized_reply("this operation"@, built) && match built {
                Ok(l) => exists|reply: Result<bool, IoError>| #[trigger]
                    S::may_set_head(&graph.graph(), &l, reply) && {
                        &&& final(journal).calls() == old(journal).calls().push(
                            StoreCall::SetHead { graph: graph.graph(), layer: l, reply },
                        )
                        &&& done == crate::named_graph::did(reply)
                    },
                Err(e) => done == Err::<(), PrologError>(PrologError::Exception(Raised::Io(e)))
                    && final(journal).calls() == old(journal).calls(),
            },
{
    let built = layer.require_materialized_head();
    match built {
        Ok(l) => {
            let reply = S::set_head(journal, graph.deref(), &l);
            assert(S::may_set_head(&graph.graph(), &l, reply));
            did_or_fail(reply)
        },
        Err(e) => Err(PrologError::Exception(Raised::Io(e))),
    }
}

} // verus!
