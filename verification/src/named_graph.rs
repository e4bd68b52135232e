//! Named graphs.
//!
//! A named graph is a label that points at a layer, its head. It carries how
//! the store that it came from reads layers, since heads are how most layers
//! are reached.
use crate::changes::create_graph::{CreatesGraphs, create_named_graph_in};
use crate::changes::delete_graph::{DeletesGraphs, delete_named_graph_in};
use crate::changes::force_set_head::{ForcesHeads, force_set_head_in};
use crate::changes::force_set_head_version::{ForcesHeadVersions, force_set_head_version_in};
use crate::changes::set_head::{SetsHeads, set_head_in};
use crate::error::IoError;
use crate::layer::{DisklessLayer, ReadLayer};
use crate::layer_io::LayerIo;
use crate::name::LayerName;
use crate::prolog::{into_prolog_result, try_or_die, PrologError, Raised};
use crate::sinks::ErrorSinks;
use crate::store::ReadStore;
use crate::store_access::{Journal, StoreCall, StoreReads};
use crate::stored::{layer_name, named_graph_label};
use std::ops::Deref;
use terminus_store::store::sync::{SyncNamedGraph, SyncStore, SyncStoreLayer};
use vstd::prelude::*;
use vstd::string::StringExecFns;

verus! {

/// Journals are opened in this module: what this is can be seen only here.
pub closed spec fn opened_here() -> bool {
    true
}

/// A named graph, the store that it came from, and how layers are read.
pub struct ReadNamedGraph {
    inner: SyncNamedGraph,
    store: SyncStore,
    diskless: bool,
}

impl ReadNamedGraph {
    /// The graph itself.
    pub closed spec fn graph(self) -> SyncNamedGraph {
        self.inner
    }

    /// The store that it came from.
    pub closed spec fn store(self) -> SyncStore {
        self.store
    }

    /// Whether its layers are read lazily.
    pub closed spec fn is_diskless(self) -> bool {
        self.diskless
    }

    pub fn new(inner: SyncNamedGraph, store: SyncStore, diskless: bool) -> (graph: ReadNamedGraph)
        ensures
            graph.graph() == inner,
            graph.store() == store,
            graph.is_diskless() == diskless,
    {
        ReadNamedGraph { inner, store, diskless }
    }

    /// How a head may be presented: as it is, or, where layers are read
    /// lazily, as a lazy layer of its name with a sink of its own.
    pub open spec fn presents<S: StoreReads>(
        self,
        head: SyncStoreLayer,
        before: ErrorSinks,
        after: ErrorSinks,
        layer: ReadLayer<S>,
    ) -> bool {
        if self.is_diskless() {
            exists|name: LayerName, handle: S| #[trigger]
                call_ensures(S::lazy_layer, (&self.store(), name), handle) && {
                    &&& name@ == crate::stored::stored_name(head)
                    &&& layer matches ReadLayer::Lazy(d)
                    &&& d.handle() == handle
                    &&& d.layer_name() == crate::stored::stored_name(head)
                    &&& d.sink() == before.issued()
                    &&& after.issued() == before.issued() + 1
                    &&& after.errors() == before.errors()
                }
        } else {
            layer == ReadLayer::<S>::Materialized(head) && after == before
        }
    }

    /// Presents a head the way the store reads layers. The head was just read
    /// from the label, so that it exists is not asked again.
    pub fn wrap_head<S: StoreReads>(&self, head: SyncStoreLayer, sinks: &mut ErrorSinks) -> (layer: ReadLayer<S>)
        requires
            old(sinks).wf(),
            old(sinks).issued() < u64::MAX,
        ensures
            self.presents(head, *old(sinks), *final(sinks), layer),
            final(sinks).wf(),
            layer.layer_name() == crate::stored::stored_name(head),
    {
        if self.diskless {
            let name = layer_name(&head);
            let handle = S::lazy_layer(&self.store, name);
            assert(call_ensures(S::lazy_layer, (&self.store(), name), handle));
            ReadLayer::Lazy(DisklessLayer::new(handle, name, sinks))
        } else {
            ReadLayer::Materialized(head)
        }
    }
}

impl Deref for ReadNamedGraph {
    type Target = SyncNamedGraph;

    fn deref(&self) -> (inner: &SyncNamedGraph)
        ensures
            *inner == self.graph(),
    {
        &self.inner
    }
}

impl Clone for ReadNamedGraph {
    fn clone(&self) -> (copy: ReadNamedGraph)
        ensures
            copy == *self,
    {
        ReadNamedGraph { inner: self.inner.clone(), store: self.store.clone(), diskless: self.diskless }
    }
}

/// The graph belongs to the store, and its layers are read the way the store
/// reads them.
pub open spec fn graph_of(store: ReadStore, inner: SyncNamedGraph, graph: ReadNamedGraph) -> bool {
    &&& graph.graph() == inner
    &&& graph.store() == store.store()
    &&& graph.is_diskless() == store.is_diskless()
}

/// Makes a named graph in a store.
pub fn create_named_graph<S: CreatesGraphs>(
    store: &ReadStore,
    label: &str,
) -> (graph: Result<ReadNamedGraph, PrologError>)
    ensures
        exists|reply: Result<SyncNamedGraph, IoError>| #[trigger]
            S::may_create_graph(&store.store(), label, reply) && match reply {
                Ok(inner) => graph matches Ok(g) && graph_of(*store, inner, g),
                Err(e) => graph == Err::<ReadNamedGraph, PrologError>(PrologError::Exception(Raised::Io(e))),
            },
{
    create_named_graph_in::<S>(&mut Journal::new(), store, label)
}

/// The named graph of that label in a store. Fails if there is none.
pub fn open_named_graph<S: StoreReads>(
    store: &ReadStore,
    label: &str,
) -> (graph: Result<ReadNamedGraph, PrologError>)
    ensures
        exists|reply: Result<Option<SyncNamedGraph>, IoError>| #[trigger]
            call_ensures(S::open_graph, (&store.store(), label), reply) && match reply {
                Ok(Some(inner)) => graph matches Ok(g) && graph_of(*store, inner, g),
                Ok(None) => graph == Err::<ReadNamedGraph, PrologError>(PrologError::Failure),
                Err(e) => graph == Err::<ReadNamedGraph, PrologError>(PrologError::Exception(Raised::Io(e))),
            },
{
    let reply = S::open_graph(store.deref(), label);
    assert(call_ensures(S::open_graph, (&store.store(), label), reply));
    match reply {
        Ok(Some(inner)) => Ok(ReadNamedGraph::new(inner, store.deref().clone(), store.reads_lazily())),
        Ok(None) => Err(PrologError::Failure),
        Err(e) => Err(PrologError::Exception(Raised::Io(e))),
    }
}

/// What a predicate makes of an operation that says whether it did anything:
/// if it did not, the predicate fails.
pub open spec fn did(reply: Result<bool, IoError>) -> Result<(), PrologError> {
    match reply {
        Ok(true) => Ok(()),
        Ok(false) => Err(PrologError::Failure),
        Err(e) => Err(PrologError::Exception(Raised::Io(e))),
    }
}

/// Turns not having done anything into a failure, and an error into an
/// exception.
pub fn did_or_fail(reply: Result<bool, IoError>) -> (done: Result<(), PrologError>)
    ensures
        done == did(reply),
{
    match reply {
        Ok(done) => into_prolog_result(done),
        Err(e) => Err(PrologError::Exception(Raised::Io(e))),
    }
}

/// Deletes the named graph of that label. Fails if there is none.
pub fn delete_named_graph<S: DeletesGraphs>(store: &ReadStore, label: &str) -> (done: Result<(), PrologError>)
    ensures
        exists|reply: Result<bool, IoError>| #[trigger]
            S::may_delete_graph(&store.store(), label, reply) && done == did(reply),
{
    delete_named_graph_in::<S>(&mut Journal::new(), store, label)
}

/// The head of a named graph. Fails if it points at no layer yet.
pub fn head<S: StoreReads>(
    graph: &ReadNamedGraph,
    sinks: &mut ErrorSinks,
) -> (layer: Result<ReadLayer<S>, PrologError>)
    requires
        old(sinks).wf(),
        old(sinks).issued() < u64::MAX,
    ensures
        exists|reply: Result<Option<SyncStoreLayer>, IoError>| #[trigger]
            call_ensures(S::graph_head, (&graph.graph(),), reply) && match reply {
                Ok(Some(l)) => layer matches Ok(h) && graph.presents(l, *old(sinks), *final(sinks), h),
                Ok(None) => layer == Err::<ReadLayer<S>, PrologError>(PrologError::Failure) && *final(sinks)
                    == *old(sinks),
                Err(e) => layer == Err::<ReadLayer<S>, PrologError>(PrologError::Exception(Raised::Io(e)))
                    && *final(sinks) == *old(sinks),
            },
        final(sinks).wf(),
{
    let reply = S::graph_head(graph.deref());
    assert(call_ensures(S::graph_head, (&graph.graph(),), reply));
    match reply {
        Ok(Some(l)) => Ok(graph.wrap_head(l, sinks)),
        Ok(None) => Err(PrologError::Failure),
        Err(e) => Err(PrologError::Exception(Raised::Io(e))),
    }
}

/// The head of a named graph, if it points at a layer, and its version.
pub fn head_version<S: StoreReads>(graph: &ReadNamedGraph, sinks: &mut ErrorSinks) -> (head: Result<
    (Option<ReadLayer<S>>, u64),
    PrologError,
>)
    requires
        old(sinks).wf(),
        old(sinks).issued() < u64::MAX,
    ensures
        exists|reply: Result<(Option<SyncStoreLayer>, u64), IoError>| #[trigger]
            call_ensures(S::graph_head_version, (&graph.graph(),), reply) && match reply {
                Ok((Some(l), version)) => head matches Ok((Some(h), v)) && v == version && graph.presents(
                    l,
                    *old(sinks),
                    *final(sinks),
                    h,
                ),
                Ok((None, version)) => head == Ok::<(Option<ReadLayer<S>>, u64), PrologError>((None, version))
                    && *final(sinks) == *old(sinks),
                Err(e) => head == Err::<(Option<ReadLayer<S>>, u64), PrologError>(
                    PrologError::Exception(Raised::Io(e)),
                ) && *final(sinks) == *old(sinks),
            },
        final(sinks).wf(),
{
    let reply = S::graph_head_version(graph.deref());
    assert(call_ensures(S::graph_head_version, (&graph.graph(),), reply));
    match reply {
        Ok((Some(l), version)) => Ok((Some(graph.wrap_head(l, sinks)), version)),
        Ok((None, version)) => Ok((None, version)),
        Err(e) => Err(PrologError::Exception(Raised::Io(e))),
    }
}

/// Points a named graph at a layer that extends its head. Fails if it does
/// not.
pub fn nb_set_head<S: SetsHeads>(
    graph: &ReadNamedGraph,
    layer: &ReadLayer<S>,
) -> (done: Result<(), PrologError>)
    ensures
        exists|built: Result<SyncStoreLayer, IoError>| #[trigger]
            layer.materialized_reply("this operation"@, built) && match built {
                Ok(l) => exists|reply: Result<bool, IoError>| #[trigger]
                    S::may_set_head(&graph.graph(), &l, reply) && done == did(reply),
                Err(e) => done == Err::<(), PrologError>(PrologError::Exception(Raised::Io(e))),
            },
{
    set_head_in(&mut Journal::new(), graph, layer)
}

/// Points a named graph at a layer, whatever its head.
pub fn nb_force_set_head<S: ForcesHeads>(
    graph: &ReadNamedGraph,
    layer: &ReadLayer<S>,
) -> (done: Result<(), PrologError>)
    ensures
        exists|built: Result<SyncStoreLayer, IoError>| #[trigger]
            layer.materialized_reply("this operation"@, built) && match built {
                Ok(l) => exists|reply: Result<(), IoError>| #[trigger]
                    S::may_force_set_head(&graph.graph(), &l, reply) && done == crate::prolog::or_die(reply),
                Err(e) => done == Err::<(), PrologError>(PrologError::Exception(Raised::Io(e))),
            },
{
    force_set_head_in(&mut Journal::new(), graph, layer)
}

/// Points a named graph at a layer if it has that version. Fails if it has
/// not.
pub fn nb_force_set_head_version<S: ForcesHeadVersions>(
    graph: &ReadNamedGraph,
    layer: &ReadLayer<S>,
    version: u64,
) -> (done: Result<(), PrologError>)
    ensures
        exists|built: Result<SyncStoreLayer, IoError>| #[trigger]
            layer.materialized_reply("this operation"@, built) && match built {
                Ok(l) => exists|reply: Result<bool, IoError>| #[trigger]
                    S::may_force_set_head_version(&graph.graph(), &l, version, reply) && done == did(reply),
                Err(e) => done == Err::<(), PrologError>(PrologError::Exception(Raised::Io(e))),
            },
{
    force_set_head_version_in(&mut Journal::new(), graph, layer, version)
}

/// How a named graph is written on a stream.
pub fn named_graph_blob_text(graph: &ReadNamedGraph) -> (text: String)
    ensures
        text@ == "<named_graph "@ + crate::stored::graph_label(graph.graph()) + ">"@,
{
    let label = named_graph_label(graph.deref());
    String::from_str("<named_graph ").concat(label.as_str()).concat(">")
}

// ---- laws ----

/// A graph whose store reads lazily presents lazy heads only, and any other
/// graph none. Either way the head keeps its name.
pub proof fn a_head_is_read_as_its_store_reads<S: StoreReads>(
    graph: ReadNamedGraph,
    head: SyncStoreLayer,
    before: ErrorSinks,
    after: ErrorSinks,
    layer: ReadLayer<S>,
)
    requires
        graph.presents(head, before, after, layer),
    ensures
        layer is Lazy <==> graph.is_diskless(),
        layer.layer_name() == crate::stored::stored_name(head),
{
}

/// Whether something was done is a success or a failure, and an error is
/// raised.
pub proof fn what_was_not_done_fails(reply: Result<bool, IoError>, done: Result<(), PrologError>)
    requires
        call_ensures(did_or_fail, (reply,), done),
    ensures
        reply == Ok::<bool, IoError>(true) ==> done == Ok::<(), PrologError>(()),
        reply == Ok::<bool, IoError>(false) ==> done == Err::<(), PrologError>(PrologError::Failure),
        reply matches Err(e) ==> done == Err::<(), PrologError>(PrologError::Exception(Raised::Io(e))),
{
}

proof fn a_call_moves_the_head_it_is_about(
    before: Seq<StoreCall>,
    call: StoreCall,
    graph: SyncNamedGraph,
    start: Option<SyncStoreLayer>,
)
    ensures
        crate::store_access::head_after(before.push(call), graph, start) == (match call {
            StoreCall::SetHead { graph: g, layer, reply } => if g == graph && reply == Ok::<bool, IoError>(true) {
                Some(layer)
            } else {
                crate::store_access::head_after(before, graph, start)
            },
            StoreCall::ForceSetHead { graph: g, layer, reply } => if g == graph && reply is Ok {
                Some(layer)
            } else {
                crate::store_access::head_after(before, graph, start)
            },
            StoreCall::ForceSetHeadVersion { graph: g, layer, version: _, reply } => if g == graph && reply == Ok::<
                bool,
                IoError,
            >(true) {
                Some(layer)
            } else {
                crate::store_access::head_after(before, graph, start)
            },
            _ => crate::store_access::head_after(before, graph, start),
        }),
{
    let after = before.push(call);
    assert(after.drop_last() =~= before);
    assert(after.last() == call);
}

/// Moving a head is all or nothing. If it succeeds, the graph points at the
/// layer, as it was brought into memory; if it fails or raises, every graph
/// points where it did. No other graph is touched either way.
pub proof fn nb_set_head_is_all_or_nothing<S: SetsHeads>(
    journal: &mut Journal,
    graph: ReadNamedGraph,
    layer: ReadLayer<S>,
    done: Result<(), PrologError>,
)
    requires
        call_ensures(set_head_in::<S>, (journal, &graph, &layer), done),
    ensures
        done is Ok ==> exists|l: SyncStoreLayer| #[trigger]
            layer.materialized_reply("this operation"@, Ok(l)) && forall|start: Option<SyncStoreLayer>| #[trigger]
                crate::store_access::head_after(final(journal).calls(), graph.graph(), start) == Some(l),
        forall|g: SyncNamedGraph, start: Option<SyncStoreLayer>|
            done is Err || g != graph.graph() ==> #[trigger] crate::store_access::head_after(
                final(journal).calls(),
                g,
                start,
            ) == crate::store_access::head_after(old(journal).calls(), g, start),
        final(journal).calls().len() <= old(journal).calls().len() + 1,
{
    let before = old(journal).calls();
    let after = final(journal).calls();
    if after != before {
        let call = after.last();
        assert(after == before.push(call));
        assert forall|g: SyncNamedGraph, start: Option<SyncStoreLayer>|
            done is Err || g != graph.graph() implies #[trigger] crate::store_access::head_after(after, g, start)
            == crate::store_access::head_after(before, g, start) by {
            a_call_moves_the_head_it_is_about(before, call, g, start);
        }
        if done is Ok {
            let built = choose|built: Result<SyncStoreLayer, IoError>| #[trigger]
                layer.materialized_reply("this operation"@, built) && built is Ok && exists|
                    reply: Result<bool, IoError>,
                | #[trigger]
                    S::may_set_head(&graph.graph(), &built->Ok_0, reply) && reply == Ok::<bool, IoError>(true)
                        && after == before.push(StoreCall::SetHead { graph: graph.graph(), layer: built->Ok_0, reply });
            let l = built->Ok_0;
            assert(layer.materialized_reply("this operation"@, Ok(l)));
            assert forall|start: Option<SyncStoreLayer>| #[trigger] crate::store_access::head_after(
                after,
                graph.graph(),
                start,
            ) == Some(l) by {
                a_call_moves_the_head_it_is_about(before, call, graph.graph(), start);
            }
        }
    }
}

/// It succeeds exactly if the storage moved the head, fails if the storage
/// declined, and raises what the storage raised. The storage is asked about that
/// graph and that layer.
pub proof fn nb_set_head_does_what_the_storage_does<S: SetsHeads>(
    graph: ReadNamedGraph,
    layer: ReadLayer<S>,
    done: Result<(), PrologError>,
)
    requires
        call_ensures(nb_set_head::<S>, (&graph, &layer), done),
    ensures
        exists|built: Result<SyncStoreLayer, IoError>|
            {
                &&& #[trigger] layer.materialized_reply("this operation"@, built)
                &&& built matches Err(e) ==> done == Err::<(), PrologError>(PrologError::Exception(Raised::Io(e)))
                &&& built matches Ok(l) ==> exists|reply: Result<bool, IoError>|
                    {
                        &&& #[trigger] S::may_set_head(&graph.graph(), &l, reply)
                        &&& done is Ok <==> reply == Ok::<bool, IoError>(true)
                        &&& done == Err::<(), PrologError>(PrologError::Failure)
                            <==> reply == Ok::<bool, IoError>(false)
                        &&& reply matches Err(e)
                            ==> done == Err::<(), PrologError>(PrologError::Exception(Raised::Io(e)))
                    }
            },
{
}

/// So is forcing a head.
pub proof fn nb_force_set_head_is_all_or_nothing<S: ForcesHeads>(
    journal: &mut Journal,
    graph: ReadNamedGraph,
    layer: ReadLayer<S>,
    done: Result<(), PrologError>,
)
    requires
        call_ensures(force_set_head_in::<S>, (journal, &graph, &layer), done),
    ensures
        done is Ok ==> exists|l: SyncStoreLayer| #[trigger]
            layer.materialized_reply("this operation"@, Ok(l)) && forall|start: Option<SyncStoreLayer>| #[trigger]
                crate::store_access::head_after(final(journal).calls(), graph.graph(), start) == Some(l),
        forall|g: SyncNamedGraph, start: Option<SyncStoreLayer>|
            done is Err || g != graph.graph() ==> #[trigger] crate::store_access::head_after(
                final(journal).calls(),
                g,
                start,
            ) == crate::store_access::head_after(old(journal).calls(), g, start),
        final(journal).calls().len() <= old(journal).calls().len() + 1,
{
    let before = old(journal).calls();
    let after = final(journal).calls();
    if after != before {
        let call = after.last();
        assert(after == before.push(call));
        assert forall|g: SyncNamedGraph, start: Option<SyncStoreLayer>|
            done is Err || g != graph.graph() implies #[trigger] crate::store_access::head_after(after, g, start)
            == crate::store_access::head_after(before, g, start) by {
            a_call_moves_the_head_it_is_about(before, call, g, start);
        }
        if done is Ok {
            let built = choose|built: Result<SyncStoreLayer, IoError>| #[trigger]
                layer.materialized_reply("this operation"@, built) && built is Ok && exists|reply: Result<(), IoError>|
                    #[trigger] S::may_force_set_head(&graph.graph(), &built->Ok_0, reply) && reply is Ok && after
                        == before.push(StoreCall::ForceSetHead { graph: graph.graph(), layer: built->Ok_0, reply });
            let l = built->Ok_0;
            assert(layer.materialized_reply("this operation"@, Ok(l)));
            assert forall|start: Option<SyncStoreLayer>| #[trigger] crate::store_access::head_after(
                after,
                graph.graph(),
                start,
            ) == Some(l) by {
                a_call_moves_the_head_it_is_about(before, call, graph.graph(), start);
            }
        }
    }
}

/// Forcing a head succeeds exactly if the storage moved it, and never fails.
pub proof fn nb_force_set_head_does_what_the_storage_does<S: ForcesHeads>(
    graph: ReadNamedGraph,
    layer: ReadLayer<S>,
    done: Result<(), PrologError>,
)
    requires
        call_ensures(nb_force_set_head::<S>, (&graph, &layer), done),
    ensures
        exists|built: Result<SyncStoreLayer, IoError>|
            {
                &&& #[trigger] layer.materialized_reply("this operation"@, built)
                &&& built matches Err(e) ==> done == Err::<(), PrologError>(PrologError::Exception(Raised::Io(e)))
                &&& built matches Ok(l) ==> exists|reply: Result<(), IoError>|
                    {
                        &&& #[trigger] S::may_force_set_head(&graph.graph(), &l, reply)
                        &&& done is Ok <==> reply is Ok
                        &&& done != Err::<(), PrologError>(PrologError::Failure)
                        &&& reply matches Err(e)
                            ==> done == Err::<(), PrologError>(PrologError::Exception(Raised::Io(e)))
                    }
            },
{
}

/// So is forcing the head of a graph that has a version.
pub proof fn nb_force_set_head_version_is_all_or_nothing<S: ForcesHeadVersions>(
    journal: &mut Journal,
    graph: ReadNamedGraph,
    layer: ReadLayer<S>,
    version: u64,
    done: Result<(), PrologError>,
)
    requires
        call_ensures(force_set_head_version_in::<S>, (journal, &graph, &layer, version), done),
    ensures
        done is Ok ==> exists|l: SyncStoreLayer| #[trigger]
            layer.materialized_reply("this operation"@, Ok(l)) && forall|start: Option<SyncStoreLayer>| #[trigger]
                crate::store_access::head_after(final(journal).calls(), graph.graph(), start) == Some(l),
        forall|g: SyncNamedGraph, start: Option<SyncStoreLayer>|
            done is Err || g != graph.graph() ==> #[trigger] crate::store_access::head_after(
                final(journal).calls(),
                g,
                start,
            ) == crate::store_access::head_after(old(journal).calls(), g, start),
        final(journal).calls().len() <= old(journal).calls().len() + 1,
{
    let before = old(journal).calls();
    let after = final(journal).calls();
    if after != before {
        let call = after.last();
        assert(after == before.push(call));
        assert forall|g: SyncNamedGraph, start: Option<SyncStoreLayer>|
            done is Err || g != graph.graph() implies #[trigger] crate::store_access::head_after(after, g, start)
            == crate::store_access::head_after(before, g, start) by {
            a_call_moves_the_head_it_is_about(before, call, g, start);
        }
        if done is Ok {
            let built = choose|built: Result<SyncStoreLayer, IoError>| #[trigger]
                layer.materialized_reply("this operation"@, built) && built is Ok && exists|
                    reply: Result<bool, IoError>,
                | #[trigger]
                    S::may_force_set_head_version(&graph.graph(), &built->Ok_0, version, reply) && reply == Ok::<
                        bool,
                        IoError,
                    >(true) && after == before.push(StoreCall::ForceSetHeadVersion {
                            graph: graph.graph(),
                            layer: built->Ok_0,
                            version,
                            reply,
                        });
            let l = built->Ok_0;
            assert(layer.materialized_reply("this operation"@, Ok(l)));
            assert forall|start: Option<SyncStoreLayer>| #[trigger] crate::store_access::head_after(
                after,
                graph.graph(),
                start,
            ) == Some(l) by {
                a_call_moves_the_head_it_is_about(before, call, graph.graph(), start);
            }
        }
    }
}

/// It succeeds exactly if the storage moved the head of the graph at that
/// version.
pub proof fn nb_force_set_head_version_does_what_the_storage_does<S: ForcesHeadVersions>(
    graph: ReadNamedGraph,
    layer: ReadLayer<S>,
    version: u64,
    done: Result<(), PrologError>,
)
    requires
        call_ensures(nb_force_set_head_version::<S>, (&graph, &layer, version), done),
    ensures
        exists|built: Result<SyncStoreLayer, IoError>|
            {
                &&& #[trigger] layer.materialized_reply("this operation"@, built)
                &&& built matches Err(e) ==> done == Err::<(), PrologError>(PrologError::Exception(Raised::Io(e)))
                &&& built matches Ok(l) ==> exists|reply: Result<bool, IoError>|
                    {
                        &&& #[trigger] S::may_force_set_head_version(&graph.graph(), &l, version, reply)
                        &&& done is Ok <==> reply == Ok::<bool, IoError>(true)
                        &&& done == Err::<(), PrologError>(PrologError::Failure)
                            <==> reply == Ok::<bool, IoError>(false)
                        &&& reply matches Err(e)
                            ==> done == Err::<(), PrologError>(PrologError::Exception(Raised::Io(e)))
                    }
            },
{
}

/// A graph that was made, or found, belongs to the store and reads layers the
/// way the store does. One that could not be made raises; one that is not there
/// fails.
pub proof fn a_graph_belongs_to_its_store<S: CreatesGraphs + StoreReads>(
    store: ReadStore,
    label: &str,
    made: Result<ReadNamedGraph, PrologError>,
    opened: Result<ReadNamedGraph, PrologError>,
)
    requires
        call_ensures(create_named_graph::<S>, (&store, label), made),
        call_ensures(open_named_graph::<S>, (&store, label), opened),
    ensures
        exists|reply: Result<SyncNamedGraph, IoError>|
            {
                &&& #[trigger] S::may_create_graph(&store.store(), label, reply)
                &&& reply matches Ok(inner) ==> {
                    &&& made matches Ok(g)
                    &&& g.graph() == inner
                    &&& g.store() == store.store()
                    &&& g.is_diskless() == store.is_diskless()
                }
                &&& reply matches Err(e) ==> made == Err::<ReadNamedGraph, PrologError>(
                    PrologError::Exception(Raised::Io(e)),
                )
            },
        exists|reply: Result<Option<SyncNamedGraph>, IoError>|
            {
                &&& #[trigger] call_ensures(S::open_graph, (&store.store(), label), reply)
                &&& reply matches Ok(Some(inner)) ==> {
                    &&& opened matches Ok(g)
                    &&& g.graph() == inner
                    &&& g.store() == store.store()
                    &&& g.is_diskless() == store.is_diskless()
                }
                &&& reply matches Ok(None) ==> opened == Err::<ReadNamedGraph, PrologError>(PrologError::Failure)
                &&& reply matches Err(e) ==> opened == Err::<ReadNamedGraph, PrologError>(
                    PrologError::Exception(Raised::Io(e)),
                )
            },
{
}

/// Looking a graph up takes no more than looking.
pub proof fn opening_a_graph_is_a_read<S: StoreReads>(
    store: ReadStore,
    label: &str,
    opened: Result<ReadNamedGraph, PrologError>,
)
    requires
        call_ensures(open_named_graph::<S>, (&store, label), opened),
    ensures
        opened matches Ok(g) ==> g.store() == store.store() && g.is_diskless() == store.is_diskless(),
        opened matches Err(PrologError::Exception(x)) ==> x is Io,
{
}

/// Making a graph is one call, and moves no head.
pub proof fn making_a_graph_moves_no_head<S: CreatesGraphs>(
    journal: &mut Journal,
    store: ReadStore,
    label: &str,
    made: Result<ReadNamedGraph, PrologError>,
    graph: SyncNamedGraph,
    start: Option<SyncStoreLayer>,
)
    requires
        call_ensures(create_named_graph_in::<S>, (journal, &store, label), made),
    ensures
        final(journal).calls().len() == old(journal).calls().len() + 1,
        final(journal).calls().last() matches StoreCall::CreateGraph { store: s, label: l, reply: r } && s
            == store.store() && l == label@ && (r is Ok <==> made is Ok),
        crate::store_access::head_after(final(journal).calls(), graph, start) == crate::store_access::head_after(
            old(journal).calls(),
            graph,
            start,
        ),
{
    let call = final(journal).calls().last();
    assert(final(journal).calls() == old(journal).calls().push(call));
    a_call_moves_the_head_it_is_about(old(journal).calls(), call, graph, start);
}

/// Deleting a graph is one call. It succeeds if there was one to delete, fails
/// if there was none, and raises what the storage raised.
pub proof fn deleting_a_graph_is_one_call<S: DeletesGraphs>(
    journal: &mut Journal,
    store: ReadStore,
    label: &str,
    done: Result<(), PrologError>,
    done_at_once: Result<(), PrologError>,
)
    requires
        call_ensures(delete_named_graph_in::<S>, (journal, &store, label), done),
        call_ensures(delete_named_graph::<S>, (&store, label), done_at_once),
    ensures
        exists|reply: Result<bool, IoError>|
            {
                &&& #[trigger] S::may_delete_graph(&store.store(), label, reply)
                &&& final(journal).calls() == old(journal).calls().push(
                    StoreCall::DeleteGraph { store: store.store(), label: label@, reply },
                )
                &&& done is Ok <==> reply == Ok::<bool, IoError>(true)
                &&& done == Err::<(), PrologError>(PrologError::Failure) <==> reply == Ok::<bool, IoError>(false)
                &&& reply matches Err(e) ==> done == Err::<(), PrologError>(PrologError::Exception(Raised::Io(e)))
            },
        exists|reply: Result<bool, IoError>|
            {
                &&& #[trigger] S::may_delete_graph(&store.store(), label, reply)
                &&& done_at_once is Ok <==> reply == Ok::<bool, IoError>(true)
                &&& done_at_once == Err::<(), PrologError>(PrologError::Failure) <==> reply == Ok::<bool, IoError>(
                    false,
                )
                &&& reply matches Err(e) ==> done_at_once == Err::<(), PrologError>(
                    PrologError::Exception(Raised::Io(e)),
                )
            },
{
}

/// The layer is that head, read the way the graph reads: in memory it is the
/// head itself and no sink is handed out; else it is lazy, has the name of the
/// head and a new sink. No sink that was there changes.
pub open spec fn is_that_head<S: StoreReads>(
    graph: ReadNamedGraph,
    head: SyncStoreLayer,
    before: ErrorSinks,
    after: ErrorSinks,
    layer: ReadLayer<S>,
) -> bool {
    &&& !graph.is_diskless() ==> layer == ReadLayer::<S>::Materialized(head) && after.issued() == before.issued()
    &&& graph.is_diskless() ==> {
        &&& layer matches ReadLayer::Lazy(d)
        &&& d.layer_name() == crate::stored::stored_name(head)
        &&& d.sink() == before.issued()
        &&& after.issued() == before.issued() + 1
        &&& exists|name: LayerName| #[trigger]
            call_ensures(S::lazy_layer, (&graph.store(), name), d.handle()) && name@ == crate::stored::stored_name(head)
    }
    &&& after.errors() == before.errors()
}

/// The head of a graph is what the storage says, a graph without one fails,
/// and an error is raised.
pub proof fn the_head_is_what_the_storage_says<S: StoreReads>(
    graph: ReadNamedGraph,
    sinks: &mut ErrorSinks,
    layer: Result<ReadLayer<S>, PrologError>,
)
    requires
        call_ensures(head::<S>, (&graph, sinks), layer),
    ensures
        exists|reply: Result<Option<SyncStoreLayer>, IoError>|
            {
                &&& #[trigger] call_ensures(S::graph_head, (&graph.graph(),), reply)
                &&& reply matches Ok(Some(l)) ==> (layer matches Ok(h) && is_that_head(
                    graph,
                    l,
                    *old(sinks),
                    *final(sinks),
                    h,
                ))
                &&& reply matches Ok(None) ==> layer == Err::<ReadLayer<S>, PrologError>(PrologError::Failure)
                &&& reply matches Err(e) ==> layer == Err::<ReadLayer<S>, PrologError>(
                    PrologError::Exception(Raised::Io(e)),
                )
            },
        layer is Err ==> *final(sinks) == *old(sinks),
{
}

/// So is the head with its version, but that a graph without a head has a
/// version all the same.
pub proof fn the_head_and_version_are_what_the_storage_says<S: StoreReads>(
    graph: ReadNamedGraph,
    sinks: &mut ErrorSinks,
    answer: Result<(Option<ReadLayer<S>>, u64), PrologError>,
)
    requires
        call_ensures(head_version::<S>, (&graph, sinks), answer),
    ensures
        exists|reply: Result<(Option<SyncStoreLayer>, u64), IoError>|
            {
                &&& #[trigger] call_ensures(S::graph_head_version, (&graph.graph(),), reply)
                &&& reply matches Ok((Some(l), version)) ==> (answer matches Ok((Some(h), v)) && v == version
                    && is_that_head(graph, l, *old(sinks), *final(sinks), h))
                &&& reply matches Ok((None, version)) ==> answer == Ok::<(Option<ReadLayer<S>>, u64), PrologError>(
                    (None, version),
                ) && *final(sinks) == *old(sinks)
                &&& reply matches Err(e) ==> answer == Err::<(Option<ReadLayer<S>>, u64), PrologError>(
                    PrologError::Exception(Raised::Io(e)),
                ) && *final(sinks) == *old(sinks)
            },
{
    let reply = choose|reply: Result<(Option<SyncStoreLayer>, u64), IoError>| #[trigger]
        call_ensures(S::graph_head_version, (&graph.graph(),), reply) && match reply {
            Ok((Some(l), version)) => answer matches Ok((Some(h), v)) && v == version && graph.presents(
                l,
                *old(sinks),
                *final(sinks),
                h,
            ),
            Ok((None, version)) => answer == Ok::<(Option<ReadLayer<S>>, u64), PrologError>((None, version))
                && *final(sinks) == *old(sinks),
            Err(e) => answer == Err::<(Option<ReadLayer<S>>, u64), PrologError>(
                PrologError::Exception(Raised::Io(e)),
            ) && *final(sinks) == *old(sinks),
        };
    assert(call_ensures(S::graph_head_version, (&graph.graph(),), reply));
}

/// A graph is written on a stream with its label.
pub proof fn a_graph_is_written_with_its_label(graph: ReadNamedGraph, text: String)
    requires
        call_ensures(named_graph_blob_text, (&graph,), text),
    ensures
        text@ == "<named_graph "@ + crate::stored::graph_label(graph.graph()) + ">"@,
{
}

} // verus!
