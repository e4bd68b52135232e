//! Stores.
//!
//! A store carries how its layers are to be read: brought into memory, or
//! lazily. The two ways are two views of one store.
use crate::changes::invalidate_layer::{DropsCaches, invalidate_layer_cache_entry_in};
use crate::changes::spawn_compaction::{Compacts, start_compaction_in};
use crate::error::IoError;
use crate::layer::{DisklessLayer, ReadLayer};
use crate::layer_io::LayerIo;
use crate::name::{string_to_name, LayerName};
use crate::named_graph::ReadNamedGraph;
use crate::prolog::{try_or_die, PrologError, Raised};
use crate::sinks::ErrorSinks;
use crate::store_access::{Journal, StoreCall, StoreReads};
use std::ops::Deref;
use terminus_store::store::sync::{SyncStore, SyncStoreLayer, SyncStoreLayerBuilder};
use vstd::prelude::*;

verus! {

/// Journals are opened in this module: what this is can be seen only here.
pub closed spec fn opened_here() -> bool {
    true
}

/// A store, and how its layers are read.
pub struct ReadStore {
    inner: SyncStore,
    /// Whether layers are read lazily instead of being brought into memory.
    pub diskless: bool,
}

impl ReadStore {
    /// The store itself.
    pub closed spec fn store(self) -> SyncStore {
        self.inner
    }

    /// Whether its layers are read lazily.
    pub closed spec fn is_diskless(self) -> bool {
        self.diskless
    }

    /// The store, with its layers brought into memory.
    pub fn materialized(inner: SyncStore) -> (store: ReadStore)
        ensures
            store.store() == inner,
            !store.is_diskless(),
    {
        ReadStore { inner, diskless: false }
    }

    /// The store, with its layers read lazily.
    pub fn diskless(inner: SyncStore) -> (store: ReadStore)
        ensures
            store.store() == inner,
            store.is_diskless(),
    {
        ReadStore { inner, diskless: true }
    }

    /// Whether its layers are read lazily.
    pub fn reads_lazily(&self) -> (lazily: bool)
        ensures
            lazily == self.is_diskless(),
    {
        self.diskless
    }
}

impl Deref for ReadStore {
    type Target = SyncStore;

    fn deref(&self) -> (inner: &SyncStore)
        ensures
            *inner == self.store(),
    {
        &self.inner
    }
}

impl Clone for ReadStore {
    fn clone(&self) -> (copy: ReadStore)
        ensures
            copy == *self,
    {
        ReadStore { inner: self.inner.clone(), diskless: self.diskless }
    }
}

/// A view of a store whose layers are read lazily.
pub fn store_diskless(store: &ReadStore) -> (view: ReadStore)
    ensures
        view.store() == store.store(),
        view.is_diskless(),
{
    ReadStore::diskless(store.deref().clone())
}

/// A view of a store whose layers are brought into memory.
pub fn store_materialized(store: &ReadStore) -> (view: ReadStore)
    ensures
        view.store() == store.store(),
        !view.is_diskless(),
{
    ReadStore::materialized(store.deref().clone())
}

// ---- layers by their id ----

/// What looking a layer up in a store may give. A lazy handle is good for any
/// name, so whether the layer exists is asked first.
pub open spec fn lookup_reply<S: StoreReads>(
    store: ReadStore,
    name: LayerName,
    before: ErrorSinks,
    after: ErrorSinks,
    layer: Result<ReadLayer<S>, PrologError>,
) -> bool {
    if store.is_diskless() {
        exists|reply: Result<bool, IoError>| #[trigger]
            call_ensures(S::layer_exists, (&store.store(), name), reply) && match reply {
                Ok(true) => exists|handle: S| #[trigger]
                    call_ensures(S::lazy_layer, (&store.store(), name), handle) && {
                        &&& layer matches Ok(ReadLayer::Lazy(d))
                        &&& d.handle() == handle
                        &&& d.layer_name() == name@
                        &&& d.sink() == before.issued()
                        &&& after.issued() == before.issued() + 1
                        &&& after.errors() == before.errors()
                    },
                Ok(false) => layer == Err::<ReadLayer<S>, PrologError>(PrologError::Failure) && after == before,
                Err(e) => layer == Err::<ReadLayer<S>, PrologError>(PrologError::Exception(Raised::Io(e))) && after
                    == before,
            }
    } else {
        after == before && exists|reply: Result<Option<SyncStoreLayer>, IoError>| #[trigger]
            call_ensures(S::get_layer_from_id, (&store.store(), name), reply) && layer == (match reply {
                Ok(Some(l)) => Ok(ReadLayer::<S>::Materialized(l)),
                Ok(None) => Err(PrologError::Failure),
                Err(e) => Err(PrologError::Exception(Raised::Io(e))),
            })
    }
}

/// The layer of that name, the way the store reads layers.
pub fn store_layer<S: StoreReads>(store: &ReadStore, name: LayerName, sinks: &mut ErrorSinks) -> (layer: Result<
    ReadLayer<S>,
    PrologError,
>)
    requires
        old(sinks).wf(),
        old(sinks).issued() < u64::MAX,
    ensures
        lookup_reply::<S>(*store, name, *old(sinks), *final(sinks), layer),
        final(sinks).wf(),
{
    if store.diskless {
        let reply = S::layer_exists(store.deref(), name);
        assert(call_ensures(S::layer_exists, (&store.store(), name), reply));
        match reply {
            Ok(true) => {
                let handle = S::lazy_layer(store.deref(), name);
                assert(call_ensures(S::lazy_layer, (&store.store(), name), handle));
                Ok(ReadLayer::Lazy(DisklessLayer::new(handle, name, sinks)))
            },
            Ok(false) => Err(PrologError::Failure),
            Err(e) => Err(PrologError::Exception(Raised::Io(e))),
        }
    } else {
        let reply = S::get_layer_from_id(store.deref(), name);
        assert(call_ensures(S::get_layer_from_id, (&store.store(), name), reply));
        match reply {
            Ok(Some(l)) => Ok(ReadLayer::Materialized(l)),
            Ok(None) => Err(PrologError::Failure),
            Err(e) => Err(PrologError::Exception(Raised::Io(e))),
        }
    }
}

/// The error is the one for a text that is not the text of a layer name.
pub open spec fn bad_name(text: Seq<char>, error: PrologError) -> bool {
    error matches PrologError::Exception(Raised::Io(e)) && crate::name::refused(text, e)
}

/// The layer with an id, the way the store reads layers.
///
/// An id that is not the text of a layer name is an exception; one that the
/// store has no layer for is a failure.
pub fn store_id_layer<S: StoreReads>(store: &ReadStore, id: &str, sinks: &mut ErrorSinks) -> (layer: Result<
    ReadLayer<S>,
    PrologError,
>)
    requires
        crate::name::can_be_cut(id@),
        old(sinks).wf(),
        old(sinks).issued() < u64::MAX,
    ensures
        !crate::name::is_name_text(id@) ==> *final(sinks) == *old(sinks) && (layer matches Err(e) && bad_name(id@, e)),
        crate::name::is_name_text(id@) ==> exists|name: LayerName|
            crate::name::names(id@, name@) && #[trigger] lookup_reply::<S>(
                *store,
                name,
                *old(sinks),
                *final(sinks),
                layer,
            ),
        final(sinks).wf(),
{
    match string_to_name(id) {
        Ok(name) => store_layer(store, name, sinks),
        Err(e) => Err(PrologError::Exception(Raised::Io(e))),
    }
}

// ---- builders ----

/// What a builder can be opened on.
pub enum WriteTarget<'a, S> {
    Store(&'a ReadStore),
    Graph(&'a ReadNamedGraph),
    Layer(&'a ReadLayer<S>),
}

/// What opening a builder may answer: on a store, one for a base layer; on a
/// named graph, one for a child of its head, which must exist; on a layer, one
/// for a child of it.
pub open spec fn builder_reply<'a, S: StoreReads>(
    target: WriteTarget<'a, S>,
    builder: Result<SyncStoreLayerBuilder, PrologError>,
) -> bool {
    match target {
        WriteTarget::Store(store) => exists|reply: Result<SyncStoreLayerBuilder, IoError>| #[trigger]
            call_ensures(S::create_base_layer, (&store.store(),), reply) && builder == crate::prolog::or_die(reply),
        WriteTarget::Graph(graph) => exists|head: Result<Option<SyncStoreLayer>, IoError>| #[trigger]
            call_ensures(S::graph_head, (&graph.graph(),), head) && match head {
                Ok(Some(l)) => exists|reply: Result<SyncStoreLayerBuilder, IoError>| #[trigger]
                    call_ensures(S::stored_open_write, (&l,), reply) && builder == crate::prolog::or_die(reply),
                Ok(None) => builder == Err::<SyncStoreLayerBuilder, PrologError>(
                    PrologError::Exception(Raised::CannotOpenNamedGraphWithoutBaseLayer),
                ),
                Err(e) => builder == Err::<SyncStoreLayerBuilder, PrologError>(
                    PrologError::Exception(Raised::Io(e)),
                ),
            },
        WriteTarget::Layer(layer) => exists|reply: Result<SyncStoreLayerBuilder, IoError>| #[trigger]
            layer.open_write_reply(reply) && builder == crate::prolog::or_die(reply),
    }
}

/// Opens a builder.
pub fn open_write<'a, S: StoreReads>(
    target: WriteTarget<'a, S>,
) -> (builder: Result<SyncStoreLayerBuilder, PrologError>)
    ensures
        builder_reply(target, builder),
{
    match target {
        WriteTarget::Store(store) => {
            let reply = S::create_base_layer(store.deref());
            assert(call_ensures(S::create_base_layer, (&store.store(),), reply));
            try_or_die(reply)
        },
        WriteTarget::Graph(graph) => {
            let head = S::graph_head(graph.deref());
            assert(call_ensures(S::graph_head, (&graph.graph(),), head));
            match head {
                Ok(Some(l)) => {
                    let reply = S::stored_open_write(&l);
                    assert(call_ensures(S::stored_open_write, (&l,), reply));
                    try_or_die(reply)
                },
                Ok(None) => Err(PrologError::Exception(Raised::CannotOpenNamedGraphWithoutBaseLayer)),
                Err(e) => Err(PrologError::Exception(Raised::Io(e))),
            }
        },
        WriteTarget::Layer(layer) => {
            let reply = layer.open_write();
            assert(layer.open_write_reply(reply));
            try_or_die(reply)
        },
    }
}

// ---- maintenance ----

/// Starts the compaction of a store. Both parameters must be positive.
pub fn start_compaction<S: Compacts>(store: &ReadStore, max_depth: u64, interval_secs: u64) -> (started: Result<
    (),
    PrologError,
>)
    ensures
        started is Ok <==> max_depth > 0 && interval_secs > 0,
        started matches Err(e) ==> e == PrologError::Exception(Raised::CompactionParamsNotPositive),
        started is Ok ==> S::may_spawn_compaction(&store.store(), max_depth as usize, interval_secs, ()),
{
    start_compaction_in::<S>(&mut Journal::new(), store, max_depth, interval_secs)
}

/// Drops what is cached of the layer with an id.
pub fn invalidate_layer_cache_entry<S: DropsCaches>(store: &ReadStore, id: &str) -> (done: Result<(), PrologError>)
    requires
        crate::name::can_be_cut(id@),
    ensures
        done is Ok <==> crate::name::is_name_text(id@),
        done matches Err(e) ==> bad_name(id@, e),
        done is Ok ==> exists|name: LayerName|
            crate::name::names(id@, name@) && #[trigger] S::may_invalidate_layer(&store.store(), name, ()),
{
    invalidate_layer_cache_entry_in::<S>(&mut Journal::new(), store, id)
}

// ---- object stores ----

/// A term where a bucket is expected: a variable, an atom, a string, or
/// something else, with what the engine makes of that.
pub enum BucketTerm {
    Unbound,
    Atom(String),
    Text(String),
    Other(PrologError),
}

/// How a conditional write to a bucket tells that nothing has changed.
#[derive(Clone, Copy, Debug, PartialEq, Eq, Structural)]
pub enum ConditionalPut {
    /// By the tag of the object. Labels are swapped this way, and without it
    /// concurrent updates of a head would overwrite one another.
    ETagMatch,
}

/// The bucket behind an object store.
pub enum Bucket {
    /// One within the process.
    Memory,
    /// One in S3. Credentials, region and endpoint come from the environment.
    S3 { name: String, conditional_put: ConditionalPut },
}

/// What an object store is opened with.
pub struct ObjectStoreConfig {
    pub bucket: Bucket,
    pub prefix: String,
    pub cache_size: usize,
}

/// The bucket that a term stands for: what unifies with the atom `memory` is
/// the one within the process, any other text names one in S3.
pub open spec fn bucket_of(term: BucketTerm, bucket: Result<Bucket, PrologError>) -> bool {
    match term {
        BucketTerm::Unbound => bucket == Ok::<Bucket, PrologError>(Bucket::Memory),
        BucketTerm::Atom(text) => if text@ == "memory"@ {
            bucket == Ok::<Bucket, PrologError>(Bucket::Memory)
        } else {
            bucket == Ok::<Bucket, PrologError>(
                Bucket::S3 { name: text, conditional_put: ConditionalPut::ETagMatch },
            )
        },
        BucketTerm::Text(text) => bucket == Ok::<Bucket, PrologError>(
            Bucket::S3 { name: text, conditional_put: ConditionalPut::ETagMatch },
        ),
        BucketTerm::Other(e) => bucket == Err::<Bucket, PrologError>(e),
    }
}

/// The bucket that a term stands for.
pub fn choose_bucket(term: BucketTerm) -> (bucket: Result<Bucket, PrologError>)
    ensures
        bucket_of(term, bucket),
{
    match term {
        BucketTerm::Unbound => Ok(Bucket::Memory),
        BucketTerm::Atom(text) => {
            let memory: String = "memory".to_owned();
            if text == memory {
                Ok(Bucket::Memory)
            } else {
                Ok(Bucket::S3 { name: text, conditional_put: ConditionalPut::ETagMatch })
            }
        },
        BucketTerm::Text(text) => Ok(Bucket::S3 { name: text, conditional_put: ConditionalPut::ETagMatch }),
        BucketTerm::Other(e) => Err(e),
    }
}

/// What an object store is opened with, from the terms for it. The prefix is
/// looked at first, then the size of the cache, then the bucket.
pub fn object_store_config(
    bucket: BucketTerm,
    prefix: Result<String, PrologError>,
    cache_size: Result<u64, PrologError>,
) -> (config: Result<ObjectStoreConfig, PrologError>)
    ensures
        match (prefix, cache_size) {
            (Err(e), _) => config == Err::<ObjectStoreConfig, PrologError>(e),
            (Ok(_), Err(e)) => config == Err::<ObjectStoreConfig, PrologError>(e),
            (Ok(p), Ok(size)) => match config {
                Ok(c) => bucket_of(bucket, Ok(c.bucket)) && c.prefix == p && c.cache_size == size as usize,
                Err(e) => bucket_of(bucket, Err(e)),
            },
        },
{
    match prefix {
        Err(e) => Err(e),
        Ok(prefix) => match cache_size {
            Err(e) => Err(e),
            Ok(size) => match choose_bucket(bucket) {
                Err(e) => Err(e),
                Ok(bucket) => Ok(ObjectStoreConfig { bucket, prefix, cache_size: size as usize }),
            },
        },
    }
}

// ---- laws ----

/// The two views undo one another: they are views of the same store, and going
/// through one to the other ends where it would have ended at once.
pub proof fn the_views_are_inverse(store: ReadStore, lazy: ReadStore, back: ReadStore)
    requires
        call_ensures(store_diskless, (&store,), lazy),
        call_ensures(store_materialized, (&lazy,), back),
    ensures
        lazy.store() == store.store(),
        back.store() == store.store(),
        !store.is_diskless() ==> back == store,
{
}

/// A store hands out lazy layers if it reads lazily, and else layers in
/// memory; never the other kind. A lazy layer has the name that was asked for.
pub proof fn a_store_hands_out_its_kind_of_layer<S: StoreReads>(
    store: ReadStore,
    name: LayerName,
    before: ErrorSinks,
    after: ErrorSinks,
    layer: ReadLayer<S>,
)
    requires
        lookup_reply::<S>(store, name, before, after, Ok(layer)),
    ensures
        layer is Lazy <==> store.is_diskless(),
        layer is Lazy ==> layer.layer_name() == name@,
{
}

/// A store that reads lazily asks whether the layer exists, and hands out a
/// handle only if it does. Any other store hands out what it has. What is not
/// there fails, and an error is raised. No sink that was there changes, and one
/// is handed out only with a lazy layer.
pub proof fn a_layer_is_looked_up_before_it_is_handed_out<S: StoreReads>(
    store: ReadStore,
    name: LayerName,
    sinks: &mut ErrorSinks,
    layer: Result<ReadLayer<S>, PrologError>,
)
    requires
        call_ensures(store_layer::<S>, (&store, name, sinks), layer),
    ensures
        store.is_diskless() ==> exists|reply: Result<bool, IoError>|
            {
                &&& #[trigger] call_ensures(S::layer_exists, (&store.store(), name), reply)
                &&& reply == Ok::<bool, IoError>(true) ==> {
                    &&& layer matches Ok(ReadLayer::Lazy(d))
                    &&& call_ensures(S::lazy_layer, (&store.store(), name), d.handle())
                    &&& d.layer_name() == name@
                    &&& d.sink() == old(sinks).issued()
                    &&& final(sinks).issued() == old(sinks).issued() + 1
                }
                &&& reply == Ok::<bool, IoError>(false) ==> layer == Err::<ReadLayer<S>, PrologError>(
                    PrologError::Failure,
                )
                &&& reply matches Err(e) ==> layer == Err::<ReadLayer<S>, PrologError>(
                    PrologError::Exception(Raised::Io(e)),
                )
            },
        !store.is_diskless() ==> exists|reply: Result<Option<SyncStoreLayer>, IoError>|
            {
                &&& #[trigger] call_ensures(S::get_layer_from_id, (&store.store(), name), reply)
                &&& reply matches Ok(Some(l)) ==> layer == Ok::<ReadLayer<S>, PrologError>(ReadLayer::Materialized(l))
                &&& reply matches Ok(None) ==> layer == Err::<ReadLayer<S>, PrologError>(PrologError::Failure)
                &&& reply matches Err(e) ==> layer == Err::<ReadLayer<S>, PrologError>(
                    PrologError::Exception(Raised::Io(e)),
                )
            },
        layer is Err || !store.is_diskless() ==> final(sinks).issued() == old(sinks).issued(),
        final(sinks).errors() == old(sinks).errors(),
{
}

/// A layer is looked up by the name that its id stands for. An id that stands
/// for no name raises, and nothing is looked up or handed out.
pub proof fn an_id_stands_for_the_name_it_is_the_text_of<S: StoreReads>(
    store: ReadStore,
    id: &str,
    sinks: &mut ErrorSinks,
    layer: Result<ReadLayer<S>, PrologError>,
)
    requires
        call_ensures(store_id_layer::<S>, (&store, id, sinks), layer),
    ensures
        forall|name: LayerName|
            id@ == #[trigger] crate::name::name_text(name@) ==> exists|asked: LayerName|
                asked@ == name@ && #[trigger] lookup_reply::<S>(store, asked, *old(sinks), *final(sinks), layer),
        id@.len() != 40 ==> {
            &&& layer matches Err(PrologError::Exception(Raised::Io(e)))
            &&& e.kind == crate::error::ErrorKind::Other || e.kind == crate::error::ErrorKind::InvalidData
            &&& *final(sinks) == *old(sinks)
        },
        final(sinks).errors() == old(sinks).errors(),
{
    assert forall|name: LayerName| id@ == #[trigger] crate::name::name_text(name@) implies exists|asked: LayerName|
        asked@ == name@ && #[trigger] lookup_reply::<S>(store, asked, *old(sinks), *final(sinks), layer) by {
        crate::name::name_text_reads_back(name@);
        let asked = choose|asked: LayerName|
            crate::name::names(id@, asked@) && #[trigger] lookup_reply::<S>(
                store,
                asked,
                *old(sinks),
                *final(sinks),
                layer,
            );
        assert(asked@ == name@);
    }
}

/// On a store a builder is one for a base layer; on a graph one for a child of
/// its head, and there is none for a graph without a head; on a layer one for a
/// child of it. An error is raised.
pub proof fn a_builder_is_for_its_target<'a, S: StoreReads>(
    target: WriteTarget<'a, S>,
    store: &'a ReadStore,
    graph: &'a ReadNamedGraph,
    layer: &'a ReadLayer<S>,
    builder: Result<SyncStoreLayerBuilder, PrologError>,
)
    requires
        call_ensures(open_write::<S>, (target,), builder),
    ensures
        target == WriteTarget::<'a, S>::Store(store) ==> exists|reply: Result<SyncStoreLayerBuilder, IoError>|
            #[trigger] call_ensures(S::create_base_layer, (&store.store(),), reply) && is_built(reply, builder),
        target == WriteTarget::<'a, S>::Graph(graph) ==> exists|head: Result<Option<SyncStoreLayer>, IoError>|
            {
                &&& #[trigger] call_ensures(S::graph_head, (&graph.graph(),), head)
                &&& head matches Ok(Some(l)) ==> exists|reply: Result<SyncStoreLayerBuilder, IoError>| #[trigger]
                    call_ensures(S::stored_open_write, (&l,), reply) && is_built(reply, builder)
                &&& head matches Ok(None) ==> builder == Err::<SyncStoreLayerBuilder, PrologError>(
                    PrologError::Exception(Raised::CannotOpenNamedGraphWithoutBaseLayer),
                )
                &&& head matches Err(e) ==> builder == Err::<SyncStoreLayerBuilder, PrologError>(
                    PrologError::Exception(Raised::Io(e)),
                )
            },
        target == WriteTarget::<'a, S>::Layer(layer) ==> exists|reply: Result<SyncStoreLayerBuilder, IoError>|
            #[trigger] layer.open_write_reply(reply) && is_built(reply, builder),
{
}

/// The builder is the one that was made, or the error why not is raised.
pub open spec fn is_built(
    reply: Result<SyncStoreLayerBuilder, IoError>,
    builder: Result<SyncStoreLayerBuilder, PrologError>,
) -> bool {
    &&& reply matches Ok(b) ==> builder == Ok::<SyncStoreLayerBuilder, PrologError>(b)
    &&& reply matches Err(e) ==> builder == Err::<SyncStoreLayerBuilder, PrologError>(
        PrologError::Exception(Raised::Io(e)),
    )
}

/// Compaction is started with the parameters that were given, once, if both are
/// positive. If not, nothing is started.
pub proof fn compaction_is_started_as_asked<S: Compacts>(
    journal: &mut Journal,
    store: ReadStore,
    max_depth: u64,
    interval_secs: u64,
    started: Result<(), PrologError>,
    started_at_once: Result<(), PrologError>,
)
    requires
        call_ensures(start_compaction_in::<S>, (journal, &store, max_depth, interval_secs), started),
        call_ensures(start_compaction::<S>, (&store, max_depth, interval_secs), started_at_once),
    ensures
        max_depth >= 1 && interval_secs >= 1 ==> {
            &&& started is Ok
            &&& started_at_once is Ok
            &&& S::may_spawn_compaction(&store.store(), max_depth as usize, interval_secs, ())
            &&& final(journal).calls() == old(journal).calls().push(
                StoreCall::SpawnCompaction { store: store.store(), max_depth: max_depth as usize, interval_secs },
            )
        },
        max_depth == 0 || interval_secs == 0 ==> {
            &&& started == Err::<(), PrologError>(PrologError::Exception(Raised::CompactionParamsNotPositive))
            &&& started_at_once == started
            &&& final(journal).calls() == old(journal).calls()
        },
{
}

/// What is cached is dropped of the layer whose id was given, and of no other.
/// An id that stands for no name raises, and nothing is dropped.
pub proof fn the_cache_of_that_layer_is_dropped<S: DropsCaches>(
    journal: &mut Journal,
    store: ReadStore,
    id: &str,
    name: LayerName,
    done: Result<(), PrologError>,
)
    requires
        call_ensures(invalidate_layer_cache_entry_in::<S>, (journal, &store, id), done),
    ensures
        id@ == crate::name::name_text(name@) ==> {
            &&& done is Ok
            &&& final(journal).calls().len() == old(journal).calls().len() + 1
            &&& final(journal).calls().last() matches StoreCall::InvalidateLayer { store: s, name: n } && s
                == store.store() && n@ == name@
        },
        id@.len() != 40 ==> {
            &&& done matches Err(PrologError::Exception(Raised::Io(_)))
            &&& final(journal).calls() == old(journal).calls()
        },
{
    if id@ == crate::name::name_text(name@) {
        crate::name::name_text_reads_back(name@);
    }
}

/// Done at once, it is the same.
pub proof fn the_cache_of_a_layer_is_dropped<S: DropsCaches>(
    store: ReadStore,
    id: &str,
    name: LayerName,
    done: Result<(), PrologError>,
)
    requires
        call_ensures(invalidate_layer_cache_entry::<S>, (&store, id), done),
    ensures
        id@ == crate::name::name_text(name@) ==> done is Ok && exists|n: LayerName|
            n@ == name@ && #[trigger] S::may_invalidate_layer(&store.store(), n, ()),
        id@.len() != 40 ==> done matches Err(PrologError::Exception(Raised::Io(_))),
{
    if id@ == crate::name::name_text(name@) {
        crate::name::name_text_reads_back(name@);
        let n = choose|n: LayerName|
            crate::name::names(id@, n@) && #[trigger] S::may_invalidate_layer(&store.store(), n, ());
        assert(n@ == name@);
    }
}

/// The atom `memory`, and a variable, which unifies with it, stand for the
/// bucket within the process. Every other text, the string `memory` too, names
/// a bucket in S3, whose labels are swapped by their tags. Anything else ends as
/// the engine says.
pub proof fn only_the_atom_memory_is_within_the_process(
    term: BucketTerm,
    text: String,
    why: PrologError,
    bucket: Result<Bucket, PrologError>,
)
    requires
        call_ensures(choose_bucket, (term,), bucket),
    ensures
        bucket == Ok::<Bucket, PrologError>(Bucket::Memory) <==> term is Unbound || (term matches BucketTerm::Atom(t)
            && t@ == "memory"@),
        term == BucketTerm::Text(text) || (term == BucketTerm::Atom(text) && text@ != "memory"@) ==> {
            &&& bucket matches Ok(Bucket::S3 { name, conditional_put })
            &&& name == text
            &&& conditional_put is ETagMatch
        },
        term == BucketTerm::Other(why) ==> bucket == Err::<Bucket, PrologError>(why),
{
}

/// An object store is opened with the prefix and the size that were given and
/// the bucket that the term stands for. What is wrong with the prefix counts
/// before what is wrong with the size, and that before what is wrong with the
/// bucket.
pub proof fn an_object_store_is_opened_as_asked(
    bucket: BucketTerm,
    prefix: Result<String, PrologError>,
    cache_size: Result<u64, PrologError>,
    config: Result<ObjectStoreConfig, PrologError>,
)
    requires
        call_ensures(object_store_config, (bucket, prefix, cache_size), config),
    ensures
        prefix matches Err(e) ==> config == Err::<ObjectStoreConfig, PrologError>(e),
        prefix is Ok ==> (cache_size matches Err(e) ==> config == Err::<ObjectStoreConfig, PrologError>(e)),
        prefix matches Ok(p) ==> (cache_size matches Ok(size) ==> {
            &&& config is Err <==> bucket is Other
            &&& config matches Ok(c) ==> c.prefix == p && c.cache_size == size as usize
            &&& config matches Ok(c) ==> (c.bucket is Memory <==> bucket is Unbound || (
            bucket matches BucketTerm::Atom(t) && t@ == "memory"@))
            &&& bucket matches BucketTerm::Text(t) ==> (config matches Ok(c)
                && c.bucket matches Bucket::S3 { name, conditional_put: _ } && name == t)
            &&& bucket matches BucketTerm::Atom(t) ==> t@ != "memory"@ ==> (config matches Ok(c)
                && c.bucket matches Bucket::S3 { name, conditional_put: _ } && name == t)
            &&& bucket matches BucketTerm::Other(e) ==> config == Err::<ObjectStoreConfig, PrologError>(e)
        }),
{
}

} // verus!
