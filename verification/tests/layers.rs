//! The two arms of a layer, over a store in memory.
//!
//! `Handle` plays the lazy arm: it holds no layer, fetches one from the store
//! for every read, and fails where the store has none.

use tdb_succinct::{Datatype, TdbDataType};
use terminus_store::storage::{pack_layer_parents, PackError};
use terminus_store::store::sync::{
    open_sync_memory_store, SyncNamedGraph, SyncStore, SyncStoreLayer, SyncStoreLayerBuilder,
};
use terminus_store::{Layer, ValueTriple};
use terminusdb_store_prolog::entry::{ObjectType, TypedDictEntry};
use terminusdb_store_prolog::error::{ErrorKind, IoError};
use terminusdb_store_prolog::layer::{materialized_or_not_found, DisklessLayer, ReadLayer};
use terminusdb_store_prolog::layer_io::{LayerIo, StoreIo};
use terminusdb_store_prolog::name::name_to_string;
use terminusdb_store_prolog::named_graph;
use terminusdb_store_prolog::pack;
use terminusdb_store_prolog::pack::PackFailure;
use terminusdb_store_prolog::predicates;
use terminusdb_store_prolog::prolog::{PrologError, Raised};
use terminusdb_store_prolog::sinks::ErrorSinks;
use terminusdb_store_prolog::store;
use terminusdb_store_prolog::store::{ReadStore, WriteTarget};
use terminusdb_store_prolog::transaction;
use terminusdb_store_prolog::triple::IdTriple;
use terminusdb_store_prolog::triple_query;
use terminusdb_store_prolog::triple_query::{TripleCursor, TriplePattern};
use terminusdb_store_prolog::value_query;
use terminusdb_store_prolog::value_query::LiteralTerm;

// ---- the storage ----

#[derive(Clone)]
struct Handle {
    store: SyncStore,
    name: [u32; 5],
    /// The id whose object cannot be read, or 0.
    bad_object: u64,
    /// The id that is counted but has no object, or 0.
    no_object: u64,
}

fn io_error(e: std::io::Error) -> IoError {
    let kind = match e.kind() {
        std::io::ErrorKind::NotFound => ErrorKind::NotFound,
        std::io::ErrorKind::InvalidData => ErrorKind::InvalidData,
        _ => ErrorKind::Other,
    };
    IoError::new(kind, e.to_string())
}

fn outside_entry(entry: &TypedDictEntry) -> tdb_succinct::TypedDictEntry {
    tdb_succinct::TypedDictEntry::new(
        entry.datatype,
        tdb_succinct::SizedDictEntry::Single(entry.bytes.clone().into()),
    )
}

fn ids<I: Iterator<Item = terminus_store::IdTriple>>(triples: I) -> Vec<IdTriple> {
    triples.map(|t| IdTriple::new(t.subject, t.predicate, t.object)).collect()
}

fn object(o: terminus_store::ObjectType) -> ObjectType {
    match o {
        terminus_store::ObjectType::Node(n) => ObjectType::Node(n),
        terminus_store::ObjectType::Value(v) => {
            ObjectType::Value(TypedDictEntry::new(v.datatype(), v.to_bytes().to_vec()))
        }
    }
}

fn range(layer: &SyncStoreLayer, low: &TypedDictEntry, high: &TypedDictEntry) -> Vec<IdTriple> {
    let mut found: Vec<(Vec<u8>, IdTriple)> = Vec::new();
    for t in ids(layer.triples()) {
        if let Some(ObjectType::Value(v)) = layer.id_object(t.object).map(object) {
            if v.datatype == low.datatype && v.bytes >= low.bytes && v.bytes < high.bytes {
                found.push((v.bytes, t));
            }
        }
    }
    found.sort();
    found.into_iter().map(|(_, t)| t).collect()
}

impl Handle {
    fn layer(&self) -> Result<SyncStoreLayer, IoError> {
        match self.store.get_layer_from_id(self.name) {
            Ok(Some(l)) => Ok(l),
            Ok(None) => Err(IoError::new(ErrorKind::NotFound, "no such layer".to_string())),
            Err(e) => Err(io_error(e)),
        }
    }
}

impl LayerIo for Handle {
    fn parent_name(&self) -> Result<Option<[u32; 5]>, IoError> {
        Ok(self.layer()?.parent_name())
    }
    fn node_and_value_count(&self) -> Result<u64, IoError> {
        Ok(self.layer()?.node_and_value_count() as u64)
    }
    fn predicate_count(&self) -> Result<u64, IoError> {
        Ok(self.layer()?.predicate_count() as u64)
    }
    fn parent(&self) -> Result<Option<(Handle, [u32; 5])>, IoError> {
        Ok(self.layer()?.parent_name().map(|name| (Handle { store: self.store.clone(), name, bad_object: 0, no_object: 0 }, name)))
    }
    fn retrieve_layer_stack_names(&self) -> Result<Vec<[u32; 5]>, IoError> {
        self.layer()?.retrieve_layer_stack_names().map_err(io_error)
    }
    fn subject_id(&self, subject: &str) -> Result<Option<u64>, IoError> {
        Ok(self.layer()?.subject_id(subject))
    }
    fn predicate_id(&self, predicate: &str) -> Result<Option<u64>, IoError> {
        Ok(self.layer()?.predicate_id(predicate))
    }
    fn object_node_id(&self, object: &str) -> Result<Option<u64>, IoError> {
        Ok(self.layer()?.object_node_id(object))
    }
    fn object_value_id(&self, object: &TypedDictEntry) -> Result<Option<u64>, IoError> {
        Ok(self.layer()?.object_value_id(&outside_entry(object)))
    }
    fn id_subject(&self, id: u64) -> Result<Option<String>, IoError> {
        Ok(self.layer()?.id_subject(id))
    }
    fn id_predicate(&self, id: u64) -> Result<Option<String>, IoError> {
        Ok(self.layer()?.id_predicate(id))
    }
    fn id_object(&self, id: u64) -> Result<Option<ObjectType>, IoError> {
        if id != 0 && id == self.bad_object {
            return Err(IoError::new(ErrorKind::TimedOut, "no answer".to_string()));
        }
        if id != 0 && id == self.no_object {
            return Ok(None);
        }
        Ok(self.layer()?.id_object(id).map(object))
    }
    fn triple_exists(&self, s: u64, p: u64, o: u64) -> Result<bool, IoError> {
        Ok(self.layer()?.triple_exists(s, p, o))
    }
    fn triples(&self) -> Result<Vec<IdTriple>, IoError> {
        Ok(ids(self.layer()?.triples()))
    }
    fn triples_s(&self, s: u64) -> Result<Vec<IdTriple>, IoError> {
        Ok(ids(self.layer()?.triples_s(s)))
    }
    fn triples_sp(&self, s: u64, p: u64) -> Result<Vec<IdTriple>, IoError> {
        Ok(ids(self.layer()?.triples_sp(s, p)))
    }
    fn triples_p(&self, p: u64) -> Result<Vec<IdTriple>, IoError> {
        Ok(ids(self.layer()?.triples_p(p)))
    }
    fn triples_o(&self, o: u64) -> Result<Vec<IdTriple>, IoError> {
        Ok(ids(self.layer()?.triples_o(o)))
    }
    fn triples_value_range(&self, low: &TypedDictEntry, high: &TypedDictEntry) -> Result<Vec<IdTriple>, IoError> {
        Ok(range(&self.layer()?, low, high))
    }
    fn triples_value_range_rev(&self, low: &TypedDictEntry, high: &TypedDictEntry) -> Result<Vec<IdTriple>, IoError> {
        let mut found = range(&self.layer()?, low, high);
        found.reverse();
        Ok(found)
    }
    fn triple_addition_count(&self) -> Result<usize, IoError> {
        Ok(self.layer()?.triple_addition_count())
    }
    fn triple_removal_count(&self) -> Result<usize, IoError> {
        Ok(self.layer()?.triple_removal_count())
    }
    fn triple_count(&self) -> Result<usize, IoError> {
        Ok(self.layer()?.triple_count())
    }
    fn materialize(&self) -> Result<Option<SyncStoreLayer>, IoError> {
        self.store.get_layer_from_id(self.name).map_err(io_error)
    }
    fn triple_addition_exists(&self, s: u64, p: u64, o: u64) -> Result<bool, IoError> {
        Handle::stored_triple_addition_exists(&self.layer()?, s, p, o)
    }
    fn triple_additions(&self) -> Result<Vec<IdTriple>, IoError> {
        Handle::stored_triple_additions(&self.layer()?)
    }
    fn triple_additions_s(&self, s: u64) -> Result<Vec<IdTriple>, IoError> {
        Handle::stored_triple_additions_s(&self.layer()?, s)
    }
    fn triple_additions_sp(&self, s: u64, p: u64) -> Result<Vec<IdTriple>, IoError> {
        Handle::stored_triple_additions_sp(&self.layer()?, s, p)
    }
    fn triple_additions_p(&self, p: u64) -> Result<Vec<IdTriple>, IoError> {
        Handle::stored_triple_additions_p(&self.layer()?, p)
    }
    fn triple_additions_o(&self, o: u64) -> Result<Vec<IdTriple>, IoError> {
        Handle::stored_triple_additions_o(&self.layer()?, o)
    }
    fn triple_layer_addition_count(&self) -> Result<usize, IoError> {
        Handle::stored_triple_layer_addition_count(&self.layer()?)
    }
    fn triple_removal_exists(&self, s: u64, p: u64, o: u64) -> Result<bool, IoError> {
        Handle::stored_triple_removal_exists(&self.layer()?, s, p, o)
    }
    fn triple_removals(&self) -> Result<Vec<IdTriple>, IoError> {
        Handle::stored_triple_removals(&self.layer()?)
    }
    fn triple_removals_s(&self, s: u64) -> Result<Vec<IdTriple>, IoError> {
        Handle::stored_triple_removals_s(&self.layer()?, s)
    }
    fn triple_removals_sp(&self, s: u64, p: u64) -> Result<Vec<IdTriple>, IoError> {
        Handle::stored_triple_removals_sp(&self.layer()?, s, p)
    }
    fn triple_removals_p(&self, p: u64) -> Result<Vec<IdTriple>, IoError> {
        Handle::stored_triple_removals_p(&self.layer()?, p)
    }
    fn triple_removals_o(&self, o: u64) -> Result<Vec<IdTriple>, IoError> {
        Handle::stored_triple_removals_o(&self.layer()?, o)
    }
    fn triple_layer_removal_count(&self) -> Result<usize, IoError> {
        Handle::stored_triple_layer_removal_count(&self.layer()?)
    }

    fn stored_parent(layer: &SyncStoreLayer) -> Result<Option<SyncStoreLayer>, IoError> {
        layer.parent().map_err(io_error)
    }
    fn stored_layer_stack_names(layer: &SyncStoreLayer) -> Result<Vec<[u32; 5]>, IoError> {
        layer.retrieve_layer_stack_names().map_err(io_error)
    }
    fn stored_triple_addition_exists(l: &SyncStoreLayer, s: u64, p: u64, o: u64) -> Result<bool, IoError> {
        l.triple_addition_exists(s, p, o).map_err(io_error)
    }
    fn stored_triple_additions(l: &SyncStoreLayer) -> Result<Vec<IdTriple>, IoError> {
        l.triple_additions().map(ids).map_err(io_error)
    }
    fn stored_triple_additions_s(l: &SyncStoreLayer, s: u64) -> Result<Vec<IdTriple>, IoError> {
        l.triple_additions_s(s).map(ids).map_err(io_error)
    }
    fn stored_triple_additions_sp(l: &SyncStoreLayer, s: u64, p: u64) -> Result<Vec<IdTriple>, IoError> {
        l.triple_additions_sp(s, p).map(ids).map_err(io_error)
    }
    fn stored_triple_additions_p(l: &SyncStoreLayer, p: u64) -> Result<Vec<IdTriple>, IoError> {
        l.triple_additions_p(p).map(ids).map_err(io_error)
    }
    fn stored_triple_additions_o(l: &SyncStoreLayer, o: u64) -> Result<Vec<IdTriple>, IoError> {
        l.triple_additions_o(o).map(ids).map_err(io_error)
    }
    fn stored_triple_layer_addition_count(l: &SyncStoreLayer) -> Result<usize, IoError> {
        l.triple_layer_addition_count().map_err(io_error)
    }
    fn stored_triple_removal_exists(l: &SyncStoreLayer, s: u64, p: u64, o: u64) -> Result<bool, IoError> {
        l.triple_removal_exists(s, p, o).map_err(io_error)
    }
    fn stored_triple_removals(l: &SyncStoreLayer) -> Result<Vec<IdTriple>, IoError> {
        l.triple_removals().map(ids).map_err(io_error)
    }
    fn stored_triple_removals_s(l: &SyncStoreLayer, s: u64) -> Result<Vec<IdTriple>, IoError> {
        l.triple_removals_s(s).map(ids).map_err(io_error)
    }
    fn stored_triple_removals_sp(l: &SyncStoreLayer, s: u64, p: u64) -> Result<Vec<IdTriple>, IoError> {
        l.triple_removals_sp(s, p).map(ids).map_err(io_error)
    }
    fn stored_triple_removals_p(l: &SyncStoreLayer, p: u64) -> Result<Vec<IdTriple>, IoError> {
        l.triple_removals_p(p).map(ids).map_err(io_error)
    }
    fn stored_triple_removals_o(l: &SyncStoreLayer, o: u64) -> Result<Vec<IdTriple>, IoError> {
        l.triple_removals_o(o).map(ids).map_err(io_error)
    }
    fn stored_triple_layer_removal_count(l: &SyncStoreLayer) -> Result<usize, IoError> {
        l.triple_layer_removal_count().map_err(io_error)
    }
    fn stored_triples_value_range(l: &SyncStoreLayer, low: &TypedDictEntry, high: &TypedDictEntry) -> Vec<IdTriple> {
        range(l, low, high)
    }
    fn stored_triples_value_range_rev(
        l: &SyncStoreLayer,
        low: &TypedDictEntry,
        high: &TypedDictEntry,
    ) -> Vec<IdTriple> {
        let mut found = range(l, low, high);
        found.reverse();
        found
    }
    fn stored_size(_layer: &SyncStoreLayer) -> usize {
        4096
    }
    fn stored_open_write(layer: &SyncStoreLayer) -> Result<SyncStoreLayerBuilder, IoError> {
        layer.open_write().map_err(io_error)
    }
    fn stored_squash(layer: &SyncStoreLayer) -> Result<SyncStoreLayer, IoError> {
        layer.squash().map_err(io_error)
    }
    fn stored_squash_upto(layer: &SyncStoreLayer, upto: &SyncStoreLayer) -> Result<SyncStoreLayer, IoError> {
        layer.squash_upto(upto).map_err(io_error)
    }
    fn stored_rollup(layer: &SyncStoreLayer) -> Result<(), IoError> {
        layer.rollup().map_err(io_error)
    }
    fn stored_rollup_upto(layer: &SyncStoreLayer, upto: &SyncStoreLayer) -> Result<(), IoError> {
        layer.rollup_upto(upto).map_err(io_error)
    }
    fn stored_imprecise_rollup_upto(layer: &SyncStoreLayer, upto: &SyncStoreLayer) -> Result<(), IoError> {
        layer.imprecise_rollup_upto(upto).map_err(io_error)
    }
}

impl StoreIo for Handle {
    fn layer_exists(store: &SyncStore, name: [u32; 5]) -> Result<bool, IoError> {
        store.get_layer_from_id(name).map(|l| l.is_some()).map_err(io_error)
    }
    fn lazy_layer(store: &SyncStore, name: [u32; 5]) -> Handle {
        Handle { store: store.clone(), name, bad_object: 0, no_object: 0 }
    }
    fn get_layer_from_id(store: &SyncStore, name: [u32; 5]) -> Result<Option<SyncStoreLayer>, IoError> {
        store.get_layer_from_id(name).map_err(io_error)
    }
    fn create_base_layer(store: &SyncStore) -> Result<SyncStoreLayerBuilder, IoError> {
        store.create_base_layer().map_err(io_error)
    }
    fn export_layers(store: &SyncStore, names: &Vec<[u32; 5]>) -> Result<Vec<u8>, IoError> {
        store.export_layers(Box::new(names.clone().into_iter())).map_err(io_error)
    }
    fn import_layers(store: &SyncStore, pack: &Vec<u8>, names: &Vec<[u32; 5]>) -> Result<(), IoError> {
        store.import_layers(pack.as_slice(), Box::new(names.clone().into_iter())).map_err(io_error)
    }
    fn pack_layer_parents(pack: &Vec<u8>) -> Result<Vec<([u32; 5], Option<[u32; 5]>)>, PackFailure> {
        match pack_layer_parents(pack.as_slice()) {
            Ok(parents) => Ok(parents.into_iter().collect()),
            Err(PackError::LayerNotFound) => Err(PackFailure::LayerNotFound),
            Err(PackError::Io(e)) => Err(PackFailure::Io(io_error(e))),
            Err(PackError::Utf8Error(e)) => Err(PackFailure::NotText(format!("{:?}", e))),
        }
    }
    fn merge_base_layers(_store: &SyncStore, names: &Vec<[u32; 5]>, temp_dir: &str) -> Result<[u32; 5], IoError> {
        if temp_dir.is_empty() {
            Err(IoError::new(ErrorKind::InvalidInput, "no directory".to_string()))
        } else {
            Ok(names[0])
        }
    }
    fn invalidate_layer(_store: &SyncStore, _name: [u32; 5]) {}
    fn spawn_compaction(_store: &SyncStore, _max_depth: usize, _interval_secs: u64) {}
    fn create_graph(store: &SyncStore, label: &str) -> Result<SyncNamedGraph, IoError> {
        store.create(label).map_err(io_error)
    }
    fn open_graph(store: &SyncStore, label: &str) -> Result<Option<SyncNamedGraph>, IoError> {
        store.open(label).map_err(io_error)
    }
    fn delete_graph(store: &SyncStore, label: &str) -> Result<bool, IoError> {
        store.delete(label).map_err(io_error)
    }
    fn graph_head(graph: &SyncNamedGraph) -> Result<Option<SyncStoreLayer>, IoError> {
        graph.head().map_err(io_error)
    }
    fn graph_head_version(graph: &SyncNamedGraph) -> Result<(Option<SyncStoreLayer>, u64), IoError> {
        graph.head_version().map_err(io_error)
    }
    fn set_head(graph: &SyncNamedGraph, layer: &SyncStoreLayer) -> Result<bool, IoError> {
        graph.set_head(layer).map_err(io_error)
    }
    fn force_set_head(graph: &SyncNamedGraph, layer: &SyncStoreLayer) -> Result<(), IoError> {
        graph.force_set_head(layer).map_err(io_error)
    }
    fn force_set_head_version(graph: &SyncNamedGraph, layer: &SyncStoreLayer, version: u64) -> Result<bool, IoError> {
        graph.force_set_head_version(layer, version).map_err(io_error)
    }
}

// ---- graphs ----

/// A base+child graph in an in-process store, plus the head's name.
fn graph() -> (SyncStore, [u32; 5]) {
    let store = open_sync_memory_store();
    let db = store.create("g").unwrap();

    let builder = store.create_base_layer().unwrap();
    for i in 0..700 {
        builder
            .add_value_triple(ValueTriple::new_string_value(
                &format!("s{:04}", i),
                "p",
                &format!("o{:04}", i),
            ))
            .unwrap();
        builder
            .add_value_triple(ValueTriple::new_node(
                &format!("s{:04}", i),
                "rel",
                &format!("s{:04}", (i + 1) % 700),
            ))
            .unwrap();
    }
    let mut layer = builder.commit().unwrap();
    db.set_head(&layer).unwrap();

    // a child, so the head has a real delta to query
    let builder = layer.open_write().unwrap();
    for i in 700..740 {
        builder
            .add_value_triple(ValueTriple::new_string_value(
                &format!("s{:04}", i),
                "p",
                &format!("o{:04}", i),
            ))
            .unwrap();
    }
    for i in 0..20 {
        builder
            .remove_value_triple(ValueTriple::new_string_value(
                &format!("s{:04}", i),
                "p",
                &format!("o{:04}", i),
            ))
            .unwrap();
    }
    layer = builder.commit().unwrap();
    db.set_head(&layer).unwrap();

    let head = layer.name();
    (store, head)
}

fn lazy(store: &SyncStore, name: [u32; 5], sinks: &mut ErrorSinks) -> ReadLayer<Handle> {
    ReadLayer::Lazy(DisklessLayer::new(Handle { store: store.clone(), name, bad_object: 0, no_object: 0 }, name, sinks))
}

fn arms(sinks: &mut ErrorSinks) -> (ReadLayer<Handle>, ReadLayer<Handle>) {
    let (store, head) = graph();
    (
        ReadLayer::Materialized(store.get_layer_from_id(head).unwrap().unwrap()),
        lazy(&store, head, sinks),
    )
}

fn sorted(mut v: Vec<IdTriple>) -> Vec<IdTriple> {
    v.sort();
    v
}

fn string_entry(text: &str) -> TypedDictEntry {
    let entry = <String as TdbDataType>::make_entry(&text);
    TypedDictEntry::new(entry.datatype(), entry.to_bytes().to_vec())
}

fn literal(text: &str) -> LiteralTerm {
    LiteralTerm::Value(Ok(string_entry(text)))
}

fn drain(cursor: Option<TripleCursor>) -> Vec<IdTriple> {
    let mut cursor = cursor.expect("a query with solutions to hand out");
    let mut out = Vec::new();
    while let Ok((triple, more)) = cursor.next_solution() {
        out.push(triple);
        if !more {
            break;
        }
    }
    assert!(matches!(cursor.next_solution(), Err(PrologError::Failure)));
    out
}

/// A layer in which every read fails.
fn missing(sinks: &mut ErrorSinks) -> ReadLayer<Handle> {
    let (store, _) = graph();
    lazy(&store, [0xdead, 0xbeef, 0, 0, 0], sinks)
}

fn is_not_found<T>(r: &Result<T, PrologError>) -> bool {
    match r {
        Err(PrologError::Exception(Raised::Io(e))) => e.kind() == ErrorKind::NotFound,
        _ => false,
    }
}

// ---- both arms ----

/// The whole read surface must answer identically on both arms. Ids are
/// comparable directly: both arms read the same layers, so they share one id
/// space.
#[test]
fn both_arms_agree_on_the_whole_read_surface() {
    let mut sinks = ErrorSinks::new();
    let (m, l) = arms(&mut sinks);

    assert_eq!(m.name(), l.name());
    assert!(m == l, "same layer, so equal regardless of arm");

    // chain metadata
    assert_eq!(m.try_node_and_value_count().unwrap(), l.try_node_and_value_count().unwrap());
    assert_eq!(m.try_predicate_count().unwrap(), l.try_predicate_count().unwrap());
    assert_eq!(
        m.retrieve_layer_stack_names().unwrap(),
        l.retrieve_layer_stack_names().unwrap()
    );
    assert_eq!(
        m.parent(&mut sinks).unwrap().map(|p| p.name()),
        l.parent(&mut sinks).unwrap().map(|p| p.name())
    );
    assert!(m.parent(&mut sinks).unwrap().is_some(), "test graph must have a chain");

    // forward resolution
    let sid = m.try_subject_id("s0100").unwrap();
    assert!(sid.is_some(), "resolution check must not be vacuous");
    assert_eq!(sid, l.try_subject_id("s0100").unwrap());
    assert_eq!(m.try_predicate_id("p").unwrap(), l.try_predicate_id("p").unwrap());
    assert_eq!(m.try_object_node_id("s0101").unwrap(), l.try_object_node_id("s0101").unwrap());
    assert_eq!(m.try_subject_id("nonexistent").unwrap(), l.try_subject_id("nonexistent").unwrap());
    assert!(m.try_subject_id("nonexistent").unwrap().is_none());

    let entry = string_entry("o0100");
    assert_eq!(m.try_object_value_id(&entry).unwrap(), l.try_object_value_id(&entry).unwrap());

    // reverse resolution
    let sid = sid.unwrap();
    assert_eq!(m.try_id_subject(sid).unwrap(), l.try_id_subject(sid).unwrap());
    assert_eq!(m.try_id_subject(sid).unwrap().as_deref(), Some("s0100"));
    let pid = m.try_predicate_id("p").unwrap().unwrap();
    assert_eq!(m.try_id_predicate(pid).unwrap(), l.try_id_predicate(pid).unwrap());
    let oid = m.try_object_value_id(&entry).unwrap().unwrap();
    assert_eq!(m.try_id_object(oid).unwrap(), l.try_id_object(oid).unwrap());

    // existence, both ways
    assert!(m.try_triple_exists(sid, pid, oid).unwrap());
    assert_eq!(
        m.try_triple_exists(sid, pid, oid).unwrap(),
        l.try_triple_exists(sid, pid, oid).unwrap()
    );
    let absent = m.try_object_value_id(&string_entry("o0101")).unwrap().unwrap();
    assert!(!m.try_triple_exists(sid, pid, absent).unwrap());
    assert_eq!(
        m.try_triple_exists(sid, pid, absent).unwrap(),
        l.try_triple_exists(sid, pid, absent).unwrap()
    );

    // traversal
    assert!(!sorted(m.try_triples_s(sid).unwrap()).is_empty());
    assert_eq!(sorted(m.try_triples_s(sid).unwrap()), sorted(l.try_triples_s(sid).unwrap()));
    assert_eq!(
        sorted(m.try_triples_sp(sid, pid).unwrap()),
        sorted(l.try_triples_sp(sid, pid).unwrap())
    );
    assert_eq!(sorted(m.try_triples_o(oid).unwrap()), sorted(l.try_triples_o(oid).unwrap()));
    assert_eq!(sorted(m.try_triples_p(pid).unwrap()), sorted(l.try_triples_p(pid).unwrap()));
    assert_eq!(sorted(m.try_triples().unwrap()), sorted(l.try_triples().unwrap()));

    // deltas -- the head is a child, so these are non-empty
    let adds = sorted(m.triple_additions().unwrap());
    let rems = sorted(m.triple_removals().unwrap());
    assert!(!adds.is_empty() && !rems.is_empty());
    assert_eq!(adds, sorted(l.triple_additions().unwrap()));
    assert_eq!(rems, sorted(l.triple_removals().unwrap()));

    let a = adds[0];
    assert_eq!(
        m.triple_addition_exists(a.subject, a.predicate, a.object).unwrap(),
        l.triple_addition_exists(a.subject, a.predicate, a.object).unwrap()
    );
    let r = rems[0];
    assert_eq!(
        m.triple_removal_exists(r.subject, r.predicate, r.object).unwrap(),
        l.triple_removal_exists(r.subject, r.predicate, r.object).unwrap()
    );
    assert_eq!(
        sorted(m.triple_additions_s(a.subject).unwrap()),
        sorted(l.triple_additions_s(a.subject).unwrap())
    );
    assert_eq!(
        sorted(m.triple_additions_sp(a.subject, a.predicate).unwrap()),
        sorted(l.triple_additions_sp(a.subject, a.predicate).unwrap())
    );
    assert_eq!(
        sorted(m.triple_additions_p(a.predicate).unwrap()),
        sorted(l.triple_additions_p(a.predicate).unwrap())
    );
    assert_eq!(
        sorted(m.triple_additions_o(a.object).unwrap()),
        sorted(l.triple_additions_o(a.object).unwrap())
    );
    assert_eq!(
        sorted(m.triple_removals_s(r.subject).unwrap()),
        sorted(l.triple_removals_s(r.subject).unwrap())
    );
    assert_eq!(
        sorted(m.triple_removals_sp(r.subject, r.predicate).unwrap()),
        sorted(l.triple_removals_sp(r.subject, r.predicate).unwrap())
    );
    assert_eq!(
        sorted(m.triple_removals_p(r.predicate).unwrap()),
        sorted(l.triple_removals_p(r.predicate).unwrap())
    );
    assert_eq!(
        sorted(m.triple_removals_o(r.object).unwrap()),
        sorted(l.triple_removals_o(r.object).unwrap())
    );
}

/// The reads that cannot report an error must answer the same as the
/// materialized layer.
#[test]
fn layer_trait_reads_agree_on_both_arms() {
    let mut sinks = ErrorSinks::new();
    let (m, l) = arms(&mut sinks);
    let sinks = &mut sinks;

    assert_eq!(m.name(), l.name());
    assert_eq!(m.parent_name(sinks), l.parent_name(sinks));
    assert_eq!(m.node_and_value_count(sinks), l.node_and_value_count(sinks));
    assert_eq!(m.predicate_count(sinks), l.predicate_count(sinks));
    assert_eq!(m.triple_addition_count(sinks), l.triple_addition_count(sinks));
    assert_eq!(m.triple_removal_count(sinks), l.triple_removal_count(sinks));

    let sid = m.subject_id(sinks, "s0100").expect("must resolve");
    assert_eq!(Some(sid), l.subject_id(sinks, "s0100"));
    let pid = m.predicate_id(sinks, "p").expect("must resolve");
    assert_eq!(Some(pid), l.predicate_id(sinks, "p"));
    assert_eq!(m.object_node_id(sinks, "s0101"), l.object_node_id(sinks, "s0101"));
    assert_eq!(m.id_subject(sinks, sid), l.id_subject(sinks, sid));
    assert_eq!(m.id_predicate(sinks, pid), l.id_predicate(sinks, pid));

    let entry = string_entry("o0100");
    let oid = m.object_value_id(sinks, &entry).expect("must resolve");
    assert_eq!(Some(oid), l.object_value_id(sinks, &entry));
    assert_eq!(m.id_object(sinks, oid), l.id_object(sinks, oid));
    assert_eq!(m.id_object_is_node(sinks, oid), l.id_object_is_node(sinks, oid));

    assert!(m.triple_exists(sinks, sid, pid, oid));
    assert_eq!(m.triple_exists(sinks, sid, pid, oid), l.triple_exists(sinks, sid, pid, oid));

    // `single_triple_sp` is the single hottest call in the readers
    assert!(m.single_triple_sp(sinks, sid, pid).is_some());
    assert_eq!(m.single_triple_sp(sinks, sid, pid), l.single_triple_sp(sinks, sid, pid));

    let mt = sorted(m.triples_s(sinks, sid));
    let lt = sorted(l.triples_s(sinks, sid));
    assert!(!mt.is_empty());
    assert_eq!(mt, lt);

    // value ranges
    let lo = string_entry("o0100");
    let hi = string_entry("o0200");
    let mr = sorted(m.triples_value_range(sinks, &lo, &hi));
    let lr = sorted(l.triples_value_range(sinks, &lo, &hi));
    assert!(!mr.is_empty(), "value-range check must not be vacuous");
    assert!(mr.len() < m.triples(sinks).len(), "range must be a strict subset");
    assert_eq!(mr, lr);

    let mr = sorted(m.triples_value_range_rev(sinks, &lo, &hi));
    let lr = sorted(l.triples_value_range_rev(sinks, &lo, &hi));
    assert_eq!(mr, lr);

    assert_eq!(sorted(m.triples_sp(sinks, sid, pid)), sorted(l.triples_sp(sinks, sid, pid)));
    assert_eq!(sorted(m.triples_o(sinks, oid)), sorted(l.triples_o(sinks, oid)));
    assert_eq!(sorted(m.triples_p(sinks, pid)), sorted(l.triples_p(sinks, pid)));
    assert_eq!(sorted(m.triples(sinks)), sorted(l.triples(sinks)));
}

/// A failed read yields an empty result *and* records the error, so a caller
/// that checks cannot mistake the failure for a legitimately empty answer.
#[test]
fn a_failed_disk_less_read_is_recorded_not_silently_empty() {
    let mut sinks = ErrorSinks::new();
    let (store, _) = graph();
    // a well-formed name that was never stored: every read against it fails
    let missing = lazy(&store, [0xdead, 0xbeef, 0, 0, 0], &mut sinks);

    assert!(missing.take_error(&mut sinks).is_none(), "nothing read yet, so nothing recorded");

    // the reads look empty...
    assert_eq!(missing.subject_id(&mut sinks, "s0100"), None);
    assert_eq!(missing.triples_s(&mut sinks, 1).len(), 0);

    // ...but the failure was recorded
    let err = missing
        .take_error(&mut sinks)
        .expect("a failed read must be recorded, not silently empty");
    assert_eq!(err.kind(), ErrorKind::NotFound, "{}", err.message);

    // taking clears it, so the next query starts clean
    assert!(missing.take_error(&mut sinks).is_none());

    // and a materialized layer never records anything
    let (m, _) = arms(&mut sinks);
    assert_eq!(m.subject_id(&mut sinks, "nonexistent"), None);
    assert!(m.take_error(&mut sinks).is_none());
}

/// Chain-cumulative counts must agree on both arms.
#[test]
fn counts_agree_without_materializing() {
    let mut sinks = ErrorSinks::new();
    let (m, l) = arms(&mut sinks);

    assert!(m.try_triple_count().unwrap() > 0, "not vacuous");
    assert_eq!(m.try_triple_count().unwrap(), l.try_triple_count().unwrap());
    assert_eq!(
        m.try_triple_addition_count().unwrap(),
        l.try_triple_addition_count().unwrap()
    );
    assert_eq!(
        m.try_triple_removal_count().unwrap(),
        l.try_triple_removal_count().unwrap()
    );
    assert!(
        m.try_triple_removal_count().unwrap() > 0,
        "the test graph has removals, so this is not vacuous either"
    );
    assert_eq!(
        m.triple_layer_addition_count().unwrap(),
        l.triple_layer_addition_count().unwrap()
    );
    assert_eq!(
        m.triple_layer_removal_count().unwrap(),
        l.triple_layer_removal_count().unwrap()
    );
    // and none of that left an error behind
    assert!(l.take_error(&mut sinks).is_none());
}

/// Writing to a disk-less layer must work, by materializing on demand.
#[test]
fn writes_on_a_disk_less_layer_materialize_rather_than_fail() {
    let mut sinks = ErrorSinks::new();
    let (m, l) = arms(&mut sinks);

    let builder = l.open_write().expect("a disk-less layer must still be writable");
    builder
        .add_value_triple(ValueTriple::new_string_value("s9999", "p", "o9999"))
        .unwrap();
    let child = builder.commit().unwrap();
    assert_eq!(child.parent_name(), Some(l.name()));

    // the write really landed, and is visible from a disk-less read of it
    assert!(m.rollup().is_ok(), "history ops work on the materialized arm");
    assert!(l.squash().is_ok(), "and on the disk-less arm, by materializing");
}

/// The accessors must distinguish the arms rather than silently unwrapping.
#[test]
fn materialized_accessor_distinguishes_the_arms() {
    let mut sinks = ErrorSinks::new();
    let (m, l) = arms(&mut sinks);
    assert!(m.materialized().is_some());
    assert!(l.materialized().is_none());
    assert!(m.into_materialized().is_some());
    assert!(l.into_materialized().is_none());
}

// ---- exact values ----

#[test]
fn counts_of_the_graph() {
    let mut sinks = ErrorSinks::new();
    let (m, l) = arms(&mut sinks);
    assert_eq!(m.try_triple_addition_count().unwrap(), 1440);
    assert_eq!(m.try_triple_removal_count().unwrap(), 20);
    assert_eq!(m.try_triple_count().unwrap(), 1420);
    assert_eq!(m.checked_triple_count().unwrap().unwrap(), 1420);
    assert_eq!(m.triple_layer_addition_count().unwrap(), 40);
    assert_eq!(m.triple_layer_removal_count().unwrap(), 20);
    assert_eq!(m.try_node_and_value_count().unwrap(), 1480);
    assert_eq!(m.try_predicate_count().unwrap(), 2);
    assert_eq!(m.try_triples().unwrap().len(), 1420);

    assert_eq!(predicates::node_and_value_count(&m).unwrap(), 1480);
    assert_eq!(predicates::predicate_count(&l).unwrap(), 2);
    assert_eq!(predicates::layer_addition_count(&l).unwrap(), 40);
    assert_eq!(predicates::layer_removal_count(&m).unwrap(), 20);
    assert_eq!(predicates::layer_total_addition_count(&m).unwrap(), 1440);
    assert_eq!(predicates::layer_total_removal_count(&l).unwrap(), 20);
    assert_eq!(predicates::layer_total_triple_count(&m).unwrap().unwrap(), 1420);
    assert_eq!(predicates::layer_total_triple_count(&l).unwrap().unwrap(), 1420);
    assert_eq!(predicates::layer_stored_size(&m).unwrap(), 4096);
    assert_eq!(predicates::layer_stored_size(&l).unwrap(), 0);
    assert_eq!(l.stored_size(), 0);
    assert_eq!(m.stored_size(), 4096);
}

#[test]
fn all_counts_tells_values_from_nodes_on_both_arms() {
    let mut sinks = ErrorSinks::new();
    let (m, l) = arms(&mut sinks);
    for layer in [&m, &l] {
        let counts = layer.all_counts(&mut sinks);
        assert_eq!(counts.node_count, 740);
        assert_eq!(counts.value_count, 740);
        assert_eq!(counts.predicate_count, 2);
        assert_eq!(counts.node_count + counts.value_count, layer.node_and_value_count(&mut sinks));
        assert_eq!(counts.predicate_count, layer.predicate_count(&mut sinks));
    }
    assert!(l.take_error(&mut sinks).is_none());
}

#[test]
fn counting_stops_at_the_first_object_that_cannot_be_read() {
    let mut sinks = ErrorSinks::new();
    let (store, name) = graph();
    let handle = Handle { store: store.clone(), name, bad_object: 1200, no_object: 0 };
    let layer = ReadLayer::Lazy(DisklessLayer::new(handle, name, &mut sinks));
    let replies = layer.try_all_counts();
    assert_eq!(replies.objects.as_ref().unwrap_err().kind(), ErrorKind::TimedOut);
    assert_eq!(*replies.predicates.as_ref().unwrap(), 2);
    assert!(layer.take_error(&mut sinks).is_none());

    let counts = layer.settle_counts(&mut sinks, replies);
    assert_eq!((counts.node_count, counts.predicate_count, counts.value_count), (0, 2, 0));
    assert_eq!(layer.take_error(&mut sinks).unwrap().kind(), ErrorKind::TimedOut);

    let counts = layer.all_counts(&mut sinks);
    assert_eq!((counts.node_count, counts.predicate_count, counts.value_count), (0, 2, 0));
    assert_eq!(layer.take_error(&mut sinks).unwrap().message, "no answer");

    // neither the count nor the predicates can be read: the first error stays
    let layer = missing(&mut sinks);
    let counts = layer.all_counts(&mut sinks);
    assert_eq!((counts.node_count, counts.predicate_count, counts.value_count), (0, 0, 0));
    assert_eq!(layer.take_error(&mut sinks).unwrap().kind(), ErrorKind::NotFound);
}

#[test]
fn the_counts_add_up_whatever_the_objects_are() {
    let mut sinks = ErrorSinks::new();
    let (m, _) = arms(&mut sinks);
    let (store, name) = graph();
    let value = m.try_object_value_id(&string_entry("o0100")).unwrap().unwrap();
    let handle = Handle { store: store.clone(), name, bad_object: 0, no_object: value };
    let layer = ReadLayer::Lazy(DisklessLayer::new(handle, name, &mut sinks));
    let counts = layer.all_counts(&mut sinks);
    assert_eq!((counts.node_count, counts.predicate_count, counts.value_count), (741, 2, 739));
    assert_eq!(counts.node_count + counts.value_count, layer.node_and_value_count(&mut sinks));
    assert_eq!(layer.id_object_is_node(&mut sinks, value), None);
    assert_eq!(layer.id_object(&mut sinks, value), None);
    assert!(layer.take_error(&mut sinks).is_none());
}

#[test]
fn a_read_is_settled_after_it_was_made() {
    let mut sinks = ErrorSinks::new();
    let (m, l) = arms(&mut sinks);
    let failed = || Err(IoError::new(ErrorKind::StorageFull, "full".to_string()));
    assert_eq!(l.settle(&mut sinks, Ok(7), 0), 7);
    assert!(l.take_error(&mut sinks).is_none());
    assert_eq!(l.settle(&mut sinks, failed(), 3), 3);
    assert_eq!(l.take_error(&mut sinks).unwrap().kind(), ErrorKind::StorageFull);
    // a layer in memory has no sink
    assert_eq!(m.settle(&mut sinks, failed(), 3), 3);
    assert!(m.take_error(&mut sinks).is_none());
}

#[test]
fn one_triple_stands_for_those_of_a_subject_and_a_predicate() {
    let mut sinks = ErrorSinks::new();
    let (m, l) = arms(&mut sinks);
    let triples = m.try_triples().unwrap();
    for t in triples.iter().step_by(97) {
        let listed = m.try_triples_sp(t.subject, t.predicate).unwrap();
        for layer in [&m, &l] {
            let single = layer.single_triple_sp(&mut sinks, t.subject, t.predicate).unwrap();
            assert!(listed.contains(&single));
        }
    }
    // removed in the head, and never there
    let gone = m.triple_removals().unwrap()[0];
    for (s, p) in [(gone.subject, gone.predicate), (0, 0), (1, 1_000_000)] {
        let listed = m.try_triples_sp(s, p).unwrap();
        for layer in [&m, &l] {
            match layer.single_triple_sp(&mut sinks, s, p) {
                Some(single) => assert!(listed.contains(&single)),
                None => assert!(listed.is_empty()),
            }
        }
    }
    assert!(l.take_error(&mut sinks).is_none());
}

#[test]
fn the_triples_of_a_predicate_have_it() {
    let mut sinks = ErrorSinks::new();
    let (m, _) = arms(&mut sinks);
    for predicate in [1, 2] {
        let triples = m.try_triples_p(predicate).unwrap();
        assert!(!triples.is_empty());
        assert!(triples.iter().all(|t| t.predicate == predicate));
    }
    let both: usize = [1, 2].iter().map(|p| m.try_triples_p(*p).unwrap().len()).sum();
    assert_eq!(both, m.try_triples().unwrap().len());
}

#[test]
fn an_object_is_a_node_or_a_value() {
    let mut sinks = ErrorSinks::new();
    let (m, l) = arms(&mut sinks);
    let node = m.try_object_node_id("s0101").unwrap().unwrap();
    let value = m.try_object_value_id(&string_entry("o0100")).unwrap().unwrap();
    for layer in [&m, &l] {
        assert_eq!(layer.id_object_is_node(&mut sinks, node), Some(true));
        assert_eq!(layer.id_object_is_node(&mut sinks, value), Some(false));
        assert_eq!(layer.id_object_is_node(&mut sinks, 1_000_000), None);
        assert_eq!(layer.id_object_is_node(&mut sinks, 0), None);
        assert_eq!(layer.try_id_object(node).unwrap(), Some(ObjectType::Node("s0101".to_string())));
        assert_eq!(
            layer.try_id_object(value).unwrap(),
            Some(ObjectType::Value(TypedDictEntry::new(Datatype::String, b"o0100".to_vec())))
        );
    }
}

// ---- lookups ----

#[test]
fn names_and_ids_resolve_or_fail() {
    let mut sinks = ErrorSinks::new();
    let (m, l) = arms(&mut sinks);
    for layer in [&m, &l] {
        let s = predicates::subject_to_id(layer, "s0100").unwrap();
        assert_eq!(predicates::id_to_subject(layer, s).unwrap(), "s0100");
        let p = predicates::predicate_to_id(layer, "rel").unwrap();
        assert_eq!(predicates::id_to_predicate(layer, p).unwrap(), "rel");
        let n = predicates::object_to_id(layer, predicates::ObjectTerm::Node(Ok("s0100"))).unwrap();
        assert_eq!(predicates::id_to_object(layer, n).unwrap(), ObjectType::Node("s0100".to_string()));
        let entry = string_entry("o0100");
        let v = predicates::object_to_id(layer, predicates::ObjectTerm::Value(Ok(&entry))).unwrap();
        assert_eq!(predicates::id_to_object(layer, v).unwrap(), ObjectType::Value(string_entry("o0100")));
        assert_eq!(
            predicates::object_to_id(layer, predicates::ObjectTerm::Lang(Ok(&entry))).unwrap(),
            v
        );

        assert!(matches!(predicates::subject_to_id(layer, "nobody"), Err(PrologError::Failure)));
        assert!(matches!(predicates::predicate_to_id(layer, "nothing"), Err(PrologError::Failure)));
        assert!(matches!(predicates::id_to_subject(layer, 0), Err(PrologError::Failure)));
        assert!(matches!(predicates::id_to_predicate(layer, 99), Err(PrologError::Failure)));
        assert!(matches!(predicates::id_to_object(layer, 1_000_000), Err(PrologError::Failure)));
        assert!(matches!(
            predicates::object_to_id(layer, predicates::ObjectTerm::Other),
            Err(PrologError::Exception(Raised::NotAnObject))
        ));
        assert!(matches!(
            predicates::object_to_id(
                layer,
                predicates::ObjectTerm::Value(Err(PrologError::Exception(Raised::Engine)))
            ),
            Err(PrologError::Exception(Raised::Engine))
        ));
    }
}

/// A failed read is an exception on every predicate, never a failure.
#[test]
fn a_failed_read_raises() {
    let mut sinks = ErrorSinks::new();
    let layer = missing(&mut sinks);
    let everything = TriplePattern::new(None, None, None);
    let bound = TriplePattern::new(Some(1), Some(1), Some(1));
    assert!(is_not_found(&predicates::node_and_value_count(&layer)));
    assert!(is_not_found(&predicates::predicate_count(&layer)));
    assert!(is_not_found(&predicates::subject_to_id(&layer, "s0100")));
    assert!(is_not_found(&predicates::id_to_subject(&layer, 1)));
    assert!(is_not_found(&predicates::predicate_to_id(&layer, "p")));
    assert!(is_not_found(&predicates::id_to_predicate(&layer, 1)));
    assert!(is_not_found(&predicates::object_to_id(&layer, predicates::ObjectTerm::Node(Ok("s0100")))));
    assert!(is_not_found(&predicates::id_to_object(&layer, 1)));
    assert!(is_not_found(&predicates::parent(&layer, &mut sinks)));
    assert!(is_not_found(&predicates::retrieve_layer_stack_names(&layer)));
    assert!(is_not_found(&predicates::layer_addition_count(&layer)));
    assert!(is_not_found(&predicates::layer_total_triple_count(&layer).unwrap()));
    assert!(is_not_found(&triple_query::id_triple(&layer, &everything)));
    assert!(is_not_found(&triple_query::id_triple(&layer, &bound)));
    assert!(is_not_found(&triple_query::id_triple_addition(&layer, &everything)));
    assert!(is_not_found(&triple_query::id_triple_removal(&layer, &bound)));
    assert!(is_not_found(&triple_query::sp_card(&layer, 1, 1)));
    assert!(is_not_found(&triple_query::op_card(&layer, 1, 1)));
    assert!(is_not_found(&value_query::id_triple_value_range(&layer, literal("a"), literal("b"))));
    assert!(is_not_found(&value_query::id_triple_sp_value_next(&layer, 1, 1, literal("a"))));
    // the size is not read, and nothing was recorded
    assert_eq!(predicates::layer_stored_size(&layer).unwrap(), 0);
    assert!(layer.take_error(&mut sinks).is_none());
}

// ---- queries ----

#[test]
fn every_binding_is_answered_alike_on_both_arms() {
    let mut sinks = ErrorSinks::new();
    let (m, l) = arms(&mut sinks);
    let all = m.try_triples().unwrap();
    let s = m.try_subject_id("s0100").unwrap().unwrap();
    let p = m.try_predicate_id("p").unwrap().unwrap();
    let o = m.try_object_value_id(&string_entry("o0100")).unwrap().unwrap();
    for mask in 0..8 {
        let pattern = TriplePattern::new(
            if mask & 1 != 0 { Some(s) } else { None },
            if mask & 2 != 0 { Some(p) } else { None },
            if mask & 4 != 0 { Some(o) } else { None },
        );
        let expected: Vec<IdTriple> = all
            .iter()
            .copied()
            .filter(|t| {
                (mask & 1 == 0 || t.subject == s)
                    && (mask & 2 == 0 || t.predicate == p)
                    && (mask & 4 == 0 || t.object == o)
            })
            .collect();
        for layer in [&m, &l] {
            let start = triple_query::id_triple(layer, &pattern).unwrap();
            if mask == 7 {
                assert!(start.is_none());
                assert_eq!(expected.len(), 1);
            } else {
                assert_eq!(sorted(drain(start)), sorted(expected.clone()));
            }
        }
    }
    // bound, but not there
    let absent = TriplePattern::new(Some(o), Some(p), Some(s));
    assert!(matches!(triple_query::id_triple(&m, &absent), Err(PrologError::Failure)));
    // unbound, but without solutions
    let none = TriplePattern::new(Some(o), None, None);
    let mut cursor = triple_query::id_triple(&m, &none).unwrap().unwrap();
    assert!(matches!(cursor.next_solution(), Err(PrologError::Failure)));
}

#[test]
fn additions_and_removals_are_queried_by_themselves() {
    let mut sinks = ErrorSinks::new();
    let (m, l) = arms(&mut sinks);
    let p = m.try_predicate_id("p").unwrap().unwrap();
    let added = m.try_subject_id("s0700").unwrap().unwrap();
    let added_o = m.try_object_value_id(&string_entry("o0700")).unwrap().unwrap();
    let removed = m.try_subject_id("s0000").unwrap().unwrap();
    let removed_o = m.try_object_value_id(&string_entry("o0000")).unwrap().unwrap();
    for layer in [&m, &l] {
        let q = |s, p, o| TriplePattern::new(s, p, o);
        let a = vec![IdTriple::new(added, p, added_o)];
        let r = vec![IdTriple::new(removed, p, removed_o)];
        assert_eq!(drain(triple_query::id_triple_addition(layer, &q(None, None, None)).unwrap()).len(), 40);
        assert_eq!(drain(triple_query::id_triple_removal(layer, &q(None, None, None)).unwrap()).len(), 20);
        assert_eq!(drain(triple_query::id_triple_addition(layer, &q(None, Some(p), None)).unwrap()).len(), 40);
        assert_eq!(drain(triple_query::id_triple_removal(layer, &q(None, Some(p), None)).unwrap()).len(), 20);
        assert_eq!(drain(triple_query::id_triple_addition(layer, &q(Some(added), None, None)).unwrap()), a);
        assert_eq!(drain(triple_query::id_triple_addition(layer, &q(Some(added), Some(p), None)).unwrap()), a);
        assert_eq!(drain(triple_query::id_triple_addition(layer, &q(None, None, Some(added_o))).unwrap()), a);
        assert_eq!(drain(triple_query::id_triple_removal(layer, &q(Some(removed), None, Some(removed_o))).unwrap()), r);
        assert_eq!(drain(triple_query::id_triple_removal(layer, &q(None, Some(p), Some(removed_o))).unwrap()), r);
        assert_eq!(drain(triple_query::id_triple_removal(layer, &q(Some(removed), Some(p), None)).unwrap()), r);
        assert!(triple_query::id_triple_addition(layer, &q(Some(added), Some(p), Some(added_o))).unwrap().is_none());
        assert!(triple_query::id_triple_removal(layer, &q(Some(removed), Some(p), Some(removed_o)))
            .unwrap()
            .is_none());
        assert!(matches!(
            triple_query::id_triple_addition(layer, &q(Some(removed), Some(p), Some(removed_o))),
            Err(PrologError::Failure)
        ));
        // what was removed is no longer current
        assert!(matches!(
            triple_query::id_triple(layer, &q(Some(removed), Some(p), Some(removed_o))),
            Err(PrologError::Failure)
        ));
    }
}

#[test]
fn cardinalities_count_solutions() {
    let mut sinks = ErrorSinks::new();
    let (m, l) = arms(&mut sinks);
    let s = m.try_subject_id("s0100").unwrap().unwrap();
    let rel = m.try_predicate_id("rel").unwrap().unwrap();
    let p = m.try_predicate_id("p").unwrap().unwrap();
    let o = m.try_object_node_id("s0101").unwrap().unwrap();
    for layer in [&m, &l] {
        assert_eq!(triple_query::sp_card(layer, s, rel).unwrap(), 1);
        assert_eq!(triple_query::sp_card(layer, o, p).unwrap(), 1);
        assert_eq!(triple_query::sp_card(layer, 1_000_000, p).unwrap(), 0);
        assert_eq!(triple_query::op_card(layer, o, rel).unwrap(), 1);
        assert_eq!(triple_query::op_card(layer, o, p).unwrap(), 0);
    }
}

// ---- values ----

/// A layer in which one subject has several values under one predicate.
fn values(sinks: &mut ErrorSinks) -> (ReadLayer<Handle>, ReadLayer<Handle>) {
    let store = open_sync_memory_store();
    let builder = store.create_base_layer().unwrap();
    for value in ["m", "a", "zz", "mm", "z"] {
        builder.add_value_triple(ValueTriple::new_string_value("s", "p", value)).unwrap();
    }
    builder.add_value_triple(ValueTriple::new_node("s", "p", "n")).unwrap();
    builder
        .add_value_triple(ValueTriple::new_value("s", "p", <u32 as TdbDataType>::make_entry(&7_u32)))
        .unwrap();
    let layer = builder.commit().unwrap();
    let name = layer.name();
    (ReadLayer::Materialized(layer), lazy(&store, name, sinks))
}

#[test]
fn the_next_value_is_the_least_above() {
    let mut sinks = ErrorSinks::new();
    let (m, l) = values(&mut sinks);
    let s = m.try_subject_id("s").unwrap().unwrap();
    let p = m.try_predicate_id("p").unwrap().unwrap();
    for layer in [&m, &l] {
        let id = |v: &str| layer.try_object_value_id(&string_entry(v)).unwrap().unwrap();
        let next = |v: &str| value_query::id_triple_sp_value_next(layer, s, p, literal(v));
        assert_eq!(next("a").unwrap(), id("m"));
        assert_eq!(next("m").unwrap(), id("mm"));
        assert_eq!(next("mm").unwrap(), id("z"));
        assert_eq!(next("z").unwrap(), id("zz"));
        assert_eq!(next("").unwrap(), id("a"));
        assert_eq!(next("b").unwrap(), id("m"));
        assert!(matches!(next("zz"), Err(PrologError::Failure)));
        assert!(matches!(
            value_query::id_triple_sp_value_next(layer, s, p, LiteralTerm::Other),
            Err(PrologError::Exception(Raised::NotALiteral))
        ));
        // only values of the same datatype count
        let seven = <u32 as TdbDataType>::make_entry(&6_u32);
        let entry = TypedDictEntry::new(seven.datatype(), seven.to_bytes().to_vec());
        let found = value_query::id_triple_sp_value_next(layer, s, p, LiteralTerm::Value(Ok(entry))).unwrap();
        let expected = <u32 as TdbDataType>::make_entry(&7_u32);
        assert_eq!(
            layer.try_id_object(found).unwrap(),
            Some(ObjectType::Value(TypedDictEntry::new(Datatype::UInt32, expected.to_bytes().to_vec())))
        );
    }
}

#[test]
fn the_previous_value_is_the_greatest_below() {
    let mut sinks = ErrorSinks::new();
    let (m, l) = values(&mut sinks);
    let s = m.try_subject_id("s").unwrap().unwrap();
    let p = m.try_predicate_id("p").unwrap().unwrap();
    for layer in [&m, &l] {
        let id = |v: &str| layer.try_object_value_id(&string_entry(v)).unwrap().unwrap();
        let previous = |v: &str| value_query::id_triple_sp_value_previous(layer, s, p, literal(v));
        assert_eq!(previous("zzz").unwrap(), id("zz"));
        assert_eq!(previous("zz").unwrap(), id("z"));
        assert_eq!(previous("z").unwrap(), id("mm"));
        assert_eq!(previous("mm").unwrap(), id("m"));
        assert_eq!(previous("m").unwrap(), id("a"));
        assert!(matches!(previous("a"), Err(PrologError::Failure)));
        assert!(matches!(previous(""), Err(PrologError::Failure)));
    }
}

#[test]
fn a_range_query_hands_its_triples_out_in_order() {
    let mut sinks = ErrorSinks::new();
    let (m, l) = values(&mut sinks);
    for layer in [&m, &l] {
        let id = |v: &str| layer.try_object_value_id(&string_entry(v)).unwrap().unwrap();
        let up = value_query::id_triple_value_range(layer, literal("b"), literal("zz")).unwrap();
        let up: Vec<u64> = drain(Some(up)).into_iter().map(|t| t.object).collect();
        assert_eq!(up, vec![id("m"), id("mm"), id("z")]);
        let down = value_query::id_triple_value_range_rev(layer, literal("b"), literal("zz")).unwrap();
        let down: Vec<u64> = drain(Some(down)).into_iter().map(|t| t.object).collect();
        assert_eq!(down, vec![id("z"), id("mm"), id("m")]);
        // the lower bound is looked at first
        assert!(matches!(
            value_query::id_triple_value_range(
                layer,
                LiteralTerm::Other,
                LiteralTerm::Lang(Err(PrologError::Exception(Raised::Engine)))
            ),
            Err(PrologError::Exception(Raised::NotALiteral))
        ));
        assert!(matches!(
            value_query::id_triple_value_range_rev(
                layer,
                LiteralTerm::Lang(Err(PrologError::Exception(Raised::Engine))),
                LiteralTerm::Other
            ),
            Err(PrologError::Exception(Raised::Engine))
        ));
    }
}

// ---- recorded errors ----

#[test]
fn clones_share_a_sink_and_parents_do_not() {
    let mut sinks = ErrorSinks::new();
    let layer = missing(&mut sinks);
    let copy = layer.clone();
    assert_eq!(copy.predicate_count(&mut sinks), 0);
    assert_eq!(layer.take_error(&mut sinks).unwrap().kind(), ErrorKind::NotFound);
    assert!(copy.take_error(&mut sinks).is_none());

    let (_, l) = arms(&mut sinks);
    let parent = l.parent(&mut sinks).unwrap().unwrap();
    assert!(parent.materialized().is_none());
    assert!(!(parent == l));
    if let ReadLayer::Lazy(d) = &l {
        let value: u64 =
            d.or_record(&mut sinks, Err(IoError::new(ErrorKind::TimedOut, "slow".to_string())), 17);
        assert_eq!(value, 17);
        // only the first error is kept
        d.or_record(&mut sinks, Err(IoError::new(ErrorKind::BrokenPipe, "gone".to_string())), 17);
        assert_eq!(d.or_record(&mut sinks, Ok(3), 17), 3);
    } else {
        panic!("the second arm is lazy");
    }
    assert!(parent.take_error(&mut sinks).is_none());
    assert_eq!(l.take_error(&mut sinks).unwrap().kind(), ErrorKind::TimedOut);
    assert!(l.take_error(&mut sinks).is_none());
}

#[test]
fn a_sink_is_emptied_by_its_id() {
    let mut sinks = ErrorSinks::new();
    let layer = missing(&mut sinks);
    let other = missing(&mut sinks);
    assert_eq!(layer.subject_id(&mut sinks, "s0100"), None);
    assert_eq!(other.subject_id(&mut sinks, "s0100"), None);
    match &layer {
        ReadLayer::Lazy(lazy) => {
            assert_eq!(sinks.take(lazy.sink_id()).unwrap().kind(), ErrorKind::NotFound);
        }
        ReadLayer::Materialized(_) => unreachable!(),
    }
    assert!(layer.take_error(&mut sinks).is_none());
    assert!(other.take_error(&mut sinks).is_some());
}

#[test]
fn a_lookup_can_do_with_a_sink_set_aside() {
    let mut sinks = ErrorSinks::new();
    let (_, l) = arms(&mut sinks);
    let mut aside = sinks.set_aside();
    let parent = l.parent(&mut aside).unwrap().unwrap();
    let other = missing(&mut sinks);
    assert_eq!(parent.settle(&mut sinks, Err(IoError::new(ErrorKind::TimedOut, "slow".to_string())), 0), 0);
    assert!(l.take_error(&mut sinks).is_none());
    assert!(other.take_error(&mut sinks).is_none());
    assert_eq!(parent.take_error(&mut sinks).unwrap().kind(), ErrorKind::TimedOut);
}

#[test]
fn the_reads_of_a_layer_that_is_not_there_look_empty() {
    let mut sinks = ErrorSinks::new();
    let layer = missing(&mut sinks);
    let s = &mut sinks;
    let entry = string_entry("a");
    assert_eq!(layer.parent_name(s), None);
    assert_eq!(layer.node_and_value_count(s), 0);
    assert_eq!(layer.object_node_id(s, "s0100"), None);
    assert_eq!(layer.object_value_id(s, &entry), None);
    assert_eq!(layer.id_subject(s, 1), None);
    assert_eq!(layer.id_predicate(s, 1), None);
    assert_eq!(layer.id_object(s, 1), None);
    assert_eq!(layer.id_object_is_node(s, 1), None);
    assert!(!layer.triple_exists(s, 1, 1, 1));
    assert!(layer.triples(s).is_empty());
    assert!(layer.triples_sp(s, 1, 1).is_empty());
    assert!(layer.triples_p(s, 1).is_empty());
    assert!(layer.triples_o(s, 1).is_empty());
    assert!(layer.triples_value_range(s, &entry, &entry).is_empty());
    assert!(layer.triples_value_range_rev(s, &entry, &entry).is_empty());
    assert_eq!(layer.triple_addition_count(s), 0);
    assert_eq!(layer.triple_removal_count(s), 0);
    assert_eq!(layer.single_triple_sp(s, 1, 1), None);
    assert_eq!(layer.all_counts(s).node_count, 0);
    assert_eq!(layer.take_error(s).unwrap().kind(), ErrorKind::NotFound);
}

#[test]
fn the_check_raises_the_first_error_and_leaves_the_others() {
    let mut sinks = ErrorSinks::new();
    let (m, l) = arms(&mut sinks);
    let first = missing(&mut sinks);
    let second = missing(&mut sinks);
    assert!(transaction::check_diskless_reads(&mut sinks, &[&m, &l, &first, &second]).is_ok());

    assert_eq!(first.subject_id(&mut sinks, "s0100"), None);
    assert_eq!(second.subject_id(&mut sinks, "s0100"), None);
    assert!(is_not_found(&transaction::check_diskless_reads(&mut sinks, &[&m, &l, &first, &second])));
    // the error of the second layer is still there
    assert!(is_not_found(&transaction::check_diskless_reads(&mut sinks, &[&m, &l, &first, &second])));
    assert!(transaction::check_diskless_reads(&mut sinks, &[&m, &l, &first, &second]).is_ok());
}

// ---- materializing ----

#[test]
fn a_layer_that_cannot_be_materialized_is_not_found() {
    let mut sinks = ErrorSinks::new();
    let layer = missing(&mut sinks);
    let (m, _) = arms(&mut sinks);
    let message = |r: Result<SyncStoreLayer, IoError>| {
        let e = r.err().unwrap();
        assert_eq!(e.kind(), ErrorKind::NotFound);
        e.message
    };
    assert_eq!(
        message(layer.require_materialized_head()),
        "this operation: layer could not be materialized"
    );
    assert_eq!(message(layer.squash()), "squash: layer could not be materialized");
    assert_eq!(message(layer.squash_upto(&m)), "squash_upto: layer could not be materialized");
    assert_eq!(message(m.squash_upto(&layer)), "squash_upto: layer could not be materialized");
    assert_eq!(
        layer.open_write().err().unwrap().message,
        "open_write: layer could not be materialized"
    );
    assert_eq!(layer.rollup().unwrap_err().message, "rollup: layer could not be materialized");
    assert_eq!(
        m.rollup_upto(&layer).unwrap_err().message,
        "rollup_upto: layer could not be materialized"
    );
    assert_eq!(
        layer.imprecise_rollup_upto(&m).unwrap_err().message,
        "imprecise_rollup_upto: layer could not be materialized"
    );
    let failed = materialized_or_not_found(
        "squash",
        Err(IoError::new(ErrorKind::TimedOut, "slow".to_string())),
    );
    assert_eq!(failed.err().unwrap().kind(), ErrorKind::TimedOut);
}

#[test]
fn history_is_rewritten_on_both_arms() {
    let mut sinks = ErrorSinks::new();
    let (m, l) = arms(&mut sinks);
    let base = m.parent(&mut sinks).unwrap().unwrap();
    for layer in [&m, &l] {
        let squashed = predicates::squash(layer).unwrap();
        assert!(squashed.materialized().is_some());
        assert_eq!(squashed.try_triples().unwrap().len(), 1420);
        assert!(squashed.parent(&mut sinks).unwrap().is_none());
        let upto = predicates::squash_upto(layer, &base).unwrap();
        assert_eq!(upto.try_triples().unwrap().len(), 1420);
        assert!(upto.parent(&mut sinks).unwrap().unwrap() == base);
        predicates::rollup(layer).unwrap();
        predicates::rollup_upto(layer, &base).unwrap();
        predicates::imprecise_rollup_upto(layer, &base).unwrap();
        let parent = predicates::parent(layer, &mut sinks).unwrap();
        assert!(parent == base);
        assert!(matches!(predicates::parent(&base, &mut sinks), Err(PrologError::Failure)));
    }
}

// ---- stores and graphs ----

#[test]
fn a_store_hands_out_layers_the_way_it_reads_them() {
    let mut sinks = ErrorSinks::new();
    let (inner, head) = graph();
    let materialized = ReadStore::materialized(inner);
    let diskless = store::store_diskless(&materialized);
    assert!(!materialized.diskless);
    assert!(diskless.diskless);
    assert!(!store::store_materialized(&diskless).diskless);
    let id = name_to_string(head);

    let m: ReadLayer<Handle> = store::store_id_layer(&materialized, &id, &mut sinks).unwrap();
    let l: ReadLayer<Handle> = store::store_id_layer(&diskless, &id.to_uppercase(), &mut sinks).unwrap();
    assert!(m.materialized().is_some());
    assert!(l.materialized().is_none());
    assert!(m == l);
    assert!(predicates::layer_equals(&m, &l).is_ok());
    assert_eq!(predicates::layer_to_id(&l), id);
    assert_eq!(predicates::layer_blob_text(&m), format!("<layer {}>", id));
    let stack = predicates::retrieve_layer_stack_names(&l).unwrap();
    assert_eq!(stack.len(), 2);
    assert!(stack.contains(&id));

    for read_store in [&materialized, &diskless] {
        let unknown = name_to_string([1, 2, 3, 4, 5]);
        let lookup: Result<ReadLayer<Handle>, PrologError> =
            store::store_id_layer(read_store, &unknown, &mut sinks);
        assert!(matches!(lookup, Err(PrologError::Failure)));
        let lookup: Result<ReadLayer<Handle>, PrologError> =
            store::store_id_layer(read_store, "not an id", &mut sinks);
        match lookup {
            Err(PrologError::Exception(Raised::Io(e))) => {
                assert_eq!(e.kind(), ErrorKind::Other);
                assert_eq!(e.message, "string not len 40: not an id");
            }
            _ => panic!("a text that is no id"),
        }
        let lookup: Result<ReadLayer<Handle>, PrologError> =
            store::store_id_layer(read_store, &"g".repeat(40), &mut sinks);
        assert!(matches!(
            lookup,
            Err(PrologError::Exception(Raised::Io(IoError { kind: ErrorKind::InvalidData, .. })))
        ));
    }
    let base = m.parent(&mut sinks).unwrap().unwrap();
    assert!(matches!(predicates::layer_equals(&m, &base), Err(PrologError::Failure)));
}

#[test]
fn a_graph_presents_its_head_the_way_its_store_reads() {
    let mut sinks = ErrorSinks::new();
    let (inner, head) = graph();
    let materialized = ReadStore::materialized(inner);
    let diskless = store::store_diskless(&materialized);

    let g = named_graph::open_named_graph::<Handle>(&materialized, "g").unwrap();
    assert_eq!(named_graph::named_graph_blob_text(&g), "<named_graph g>");
    let h: ReadLayer<Handle> = named_graph::head(&g, &mut sinks).unwrap();
    assert!(h.materialized().is_some());
    assert_eq!(h.name(), head);

    let g = named_graph::open_named_graph::<Handle>(&diskless, "g").unwrap().clone();
    let h: ReadLayer<Handle> = named_graph::head(&g, &mut sinks).unwrap();
    assert!(h.materialized().is_none());
    assert_eq!(h.name(), head);
    let (layer, version) = named_graph::head_version::<Handle>(&g, &mut sinks).unwrap();
    assert_eq!(version, 2);
    assert!(layer.unwrap() == h);

    assert!(matches!(
        named_graph::open_named_graph::<Handle>(&diskless, "nothing"),
        Err(PrologError::Failure)
    ));
    // a graph of that label exists already
    assert!(matches!(
        named_graph::create_named_graph::<Handle>(&diskless, "g"),
        Err(PrologError::Exception(Raised::Io(_)))
    ));
}

#[test]
fn heads_are_set() {
    let mut sinks = ErrorSinks::new();
    let (inner, _) = graph();
    let diskless = ReadStore::diskless(inner);
    let old = named_graph::open_named_graph::<Handle>(&diskless, "g").unwrap();
    let head: ReadLayer<Handle> = named_graph::head(&old, &mut sinks).unwrap();
    let base = head.parent(&mut sinks).unwrap().unwrap();

    let g = named_graph::create_named_graph::<Handle>(&diskless, "h").unwrap();
    assert!(matches!(named_graph::head::<Handle>(&g, &mut sinks), Err(PrologError::Failure)));
    let (none, version) = named_graph::head_version::<Handle>(&g, &mut sinks).unwrap();
    assert!(none.is_none());
    assert_eq!(version, 0);
    assert!(matches!(
        store::open_write::<Handle>(WriteTarget::Graph(&g)),
        Err(PrologError::Exception(Raised::CannotOpenNamedGraphWithoutBaseLayer))
    ));

    // a lazy layer is brought into memory first
    named_graph::nb_set_head(&g, &head).unwrap();
    assert!(named_graph::head::<Handle>(&g, &mut sinks).unwrap() == head);
    // the base does not extend the head
    assert!(matches!(named_graph::nb_set_head(&g, &base), Err(PrologError::Failure)));
    named_graph::nb_force_set_head(&g, &base).unwrap();
    assert!(named_graph::head::<Handle>(&g, &mut sinks).unwrap() == base);
    let (_, version) = named_graph::head_version::<Handle>(&g, &mut sinks).unwrap();
    assert!(matches!(
        named_graph::nb_force_set_head_version(&g, &head, version + 1),
        Err(PrologError::Failure)
    ));
    named_graph::nb_force_set_head_version(&g, &head, version).unwrap();
    assert!(named_graph::head::<Handle>(&g, &mut sinks).unwrap() == head);
    assert!(store::open_write::<Handle>(WriteTarget::Graph(&g)).is_ok());
    assert!(store::open_write::<Handle>(WriteTarget::Store(&diskless)).is_ok());
    assert!(store::open_write(WriteTarget::Layer(&head)).is_ok());

    let gone = missing(&mut sinks);
    assert!(is_not_found(&named_graph::nb_set_head(&g, &gone)));
    assert!(is_not_found(&named_graph::nb_force_set_head(&g, &gone)));
    assert!(is_not_found(&named_graph::nb_force_set_head_version(&g, &gone, 1)));
    assert!(is_not_found(&store::open_write(WriteTarget::Layer(&gone))));

    named_graph::delete_named_graph::<Handle>(&diskless, "h").unwrap();
    assert!(matches!(
        named_graph::delete_named_graph::<Handle>(&diskless, "h"),
        Err(PrologError::Failure)
    ));
}

#[test]
fn compaction_wants_positive_parameters() {
    let store = ReadStore::materialized(open_sync_memory_store());
    assert!(store::start_compaction::<Handle>(&store, 1, 1).is_ok());
    for (depth, interval) in [(0, 1), (1, 0), (0, 0)] {
        assert!(matches!(
            store::start_compaction::<Handle>(&store, depth, interval),
            Err(PrologError::Exception(Raised::CompactionParamsNotPositive))
        ));
    }
    assert!(store::invalidate_layer_cache_entry::<Handle>(&store, &"0".repeat(40)).is_ok());
    assert!(store::invalidate_layer_cache_entry::<Handle>(&store, "0").is_err());
}

// ---- packs ----

#[test]
fn a_pack_carries_layers_between_stores() {
    let mut sinks = ErrorSinks::new();
    let (inner, head) = graph();
    let from = ReadStore::materialized(inner);
    let to = ReadStore::materialized(open_sync_memory_store());
    let layer: ReadLayer<Handle> = store::store_id_layer(&from, &name_to_string(head), &mut sinks).unwrap();
    let stack = predicates::retrieve_layer_stack_names(&layer).unwrap();

    let bytes = pack::pack_export::<Handle>(&from, &stack).unwrap();
    let packed = pack::pack_layerids_and_parents::<Handle>(&bytes).unwrap();
    assert_eq!(packed.len(), 2);
    for p in packed {
        if p.id == name_to_string(head) {
            assert_eq!(p.parent, Some(name_to_string(layer.parent(&mut sinks).unwrap().unwrap().name())));
        } else {
            assert_eq!(p.parent, None);
        }
    }

    // what is no archive cannot be listed
    assert!(matches!(
        pack::pack_layerids_and_parents::<Handle>(&vec![1, 2, 3]),
        Err(PrologError::Exception(Raised::Io(_)))
    ));

    pack::pack_import::<Handle>(&to, &stack, &bytes).unwrap();
    let copy: ReadLayer<Handle> = store::store_id_layer(&to, &name_to_string(head), &mut sinks).unwrap();
    assert!(copy == layer);
    assert_eq!(copy.try_triples().unwrap().len(), 1420);
}

#[test]
fn the_first_bad_id_of_a_list_is_raised() {
    let store = ReadStore::materialized(open_sync_memory_store());
    let good = name_to_string([1, 2, 3, 4, 5]);
    let names = pack::layer_names(&vec![good.clone(), "0".repeat(40)]).unwrap();
    assert_eq!(names, vec![[1, 2, 3, 4, 5], [0; 5]]);
    let bad = vec![good.clone(), "short".to_string(), "x".repeat(40)];
    for result in [
        pack::pack_export::<Handle>(&store, &bad).err(),
        pack::pack_import::<Handle>(&store, &bad, &Vec::new()).err(),
        pack::merge_base_layers::<Handle>(&store, "tmp", &bad).err(),
        pack::layer_names(&bad).err(),
    ] {
        match result {
            Some(PrologError::Exception(Raised::Io(e))) => {
                assert_eq!(e.kind(), ErrorKind::Other);
                assert_eq!(e.message, "string not len 40: short");
            }
            _ => panic!("the second id is too short"),
        }
    }
    assert_eq!(pack::merge_base_layers::<Handle>(&store, "tmp", &vec![good.clone()]).unwrap(), good);
    assert!(matches!(
        pack::merge_base_layers::<Handle>(&store, "", &vec![good]),
        Err(PrologError::Exception(Raised::Io(IoError { kind: ErrorKind::InvalidInput, .. })))
    ));
}
