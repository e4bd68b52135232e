//! Packs of layers.
//!
//! A pack carries layers from one store to another. Which layers is said by
//! their ids.
use crate::changes::import_layers::{ImportsLayers, pack_import_in};
use crate::changes::merge_base_layers::{MergesLayers, merge_base_layers_in};
use crate::error::{ErrorKind, IoError};
use crate::layer_io::LayerIo;
use crate::name::{can_cut, name_to_string, string_to_name, LayerName};
use crate::prolog::{try_or_die, PrologError, Raised};
use crate::store::ReadStore;
use crate::store_access::{Journal, StoreCall, StoreReads};
use std::ops::Deref;
use vstd::prelude::*;
use vstd::string::StringExecFns;

verus! {

/// Journals are opened in this module: what this is can be seen only here.
pub closed spec fn opened_here() -> bool {
    true
}

/// The first `n` ids are texts of layer names.
pub open spec fn are_names(ids: Seq<String>, n: int) -> bool {
    forall|i: int| 0 <= i < n ==> crate::name::is_name_text((#[trigger] ids[i])@)
}

/// Every id up to the first that is not the text of a name can be cut into
/// words.
pub open spec fn can_be_read(ids: Seq<String>) -> bool {
    forall|i: int| 0 <= i < ids.len() && are_names(ids, i) ==> crate::name::can_be_cut((#[trigger] ids[i])@)
}

/// The names are those that the ids stand for, one by one.
pub open spec fn names_of(ids: Seq<String>, names: Seq<LayerName>) -> bool {
    &&& names.len() == ids.len()
    &&& forall|i: int| 0 <= i < ids.len() ==> crate::name::names(ids[i]@, (#[trigger] names[i])@)
}

/// The error is that of the first id that is not the text of a name.
pub open spec fn first_bad_id(ids: Seq<String>, error: PrologError) -> bool {
    exists|k: int|
        #![trigger ids[k]]
        0 <= k < ids.len() && are_names(ids, k) && !crate::name::is_name_text(ids[k]@) && crate::store::bad_name(
            ids[k]@,
            error,
        )
}

/// Whether ids can be read.
pub fn can_read(ids: &Vec<String>) -> (can: bool)
    ensures
        can == can_be_read(ids@),
{
    let mut i: usize = 0;
    while i < ids.len()
        invariant
            i <= ids.len(),
            are_names(ids@, i as int),
            forall|k: int| 0 <= k < i ==> crate::name::can_be_cut((#[trigger] ids@[k])@),
        decreases ids.len() - i,
    {
        if !can_cut(ids[i].as_str()) {
            assert(!crate::name::can_be_cut(ids@[i as int]@));
            return false;
        }
        if string_to_name(ids[i].as_str()).is_err() {
            assert forall|k: int| 0 <= k < ids@.len() && are_names(ids@, k) implies crate::name::can_be_cut(
                (#[trigger] ids@[k])@,
            ) by {
                if k > i {
                    assert(crate::name::is_name_text(ids@[i as int]@));
                }
            }
            return true;
        }
        i = i + 1;
    }
    true
}

/// The names that ids stand for. The first id that stands for none is an
/// exception.
pub fn layer_names(ids: &Vec<String>) -> (names: Result<Vec<LayerName>, PrologError>)
    requires
        can_be_read(ids@),
    ensures
        names is Ok <==> are_names(ids@, ids@.len() as int),
        match names {
            Ok(ns) => names_of(ids@, ns@),
            Err(e) => first_bad_id(ids@, e),
        },
{
    let mut names: Vec<LayerName> = Vec::new();
    let mut i: usize = 0;
    while i < ids.len()
        invariant
            i <= ids.len(),
            can_be_read(ids@),
            are_names(ids@, i as int),
            names@.len() == i,
            forall|k: int| 0 <= k < i ==> crate::name::names(ids@[k]@, (#[trigger] names@[k])@),
        decreases ids.len() - i,
    {
        assert(crate::name::can_be_cut(ids@[i as int]@));
        match string_to_name(ids[i].as_str()) {
            Ok(name) => {
                names.push(name);
            },
            Err(e) => {
                let error = PrologError::Exception(Raised::Io(e));
                assert(crate::store::bad_name(ids@[i as int]@, error));
                return Err(error);
            },
        }
        i = i + 1;
    }
    Ok(names)
}

/// A pack of the layers with those ids.
pub fn pack_export<S: StoreReads>(store: &ReadStore, ids: &Vec<String>) -> (pack: Result<Vec<u8>, PrologError>)
    requires
        can_be_read(ids@),
    ensures
        if are_names(ids@, ids@.len() as int) {
            exists|names: Vec<LayerName>, reply: Result<Vec<u8>, IoError>| #[trigger]
                call_ensures(S::export_layers, (&store.store(), &names), reply) && names_of(ids@, names@) && pack
                    == crate::prolog::or_die(reply)
        } else {
            pack matches Err(e) && first_bad_id(ids@, e)
        },
{
    match layer_names(ids) {
        Ok(names) => {
            let reply = S::export_layers(store.deref(), &names);
            assert(call_ensures(S::export_layers, (&store.store(), &names), reply));
            try_or_die(reply)
        },
        Err(e) => Err(e),
    }
}

/// Takes the layers with those ids out of a pack.
pub fn pack_import<S: ImportsLayers>(store: &ReadStore, ids: &Vec<String>, pack: &Vec<u8>) -> (done: Result<
    (),
    PrologError,
>)
    requires
        can_be_read(ids@),
    ensures
        if are_names(ids@, ids@.len() as int) {
            exists|names: Vec<LayerName>, reply: Result<(), IoError>| #[trigger]
                S::may_import_layers(&store.store(), pack, &names, reply) && names_of(ids@, names@) && done
                    == crate::prolog::or_die(reply)
        } else {
            done matches Err(e) && first_bad_id(ids@, e)
        },
{
    pack_import_in::<S>(&mut Journal::new(), store, ids, pack)
}

/// Merges the base layers with those ids into a new one. The answer is its id.
pub fn merge_base_layers<S: MergesLayers>(store: &ReadStore, temp_dir: &str, ids: &Vec<String>) -> (id: Result<
    String,
    PrologError,
>)
    requires
        can_be_read(ids@),
    ensures
        if are_names(ids@, ids@.len() as int) {
            exists|names: Vec<LayerName>, reply: Result<LayerName, IoError>| #[trigger]
                S::may_merge_base_layers(&store.store(), &names, temp_dir, reply) && names_of(ids@, names@)
                    && match reply {
                    Ok(name) => id matches Ok(text) && text@ == crate::name::name_text(name@),
                    Err(e) => id == Err::<String, PrologError>(PrologError::Exception(Raised::Io(e))),
                }
        } else {
            id matches Err(e) && first_bad_id(ids@, e)
        },
{
    merge_base_layers_in::<S>(&mut Journal::new(), store, temp_dir, ids)
}

// ---- what a pack holds ----

/// Why the contents of a pack could not be listed.
pub enum PackFailure {
    LayerNotFound,
    Io(IoError),
    /// A name in the pack is not text; with what the decoder says of it.
    NotText(String),
}

/// The error is the storage error that a pack failure is reported as.
pub open spec fn reported_as(failure: PackFailure, error: IoError) -> bool {
    match failure {
        PackFailure::Io(e) => error == e,
        PackFailure::LayerNotFound => error.kind == ErrorKind::NotFound && error.message@
            == "a layer from the pack was not found"@,
        PackFailure::NotText(text) => error.kind == ErrorKind::InvalidData && error.message == text,
    }
}

/// The storage error that a pack failure is reported as.
pub fn pack_error(failure: PackFailure) -> (error: IoError)
    ensures
        reported_as(failure, error),
{
    match failure {
        PackFailure::Io(e) => e,
        PackFailure::LayerNotFound => IoError::new(
            ErrorKind::NotFound,
            String::from_str("a layer from the pack was not found"),
        ),
        PackFailure::NotText(text) => IoError::new(ErrorKind::InvalidData, text),
    }
}

/// A layer of a pack by its id, with the id of its parent if it has one.
pub struct PackedLayer {
    pub id: String,
    pub parent: Option<String>,
}

/// The ids are the texts of the names.
pub open spec fn packed_as(entry: (LayerName, Option<LayerName>), layer: PackedLayer) -> bool {
    &&& layer.id@ == crate::name::name_text(entry.0@)
    &&& match entry.1 {
        Some(parent) => layer.parent matches Some(text) && text@ == crate::name::name_text(parent@),
        None => layer.parent is None,
    }
}

/// What is answered of the contents of a pack: the layers by their ids, in the
/// order in which they were listed. A pack whose contents could not be listed
/// is an exception.
pub open spec fn packed_answer(
    listing: Result<Vec<(LayerName, Option<LayerName>)>, PackFailure>,
    layers: Result<Vec<PackedLayer>, PrologError>,
) -> bool {
    match listing {
        Ok(entries) => {
            &&& layers matches Ok(ls)
            &&& ls@.len() == entries@.len()
            &&& forall|i: int| 0 <= i < entries@.len() ==> packed_as(entries@[i], #[trigger] ls@[i])
        },
        Err(failure) => layers matches Err(PrologError::Exception(Raised::Io(error))) && reported_as(failure, error),
    }
}

/// The layers of a pack by their ids, from what it was found to hold.
pub fn packed_layers(listing: Result<Vec<(LayerName, Option<LayerName>)>, PackFailure>) -> (layers: Result<
    Vec<PackedLayer>,
    PrologError,
>)
    ensures
        packed_answer(listing, layers),
{
    let entries = match listing {
        Ok(entries) => entries,
        Err(failure) => {
            return Err(PrologError::Exception(Raised::Io(pack_error(failure))));
        },
    };
    let mut layers: Vec<PackedLayer> = Vec::new();
    let mut i: usize = 0;
    while i < entries.len()
        invariant
            i <= entries.len(),
            layers@.len() == i,
            forall|k: int| 0 <= k < i ==> packed_as(entries@[k], #[trigger] layers@[k]),
        decreases entries.len() - i,
    {
        let parent = match entries[i].1 {
            Some(name) => Some(name_to_string(name)),
            None => None,
        };
        layers.push(PackedLayer { id: name_to_string(entries[i].0), parent });
        i = i + 1;
    }
    Ok(layers)
}

/// The layers that a pack holds, with their parents, by their ids.
pub fn pack_layerids_and_parents<S: StoreReads>(pack: &Vec<u8>) -> (layers: Result<Vec<PackedLayer>, PrologError>)
    ensures
        exists|listing: Result<Vec<(LayerName, Option<LayerName>)>, PackFailure>| #[trigger]
            call_ensures(S::pack_layer_parents, (pack,), listing) && packed_answer(listing, layers),
{
    let listing = S::pack_layer_parents(pack);
    assert(call_ensures(S::pack_layer_parents, (pack,), listing));
    packed_layers(listing)
}

// ---- laws ----

/// The ids of layers can be read back: the texts of names are texts of names,
/// and stand for those names.
pub proof fn ids_read_back(names: Seq<LayerName>, ids: Seq<String>)
    requires
        ids.len() == names.len(),
        forall|i: int| 0 <= i < names.len() ==> (#[trigger] ids[i])@ == crate::name::name_text(names[i]@),
    ensures
        can_be_read(ids),
        are_names(ids, ids.len() as int),
        names_of(ids, names),
{
    assert forall|i: int| 0 <= i < ids.len() implies crate::name::can_be_cut(#[trigger] ids[i]@)
        && crate::name::is_name_text(ids[i]@) && crate::name::names(ids[i]@, names[i]@) by {
        crate::name::name_text_reads_back(names[i]@);
    }
}

/// The names of ids are read one by one and in order; the first id that is the
/// text of none raises what reading it says, and it raises only then.
pub proof fn ids_are_read_in_order(ids: Vec<String>, names: Result<Vec<LayerName>, PrologError>)
    requires
        call_ensures(layer_names, (&ids,), names),
    ensures
        names matches Ok(ns) ==> {
            &&& ns@.len() == ids@.len()
            &&& forall|i: int|
                0 <= i < ids@.len() ==> crate::name::names(ids@[i]@, (#[trigger] ns@[i])@)
        },
        names is Err ==> exists|k: int|
            #![trigger ids@[k]]
            {
                &&& 0 <= k < ids@.len()
                &&& forall|i: int| 0 <= i < k ==> crate::name::is_name_text((#[trigger] ids@[i])@)
                &&& !crate::name::is_name_text(ids@[k]@)
                &&& names matches Err(PrologError::Exception(Raised::Io(e)))
                &&& crate::name::refused(ids@[k]@, e)
            },
        (forall|i: int| 0 <= i < ids@.len() ==> crate::name::is_name_text((#[trigger] ids@[i])@)) ==> names is Ok,
{
    if names is Err {
        let k = choose|k: int|
            #![trigger ids@[k]]
            0 <= k < ids@.len() && are_names(ids@, k) && !crate::name::is_name_text(ids@[k]@)
                && crate::store::bad_name(ids@[k]@, names->Err_0);
        assert(!crate::name::is_name_text(ids@[k]@));
    }
}

/// A pack of layers by the texts of their names is a pack of just those
/// layers, in that order.
pub proof fn the_layers_asked_for_are_packed<S: StoreReads>(
    store: ReadStore,
    names: Seq<LayerName>,
    ids: Vec<String>,
    pack: Result<Vec<u8>, PrologError>,
)
    requires
        call_ensures(pack_export::<S>, (&store, &ids), pack),
        ids@.len() == names.len(),
        forall|i: int| 0 <= i < names.len() ==> (#[trigger] ids@[i])@ == crate::name::name_text(names[i]@),
    ensures
        exists|asked: Vec<LayerName>, reply: Result<Vec<u8>, IoError>|
            {
                &&& #[trigger] call_ensures(S::export_layers, (&store.store(), &asked), reply)
                &&& same_names(asked@, names)
                &&& reply matches Ok(bytes) ==> pack == Ok::<Vec<u8>, PrologError>(bytes)
                &&& reply matches Err(e) ==> pack == Err::<Vec<u8>, PrologError>(PrologError::Exception(Raised::Io(e)))
            },
{
    ids_read_back(names, ids@);
    let (asked, reply) = choose|asked: Vec<LayerName>, reply: Result<Vec<u8>, IoError>| #[trigger]
        call_ensures(S::export_layers, (&store.store(), &asked), reply) && names_of(ids@, asked@) && pack
            == crate::prolog::or_die(reply);
    texts_stand_for_one_name(names, ids@, asked@);
    assert(call_ensures(S::export_layers, (&store.store(), &asked), reply));
}

/// The names are the same, one by one.
pub open spec fn same_names(a: Seq<LayerName>, b: Seq<LayerName>) -> bool {
    a.len() == b.len() && forall|i: int| 0 <= i < a.len() ==> (#[trigger] a[i])@ == b[i]@
}

proof fn texts_stand_for_one_name(names: Seq<LayerName>, ids: Seq<String>, read: Seq<LayerName>)
    requires
        ids.len() == names.len(),
        forall|i: int| 0 <= i < names.len() ==> (#[trigger] ids[i])@ == crate::name::name_text(names[i]@),
        names_of(ids, read),
    ensures
        same_names(read, names),
{
    assert forall|i: int| 0 <= i < read.len() implies (#[trigger] read[i])@ == names[i]@ by {
        assert(ids[i]@ == crate::name::name_text(names[i]@));
        crate::name::name_text_reads_back(names[i]@);
    }
}

/// Importing layers by the texts of their names is one call for just those
/// layers and that pack. With an id that is the text of no name, nothing is
/// imported.
pub proof fn the_layers_asked_for_are_imported<S: ImportsLayers>(
    journal: &mut Journal,
    store: ReadStore,
    names: Seq<LayerName>,
    ids: Vec<String>,
    pack: Vec<u8>,
    done: Result<(), PrologError>,
)
    requires
        call_ensures(pack_import_in::<S>, (journal, &store, &ids, &pack), done),
    ensures
        ids@.len() == names.len() && (forall|i: int|
            0 <= i < names.len() ==> (#[trigger] ids@[i])@ == crate::name::name_text(names[i]@)) ==> {
            &&& final(journal).calls().len() == old(journal).calls().len() + 1
            &&& final(journal).calls().last() matches StoreCall::ImportLayers { store: s, pack: p, names: ns, reply: r }
            &&& s == store.store() && p == pack@ && same_names(ns, names)
            &&& done is Ok <==> r is Ok
            &&& r matches Err(e) ==> done == Err::<(), PrologError>(PrologError::Exception(Raised::Io(e)))
        },
        (exists|k: int| 0 <= k < ids@.len() && !crate::name::is_name_text((#[trigger] ids@[k])@)) ==> {
            &&& done matches Err(PrologError::Exception(Raised::Io(_)))
            &&& final(journal).calls() == old(journal).calls()
        },
{
    if ids@.len() == names.len() && (forall|i: int|
        0 <= i < names.len() ==> (#[trigger] ids@[i])@ == crate::name::name_text(names[i]@)) {
        ids_read_back(names, ids@);
        let (asked, reply) = choose|asked: Vec<LayerName>, reply: Result<(), IoError>| #[trigger]
            S::may_import_layers(&store.store(), &pack, &asked, reply) && names_of(ids@, asked@) && done
                == crate::prolog::or_die(reply) && final(journal).calls() == old(journal).calls().push(
                StoreCall::ImportLayers { store: store.store(), pack: pack@, names: asked@, reply },
            );
        texts_stand_for_one_name(names, ids@, asked@);
    }
}

/// Done at once, it is the same call.
pub proof fn layers_are_imported_at_once<S: ImportsLayers>(
    store: ReadStore,
    names: Seq<LayerName>,
    ids: Vec<String>,
    pack: Vec<u8>,
    done: Result<(), PrologError>,
)
    requires
        call_ensures(pack_import::<S>, (&store, &ids, &pack), done),
        ids@.len() == names.len(),
        forall|i: int| 0 <= i < names.len() ==> (#[trigger] ids@[i])@ == crate::name::name_text(names[i]@),
    ensures
        exists|asked: Vec<LayerName>, reply: Result<(), IoError>|
            {
                &&& #[trigger] S::may_import_layers(&store.store(), &pack, &asked, reply)
                &&& same_names(asked@, names)
                &&& done is Ok <==> reply is Ok
                &&& reply matches Err(e) ==> done == Err::<(), PrologError>(PrologError::Exception(Raised::Io(e)))
            },
{
    ids_read_back(names, ids@);
    let (asked, reply) = choose|asked: Vec<LayerName>, reply: Result<(), IoError>| #[trigger]
        S::may_import_layers(&store.store(), &pack, &asked, reply) && names_of(ids@, asked@) && done
            == crate::prolog::or_die(reply);
    texts_stand_for_one_name(names, ids@, asked@);
    assert(S::may_import_layers(&store.store(), &pack, &asked, reply));
}

/// Merging base layers by the texts of their names is one call for just those
/// layers, and the answer is the text of the name of what came of it. With an
/// id that is the text of no name, nothing is merged.
pub proof fn the_layers_asked_for_are_merged<S: MergesLayers>(
    journal: &mut Journal,
    store: ReadStore,
    temp_dir: &str,
    names: Seq<LayerName>,
    ids: Vec<String>,
    id: Result<String, PrologError>,
)
    requires
        call_ensures(merge_base_layers_in::<S>, (journal, &store, temp_dir, &ids), id),
    ensures
        ids@.len() == names.len() && (forall|i: int|
            0 <= i < names.len() ==> (#[trigger] ids@[i])@ == crate::name::name_text(names[i]@)) ==> {
            &&& final(journal).calls().len() == old(journal).calls().len() + 1
            &&& final(journal).calls().last() matches StoreCall::MergeBaseLayers {
                store: s,
                names: ns,
                temp_dir: t,
                reply: r,
            }
            &&& s == store.store() && t == temp_dir@ && same_names(ns, names)
            &&& r matches Ok(name) ==> (id matches Ok(text) && text@ == crate::name::name_text(name@))
            &&& r matches Err(e) ==> id == Err::<String, PrologError>(PrologError::Exception(Raised::Io(e)))
        },
        (exists|k: int| 0 <= k < ids@.len() && !crate::name::is_name_text((#[trigger] ids@[k])@)) ==> {
            &&& id matches Err(PrologError::Exception(Raised::Io(_)))
            &&& final(journal).calls() == old(journal).calls()
        },
{
    if ids@.len() == names.len() && (forall|i: int|
        0 <= i < names.len() ==> (#[trigger] ids@[i])@ == crate::name::name_text(names[i]@)) {
        ids_read_back(names, ids@);
        let call = final(journal).calls().last();
        let asked = call->MergeBaseLayers_names;
        assert(names_of(ids@, asked));
        texts_stand_for_one_name(names, ids@, asked);
    }
}

/// Done at once, it is the same call.
pub proof fn layers_are_merged_at_once<S: MergesLayers>(
    store: ReadStore,
    temp_dir: &str,
    names: Seq<LayerName>,
    ids: Vec<String>,
    id: Result<String, PrologError>,
)
    requires
        call_ensures(merge_base_layers::<S>, (&store, temp_dir, &ids), id),
        ids@.len() == names.len(),
        forall|i: int| 0 <= i < names.len() ==> (#[trigger] ids@[i])@ == crate::name::name_text(names[i]@),
    ensures
        exists|asked: Vec<LayerName>, reply: Result<LayerName, IoError>|
            {
                &&& #[trigger] S::may_merge_base_layers(&store.store(), &asked, temp_dir, reply)
                &&& same_names(asked@, names)
                &&& reply matches Ok(name) ==> (id matches Ok(text) && text@ == crate::name::name_text(name@))
                &&& reply matches Err(e) ==> id == Err::<String, PrologError>(PrologError::Exception(Raised::Io(e)))
            },
{
    ids_read_back(names, ids@);
    let (asked, reply) = choose|asked: Vec<LayerName>, reply: Result<LayerName, IoError>| #[trigger]
        S::may_merge_base_layers(&store.store(), &asked, temp_dir, reply) && names_of(ids@, asked@)
            && match reply {
            Ok(name) => id matches Ok(text) && text@ == crate::name::name_text(name@),
            Err(e) => id == Err::<String, PrologError>(PrologError::Exception(Raised::Io(e))),
        };
    texts_stand_for_one_name(names, ids@, asked@);
    assert(S::may_merge_base_layers(&store.store(), &asked, temp_dir, reply));
}

/// A pack is listed in order, layer by layer, each with the text of its name
/// and, if it has a parent, the text of that name; and no layer is left out.
/// What could not be listed raises: a missing layer as not found, a name that
/// is no text as invalid data, and a storage error as it is.
pub proof fn every_layer_of_a_pack_is_listed(
    listing: Result<Vec<(LayerName, Option<LayerName>)>, PackFailure>,
    layers: Result<Vec<PackedLayer>, PrologError>,
)
    requires
        call_ensures(packed_layers, (listing,), layers),
    ensures
        listing matches Ok(entries) ==> {
            &&& layers matches Ok(ls)
            &&& ls@.len() == entries@.len()
            &&& forall|i: int|
                0 <= i < entries@.len() ==> {
                    &&& (#[trigger] ls@[i]).id@ == crate::name::name_text(entries@[i].0@)
                    &&& ls@[i].parent is Some <==> entries@[i].1 is Some
                    &&& entries@[i].1 matches Some(p) ==> ls@[i].parent->0@ == crate::name::name_text(p@)
                }
        },
        listing matches Err(PackFailure::LayerNotFound) ==> {
            &&& layers matches Err(PrologError::Exception(Raised::Io(e)))
            &&& e.kind == ErrorKind::NotFound
            &&& e.message@ == "a layer from the pack was not found"@
        },
        listing matches Err(PackFailure::NotText(why)) ==> {
            &&& layers matches Err(PrologError::Exception(Raised::Io(e)))
            &&& e.kind == ErrorKind::InvalidData
            &&& e.message == why
        },
        listing matches Err(PackFailure::Io(why)) ==> layers == Err::<Vec<PackedLayer>, PrologError>(
            PrologError::Exception(Raised::Io(why)),
        ),
{
    if let Ok(entries) = listing {
        let ls = layers->Ok_0;
        assert forall|i: int| 0 <= i < entries@.len() implies {
            &&& (#[trigger] ls@[i]).id@ == crate::name::name_text(entries@[i].0@)
            &&& ls@[i].parent is Some <==> entries@[i].1 is Some
            &&& entries@[i].1 matches Some(p) ==> ls@[i].parent->0@ == crate::name::name_text(p@)
        } by {
            assert(packed_as(entries@[i], ls@[i]));
        }
    }
}

/// What is listed is what the storage found in the pack.
pub proof fn a_pack_is_listed_as_the_storage_finds_it<S: StoreReads>(
    pack: Vec<u8>,
    layers: Result<Vec<PackedLayer>, PrologError>,
)
    requires
        call_ensures(pack_layerids_and_parents::<S>, (&pack,), layers),
    ensures
        exists|listing: Result<Vec<(LayerName, Option<LayerName>)>, PackFailure>|
            {
                &&& #[trigger] call_ensures(S::pack_layer_parents, (&pack,), listing)
                &&& listing is Ok <==> layers is Ok
                &&& listing matches Ok(entries) ==> {
                    &&& layers->Ok_0@.len() == entries@.len()
                    &&& forall|i: int|
                        0 <= i < entries@.len() ==> {
                            &&& (#[trigger] layers->Ok_0@[i]).id@ == crate::name::name_text(entries@[i].0@)
                            &&& layers->Ok_0@[i].parent is Some <==> entries@[i].1 is Some
                            &&& entries@[i].1 matches Some(p) ==> layers->Ok_0@[i].parent->0@ == crate::name::name_text(
                                p@,
                            )
                        }
                }
            },
{
    let listing = choose|listing: Result<Vec<(LayerName, Option<LayerName>)>, PackFailure>| #[trigger]
        call_ensures(S::pack_layer_parents, (&pack,), listing) && packed_answer(listing, layers);
    if let Ok(entries) = listing {
        assert forall|i: int| 0 <= i < entries@.len() implies {
            &&& (#[trigger] layers->Ok_0@[i]).id@ == crate::name::name_text(entries@[i].0@)
            &&& layers->Ok_0@[i].parent is Some <==> entries@[i].1 is Some
            &&& entries@[i].1 matches Some(p) ==> layers->Ok_0@[i].parent->0@ == crate::name::name_text(p@)
        } by {
            assert(packed_as(entries@[i], layers->Ok_0@[i]));
        }
    }
    assert(call_ensures(S::pack_layer_parents, (&pack,), listing));
}

} // verus!
