//! What the predicates on layers answer.
//!
//! Each function takes what the terms of a predicate stand for and returns
//! what the predicate unifies with its output, or how it ends otherwise. What
//! is not there is a failure; what could not be read is an exception.
use crate::entry::{ObjectType, TypedDictEntry};
use crate::error::IoError;
use crate::layer::ReadLayer;
use crate::layer_io::LayerIo;
use crate::name::{name_to_string, LayerName};
use crate::prolog::{found_or_fail, into_prolog_result, try_or_die, PrologError, Raised};
use crate::sinks::ErrorSinks;
use terminus_store::store::sync::SyncStoreLayer;
use vstd::prelude::*;
use vstd::string::StringExecFns;

verus! {

// ---- counts ----

pub fn node_and_value_count<H: LayerIo>(layer: &ReadLayer<H>) -> (count: Result<u64, PrologError>)
    ensures
        exists|reply: Result<u64, IoError>| #[trigger]
            layer.node_and_value_count_reply(reply) && count == crate::prolog::or_die(reply),
{
    let reply = layer.try_node_and_value_count();
    try_or_die(reply)
}

pub fn predicate_count<H: LayerIo>(layer: &ReadLayer<H>) -> (count: Result<u64, PrologError>)
    ensures
        exists|reply: Result<u64, IoError>| #[trigger]
            layer.predicate_count_reply(reply) && count == crate::prolog::or_die(reply),
{
    let reply = layer.try_predicate_count();
    try_or_die(reply)
}

/// A count as a predicate answers with it.
pub open spec fn count_answer(reply: Result<usize, IoError>) -> Result<u64, PrologError> {
    match reply {
        Ok(n) => Ok(n as u64),
        Err(e) => Err(PrologError::Exception(Raised::Io(e))),
    }
}

/// Turns a count into an answer, and an error into an exception.
pub fn answer_count(reply: Result<usize, IoError>) -> (count: Result<u64, PrologError>)
    ensures
        count == count_answer(reply),
{
    match reply {
        Ok(n) => Ok(n as u64),
        Err(e) => Err(PrologError::Exception(Raised::Io(e))),
    }
}

pub fn layer_addition_count<H: LayerIo>(layer: &ReadLayer<H>) -> (count: Result<u64, PrologError>)
    ensures
        exists|reply: Result<usize, IoError>| #[trigger]
            layer.triple_layer_addition_count_reply(reply) && count == count_answer(reply),
{
    let reply = layer.triple_layer_addition_count();
    answer_count(reply)
}

pub fn layer_removal_count<H: LayerIo>(layer: &ReadLayer<H>) -> (count: Result<u64, PrologError>)
    ensures
        exists|reply: Result<usize, IoError>| #[trigger]
            layer.triple_layer_removal_count_reply(reply) && count == count_answer(reply),
{
    let reply = layer.triple_layer_removal_count();
    answer_count(reply)
}

pub fn layer_total_addition_count<H: LayerIo>(layer: &ReadLayer<H>) -> (count: Result<u64, PrologError>)
    ensures
        exists|reply: Result<usize, IoError>| #[trigger]
            layer.triple_addition_count_reply(reply) && count == count_answer(reply),
{
    let reply = layer.try_triple_addition_count();
    answer_count(reply)
}

pub fn layer_total_removal_count<H: LayerIo>(layer: &ReadLayer<H>) -> (count: Result<u64, PrologError>)
    ensures
        exists|reply: Result<usize, IoError>| #[trigger]
            layer.triple_removal_count_reply(reply) && count == count_answer(reply),
{
    let reply = layer.try_triple_removal_count();
    answer_count(reply)
}

/// How many triples a layer has; nothing if it claims more removals than
/// additions.
pub fn layer_total_triple_count<H: LayerIo>(layer: &ReadLayer<H>) -> (count: Option<Result<u64, PrologError>>)
    ensures
        count is Some <==> layer.counts_are_consistent(),
        count matches Some(answer) ==> exists|reply: Result<usize, IoError>| #[trigger]
            layer.triple_count_reply(reply) && answer == count_answer(reply),
{
    match layer.checked_triple_count() {
        Some(reply) => {
            assert(layer.triple_count_reply(reply));
            Some(answer_count(reply))
        },
        None => None,
    }
}

pub fn layer_stored_size<H: LayerIo>(layer: &ReadLayer<H>) -> (size: Result<u64, PrologError>)
    ensures
        exists|reply: Result<usize, IoError>| #[trigger]
            layer.stored_size_reply(reply) && size == count_answer(reply),
{
    let reply = layer.try_stored_size();
    answer_count(reply)
}

// ---- names and ids ----

pub fn subject_to_id<H: LayerIo>(layer: &ReadLayer<H>, subject: &str) -> (id: Result<u64, PrologError>)
    ensures
        exists|reply: Result<Option<u64>, IoError>| #[trigger]
            layer.subject_id_reply(subject, reply) && id == crate::prolog::found(reply),
{
    let reply = layer.try_subject_id(subject);
    found_or_fail(reply)
}

pub fn id_to_subject<H: LayerIo>(layer: &ReadLayer<H>, id: u64) -> (subject: Result<String, PrologError>)
    ensures
        exists|reply: Result<Option<String>, IoError>| #[trigger]
            layer.id_subject_reply(id, reply) && subject == crate::prolog::found(reply),
{
    let reply = layer.try_id_subject(id);
    found_or_fail(reply)
}

pub fn predicate_to_id<H: LayerIo>(layer: &ReadLayer<H>, predicate: &str) -> (id: Result<u64, PrologError>)
    ensures
        exists|reply: Result<Option<u64>, IoError>| #[trigger]
            layer.predicate_id_reply(predicate, reply) && id == crate::prolog::found(reply),
{
    let reply = layer.try_predicate_id(predicate);
    found_or_fail(reply)
}

pub fn id_to_predicate<H: LayerIo>(layer: &ReadLayer<H>, id: u64) -> (predicate: Result<String, PrologError>)
    ensures
        exists|reply: Result<Option<String>, IoError>| #[trigger]
            layer.id_predicate_reply(id, reply) && predicate == crate::prolog::found(reply),
{
    let reply = layer.try_id_predicate(id);
    found_or_fail(reply)
}

/// A term where an object is expected: a node, a typed value, a language
/// string, or something else. Making the name or the value out of the term may
/// have failed.
pub enum ObjectTerm<'a> {
    Node(Result<&'a str, PrologError>),
    Value(Result<&'a TypedDictEntry, PrologError>),
    Lang(Result<&'a TypedDictEntry, PrologError>),
    Other,
}

/// What the id of an object may be, given the term for it.
pub open spec fn object_id_answer<'a, H: LayerIo>(
    layer: ReadLayer<H>,
    object: ObjectTerm<'a>,
    id: Result<u64, PrologError>,
) -> bool {
    match object {
        ObjectTerm::Node(Ok(name)) => exists|reply: Result<Option<u64>, IoError>| #[trigger]
            layer.object_node_id_reply(name, reply) && id == crate::prolog::found(reply),
        ObjectTerm::Value(Ok(entry)) => exists|reply: Result<Option<u64>, IoError>| #[trigger]
            layer.object_value_id_reply(entry, reply) && id == crate::prolog::found(reply),
        ObjectTerm::Lang(Ok(entry)) => exists|reply: Result<Option<u64>, IoError>| #[trigger]
            layer.object_value_id_reply(entry, reply) && id == crate::prolog::found(reply),
        ObjectTerm::Node(Err(e)) => id == Err::<u64, PrologError>(e),
        ObjectTerm::Value(Err(e)) => id == Err::<u64, PrologError>(e),
        ObjectTerm::Lang(Err(e)) => id == Err::<u64, PrologError>(e),
        ObjectTerm::Other => id == Err::<u64, PrologError>(PrologError::Exception(Raised::NotAnObject)),
    }
}

pub fn object_to_id<'a, H: LayerIo>(
    layer: &ReadLayer<H>,
    object: ObjectTerm<'a>,
) -> (id: Result<u64, PrologError>)
    ensures
        object_id_answer(*layer, object, id),
{
    match object {
        ObjectTerm::Node(Ok(name)) => {
            let reply = layer.try_object_node_id(name);
            assert(layer.object_node_id_reply(name, reply));
            found_or_fail(reply)
        },
        ObjectTerm::Value(Ok(entry)) => {
            let reply = layer.try_object_value_id(entry);
            assert(layer.object_value_id_reply(entry, reply));
            found_or_fail(reply)
        },
        ObjectTerm::Lang(Ok(entry)) => {
            let reply = layer.try_object_value_id(entry);
            assert(layer.object_value_id_reply(entry, reply));
            found_or_fail(reply)
        },
        ObjectTerm::Node(Err(e)) => Err(e),
        ObjectTerm::Value(Err(e)) => Err(e),
        ObjectTerm::Lang(Err(e)) => Err(e),
        ObjectTerm::Other => Err(PrologError::Exception(Raised::NotAnObject)),
    }
}

pub fn id_to_object<H: LayerIo>(layer: &ReadLayer<H>, id: u64) -> (object: Result<ObjectType, PrologError>)
    ensures
        exists|reply: Result<Option<ObjectType>, IoError>| #[trigger]
            layer.id_object_reply(id, reply) && object == crate::prolog::found(reply),
{
    let reply = layer.try_id_object(id);
    found_or_fail(reply)
}

// ---- layers ----

pub fn parent<H: LayerIo>(
    layer: &ReadLayer<H>,
    sinks: &mut ErrorSinks,
) -> (parent: Result<ReadLayer<H>, PrologError>)
    requires
        layer.sink_of(*old(sinks)),
        old(sinks).issued() < u64::MAX,
    ensures
        exists|reply: Result<Option<ReadLayer<H>>, IoError>| #[trigger]
            layer.parent_reply(*old(sinks), *final(sinks), reply) && parent == crate::prolog::found(reply),
        final(sinks).wf(),
{
    let reply = layer.parent(sinks);
    found_or_fail(reply)
}

/// A layer that was made anew, as a predicate answers with it.
pub open spec fn made<H: LayerIo>(reply: Result<SyncStoreLayer, IoError>) -> Result<ReadLayer<H>, PrologError> {
    match reply {
        Ok(l) => Ok(ReadLayer::Materialized(l)),
        Err(e) => Err(PrologError::Exception(Raised::Io(e))),
    }
}

pub fn squash<H: LayerIo>(layer: &ReadLayer<H>) -> (squashed: Result<ReadLayer<H>, PrologError>)
    ensures
        exists|reply: Result<SyncStoreLayer, IoError>| #[trigger]
            layer.squash_reply(reply) && squashed == made::<H>(reply),
{
    let reply = layer.squash();
    match reply {
        Ok(l) => Ok(ReadLayer::Materialized(l)),
        Err(e) => Err(PrologError::Exception(Raised::Io(e))),
    }
}

pub fn squash_upto<H: LayerIo>(layer: &ReadLayer<H>, upto: &ReadLayer<H>) -> (squashed: Result<
    ReadLayer<H>,
    PrologError,
>)
    ensures
        exists|reply: Result<SyncStoreLayer, IoError>| #[trigger]
            layer.squash_upto_reply(*upto, reply) && squashed == made::<H>(reply),
{
    let reply = layer.squash_upto(upto);
    match reply {
        Ok(l) => Ok(ReadLayer::Materialized(l)),
        Err(e) => Err(PrologError::Exception(Raised::Io(e))),
    }
}

pub fn rollup<H: LayerIo>(layer: &ReadLayer<H>) -> (done: Result<(), PrologError>)
    ensures
        exists|reply: Result<(), IoError>| #[trigger]
            layer.rollup_reply(reply) && done == crate::prolog::or_die(reply),
{
    let reply = layer.rollup();
    try_or_die(reply)
}

pub fn rollup_upto<H: LayerIo>(layer: &ReadLayer<H>, upto: &ReadLayer<H>) -> (done: Result<(), PrologError>)
    ensures
        exists|reply: Result<(), IoError>| #[trigger]
            layer.rollup_upto_reply(*upto, reply) && done == crate::prolog::or_die(reply),
{
    let reply = layer.rollup_upto(upto);
    try_or_die(reply)
}

pub fn imprecise_rollup_upto<H: LayerIo>(
    layer: &ReadLayer<H>,
    upto: &ReadLayer<H>,
) -> (done: Result<(), PrologError>)
    ensures
        exists|reply: Result<(), IoError>| #[trigger]
            layer.imprecise_rollup_upto_reply(*upto, reply) && done == crate::prolog::or_die(reply),
{
    let reply = layer.imprecise_rollup_upto(upto);
    try_or_die(reply)
}

/// The id of a layer: the text of its name.
pub fn layer_to_id<H: LayerIo>(layer: &ReadLayer<H>) -> (id: String)
    ensures
        id@ == crate::name::name_text(layer.layer_name()),
{
    name_to_string(layer.name())
}

/// The texts are those of the names, one by one.
pub open spec fn texts_of(names: Seq<LayerName>, texts: Seq<String>) -> bool {
    &&& texts.len() == names.len()
    &&& forall|i: int| 0 <= i < names.len() ==> (#[trigger] texts[i])@ == crate::name::name_text(names[i]@)
}

/// The texts of names.
pub fn name_strings(names: &Vec<LayerName>) -> (texts: Vec<String>)
    ensures
        texts_of(names@, texts@),
{
    let mut texts: Vec<String> = Vec::new();
    let mut i: usize = 0;
    while i < names.len()
        invariant
            i <= names.len(),
            texts@.len() == i,
            forall|k: int| 0 <= k < i ==> (#[trigger] texts@[k])@ == crate::name::name_text(names@[k]@),
        decreases names.len() - i,
    {
        texts.push(name_to_string(names[i]));
        i = i + 1;
    }
    texts
}

pub fn retrieve_layer_stack_names<H: LayerIo>(layer: &ReadLayer<H>) -> (texts: Result<Vec<String>, PrologError>)
    ensures
        exists|reply: Result<Vec<LayerName>, IoError>| #[trigger]
            layer.layer_stack_names_reply(reply) && match reply {
                Ok(names) => texts matches Ok(ts) && texts_of(names@, ts@),
                Err(e) => texts == Err::<Vec<String>, PrologError>(PrologError::Exception(Raised::Io(e))),
            },
{
    let reply = layer.retrieve_layer_stack_names();
    match reply {
        Ok(names) => Ok(name_strings(&names)),
        Err(e) => Err(PrologError::Exception(Raised::Io(e))),
    }
}

/// Succeeds if two layers are the same layer.
pub fn layer_equals<H: LayerIo>(layer1: &ReadLayer<H>, layer2: &ReadLayer<H>) -> (same: Result<(), PrologError>)
    ensures
        same == (if layer1.layer_name() == layer2.layer_name() {
            Ok::<(), PrologError>(())
        } else {
            Err(PrologError::Failure)
        }),
{
    into_prolog_result(*layer1 == *layer2)
}

/// How a layer is written on a stream.
pub fn layer_blob_text<H: LayerIo>(layer: &ReadLayer<H>) -> (text: String)
    ensures
        text@ == "<layer "@ + crate::name::name_text(layer.layer_name()) + ">"@,
{
    let id = layer_to_id(layer);
    String::from_str("<layer ").concat(id.as_str()).concat(">")
}

// ---- laws ----

/// A count is answered as it is.
pub proof fn a_count_is_answered_as_it_is(reply: Result<usize, IoError>, count: Result<u64, PrologError>)
    requires
        call_ensures(answer_count, (reply,), count),
    ensures
        reply matches Ok(n) ==> (count matches Ok(m) && m == n),
        reply matches Err(e) ==> count == Err::<u64, PrologError>(PrologError::Exception(Raised::Io(e))),
{
}

/// `node_and_value_count` answers with what the layer says.
pub proof fn node_and_value_count_answers_what_the_layer_says<H: LayerIo>(
    layer: ReadLayer<H>,
    answer: Result<u64, PrologError>,
)
    requires
        call_ensures(node_and_value_count::<H>, (&layer,), answer),
    ensures
        exists|reply: Result<u64, IoError>|
            {
                &&& #[trigger] layer.node_and_value_count_reply(reply)
                &&& reply matches Ok(v) ==> answer == Ok::<u64, PrologError>(v)
                &&& reply matches Err(e) ==> answer == Err::<u64, PrologError>(PrologError::Exception(Raised::Io(e)))
            },
{
}

/// `predicate_count` answers with what the layer says.
pub proof fn predicate_count_answers_what_the_layer_says<H: LayerIo>(
    layer: ReadLayer<H>,
    answer: Result<u64, PrologError>,
)
    requires
        call_ensures(predicate_count::<H>, (&layer,), answer),
    ensures
        exists|reply: Result<u64, IoError>|
            {
                &&& #[trigger] layer.predicate_count_reply(reply)
                &&& reply matches Ok(v) ==> answer == Ok::<u64, PrologError>(v)
                &&& reply matches Err(e) ==> answer == Err::<u64, PrologError>(PrologError::Exception(Raised::Io(e)))
            },
{
}

/// `layer_addition_count` answers with what the layer says.
pub proof fn layer_addition_count_answers_what_the_layer_says<H: LayerIo>(
    layer: ReadLayer<H>,
    answer: Result<u64, PrologError>,
)
    requires
        call_ensures(layer_addition_count::<H>, (&layer,), answer),
    ensures
        exists|reply: Result<usize, IoError>|
            {
                &&& #[trigger] layer.triple_layer_addition_count_reply(reply)
                &&& reply matches Ok(n) ==> (answer matches Ok(m) && m == n)
                &&& reply matches Err(e) ==> answer == Err::<u64, PrologError>(PrologError::Exception(Raised::Io(e)))
            },
{
}

/// `layer_removal_count` answers with what the layer says.
pub proof fn layer_removal_count_answers_what_the_layer_says<H: LayerIo>(
    layer: ReadLayer<H>,
    answer: Result<u64, PrologError>,
)
    requires
        call_ensures(layer_removal_count::<H>, (&layer,), answer),
    ensures
        exists|reply: Result<usize, IoError>|
            {
                &&& #[trigger] layer.triple_layer_removal_count_reply(reply)
                &&& reply matches Ok(n) ==> (answer matches Ok(m) && m == n)
                &&& reply matches Err(e) ==> answer == Err::<u64, PrologError>(PrologError::Exception(Raised::Io(e)))
            },
{
}

/// `layer_total_addition_count` answers with what the layer says.
pub proof fn layer_total_addition_count_answers_what_the_layer_says<H: LayerIo>(
    layer: ReadLayer<H>,
    answer: Result<u64, PrologError>,
)
    requires
        call_ensures(layer_total_addition_count::<H>, (&layer,), answer),
    ensures
        exists|reply: Result<usize, IoError>|
            {
                &&& #[trigger] layer.triple_addition_count_reply(reply)
                &&& reply matches Ok(n) ==> (answer matches Ok(m) && m == n)
                &&& reply matches Err(e) ==> answer == Err::<u64, PrologError>(PrologError::Exception(Raised::Io(e)))
            },
{
}

/// `layer_total_removal_count` answers with what the layer says.
pub proof fn layer_total_removal_count_answers_what_the_layer_says<H: LayerIo>(
    layer: ReadLayer<H>,
    answer: Result<u64, PrologError>,
)
    requires
        call_ensures(layer_total_removal_count::<H>, (&layer,), answer),
    ensures
        exists|reply: Result<usize, IoError>|
            {
                &&& #[trigger] layer.triple_removal_count_reply(reply)
                &&& reply matches Ok(n) ==> (answer matches Ok(m) && m == n)
                &&& reply matches Err(e) ==> answer == Err::<u64, PrologError>(PrologError::Exception(Raised::Io(e)))
            },
{
}

/// `layer_stored_size` answers with what the layer says.
pub proof fn layer_stored_size_answers_what_the_layer_says<H: LayerIo>(
    layer: ReadLayer<H>,
    answer: Result<u64, PrologError>,
)
    requires
        call_ensures(layer_stored_size::<H>, (&layer,), answer),
    ensures
        exists|reply: Result<usize, IoError>|
            {
                &&& #[trigger] layer.stored_size_reply(reply)
                &&& reply matches Ok(n) ==> (answer matches Ok(m) && m == n)
                &&& reply matches Err(e) ==> answer == Err::<u64, PrologError>(PrologError::Exception(Raised::Io(e)))
            },
{
}

/// `subject_to_id` answers with what the layer says.
pub proof fn subject_to_id_answers_what_the_layer_says<H: LayerIo>(
    layer: ReadLayer<H>,
    subject: &str,
    answer: Result<u64, PrologError>,
)
    requires
        call_ensures(subject_to_id::<H>, (&layer, subject), answer),
    ensures
        exists|reply: Result<Option<u64>, IoError>|
            {
                &&& #[trigger] layer.subject_id_reply(subject, reply)
                &&& reply matches Ok(Some(v)) ==> answer == Ok::<u64, PrologError>(v)
                &&& reply matches Ok(None) ==> answer == Err::<u64, PrologError>(PrologError::Failure)
                &&& reply matches Err(e) ==> answer == Err::<u64, PrologError>(PrologError::Exception(Raised::Io(e)))
            },
{
}

/// `id_to_subject` answers with what the layer says.
pub proof fn id_to_subject_answers_what_the_layer_says<H: LayerIo>(
    layer: ReadLayer<H>,
    id: u64,
    answer: Result<String, PrologError>,
)
    requires
        call_ensures(id_to_subject::<H>, (&layer, id), answer),
    ensures
        exists|reply: Result<Option<String>, IoError>|
            {
                &&& #[trigger] layer.id_subject_reply(id, reply)
                &&& reply matches Ok(Some(v)) ==> answer == Ok::<String, PrologError>(v)
                &&& reply matches Ok(None) ==> answer == Err::<String, PrologError>(PrologError::Failure)
                &&& reply matches Err(e) ==> answer == Err::<String, PrologError>(PrologError::Exception(Raised::Io(e)))
            },
{
}

/// `predicate_to_id` answers with what the layer says.
pub proof fn predicate_to_id_answers_what_the_layer_says<H: LayerIo>(
    layer: ReadLayer<H>,
    predicate: &str,
    answer: Result<u64, PrologError>,
)
    requires
        call_ensures(predicate_to_id::<H>, (&layer, predicate), answer),
    ensures
        exists|reply: Result<Option<u64>, IoError>|
            {
                &&& #[trigger] layer.predicate_id_reply(predicate, reply)
                &&& reply matches Ok(Some(v)) ==> answer == Ok::<u64, PrologError>(v)
                &&& reply matches Ok(None) ==> answer == Err::<u64, PrologError>(PrologError::Failure)
                &&& reply matches Err(e) ==> answer == Err::<u64, PrologError>(PrologError::Exception(Raised::Io(e)))
            },
{
}

/// `id_to_predicate` answers with what the layer says.
pub proof fn id_to_predicate_answers_what_the_layer_says<H: LayerIo>(
    layer: ReadLayer<H>,
    id: u64,
    answer: Result<String, PrologError>,
)
    requires
        call_ensures(id_to_predicate::<H>, (&layer, id), answer),
    ensures
        exists|reply: Result<Option<String>, IoError>|
            {
                &&& #[trigger] layer.id_predicate_reply(id, reply)
                &&& reply matches Ok(Some(v)) ==> answer == Ok::<String, PrologError>(v)
                &&& reply matches Ok(None) ==> answer == Err::<String, PrologError>(PrologError::Failure)
                &&& reply matches Err(e) ==> answer == Err::<String, PrologError>(PrologError::Exception(Raised::Io(e)))
            },
{
}

/// `id_to_object` answers with what the layer says.
pub proof fn id_to_object_answers_what_the_layer_says<H: LayerIo>(
    layer: ReadLayer<H>,
    id: u64,
    answer: Result<ObjectType, PrologError>,
)
    requires
        call_ensures(id_to_object::<H>, (&layer, id), answer),
    ensures
        exists|reply: Result<Option<ObjectType>, IoError>|
            {
                &&& #[trigger] layer.id_object_reply(id, reply)
                &&& reply matches Ok(Some(v)) ==> answer == Ok::<ObjectType, PrologError>(v)
                &&& reply matches Ok(None) ==> answer == Err::<ObjectType, PrologError>(PrologError::Failure)
                &&& reply matches Err(e) ==> answer == Err::<ObjectType, PrologError>(
                    PrologError::Exception(Raised::Io(e)),
                )
            },
{
}

/// `rollup` answers with what the layer says.
pub proof fn rollup_answers_what_the_layer_says<H: LayerIo>(
    layer: ReadLayer<H>,
    answer: Result<(), PrologError>,
)
    requires
        call_ensures(rollup::<H>, (&layer,), answer),
    ensures
        exists|reply: Result<(), IoError>|
            {
                &&& #[trigger] layer.rollup_reply(reply)
                &&& reply matches Ok(v) ==> answer == Ok::<(), PrologError>(v)
                &&& reply matches Err(e) ==> answer == Err::<(), PrologError>(PrologError::Exception(Raised::Io(e)))
            },
{
}

/// A node goes by its name, and a typed value and a language string by the
/// entry that was made of them. The exception for what is no object is for what
/// is none of these, and where a name or an entry could not be made, that is
/// what ends it.
pub proof fn nodes_values_and_language_strings_are_objects<'a, H: LayerIo>(
    layer: ReadLayer<H>,
    object: ObjectTerm<'a>,
    name: &'a str,
    entry: &'a TypedDictEntry,
    why: PrologError,
    id: Result<u64, PrologError>,
)
    requires
        call_ensures(object_to_id::<H>, (&layer, object), id),
    ensures
        object == ObjectTerm::Node(Ok(name)) ==> exists|reply: Result<Option<u64>, IoError>|
            {
                &&& #[trigger] layer.object_node_id_reply(name, reply)
                &&& reply matches Ok(Some(v)) ==> id == Ok::<u64, PrologError>(v)
                &&& reply matches Ok(None) ==> id == Err::<u64, PrologError>(PrologError::Failure)
                &&& reply matches Err(e) ==> id == Err::<u64, PrologError>(PrologError::Exception(Raised::Io(e)))
            },
        object == ObjectTerm::Value(Ok(entry)) || object == ObjectTerm::Lang(Ok(entry)) ==> exists|
            reply: Result<Option<u64>, IoError>,
        |
            {
                &&& #[trigger] layer.object_value_id_reply(entry, reply)
                &&& reply matches Ok(Some(v)) ==> id == Ok::<u64, PrologError>(v)
                &&& reply matches Ok(None) ==> id == Err::<u64, PrologError>(PrologError::Failure)
                &&& reply matches Err(e) ==> id == Err::<u64, PrologError>(PrologError::Exception(Raised::Io(e)))
            },
        object == ObjectTerm::Node(Err(why)) || object == ObjectTerm::Value(Err(why)) || object == ObjectTerm::Lang(
            Err(why),
        ) ==> id == Err::<u64, PrologError>(why),
        object is Other ==> id == Err::<u64, PrologError>(PrologError::Exception(Raised::NotAnObject)),
{
}

/// What a layer is squashed to is a layer in memory, and is handed on.
pub proof fn a_squashed_layer_is_in_memory<H: LayerIo>(
    layer: ReadLayer<H>,
    upto: ReadLayer<H>,
    squashed: Result<ReadLayer<H>, PrologError>,
    squashed_upto: Result<ReadLayer<H>, PrologError>,
)
    requires
        call_ensures(squash::<H>, (&layer,), squashed),
        call_ensures(squash_upto::<H>, (&layer, &upto), squashed_upto),
    ensures
        exists|reply: Result<SyncStoreLayer, IoError>|
            {
                &&& #[trigger] layer.squash_reply(reply)
                &&& reply matches Ok(l) ==> squashed == Ok::<ReadLayer<H>, PrologError>(ReadLayer::Materialized(l))
                &&& reply matches Err(e) ==> squashed == Err::<ReadLayer<H>, PrologError>(
                    PrologError::Exception(Raised::Io(e)),
                )
            },
        exists|reply: Result<SyncStoreLayer, IoError>|
            {
                &&& #[trigger] layer.squash_upto_reply(upto, reply)
                &&& reply matches Ok(l) ==> squashed_upto == Ok::<ReadLayer<H>, PrologError>(
                    ReadLayer::Materialized(l),
                )
                &&& reply matches Err(e) ==> squashed_upto == Err::<ReadLayer<H>, PrologError>(
                    PrologError::Exception(Raised::Io(e)),
                )
            },
{
}

/// A rollup succeeds if the storage did it, and else raises why it did not.
pub proof fn a_rollup_is_done_or_raises<H: LayerIo>(
    layer: ReadLayer<H>,
    upto: ReadLayer<H>,
    done: Result<(), PrologError>,
    done_imprecisely: Result<(), PrologError>,
)
    requires
        call_ensures(rollup_upto::<H>, (&layer, &upto), done),
        call_ensures(imprecise_rollup_upto::<H>, (&layer, &upto), done_imprecisely),
    ensures
        exists|reply: Result<(), IoError>|
            {
                &&& #[trigger] layer.rollup_upto_reply(upto, reply)
                &&& reply is Ok <==> done is Ok
                &&& reply matches Err(e) ==> done == Err::<(), PrologError>(PrologError::Exception(Raised::Io(e)))
            },
        exists|reply: Result<(), IoError>|
            {
                &&& #[trigger] layer.imprecise_rollup_upto_reply(upto, reply)
                &&& reply is Ok <==> done_imprecisely is Ok
                &&& reply matches Err(e) ==> done_imprecisely == Err::<(), PrologError>(
                    PrologError::Exception(Raised::Io(e)),
                )
            },
{
}

/// The total of a layer is answered exactly if it has no more removals than
/// additions, and as it is.
pub proof fn layer_total_triple_count_answers_what_the_layer_says<H: LayerIo>(
    layer: ReadLayer<H>,
    answer: Option<Result<u64, PrologError>>,
)
    requires
        call_ensures(layer_total_triple_count::<H>, (&layer,), answer),
    ensures
        layer matches ReadLayer::Materialized(l) ==> {
            let additions = crate::stored::stored_triple_addition_count(l);
            let removals = crate::stored::stored_triple_removal_count(l);
            &&& additions >= removals ==> (answer matches Some(Ok(n)) && n + removals == additions)
            &&& additions < removals ==> answer is None
        },
        layer matches ReadLayer::Lazy(d) ==> exists|reply: Result<usize, IoError>|
            {
                &&& #[trigger] layer.triple_count_reply(reply)
                &&& reply matches Ok(n) ==> (answer matches Some(Ok(m)) && m == n)
                &&& reply matches Err(e) ==> answer == Some(
                    Err::<u64, PrologError>(PrologError::Exception(Raised::Io(e))),
                )
            },
{
}

/// The layers that a layer is made of are named in order, each by the text of
/// its name, and all of them.
pub proof fn each_layer_of_a_stack_is_named<H: LayerIo>(
    layer: ReadLayer<H>,
    texts: Result<Vec<String>, PrologError>,
)
    requires
        call_ensures(retrieve_layer_stack_names::<H>, (&layer,), texts),
    ensures
        exists|reply: Result<Vec<LayerName>, IoError>|
            {
                &&& #[trigger] layer.layer_stack_names_reply(reply)
                &&& reply matches Ok(names) ==> {
                    &&& texts matches Ok(ts)
                    &&& ts@.len() == names@.len()
                    &&& forall|i: int|
                        0 <= i < names@.len() ==> (#[trigger] ts@[i])@ == crate::name::name_text(names@[i]@)
                }
                &&& reply matches Err(e) ==> texts == Err::<Vec<String>, PrologError>(
                    PrologError::Exception(Raised::Io(e)),
                )
            },
{
}

/// Two layers are equal exactly if their ids are the same text.
pub proof fn equal_layers_have_equal_ids<H: LayerIo>(
    a: ReadLayer<H>,
    b: ReadLayer<H>,
    same: Result<(), PrologError>,
    id_a: String,
    id_b: String,
)
    requires
        call_ensures(layer_equals::<H>, (&a, &b), same),
        call_ensures(layer_to_id::<H>, (&a,), id_a),
        call_ensures(layer_to_id::<H>, (&b,), id_b),
        a.layer_name().len() == 5,
        b.layer_name().len() == 5,
    ensures
        same == Ok::<(), PrologError>(()) <==> id_a@ == id_b@,
        same == Err::<(), PrologError>(PrologError::Failure) <==> id_a@ != id_b@,
{
    crate::agreement::the_id_tells_layers_apart(a, b);
}

/// A parent is answered with, a layer that has none fails, and an error is
/// raised.
pub proof fn a_layer_without_a_parent_fails<H: LayerIo>(
    layer: ReadLayer<H>,
    sinks: &mut ErrorSinks,
    answer: Result<ReadLayer<H>, PrologError>,
)
    requires
        call_ensures(parent::<H>, (&layer, sinks), answer),
    ensures
        exists|reply: Result<Option<ReadLayer<H>>, IoError>|
            {
                &&& #[trigger] layer.parent_reply(*old(sinks), *final(sinks), reply)
                &&& reply matches Ok(Some(p)) ==> answer == Ok::<ReadLayer<H>, PrologError>(p)
                &&& reply matches Ok(None) ==> answer == Err::<ReadLayer<H>, PrologError>(PrologError::Failure)
                &&& reply matches Err(e) ==> answer == Err::<ReadLayer<H>, PrologError>(
                    PrologError::Exception(Raised::Io(e)),
                )
            },
{
}

/// A layer is written on a stream with its id.
pub proof fn a_layer_is_written_with_its_id<H: LayerIo>(layer: ReadLayer<H>, id: String, text: String)
    requires
        call_ensures(layer_to_id::<H>, (&layer,), id),
        call_ensures(layer_blob_text::<H>, (&layer,), text),
    ensures
        text@ == "<layer "@ + id@ + ">"@,
{
}

} // verus!
