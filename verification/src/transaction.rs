//! What a transaction holds, and the check that ends a query.
//!
//! A transaction is a dictionary with a list of objects for the instance graph
//! and one for the schema graph. An object has the layer that it reads and the
//! builder that it writes. Only the first object of a list counts.
use crate::error::IoError;
use crate::layer::ReadLayer;
use crate::layer_io::LayerIo;
use crate::prolog::{attempt_opt, PrologError, Raised};
use crate::sinks::ErrorSinks;
use vstd::prelude::*;

verus! {

/// One object of a transaction: what looking up its layer and its builder
/// gave. A key that is missing, or holds something else, is a failure.
pub struct GraphObject<L, B> {
    pub read: Result<L, PrologError>,
    pub write: Result<B, PrologError>,
}

/// A transaction: what looking up its two lists gave.
pub struct Transaction<L, B> {
    pub instance_objects: Result<Vec<GraphObject<L, B>>, PrologError>,
    pub schema_objects: Result<Vec<GraphObject<L, B>>, PrologError>,
}

/// A failure is nothing; an exception stays one.
pub open spec fn attempted<T>(result: Result<T, PrologError>) -> Result<Option<T>, PrologError> {
    match result {
        Ok(v) => Ok(Some(v)),
        Err(PrologError::Failure) => Ok(None),
        Err(PrologError::Exception(x)) => Err(PrologError::Exception(x)),
    }
}

/// The layer of the first object. A list that is missing is an error, an empty
/// list or an object without a layer is nothing.
pub open spec fn first_read<L, B>(objects: Result<Vec<GraphObject<L, B>>, PrologError>) -> Result<
    Option<L>,
    PrologError,
> {
    match objects {
        Err(e) => Err(e),
        Ok(list) => if list@.len() == 0 {
            Ok(None)
        } else {
            attempted(list@[0].read)
        },
    }
}

/// The builder of the first object, in the same way.
pub open spec fn first_write<L, B>(objects: Result<Vec<GraphObject<L, B>>, PrologError>) -> Result<
    Option<B>,
    PrologError,
> {
    match objects {
        Err(e) => Err(e),
        Ok(list) => if list@.len() == 0 {
            Ok(None)
        } else {
            attempted(list@[0].write)
        },
    }
}

/// The first object of a list, if it has one.
fn first_object<L, B>(objects: Result<Vec<GraphObject<L, B>>, PrologError>) -> (first: Result<
    Option<GraphObject<L, B>>,
    PrologError,
>)
    ensures
        first == (match objects {
            Err(e) => Err(e),
            Ok(list) => Ok(
                if list@.len() == 0 {
                    None
                } else {
                    Some(list@[0])
                },
            ),
        }),
{
    match objects {
        Err(e) => Err(e),
        Ok(list) => {
            let mut list = list;
            if list.len() == 0 {
                Ok(None)
            } else {
                Ok(Some(list.remove(0)))
            }
        },
    }
}

/// The layer that the instance graph of a transaction reads.
pub fn transaction_instance_layer<L, B>(transaction: Transaction<L, B>) -> (layer: Result<Option<L>, PrologError>)
    ensures
        layer == first_read(transaction.instance_objects),
{
    match first_object(transaction.instance_objects) {
        Err(e) => Err(e),
        Ok(None) => Ok(None),
        Ok(Some(object)) => attempt_opt(object.read),
    }
}

/// The layer that the schema graph of a transaction reads.
pub fn transaction_schema_layer<L, B>(transaction: Transaction<L, B>) -> (layer: Result<Option<L>, PrologError>)
    ensures
        layer == first_read(transaction.schema_objects),
{
    match first_object(transaction.schema_objects) {
        Err(e) => Err(e),
        Ok(None) => Ok(None),
        Ok(Some(object)) => attempt_opt(object.read),
    }
}

/// The builder that the instance graph of a transaction writes.
pub fn transaction_instance_builder<L, B>(transaction: Transaction<L, B>) -> (builder: Result<
    Option<B>,
    PrologError,
>)
    ensures
        builder == first_write(transaction.instance_objects),
{
    match first_object(transaction.instance_objects) {
        Err(e) => Err(e),
        Ok(None) => Ok(None),
        Ok(Some(object)) => attempt_opt(object.write),
    }
}

/// No layer has an error recorded.
pub open spec fn all_clean<H: LayerIo>(layers: Seq<&ReadLayer<H>>, sinks: ErrorSinks) -> bool {
    forall|k: int| 0 <= k < layers.len() ==> (#[trigger] layers[k]).held(sinks) is None
}

/// Layer `k` is the first that has an error recorded.
pub open spec fn first_failed<H: LayerIo>(layers: Seq<&ReadLayer<H>>, sinks: ErrorSinks, k: int) -> bool {
    &&& 0 <= k < layers.len()
    &&& layers[k].held(sinks) is Some
    &&& forall|j: int| 0 <= j < k ==> (#[trigger] layers[j]).held(sinks) is None
}

/// Raises if a read of one of the layers failed.
///
/// Whoever reads layers with reads that cannot report an error calls this
/// before reporting any result. It raises the error of the first layer that has
/// one and takes it; the errors of the layers after it stay where they are. If
/// no layer has one, nothing changes.
pub fn check_diskless_reads<H: LayerIo>(sinks: &mut ErrorSinks, layers: &[&ReadLayer<H>]) -> (checked: Result<
    (),
    PrologError,
>)
    requires
        old(sinks).wf(),
    ensures
        final(sinks).wf(),
        final(sinks).issued() == old(sinks).issued(),
        checked is Ok <==> all_clean(layers@, *old(sinks)),
        match checked {
            Ok(()) => forall|sink: u64| #[trigger] final(sinks).held(sink) == old(sinks).held(sink),
            Err(error) => exists|k: int|
                #![trigger layers@[k]]
                {
                    &&& first_failed(layers@, *old(sinks), k)
                    &&& error == PrologError::Exception(Raised::Io(layers@[k].held(*old(sinks))->0))
                    &&& layers@[k].held(*final(sinks)) is None
                    &&& layers@[k] matches ReadLayer::Lazy(d)
                    &&& final(sinks).differs_only_at(*old(sinks), d.sink())
                },
        },
{
    let mut i: usize = 0;
    while i < layers.len()
        invariant
            i <= layers@.len(),
            sinks.wf(),
            sinks.issued() == old(sinks).issued(),
            forall|sink: u64| #[trigger] sinks.held(sink) == old(sinks).held(sink),
            forall|k: int| 0 <= k < i ==> (#[trigger] layers@[k]).held(*old(sinks)) is None,
        decreases layers@.len() - i,
    {
        let ghost before = *sinks;
        let layer: &ReadLayer<H> = layers[i];
        let error = layer.take_error(sinks);
        assert(layer.held(before) == layer.held(*old(sinks)));
        if let Some(e) = error {
            assert(first_failed(layers@, *old(sinks), i as int));
            return Err(PrologError::Exception(Raised::Io(e)));
        }
        assert forall|sink: u64| #[trigger] sinks.held(sink) == old(sinks).held(sink) by {
            assert(before.held(sink) == old(sinks).held(sink));
        }
        i = i + 1;
    }
    Ok(())
}

// ---- laws ----

/// What a read came to, whatever its value.
pub open spec fn outcome<T>(reply: Result<T, IoError>) -> Result<(), IoError> {
    match reply {
        Ok(_) => Ok(()),
        Err(e) => Err(e),
    }
}

/// What a read records depends on its outcome alone.
pub proof fn the_outcome_is_what_is_recorded<T, H: LayerIo>(
    layer: ReadLayer<H>,
    before: ErrorSinks,
    after: ErrorSinks,
    reply: Result<T, IoError>,
)
    ensures
        layer.records(before, after, reply) <==> layer.records(before, after, outcome(reply)),
{
}

/// The sinks go through `states`, one read of the layer after the other, with
/// those outcomes.
pub open spec fn reads_in_turn<H: LayerIo>(
    layer: ReadLayer<H>,
    states: Seq<ErrorSinks>,
    outcomes: Seq<Result<(), IoError>>,
) -> bool {
    &&& states.len() == outcomes.len() + 1
    &&& forall|i: int|
        0 <= i < outcomes.len() ==> layer.records(states[i], states[i + 1], #[trigger] outcomes[i])
}

proof fn the_sink_follows_the_reads<H: LayerIo>(
    layer: ReadLayer<H>,
    states: Seq<ErrorSinks>,
    outcomes: Seq<Result<(), IoError>>,
)
    requires
        layer is Lazy,
        reads_in_turn(layer, states, outcomes),
    ensures
        layer.held(states.last()) == crate::sinks::after_reads(layer.held(states[0]), outcomes),
    decreases outcomes.len(),
{
    if outcomes.len() > 0 {
        let earlier = outcomes.drop_last();
        let before = states.drop_last();
        assert forall|i: int| 0 <= i < earlier.len() implies layer.records(
            before[i],
            before[i + 1],
            #[trigger] earlier[i],
        ) by {
            assert(earlier[i] == outcomes[i]);
        }
        the_sink_follows_the_reads(layer, before, earlier);
        let last = outcomes.len() - 1;
        assert(layer.records(states[last], states[last + 1], outcomes[last]));
    }
}

/// A query that reads a lazy layer through reads that cannot report an error,
/// from an empty sink, and is checked at the end, is either complete or raises:
/// the check finds nothing exactly if every read succeeded, and otherwise finds
/// the error of the first that failed.
pub proof fn a_query_is_complete_or_raises<H: LayerIo>(
    layer: ReadLayer<H>,
    states: Seq<ErrorSinks>,
    outcomes: Seq<Result<(), IoError>>,
)
    requires
        layer is Lazy,
        reads_in_turn(layer, states, outcomes),
        layer.held(states[0]) is None,
    ensures
        match layer.held(states.last()) {
            None => forall|i: int| 0 <= i < outcomes.len() ==> (#[trigger] outcomes[i]) is Ok,
            Some(e) => exists|i: int|
                0 <= i < outcomes.len() && #[trigger] outcomes[i] == Err::<(), IoError>(e) && forall|j: int|
                    0 <= j < i ==> (#[trigger] outcomes[j]) is Ok,
        },
{
    the_sink_follows_the_reads(layer, states, outcomes);
    crate::sinks::the_first_failed_read_is_kept(outcomes);
}

/// Two lazy layers have the same sink, as clones do.
pub open spec fn share_a_sink<H: LayerIo>(a: ReadLayer<H>, b: ReadLayer<H>) -> bool {
    match (a, b) {
        (ReadLayer::Lazy(x), ReadLayer::Lazy(y)) => x.sink() == y.sink(),
        _ => false,
    }
}

/// The sinks go through `states`, one read after the other, each of some layer
/// and with some outcome.
pub open spec fn query_reads<H: LayerIo>(
    states: Seq<ErrorSinks>,
    reads: Seq<(ReadLayer<H>, Result<(), IoError>)>,
) -> bool {
    &&& states.len() == reads.len() + 1
    &&& forall|i: int|
        0 <= i < reads.len() ==> (#[trigger] reads[i]).0.records(states[i], states[i + 1], reads[i].1)
}

proof fn a_recorded_error_stays<H: LayerIo>(
    states: Seq<ErrorSinks>,
    reads: Seq<(ReadLayer<H>, Result<(), IoError>)>,
    layer: ReadLayer<H>,
    from: int,
    to: int,
)
    requires
        query_reads(states, reads),
        0 <= from <= to < states.len(),
        layer.held(states[from]) is Some,
    ensures
        layer.held(states[to]) is Some,
    decreases to - from,
{
    if from < to {
        let read = reads[from];
        assert(read.0.records(states[from], states[from + 1], read.1));
        a_recorded_error_stays(states, reads, layer, from + 1, to);
    }
}

/// A query that reads any number of layers, in any order, through reads that
/// cannot report an error is complete if the check of those layers finds
/// nothing: then every read of a lazy layer succeeded.
pub proof fn a_checked_query_is_complete<H: LayerIo>(
    layers: Seq<&ReadLayer<H>>,
    states: Seq<ErrorSinks>,
    reads: Seq<(ReadLayer<H>, Result<(), IoError>)>,
    i: int,
)
    requires
        query_reads(states, reads),
        all_clean(layers, states.last()),
        0 <= i < reads.len(),
        exists|k: int| 0 <= k < layers.len() && share_a_sink(reads[i].0, *#[trigger] layers[k]),
    ensures
        reads[i].1 is Ok,
{
    let k = choose|k: int| 0 <= k < layers.len() && share_a_sink(reads[i].0, *#[trigger] layers[k]);
    let read = reads[i];
    assert(read.0.records(states[i], states[i + 1], read.1));
    if read.1 is Err {
        a_recorded_error_stays(states, reads, *layers[k], i + 1, states.len() - 1);
    }
}

/// The check raises nothing that did not happen: if the layers were clean
/// before a query and no read failed, they are clean after it.
pub proof fn a_query_without_failed_reads_passes<H: LayerIo>(
    layers: Seq<&ReadLayer<H>>,
    states: Seq<ErrorSinks>,
    reads: Seq<(ReadLayer<H>, Result<(), IoError>)>,
)
    requires
        query_reads(states, reads),
        all_clean(layers, states[0]),
        forall|i: int| 0 <= i < reads.len() ==> (#[trigger] reads[i]).1 is Ok,
    ensures
        all_clean(layers, states.last()),
    decreases reads.len(),
{
    if reads.len() > 0 {
        let first = reads[0];
        assert(first.0.records(states[0], states[1], first.1));
        let later_states = states.drop_first();
        let later_reads = reads.drop_first();
        assert(all_clean(layers, states[1])) by {
            assert forall|k: int| 0 <= k < layers.len() implies (#[trigger] layers[k]).held(states[1]) is None by {
                assert(layers[k].held(states[0]) is None);
            }
        }
        assert forall|i: int| 0 <= i < later_reads.len() implies (#[trigger] later_reads[i]).0.records(
            later_states[i],
            later_states[i + 1],
            later_reads[i].1,
        ) && later_reads[i].1 is Ok by {
            assert(later_reads[i] == reads[i + 1]);
        }
        a_query_without_failed_reads_passes(layers, later_states, later_reads);
        assert(later_states.last() == states.last());
    }
}

/// Whatever is read of one layer, the sink of a layer with another sink holds
/// what it held.
pub proof fn layers_do_not_share_errors<T, H: LayerIo>(
    layer: ReadLayer<H>,
    other: ReadLayer<H>,
    before: ErrorSinks,
    after: ErrorSinks,
    reply: Result<T, IoError>,
)
    requires
        layer.records(before, after, reply),
        match (layer, other) {
            (ReadLayer::Lazy(a), ReadLayer::Lazy(b)) => a.sink() != b.sink(),
            _ => true,
        },
    ensures
        other.held(after) == other.held(before),
{
}

/// Clones share their errors: what is recorded through one is found through
/// the other.
pub proof fn clones_share_errors<H: LayerIo>(
    layer: crate::layer::DisklessLayer<H>,
    copy: crate::layer::DisklessLayer<H>,
    sinks: ErrorSinks,
)
    requires
        call_ensures(crate::layer::DisklessLayer::<H>::clone, (&layer,), copy),
    ensures
        ReadLayer::Lazy(copy).held(sinks) == ReadLayer::Lazy(layer).held(sinks),
{
}

/// The check has nothing to do for materialized layers.
pub proof fn materialized_layers_are_clean<H: LayerIo>(layers: Seq<&ReadLayer<H>>, sinks: ErrorSinks)
    requires
        forall|k: int| 0 <= k < layers.len() ==> (#[trigger] *layers[k]) is Materialized,
    ensures
        all_clean(layers, sinks),
{
}

/// A materialized layer never has an error recorded, and no read of it changes
/// any sink.
pub proof fn a_materialized_layer_records_nothing<T, H: LayerIo>(
    layer: ReadLayer<H>,
    before: ErrorSinks,
    after: ErrorSinks,
    reply: Result<T, IoError>,
)
    requires
        layer is Materialized,
        layer.records(before, after, reply),
    ensures
        layer.held(after) is None,
        after == before,
{
}

/// The layer of the instance graph is that of the first object, whatever objects
/// follow. There is none exactly if there is no object, or looking up the layer
/// of the first one fails. What raises is raised.
pub proof fn transaction_instance_layer_is_that_of_the_first_object<L, B>(
    transaction: Transaction<L, B>,
    list: Vec<GraphObject<L, B>>,
    first: GraphObject<L, B>,
    rest: Seq<GraphObject<L, B>>,
    answer: Result<Option<L>, PrologError>,
)
    requires
        call_ensures(transaction_instance_layer::<L, B>, (transaction,), answer),
        transaction.instance_objects == Ok::<Vec<GraphObject<L, B>>, PrologError>(list),
    ensures
        list@ == seq![first] + rest ==> {
            &&& first.read matches Ok(found) ==> answer == Ok::<Option<L>, PrologError>(Some(found))
            &&& first.read == Err::<L, PrologError>(PrologError::Failure) ==> answer == Ok::<
                Option<L>,
                PrologError,
            >(None)
            &&& first.read matches Err(PrologError::Exception(x)) ==> answer == Err::<Option<L>, PrologError>(
                PrologError::Exception(x),
            )
        },
        answer == Ok::<Option<L>, PrologError>(None) <==> list@.len() == 0 || list@[0].read == Err::<
            L,
            PrologError,
        >(PrologError::Failure),
{
    if list@ == seq![first] + rest {
        assert(list@[0] == first);
        assert(list@.len() > 0);
    }
}

/// A list that cannot be looked up ends it as it ended the lookup.
pub proof fn transaction_instance_layer_needs_the_list<L, B>(
    transaction: Transaction<L, B>,
    why: PrologError,
    answer: Result<Option<L>, PrologError>,
)
    requires
        call_ensures(transaction_instance_layer::<L, B>, (transaction,), answer),
        transaction.instance_objects == Err::<Vec<GraphObject<L, B>>, PrologError>(why),
    ensures
        answer == Err::<Option<L>, PrologError>(why),
{
}

/// So is the layer of the schema graph.
pub proof fn transaction_schema_layer_is_that_of_the_first_object<L, B>(
    transaction: Transaction<L, B>,
    list: Vec<GraphObject<L, B>>,
    first: GraphObject<L, B>,
    rest: Seq<GraphObject<L, B>>,
    answer: Result<Option<L>, PrologError>,
)
    requires
        call_ensures(transaction_schema_layer::<L, B>, (transaction,), answer),
        transaction.schema_objects == Ok::<Vec<GraphObject<L, B>>, PrologError>(list),
    ensures
        list@ == seq![first] + rest ==> {
            &&& first.read matches Ok(found) ==> answer == Ok::<Option<L>, PrologError>(Some(found))
            &&& first.read == Err::<L, PrologError>(PrologError::Failure) ==> answer == Ok::<
                Option<L>,
                PrologError,
            >(None)
            &&& first.read matches Err(PrologError::Exception(x)) ==> answer == Err::<Option<L>, PrologError>(
                PrologError::Exception(x),
            )
        },
        answer == Ok::<Option<L>, PrologError>(None) <==> list@.len() == 0 || list@[0].read == Err::<
            L,
            PrologError,
        >(PrologError::Failure),
{
    if list@ == seq![first] + rest {
        assert(list@[0] == first);
        assert(list@.len() > 0);
    }
}

/// A list that cannot be looked up ends it as it ended the lookup.
pub proof fn transaction_schema_layer_needs_the_list<L, B>(
    transaction: Transaction<L, B>,
    why: PrologError,
    answer: Result<Option<L>, PrologError>,
)
    requires
        call_ensures(transaction_schema_layer::<L, B>, (transaction,), answer),
        transaction.schema_objects == Err::<Vec<GraphObject<L, B>>, PrologError>(why),
    ensures
        answer == Err::<Option<L>, PrologError>(why),
{
}

/// So is the builder of the instance graph.
pub proof fn transaction_instance_builder_is_that_of_the_first_object<L, B>(
    transaction: Transaction<L, B>,
    list: Vec<GraphObject<L, B>>,
    first: GraphObject<L, B>,
    rest: Seq<GraphObject<L, B>>,
    answer: Result<Option<B>, PrologError>,
)
    requires
        call_ensures(transaction_instance_builder::<L, B>, (transaction,), answer),
        transaction.instance_objects == Ok::<Vec<GraphObject<L, B>>, PrologError>(list),
    ensures
        list@ == seq![first] + rest ==> {
            &&& first.write matches Ok(found) ==> answer == Ok::<Option<B>, PrologError>(Some(found))
            &&& first.write == Err::<B, PrologError>(PrologError::Failure) ==> answer == Ok::<
                Option<B>,
                PrologError,
            >(None)
            &&& first.write matches Err(PrologError::Exception(x)) ==> answer == Err::<Option<B>, PrologError>(
                PrologError::Exception(x),
            )
        },
        answer == Ok::<Option<B>, PrologError>(None) <==> list@.len() == 0 || list@[0].write == Err::<
            B,
            PrologError,
        >(PrologError::Failure),
{
    if list@ == seq![first] + rest {
        assert(list@[0] == first);
        assert(list@.len() > 0);
    }
}

/// A list that cannot be looked up ends it as it ended the lookup.
pub proof fn transaction_instance_builder_needs_the_list<L, B>(
    transaction: Transaction<L, B>,
    why: PrologError,
    answer: Result<Option<B>, PrologError>,
)
    requires
        call_ensures(transaction_instance_builder::<L, B>, (transaction,), answer),
        transaction.instance_objects == Err::<Vec<GraphObject<L, B>>, PrologError>(why),
    ensures
        answer == Err::<Option<B>, PrologError>(why),
{
}

/// The check raises the error of the first layer that has one, takes that one
/// and leaves the others. It raises nothing, and changes nothing, if no layer
/// has one.
pub proof fn the_check_raises_what_was_recorded_first<H: LayerIo>(
    sinks: &mut ErrorSinks,
    layers: &[&ReadLayer<H>],
    checked: Result<(), PrologError>,
)
    requires
        call_ensures(check_diskless_reads::<H>, (sinks, layers), checked),
    ensures
        checked is Ok <==> forall|k: int| 0 <= k < layers@.len() ==> (#[trigger] layers@[k]).held(*old(sinks)) is None,
        checked is Ok ==> forall|sink: u64| #[trigger] final(sinks).held(sink) == old(sinks).held(sink),
        checked is Err ==> exists|k: int|
            #![trigger layers@[k]]
            {
                &&& 0 <= k < layers@.len()
                &&& layers@[k] matches ReadLayer::Lazy(d)
                &&& old(sinks).held(d.sink()) matches Some(e)
                &&& checked == Err::<(), PrologError>(PrologError::Exception(Raised::Io(e)))
                &&& forall|j: int| 0 <= j < k ==> (#[trigger] layers@[j]).held(*old(sinks)) is None
                &&& final(sinks).held(d.sink()) is None
                &&& forall|sink: u64| sink != d.sink() ==> #[trigger] final(sinks).held(sink) == old(sinks).held(sink)
            },
{
}

} // verus!
