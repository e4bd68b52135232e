//! Queries for triples.
//!
//! A query binds any of the three ids of a triple. From what it binds follows
//! which read of the layer answers it, and what is left to be filtered out of
//! the answer. The solutions are then handed out one by one.
use crate::error::IoError;
use crate::layer::ReadLayer;
use crate::layer_io::LayerIo;
use crate::prolog::{try_or_die, PrologError, Raised};
use crate::triple::IdTriple;
use vstd::prelude::*;

verus! {

/// The ids that a query binds.
#[derive(Clone, Copy, Debug, PartialEq, Eq, Structural)]
pub struct TriplePattern {
    pub subject: Option<u64>,
    pub predicate: Option<u64>,
    pub object: Option<u64>,
}

/// A triple has every id that the query binds.
pub open spec fn agrees(pattern: TriplePattern, triple: IdTriple) -> bool {
    &&& pattern.subject matches Some(s) ==> triple.subject == s
    &&& pattern.predicate matches Some(p) ==> triple.predicate == p
    &&& pattern.object matches Some(o) ==> triple.object == o
}

/// Which triples of a layer a query is about.
#[derive(Clone, Copy, Debug, PartialEq, Eq, Structural)]
pub enum TripleSource {
    /// The triples of the layer.
    Current,
    /// The triples that the layer itself adds.
    Additions,
    /// The triples that the layer itself removes.
    Removals,
}

/// The read that answers a query.
#[derive(Clone, Copy, Debug, PartialEq, Eq, Structural)]
pub enum TripleRead {
    Exists { subject: u64, predicate: u64, object: u64 },
    SubjectPredicate { subject: u64, predicate: u64 },
    Subject { subject: u64 },
    Object { object: u64 },
    Predicate { predicate: u64 },
    All,
}

/// Which read answers a query: the most selective one that there is. There is
/// none for a subject and an object, nor for an object and a predicate.
pub open spec fn read_for(pattern: TriplePattern) -> TripleRead {
    match (pattern.subject, pattern.predicate, pattern.object) {
        (Some(subject), Some(predicate), Some(object)) => TripleRead::Exists { subject, predicate, object },
        (Some(subject), Some(predicate), None) => TripleRead::SubjectPredicate { subject, predicate },
        (Some(subject), None, _) => TripleRead::Subject { subject },
        (None, _, Some(object)) => TripleRead::Object { object },
        (None, Some(predicate), None) => TripleRead::Predicate { predicate },
        (None, None, None) => TripleRead::All,
    }
}

/// What the read did not see to: a triple has the object, if the read went by
/// the subject, or the predicate, if it went by the object.
pub open spec fn keeps(pattern: TriplePattern, triple: IdTriple) -> bool {
    match (pattern.subject, pattern.predicate, pattern.object) {
        (Some(_), None, Some(object)) => triple.object == object,
        (None, Some(predicate), Some(_)) => triple.predicate == predicate,
        _ => true,
    }
}

/// The solutions of a query, from the triples that the read returned.
pub open spec fn solutions(pattern: TriplePattern, triples: Seq<IdTriple>) -> Seq<IdTriple> {
    triples.filter(|triple: IdTriple| keeps(pattern, triple))
}

impl TriplePattern {
    pub fn new(subject: Option<u64>, predicate: Option<u64>, object: Option<u64>) -> (pattern: TriplePattern)
        ensures
            pattern == (TriplePattern { subject, predicate, object }),
    {
        TriplePattern { subject, predicate, object }
    }

    /// Which read answers the query.
    pub fn read(&self) -> (read: TripleRead)
        ensures
            read == read_for(*self),
    {
        match (self.subject, self.predicate, self.object) {
            (Some(subject), Some(predicate), Some(object)) => TripleRead::Exists { subject, predicate, object },
            (Some(subject), Some(predicate), None) => TripleRead::SubjectPredicate { subject, predicate },
            (Some(subject), None, _) => TripleRead::Subject { subject },
            (None, _, Some(object)) => TripleRead::Object { object },
            (None, Some(predicate), None) => TripleRead::Predicate { predicate },
            (None, None, None) => TripleRead::All,
        }
    }

    /// Whether a triple that the read returned is a solution.
    pub fn keeps(&self, triple: &IdTriple) -> (kept: bool)
        ensures
            kept == keeps(*self, *triple),
    {
        match (self.subject, self.predicate, self.object) {
            (Some(_), None, Some(object)) => triple.object == object,
            (None, Some(predicate), Some(_)) => triple.predicate == predicate,
            _ => true,
        }
    }

    /// The solutions among the triples that the read returned, in their order.
    pub fn solutions(&self, triples: &Vec<IdTriple>) -> (kept: Vec<IdTriple>)
        ensures
            kept@ == solutions(*self, triples@),
    {
        let ghost keep = |triple: IdTriple| keeps(*self, triple);
        let mut kept: Vec<IdTriple> = Vec::new();
        let mut i: usize = 0;
        assert(triples@.take(0).filter(keep) =~= Seq::<IdTriple>::empty()) by {
            reveal(Seq::filter);
        }
        while i < triples.len()
            invariant
                i <= triples.len(),
                keep == (|triple: IdTriple| keeps(*self, triple)),
                kept@ == triples@.take(i as int).filter(keep),
            decreases triples.len() - i,
        {
            proof {
                reveal(Seq::filter);
                let longer = triples@.take(i + 1);
                assert(longer.drop_last() =~= triples@.take(i as int));
                assert(longer.last() == triples@[i as int]);
            }
            if self.keeps(&triples[i]) {
                kept.push(triples[i]);
            }
            i = i + 1;
        }
        assert(triples@.take(i as int) =~= triples@);
        kept
    }
}

/// The solutions of a query that are still to be handed out.
pub struct TripleCursor {
    triples: Vec<IdTriple>,
    next: usize,
}

impl TripleCursor {
    #[verifier::type_invariant]
    spec fn in_range(self) -> bool {
        self.next <= self.triples@.len()
    }

    /// What is still to be handed out.
    pub closed spec fn remaining(self) -> Seq<IdTriple> {
        self.triples@.skip(self.next as int)
    }

    /// Hands out all the triples, from the first.
    pub fn new(triples: Vec<IdTriple>) -> (cursor: TripleCursor)
        ensures
            cursor.remaining() == triples@,
    {
        assert(triples@.skip(0) =~= triples@);
        TripleCursor { triples, next: 0 }
    }

    /// Hands out the next solution, and says whether there are more. Fails
    /// where there is none.
    pub fn next_solution(&mut self) -> (solution: Result<(IdTriple, bool), PrologError>)
        ensures
            old(self).remaining().len() == 0 ==> solution == Err::<(IdTriple, bool), PrologError>(
                PrologError::Failure,
            ) && final(self).remaining() == old(self).remaining(),
            old(self).remaining().len() > 0 ==> solution == Ok::<(IdTriple, bool), PrologError>(
                (old(self).remaining()[0], old(self).remaining().len() > 1),
            ) && final(self).remaining() == old(self).remaining().skip(1),
    {
        proof {
            use_type_invariant(&*self);
        }
        if self.next < self.triples.len() {
            let triple = self.triples[self.next];
            assert(old(self).remaining().skip(1) =~= self.triples@.skip(self.next + 1));
            self.next = self.next + 1;
            Ok((triple, self.next < self.triples.len()))
        } else {
            Err(PrologError::Failure)
        }
    }
}

/// How the start of a query ends: it succeeds at once, or with solutions to
/// hand out, or not.
pub open spec fn started(start: Result<Option<TripleCursor>, PrologError>) -> Result<
    Option<Seq<IdTriple>>,
    PrologError,
> {
    match start {
        Ok(Some(cursor)) => Ok(Some(cursor.remaining())),
        Ok(None) => Ok(None),
        Err(e) => Err(e),
    }
}

/// How a query with everything bound starts: it succeeds if the triple is
/// there and fails if it is not. That it could not be read is an exception.
pub open spec fn exists_start(reply: Result<bool, IoError>) -> Result<Option<Seq<IdTriple>>, PrologError> {
    match reply {
        Ok(true) => Ok(None),
        Ok(false) => Err(PrologError::Failure),
        Err(e) => Err(PrologError::Exception(Raised::Io(e))),
    }
}

/// How any other query starts: with its solutions, of which there may be
/// none. That they could not be read is an exception.
pub open spec fn triples_start(pattern: TriplePattern, reply: Result<Vec<IdTriple>, IoError>) -> Result<
    Option<Seq<IdTriple>>,
    PrologError,
> {
    match reply {
        Ok(triples) => Ok(Some(solutions(pattern, triples@))),
        Err(e) => Err(PrologError::Exception(Raised::Io(e))),
    }
}

/// Starts a query with everything bound, from the reply of the layer.
pub fn start_exists(reply: Result<bool, IoError>) -> (start: Result<Option<TripleCursor>, PrologError>)
    ensures
        started(start) == exists_start(reply),
{
    match try_or_die(reply) {
        Ok(true) => Ok(None),
        Ok(false) => Err(PrologError::Failure),
        Err(e) => Err(e),
    }
}

/// Starts any other query, from the reply of the layer.
pub fn start_triples(pattern: &TriplePattern, reply: Result<Vec<IdTriple>, IoError>) -> (start: Result<
    Option<TripleCursor>,
    PrologError,
>)
    ensures
        started(start) == triples_start(*pattern, reply),
{
    match try_or_die(reply) {
        Ok(triples) => Ok(Some(TripleCursor::new(pattern.solutions(&triples)))),
        Err(e) => Err(e),
    }
}

impl<H: LayerIo> ReadLayer<H> {
    /// What the layer may answer to whether a triple is there.
    pub open spec fn exists_reply(
        self,
        source: TripleSource,
        subject: u64,
        predicate: u64,
        object: u64,
        reply: Result<bool, IoError>,
    ) -> bool {
        match source {
            TripleSource::Current => self.triple_exists_reply(subject, predicate, object, reply),
            TripleSource::Additions => self.triple_addition_exists_reply(subject, predicate, object, reply),
            TripleSource::Removals => self.triple_removal_exists_reply(subject, predicate, object, reply),
        }
    }

    /// What the layer may answer to a read for triples.
    pub open spec fn read_reply(
        self,
        source: TripleSource,
        read: TripleRead,
        reply: Result<Vec<IdTriple>, IoError>,
    ) -> bool {
        match (source, read) {
            (_, TripleRead::Exists { .. }) => false,
            (TripleSource::Current, TripleRead::SubjectPredicate { subject, predicate }) => self.triples_sp_reply(
                subject,
                predicate,
                reply,
            ),
            (TripleSource::Current, TripleRead::Subject { subject }) => self.triples_s_reply(subject, reply),
            (TripleSource::Current, TripleRead::Object { object }) => self.triples_o_reply(object, reply),
            (TripleSource::Current, TripleRead::Predicate { predicate }) => self.triples_p_reply(predicate, reply),
            (TripleSource::Current, TripleRead::All) => self.triples_reply(reply),
            (
                TripleSource::Additions,
                TripleRead::SubjectPredicate { subject, predicate },
            ) => self.triple_additions_sp_reply(subject, predicate, reply),
            (TripleSource::Additions, TripleRead::Subject { subject }) => self.triple_additions_s_reply(subject, reply),
            (TripleSource::Additions, TripleRead::Object { object }) => self.triple_additions_o_reply(object, reply),
            (TripleSource::Additions, TripleRead::Predicate { predicate }) => self.triple_additions_p_reply(
                predicate,
                reply,
            ),
            (TripleSource::Additions, TripleRead::All) => self.triple_additions_reply(reply),
            (
                TripleSource::Removals,
                TripleRead::SubjectPredicate { subject, predicate },
            ) => self.triple_removals_sp_reply(subject, predicate, reply),
            (TripleSource::Removals, TripleRead::Subject { subject }) => self.triple_removals_s_reply(subject, reply),
            (TripleSource::Removals, TripleRead::Object { object }) => self.triple_removals_o_reply(object, reply),
            (TripleSource::Removals, TripleRead::Predicate { predicate }) => self.triple_removals_p_reply(
                predicate,
                reply,
            ),
            (TripleSource::Removals, TripleRead::All) => self.triple_removals_reply(reply),
        }
    }

    /// How a query on the layer may start.
    pub open spec fn query_reply(
        self,
        source: TripleSource,
        pattern: TriplePattern,
        start: Result<Option<TripleCursor>, PrologError>,
    ) -> bool {
        match read_for(pattern) {
            TripleRead::Exists { subject, predicate, object } => exists|reply: Result<bool, IoError>| #[trigger]
                self.exists_reply(source, subject, predicate, object, reply) && started(start) == exists_start(
                    reply,
                ),
            read => exists|reply: Result<Vec<IdTriple>, IoError>| #[trigger]
                self.read_reply(source, read, reply) && started(start) == triples_start(pattern, reply),
        }
    }

    /// Starts a query on the layer.
    fn query(
        &self,
        source: TripleSource,
        pattern: &TriplePattern,
    ) -> (start: Result<Option<TripleCursor>, PrologError>)
        ensures
            self.query_reply(source, *pattern, start),
    {
        let read = pattern.read();
        let reply = match (source, read) {
            (TripleSource::Current, TripleRead::Exists { subject, predicate, object }) => {
                let reply = self.try_triple_exists(subject, predicate, object);
                assert(self.exists_reply(source, subject, predicate, object, reply));
                return start_exists(reply);
            },
            (TripleSource::Additions, TripleRead::Exists { subject, predicate, object }) => {
                let reply = self.triple_addition_exists(subject, predicate, object);
                assert(self.exists_reply(source, subject, predicate, object, reply));
                return start_exists(reply);
            },
            (TripleSource::Removals, TripleRead::Exists { subject, predicate, object }) => {
                let reply = self.triple_removal_exists(subject, predicate, object);
                assert(self.exists_reply(source, subject, predicate, object, reply));
                return start_exists(reply);
            },
            (TripleSource::Current, TripleRead::SubjectPredicate { subject, predicate }) => self.try_triples_sp(
                subject,
                predicate,
            ),
            (TripleSource::Current, TripleRead::Subject { subject }) => self.try_triples_s(subject),
            (TripleSource::Current, TripleRead::Object { object }) => self.try_triples_o(object),
            (TripleSource::Current, TripleRead::Predicate { predicate }) => self.try_triples_p(predicate),
            (TripleSource::Current, TripleRead::All) => self.try_triples(),
            (
                TripleSource::Additions,
                TripleRead::SubjectPredicate { subject, predicate },
            ) => self.triple_additions_sp(subject, predicate),
            (TripleSource::Additions, TripleRead::Subject { subject }) => self.triple_additions_s(subject),
            (TripleSource::Additions, TripleRead::Object { object }) => self.triple_additions_o(object),
            (TripleSource::Additions, TripleRead::Predicate { predicate }) => self.triple_additions_p(predicate),
            (TripleSource::Additions, TripleRead::All) => self.triple_additions(),
            (
                TripleSource::Removals,
                TripleRead::SubjectPredicate { subject, predicate },
            ) => self.triple_removals_sp(subject, predicate),
            (TripleSource::Removals, TripleRead::Subject { subject }) => self.triple_removals_s(subject),
            (TripleSource::Removals, TripleRead::Object { object }) => self.triple_removals_o(object),
            (TripleSource::Removals, TripleRead::Predicate { predicate }) => self.triple_removals_p(predicate),
            (TripleSource::Removals, TripleRead::All) => self.triple_removals(),
        };
        assert(self.read_reply(source, read, reply));
        start_triples(pattern, reply)
    }
}

/// Starts a query for the triples of a layer.
pub fn id_triple<H: LayerIo>(layer: &ReadLayer<H>, pattern: &TriplePattern) -> (start: Result<
    Option<TripleCursor>,
    PrologError,
>)
    ensures
        layer.query_reply(TripleSource::Current, *pattern, start),
{
    layer.query(TripleSource::Current, pattern)
}

/// Starts a query for the triples that a layer itself adds.
pub fn id_triple_addition<H: LayerIo>(layer: &ReadLayer<H>, pattern: &TriplePattern) -> (start: Result<
    Option<TripleCursor>,
    PrologError,
>)
    ensures
        layer.query_reply(TripleSource::Additions, *pattern, start),
{
    layer.query(TripleSource::Additions, pattern)
}

/// Starts a query for the triples that a layer itself removes.
pub fn id_triple_removal<H: LayerIo>(layer: &ReadLayer<H>, pattern: &TriplePattern) -> (start: Result<
    Option<TripleCursor>,
    PrologError,
>)
    ensures
        layer.query_reply(TripleSource::Removals, *pattern, start),
{
    layer.query(TripleSource::Removals, pattern)
}

/// The number of solutions among the triples of a reply.
pub open spec fn solution_count(pattern: TriplePattern, reply: Result<Vec<IdTriple>, IoError>) -> Result<
    int,
    PrologError,
> {
    match reply {
        Ok(triples) => Ok(solutions(pattern, triples@).len() as int),
        Err(e) => Err(PrologError::Exception(Raised::Io(e))),
    }
}

/// A count as a number.
pub open spec fn counted(count: Result<u64, PrologError>) -> Result<int, PrologError> {
    match count {
        Ok(n) => Ok(n as int),
        Err(e) => Err(e),
    }
}

/// Counts the solutions among the triples of a reply.
pub fn count_solutions(pattern: &TriplePattern, reply: Result<Vec<IdTriple>, IoError>) -> (count: Result<
    u64,
    PrologError,
>)
    ensures
        counted(count) == solution_count(*pattern, reply),
{
    match try_or_die(reply) {
        Ok(triples) => Ok(pattern.solutions(&triples).len() as u64),
        Err(e) => Err(e),
    }
}

/// How many triples of a layer have a subject and a predicate.
pub fn sp_card<H: LayerIo>(
    layer: &ReadLayer<H>,
    subject: u64,
    predicate: u64,
) -> (count: Result<u64, PrologError>)
    ensures
        exists|reply: Result<Vec<IdTriple>, IoError>| #[trigger]
            layer.triples_sp_reply(subject, predicate, reply) && counted(count) == solution_count(
                TriplePattern { subject: Some(subject), predicate: Some(predicate), object: None },
                reply,
            ),
{
    let reply = layer.try_triples_sp(subject, predicate);
    count_solutions(&TriplePattern::new(Some(subject), Some(predicate), None), reply)
}

/// How many triples of a layer have an object and a predicate.
pub fn op_card<H: LayerIo>(
    layer: &ReadLayer<H>,
    object: u64,
    predicate: u64,
) -> (count: Result<u64, PrologError>)
    ensures
        exists|reply: Result<Vec<IdTriple>, IoError>| #[trigger]
            layer.triples_o_reply(object, reply) && counted(count) == solution_count(
                TriplePattern { subject: None, predicate: Some(predicate), object: Some(object) },
                reply,
            ),
{
    let reply = layer.try_triples_o(object);
    count_solutions(&TriplePattern::new(None, Some(predicate), Some(object)), reply)
}

// ---- laws ----

/// A read selects a triple: the triple has the ids that the read goes by.
pub open spec fn selects(read: TripleRead, triple: IdTriple) -> bool {
    match read {
        TripleRead::Exists { subject, predicate, object } => triple == (IdTriple { subject, predicate, object }),
        TripleRead::SubjectPredicate { subject, predicate } => triple.subject == subject && triple.predicate
            == predicate,
        TripleRead::Subject { subject } => triple.subject == subject,
        TripleRead::Object { object } => triple.object == object,
        TripleRead::Predicate { predicate } => triple.predicate == predicate,
        TripleRead::All => true,
    }
}

/// The triples are those of `contents` that the read selects.
pub open spec fn lists(contents: Set<IdTriple>, read: TripleRead, triples: Seq<IdTriple>) -> bool {
    forall|triple: IdTriple| #[trigger] triples.contains(triple) <==> contents.contains(triple) && selects(read, triple)
}

/// Between them, read and filter see to all that a query binds, and to nothing
/// else.
pub proof fn read_and_filter_are_the_pattern(pattern: TriplePattern, triple: IdTriple)
    ensures
        agrees(pattern, triple) <==> selects(read_for(pattern), triple) && keeps(pattern, triple),
{
}

/// Every solution has the ids that the query binds, if every triple of the
/// reply has those that the read goes by.
pub proof fn solutions_agree_with_the_pattern(pattern: TriplePattern, triples: Seq<IdTriple>)
    requires
        forall|i: int| 0 <= i < triples.len() ==> selects(read_for(pattern), #[trigger] triples[i]),
    ensures
        forall|i: int|
            0 <= i < solutions(pattern, triples).len() ==> agrees(pattern, #[trigger] solutions(pattern, triples)[i]),
{
    let keep = |triple: IdTriple| keeps(pattern, triple);
    assert forall|i: int| 0 <= i < solutions(pattern, triples).len() implies agrees(
        pattern,
        #[trigger] solutions(pattern, triples)[i],
    ) by {
        triples.lemma_filter_pred(keep, i);
        let triple = solutions(pattern, triples)[i];
        assert(solutions(pattern, triples).contains(triple));
        triples.lemma_filter_contains_rev(keep, triple);
        let at = choose|k: int| 0 <= k < triples.len() && triples[k] == triple;
        read_and_filter_are_the_pattern(pattern, triples[at]);
    }
}

/// The solutions are the triples that agree with the query, all of them and no
/// others, if the reply lists the triples of the layer that its read selects.
pub proof fn solutions_are_the_matching_triples(
    contents: Set<IdTriple>,
    pattern: TriplePattern,
    triples: Seq<IdTriple>,
    triple: IdTriple,
)
    requires
        lists(contents, read_for(pattern), triples),
    ensures
        solutions(pattern, triples).contains(triple) <==> contents.contains(triple) && agrees(pattern, triple),
{
    let keep = |t: IdTriple| keeps(pattern, t);
    read_and_filter_are_the_pattern(pattern, triple);
    if contents.contains(triple) && agrees(pattern, triple) {
        assert(triples.contains(triple));
        let at = choose|k: int| 0 <= k < triples.len() && triples[k] == triple;
        triples.lemma_filter_contains(keep, at);
    }
    if solutions(pattern, triples).contains(triple) {
        let at = choose|k: int|
            0 <= k < solutions(pattern, triples).len() && solutions(pattern, triples)[k] == triple;
        triples.lemma_filter_pred(keep, at);
        triples.lemma_filter_contains_rev(keep, triple);
        assert(triples.contains(triple));
    }
}

/// A materialized layer hands out no triple that disagrees with the query,
/// unless the query binds the predicate alone, and to 0, which is the id of
/// none.
pub proof fn a_materialized_layer_hands_out_matching_triples<H: LayerIo>(
    layer: ReadLayer<H>,
    pattern: TriplePattern,
    start: Result<Option<TripleCursor>, PrologError>,
)
    requires
        layer is Materialized,
        read_for(pattern) != (TripleRead::Predicate { predicate: 0 }),
        layer.query_reply(TripleSource::Current, pattern, start),
    ensures
        started(start) matches Ok(Some(handed_out)) ==> forall|i: int|
            0 <= i < handed_out.len() ==> agrees(pattern, #[trigger] handed_out[i]),
{
    let read = read_for(pattern);
    if read !is Exists {
        let reply = choose|reply: Result<Vec<IdTriple>, IoError>| #[trigger]
            layer.read_reply(TripleSource::Current, read, reply) && started(start) == triples_start(pattern, reply);
        if let Ok(triples) = reply {
            assert forall|i: int| 0 <= i < triples@.len() implies selects(read, #[trigger] triples@[i]) by {}
            solutions_agree_with_the_pattern(pattern, triples@);
        }
    }
}

/// With everything bound, a query succeeds exactly if the triple is there.
pub proof fn a_bound_query_succeeds_iff_the_triple_is_there(
    contents: Set<IdTriple>,
    pattern: TriplePattern,
    reply: bool,
)
    requires
        read_for(pattern) matches TripleRead::Exists { subject, predicate, object } && reply == contents.contains(
            IdTriple { subject, predicate, object },
        ),
    ensures
        exists_start(Ok(reply)) is Ok <==> exists|triple: IdTriple|
            #[trigger] contents.contains(triple) && agrees(pattern, triple),
{
    if let TripleRead::Exists { subject, predicate, object } = read_for(pattern) {
        let triple = IdTriple { subject, predicate, object };
        if reply {
            assert(contents.contains(triple) && agrees(pattern, triple));
        }
        assert forall|t: IdTriple| #[trigger] contents.contains(t) && agrees(pattern, t) implies t == triple by {}
    }
}

/// No query fails or comes up empty because a read failed: an error of the
/// layer is the exception that carries it.
pub proof fn a_failed_read_is_an_exception(pattern: TriplePattern, error: IoError)
    ensures
        exists_start(Err(error)) == Err::<Option<Seq<IdTriple>>, PrologError>(
            PrologError::Exception(Raised::Io(error)),
        ),
        triples_start(pattern, Err(error)) == Err::<Option<Seq<IdTriple>>, PrologError>(
            PrologError::Exception(Raised::Io(error)),
        ),
        solution_count(pattern, Err(error)) == Err::<int, PrologError>(PrologError::Exception(Raised::Io(error))),
{
}

/// A cardinality is the number of solutions that the query with the same ids
/// hands out for the same reply.
pub proof fn a_cardinality_counts_the_solutions(pattern: TriplePattern, reply: Result<Vec<IdTriple>, IoError>)
    ensures
        match triples_start(pattern, reply) {
            Ok(Some(handed_out)) => solution_count(pattern, reply) == Ok::<int, PrologError>(handed_out.len() as int),
            Ok(None) => false,
            Err(e) => solution_count(pattern, reply) == Err::<int, PrologError>(e),
        },
{
}

/// Two conditions that agree on the triples of a list pick the same of them.
proof fn the_same_condition_picks_the_same(
    triples: Seq<IdTriple>,
    p: spec_fn(IdTriple) -> bool,
    q: spec_fn(IdTriple) -> bool,
)
    requires
        forall|i: int| 0 <= i < triples.len() ==> p(#[trigger] triples[i]) == q(triples[i]),
    ensures
        triples.filter(p) == triples.filter(q),
    decreases triples.len(),
{
    reveal(Seq::filter);
    if triples.len() > 0 {
        let fewer = triples.drop_last();
        assert forall|i: int| 0 <= i < fewer.len() implies p(#[trigger] fewer[i]) == q(fewer[i]) by {
            assert(fewer[i] == triples[i]);
        }
        the_same_condition_picks_the_same(fewer, p, q);
        assert(p(triples[triples.len() - 1]) == q(triples[triples.len() - 1]));
    }
}

proof fn picked_triples_meet_the_condition(triples: Seq<IdTriple>, p: spec_fn(IdTriple) -> bool)
    ensures
        forall|t: IdTriple| #[trigger] triples.filter(p).contains(t) <==> triples.contains(t) && p(t),
{
    assert forall|t: IdTriple| #[trigger] triples.filter(p).contains(t) implies triples.contains(t) && p(t) by {
        let at = choose|k: int| 0 <= k < triples.filter(p).len() && triples.filter(p)[k] == t;
        triples.lemma_filter_pred(p, at);
        triples.lemma_filter_contains_rev(p, t);
    }
    assert forall|t: IdTriple| triples.contains(t) && p(t) implies #[trigger] triples.filter(p).contains(t) by {
        let at = choose|k: int| 0 <= k < triples.len() && triples[k] == t;
        triples.lemma_filter_contains(p, at);
    }
}

/// The reply is one to the read that goes by the subject and the predicate, or
/// by the subject, or by the object, or by the predicate: by the first of these
/// that the query binds.
pub open spec fn is_reply_to<H: LayerIo>(
    layer: ReadLayer<H>,
    source: TripleSource,
    subject: Option<u64>,
    predicate: Option<u64>,
    object: Option<u64>,
    reply: Result<Vec<IdTriple>, IoError>,
) -> bool {
    match (subject, predicate, object) {
        (Some(_), Some(_), Some(_)) => false,
        (Some(s), Some(p), None) => match source {
            TripleSource::Current => layer.triples_sp_reply(s, p, reply),
            TripleSource::Additions => layer.triple_additions_sp_reply(s, p, reply),
            TripleSource::Removals => layer.triple_removals_sp_reply(s, p, reply),
        },
        (Some(s), None, _) => match source {
            TripleSource::Current => layer.triples_s_reply(s, reply),
            TripleSource::Additions => layer.triple_additions_s_reply(s, reply),
            TripleSource::Removals => layer.triple_removals_s_reply(s, reply),
        },
        (None, _, Some(o)) => match source {
            TripleSource::Current => layer.triples_o_reply(o, reply),
            TripleSource::Additions => layer.triple_additions_o_reply(o, reply),
            TripleSource::Removals => layer.triple_removals_o_reply(o, reply),
        },
        (None, Some(p), None) => match source {
            TripleSource::Current => layer.triples_p_reply(p, reply),
            TripleSource::Additions => layer.triple_additions_p_reply(p, reply),
            TripleSource::Removals => layer.triple_removals_p_reply(p, reply),
        },
        (None, None, None) => match source {
            TripleSource::Current => layer.triples_reply(reply),
            TripleSource::Additions => layer.triple_additions_reply(reply),
            TripleSource::Removals => layer.triple_removals_reply(reply),
        },
    }
}

/// The triples have the ids that the read goes by.
pub open spec fn have_the_ids_read(
    subject: Option<u64>,
    predicate: Option<u64>,
    object: Option<u64>,
    triples: Seq<IdTriple>,
) -> bool {
    forall|i: int|
        0 <= i < triples.len() ==> {
            &&& subject matches Some(s) ==> (#[trigger] triples[i]).subject == s
            &&& subject is None ==> (object matches Some(o) ==> triples[i].object == o)
            &&& predicate matches Some(p) ==> (object is None ==> triples[i].predicate == p)
        }
}

/// A query hands out, in their order, those triples of the reply that have
/// every id that it binds: all of them, and no others.
pub open spec fn hands_out_what_is_bound(
    subject: Option<u64>,
    predicate: Option<u64>,
    object: Option<u64>,
    triples: Seq<IdTriple>,
    handed_out: Seq<IdTriple>,
) -> bool {
    &&& handed_out == triples.filter(
        |t: IdTriple|
            (subject is None || subject == Some(t.subject)) && (predicate is None || predicate == Some(t.predicate))
                && (object is None || object == Some(t.object)),
    )
    &&& forall|t: IdTriple| #[trigger]
        handed_out.contains(t) <==> {
            &&& triples.contains(t)
            &&& subject matches Some(s) ==> t.subject == s
            &&& predicate matches Some(p) ==> t.predicate == p
            &&& object matches Some(o) ==> t.object == o
        }
}

proof fn solutions_are_what_is_bound(pattern: TriplePattern, triples: Seq<IdTriple>)
    requires
        have_the_ids_read(pattern.subject, pattern.predicate, pattern.object, triples),
        !(pattern.subject is Some && pattern.predicate is Some && pattern.object is Some),
    ensures
        hands_out_what_is_bound(
            pattern.subject,
            pattern.predicate,
            pattern.object,
            triples,
            solutions(pattern, triples),
        ),
{
    let keep = |triple: IdTriple| keeps(pattern, triple);
    let bound = |t: IdTriple|
        (pattern.subject is None || pattern.subject == Some(t.subject)) && (pattern.predicate is None
            || pattern.predicate == Some(t.predicate)) && (pattern.object is None || pattern.object == Some(t.object));
    assert forall|i: int| 0 <= i < triples.len() implies keep(#[trigger] triples[i]) == bound(triples[i]) by {
        let t = triples[i];
        assert(pattern.subject matches Some(s) ==> t.subject == s);
    }
    the_same_condition_picks_the_same(triples, keep, bound);
    picked_triples_meet_the_condition(triples, bound);
}

/// How a query that leaves something unbound starts.
pub open spec fn starts_with_what_is_bound<H: LayerIo>(
    layer: ReadLayer<H>,
    source: TripleSource,
    pattern: TriplePattern,
    start: Result<Option<TripleCursor>, PrologError>,
) -> bool {
    exists|reply: Result<Vec<IdTriple>, IoError>|
        {
            &&& #[trigger] is_reply_to(
                layer,
                source,
                pattern.subject,
                pattern.predicate,
                pattern.object,
                reply,
            )
            &&& reply matches Ok(triples) ==> {
                &&& start matches Ok(Some(cursor))
                &&& have_the_ids_read(pattern.subject, pattern.predicate, pattern.object, triples@)
                    ==> hands_out_what_is_bound(
                    pattern.subject,
                    pattern.predicate,
                    pattern.object,
                    triples@,
                    cursor.remaining(),
                )
            }
            &&& reply matches Err(e) ==> start == Err::<Option<TripleCursor>, PrologError>(
                PrologError::Exception(Raised::Io(e)),
            )
        }
}

/// How a query that binds everything starts, given the reply.
pub open spec fn succeeds_if_there(
    reply: Result<bool, IoError>,
    start: Result<Option<TripleCursor>, PrologError>,
) -> bool {
    &&& reply == Ok::<bool, IoError>(true) <==> start == Ok::<Option<TripleCursor>, PrologError>(None)
    &&& reply == Ok::<bool, IoError>(false) <==> start == Err::<Option<TripleCursor>, PrologError>(
        PrologError::Failure,
    )
    &&& forall|e: IoError| #[trigger]
        is_io(e, start) <==> reply == Err::<bool, IoError>(e)
}

/// The exception carries that error.
pub open spec fn is_io(e: IoError, start: Result<Option<TripleCursor>, PrologError>) -> bool {
    start == Err::<Option<TripleCursor>, PrologError>(PrologError::Exception(Raised::Io(e)))
}

proof fn a_started_query_has_what_is_bound<H: LayerIo>(
    layer: ReadLayer<H>,
    source: TripleSource,
    pattern: TriplePattern,
    start: Result<Option<TripleCursor>, PrologError>,
)
    requires
        layer.query_reply(source, pattern, start),
        !(pattern.subject is Some && pattern.predicate is Some && pattern.object is Some),
    ensures
        starts_with_what_is_bound(layer, source, pattern, start),
{
    let read = read_for(pattern);
    let reply = choose|reply: Result<Vec<IdTriple>, IoError>| #[trigger]
        layer.read_reply(source, read, reply) && started(start) == triples_start(pattern, reply);
    assert(is_reply_to(layer, source, pattern.subject, pattern.predicate, pattern.object, reply));
    if let Ok(triples) = reply {
        if have_the_ids_read(pattern.subject, pattern.predicate, pattern.object, triples@) {
            solutions_are_what_is_bound(pattern, triples@);
        }
    }
}

/// A query for the triples of a layer, on either arm, hands out what has the ids
/// that it binds. With everything bound, it says whether the triple is there.
pub proof fn id_triple_answers_for_what_is_bound<H: LayerIo>(
    layer: ReadLayer<H>,
    pattern: TriplePattern,
    start: Result<Option<TripleCursor>, PrologError>,
)
    requires
        call_ensures(id_triple::<H>, (&layer, &pattern), start),
    ensures
        match (pattern.subject, pattern.predicate, pattern.object) {
            (Some(s), Some(p), Some(o)) => exists|reply: Result<bool, IoError>| #[trigger]
                layer.triple_exists_reply(s, p, o, reply) && succeeds_if_there(reply, start),
            _ => starts_with_what_is_bound(layer, TripleSource::Current, pattern, start),
        },
{
    match (pattern.subject, pattern.predicate, pattern.object) {
        (Some(s), Some(p), Some(o)) => {
            let reply = choose|reply: Result<bool, IoError>| #[trigger]
                layer.exists_reply(TripleSource::Current, s, p, o, reply) && started(start) == exists_start(reply);
            assert(layer.triple_exists_reply(s, p, o, reply));
        },
        _ => {
            a_started_query_has_what_is_bound(layer, TripleSource::Current, pattern, start);
        },
    }
}

/// So does a query for what a layer adds.
pub proof fn id_triple_addition_answers_for_what_is_bound<H: LayerIo>(
    layer: ReadLayer<H>,
    pattern: TriplePattern,
    start: Result<Option<TripleCursor>, PrologError>,
)
    requires
        call_ensures(id_triple_addition::<H>, (&layer, &pattern), start),
    ensures
        match (pattern.subject, pattern.predicate, pattern.object) {
            (Some(s), Some(p), Some(o)) => exists|reply: Result<bool, IoError>| #[trigger]
                layer.triple_addition_exists_reply(s, p, o, reply) && succeeds_if_there(reply, start),
            _ => starts_with_what_is_bound(layer, TripleSource::Additions, pattern, start),
        },
{
    match (pattern.subject, pattern.predicate, pattern.object) {
        (Some(s), Some(p), Some(o)) => {
            let reply = choose|reply: Result<bool, IoError>| #[trigger]
                layer.exists_reply(TripleSource::Additions, s, p, o, reply) && started(start) == exists_start(reply);
            assert(layer.triple_addition_exists_reply(s, p, o, reply));
        },
        _ => {
            a_started_query_has_what_is_bound(layer, TripleSource::Additions, pattern, start);
        },
    }
}

/// So does a query for what a layer removes.
pub proof fn id_triple_removal_answers_for_what_is_bound<H: LayerIo>(
    layer: ReadLayer<H>,
    pattern: TriplePattern,
    start: Result<Option<TripleCursor>, PrologError>,
)
    requires
        call_ensures(id_triple_removal::<H>, (&layer, &pattern), start),
    ensures
        match (pattern.subject, pattern.predicate, pattern.object) {
            (Some(s), Some(p), Some(o)) => exists|reply: Result<bool, IoError>| #[trigger]
                layer.triple_removal_exists_reply(s, p, o, reply) && succeeds_if_there(reply, start),
            _ => starts_with_what_is_bound(layer, TripleSource::Removals, pattern, start),
        },
{
    match (pattern.subject, pattern.predicate, pattern.object) {
        (Some(s), Some(p), Some(o)) => {
            let reply = choose|reply: Result<bool, IoError>| #[trigger]
                layer.exists_reply(TripleSource::Removals, s, p, o, reply) && started(start) == exists_start(reply);
            assert(layer.triple_removal_exists_reply(s, p, o, reply));
        },
        _ => {
            a_started_query_has_what_is_bound(layer, TripleSource::Removals, pattern, start);
        },
    }
}

/// A cardinality is the number of triples of the reply with the subject and the
/// predicate.
pub proof fn sp_card_counts_the_triples<H: LayerIo>(
    layer: ReadLayer<H>,
    subject: u64,
    predicate: u64,
    count: Result<u64, PrologError>,
)
    requires
        call_ensures(sp_card::<H>, (&layer, subject, predicate), count),
    ensures
        exists|reply: Result<Vec<IdTriple>, IoError>|
            {
                &&& #[trigger] layer.triples_sp_reply(subject, predicate, reply)
                &&& reply matches Ok(triples) ==> (count matches Ok(n) && n == triples@.len())
                &&& reply matches Err(e) ==> count == Err::<u64, PrologError>(PrologError::Exception(Raised::Io(e)))
            },
{
    let pattern = TriplePattern { subject: Some(subject), predicate: Some(predicate), object: None };
    let reply = choose|reply: Result<Vec<IdTriple>, IoError>| #[trigger]
        layer.triples_sp_reply(subject, predicate, reply) && counted(count) == solution_count(pattern, reply);
    if let Ok(triples) = reply {
        let keep = |triple: IdTriple| keeps(pattern, triple);
        let all = |triple: IdTriple| true;
        the_same_condition_picks_the_same(triples@, keep, all);
        everything_is_picked(triples@);
    }
}

proof fn everything_is_picked(triples: Seq<IdTriple>)
    ensures
        triples.filter(|t: IdTriple| true) == triples,
    decreases triples.len(),
{
    reveal(Seq::filter);
    if triples.len() > 0 {
        everything_is_picked(triples.drop_last());
        assert(triples.drop_last().push(triples.last()) =~= triples);
    } else {
        assert(triples.filter(|t: IdTriple| true) =~= triples);
    }
}

/// The other is the number of triples with the object that have the predicate.
pub proof fn op_card_counts_the_triples<H: LayerIo>(
    layer: ReadLayer<H>,
    object: u64,
    predicate: u64,
    count: Result<u64, PrologError>,
)
    requires
        call_ensures(op_card::<H>, (&layer, object, predicate), count),
    ensures
        exists|reply: Result<Vec<IdTriple>, IoError>|
            {
                &&& #[trigger] layer.triples_o_reply(object, reply)
                &&& reply matches Ok(triples) ==> (count matches Ok(n) && n == triples@.filter(
                    |t: IdTriple| t.predicate == predicate,
                ).len())
                &&& reply matches Err(e) ==> count == Err::<u64, PrologError>(PrologError::Exception(Raised::Io(e)))
            },
{
    let pattern = TriplePattern { subject: None, predicate: Some(predicate), object: Some(object) };
    let reply = choose|reply: Result<Vec<IdTriple>, IoError>| #[trigger]
        layer.triples_o_reply(object, reply) && counted(count) == solution_count(pattern, reply);
    if let Ok(triples) = reply {
        the_same_condition_picks_the_same(
            triples@,
            |triple: IdTriple| keeps(pattern, triple),
            |t: IdTriple| t.predicate == predicate,
        );
    }
}

/// A cursor hands its triples out in order, each once, and says of each whether
/// another follows.
pub proof fn a_cursor_hands_out_each_triple_once(
    triples: Vec<IdTriple>,
    fresh: TripleCursor,
    cursor: &mut TripleCursor,
    solution: Result<(IdTriple, bool), PrologError>,
)
    requires
        call_ensures(TripleCursor::new, (triples,), fresh),
        call_ensures(TripleCursor::next_solution, (cursor,), solution),
    ensures
        fresh.remaining() == triples@,
        old(cursor).remaining().len() > 0 ==> {
            &&& solution matches Ok((triple, more))
            &&& old(cursor).remaining() == seq![triple] + final(cursor).remaining()
            &&& more <==> final(cursor).remaining().len() > 0
        },
        old(cursor).remaining().len() == 0 ==> {
            &&& solution matches Err(PrologError::Failure)
            &&& final(cursor).remaining().len() == 0
        },
{
    if old(cursor).remaining().len() > 0 {
        assert(old(cursor).remaining() =~= seq![old(cursor).remaining()[0]] + old(cursor).remaining().skip(1));
    }
}

} // verus!
