//! Triples of ids, and the counts of a layer.
use vstd::prelude::*;

verus! {

/// A triple by the ids of its three parts.
#[derive(Clone, Copy, Debug, PartialEq, Eq, PartialOrd, Ord, Hash)]
pub struct IdTriple {
    pub subject: u64,
    pub predicate: u64,
    pub object: u64,
}

impl IdTriple {
    pub fn new(subject: u64, predicate: u64, object: u64) -> (triple: IdTriple)
        ensures
            triple == (IdTriple { subject, predicate, object }),
    {
        IdTriple { subject, predicate, object }
    }
}

/// Every triple has that subject.
pub open spec fn have_subject(triples: Seq<IdTriple>, subject: u64) -> bool {
    forall|i: int| 0 <= i < triples.len() ==> (#[trigger] triples[i]).subject == subject
}

/// Every triple has that predicate.
pub open spec fn have_predicate(triples: Seq<IdTriple>, predicate: u64) -> bool {
    forall|i: int| 0 <= i < triples.len() ==> (#[trigger] triples[i]).predicate == predicate
}

/// Every triple has that object.
pub open spec fn have_object(triples: Seq<IdTriple>, object: u64) -> bool {
    forall|i: int| 0 <= i < triples.len() ==> (#[trigger] triples[i]).object == object
}

/// One of the triples, or none if there is none.
pub open spec fn one_of(triples: Seq<IdTriple>, triple: Option<IdTriple>) -> bool {
    match triple {
        Some(t) => triples.contains(t),
        None => triples.len() == 0,
    }
}

/// The triples are the same, each as often, in whatever order.
pub open spec fn same_triples(a: Seq<IdTriple>, b: Seq<IdTriple>) -> bool {
    a.to_multiset() == b.to_multiset()
}

/// How many nodes, predicates and values a layer has.
#[derive(Clone, Copy, Debug, PartialEq, Eq, Structural)]
pub struct LayerCounts {
    pub node_count: usize,
    pub predicate_count: usize,
    pub value_count: usize,
}

} // verus!
