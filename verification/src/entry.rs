//! Objects and typed values.
//!
//! A value is a datatype and the bytes that encode it. The encodings are made
//! so that, within one datatype, the order of the values is the lexicographic
//! order of their bytes.
use tdb_succinct::Datatype;
use vstd::prelude::*;

verus! {

#[verifier::external_type_specification]
#[verifier::external_body]
pub struct ExDatatype(Datatype);

/// A typed value as a dictionary holds it.
#[derive(Debug, PartialEq, Eq)]
pub struct TypedDictEntry {
    pub datatype: Datatype,
    pub bytes: Vec<u8>,
}

/// What is said of a typed value: its datatype and its bytes.
pub struct EntryView {
    pub datatype: Datatype,
    pub bytes: Seq<u8>,
}

impl View for TypedDictEntry {
    type V = EntryView;

    open spec fn view(&self) -> EntryView {
        EntryView { datatype: self.datatype, bytes: self.bytes@ }
    }
}

/// The object of a triple: a node by its name, or a value.
#[derive(Debug, PartialEq, Eq)]
pub enum ObjectType {
    Node(String),
    Value(TypedDictEntry),
}

/// What is said of an object.
pub enum ObjectView {
    Node(Seq<char>),
    Value(EntryView),
}

impl View for ObjectType {
    type V = ObjectView;

    open spec fn view(&self) -> ObjectView {
        match self {
            ObjectType::Node(name) => ObjectView::Node(name@),
            ObjectType::Value(entry) => ObjectView::Value(entry@),
        }
    }
}

/// Calls `==` on two `tdb_succinct::Datatype`s. It is derived for an enum
/// whose variants have no fields, so it holds exactly of equal values.
#[verifier::external_body]
fn same_datatype(a: Datatype, b: Datatype) -> (same: bool)
    ensures
        same == (a == b),
{
    a == b
}

impl TypedDictEntry {
    pub fn new(datatype: Datatype, bytes: Vec<u8>) -> (entry: TypedDictEntry)
        ensures
            entry.datatype == datatype,
            entry.bytes == bytes,
    {
        TypedDictEntry { datatype, bytes }
    }

    /// Whether two values have the same datatype.
    pub fn has_datatype_of(&self, other: &TypedDictEntry) -> (same: bool)
        ensures
            same == (self@.datatype == other@.datatype),
    {
        same_datatype(self.datatype, other.datatype)
    }
}

impl Clone for TypedDictEntry {
    fn clone(&self) -> (copy: TypedDictEntry)
        ensures
            copy@ == self@,
    {
        let bytes = self.bytes.clone();
        assert(bytes@ =~= self.bytes@);
        TypedDictEntry { datatype: self.datatype, bytes }
    }
}

/// Lexicographic order on bytes: the first difference decides, and a proper
/// prefix comes first.
pub open spec fn bytes_less(a: Seq<u8>, b: Seq<u8>) -> bool
    decreases a.len(),
{
    if b.len() == 0 {
        false
    } else if a.len() == 0 {
        true
    } else if a[0] != b[0] {
        a[0] < b[0]
    } else {
        bytes_less(a.skip(1), b.skip(1))
    }
}

/// Two texts with a common prefix are ordered as what follows it.
proof fn common_prefix_is_skipped(a: Seq<u8>, b: Seq<u8>, n: nat)
    requires
        n <= a.len(),
        n <= b.len(),
        forall|k: int| 0 <= k < n ==> a[k] == b[k],
    ensures
        bytes_less(a, b) == bytes_less(a.skip(n as int), b.skip(n as int)),
    decreases n,
{
    if n == 0 {
        assert(a.skip(0) =~= a);
        assert(b.skip(0) =~= b);
    } else {
        common_prefix_is_skipped(a.skip(1), b.skip(1), (n - 1) as nat);
        assert(a.skip(1).skip(n - 1) =~= a.skip(n as int));
        assert(b.skip(1).skip(n - 1) =~= b.skip(n as int));
    }
}

/// Whether `a` comes before `b`.
pub fn comes_before(a: &Vec<u8>, b: &Vec<u8>) -> (less: bool)
    ensures
        less == bytes_less(a@, b@),
{
    let mut i: usize = 0;
    while i < a.len() && i < b.len() && a[i] == b[i]
        invariant
            i <= a.len(),
            i <= b.len(),
            forall|k: int| 0 <= k < i ==> a@[k] == b@[k],
        decreases a.len() - i,
    {
        i = i + 1;
    }
    proof {
        common_prefix_is_skipped(a@, b@, i as nat);
    }
    if i == b.len() {
        false
    } else if i == a.len() {
        true
    } else {
        a[i] < b[i]
    }
}

/// No value comes before itself.
pub proof fn bytes_less_is_irreflexive(a: Seq<u8>)
    ensures
        !bytes_less(a, a),
    decreases a.len(),
{
    if a.len() > 0 {
        bytes_less_is_irreflexive(a.skip(1));
    }
}

/// What comes before a value comes before whatever that value comes before.
pub proof fn bytes_less_is_transitive(a: Seq<u8>, b: Seq<u8>, c: Seq<u8>)
    requires
        bytes_less(a, b),
        bytes_less(b, c),
    ensures
        bytes_less(a, c),
    decreases a.len(),
{
    if a.len() > 0 && a[0] == b[0] && b[0] == c[0] {
        bytes_less_is_transitive(a.skip(1), b.skip(1), c.skip(1));
    }
}

/// Of two different values one comes before the other.
pub proof fn bytes_less_is_total(a: Seq<u8>, b: Seq<u8>)
    ensures
        bytes_less(a, b) || bytes_less(b, a) || a == b,
    decreases a.len(),
{
    if a.len() > 0 && b.len() > 0 && a[0] == b[0] {
        bytes_less_is_total(a.skip(1), b.skip(1));
        if a.skip(1) == b.skip(1) {
            assert forall|k: int| 0 <= k < a.len() implies a[k] == b[k] by {
                if k > 0 {
                    assert(a[k] == a.skip(1)[k - 1]);
                    assert(b[k] == b.skip(1)[k - 1]);
                }
            }
            assert(a =~= b);
        }
    } else if a.len() == 0 && b.len() == 0 {
        assert(a =~= b);
    }
}

/// The two agree in their first `n` bytes.
pub open spec fn same_up_to(a: Seq<u8>, b: Seq<u8>, n: int) -> bool {
    &&& 0 <= n <= a.len()
    &&& n <= b.len()
    &&& forall|k: int| 0 <= k < n ==> a[k] == b[k]
}

/// `a` comes before `b`: where they first differ, `a` has ended or has the
/// smaller byte.
pub open spec fn precedes(a: Seq<u8>, b: Seq<u8>) -> bool {
    exists|n: int| #[trigger]
        same_up_to(a, b, n) && n < b.len() && (n == a.len() || (a[n] as int) < (b[n] as int))
}

/// Where two values first differ, or the shorter one ends.
proof fn there_is_a_first_difference(a: Seq<u8>, b: Seq<u8>) -> (n: int)
    ensures
        same_up_to(a, b, n),
        n < a.len() && n < b.len() ==> a[n] != b[n],
    decreases a.len(),
{
    if a.len() == 0 || b.len() == 0 || a[0] != b[0] {
        0
    } else {
        let m = there_is_a_first_difference(a.skip(1), b.skip(1));
        assert forall|k: int| 0 <= k < m + 1 implies a[k] == b[k] by {
            if k > 0 {
                assert(a.skip(1)[k - 1] == b.skip(1)[k - 1]);
            }
        }
        m + 1
    }
}

/// The order of values of one datatype: at the first byte in which two values
/// differ, the one with the smaller byte comes first, bytes being numbers from
/// 0 to 255. Where there is no such byte, the shorter one comes first.
pub proof fn the_first_difference_decides(a: Seq<u8>, b: Seq<u8>)
    ensures
        bytes_less(a, b) <==> exists|n: int| #[trigger]
            same_up_to(a, b, n) && n < b.len() && (n == a.len() || (a[n] as int) < (b[n] as int)),
        forall|n: int| #[trigger]
            same_up_to(a, b, n) && n < a.len() && n < b.len() && a[n] != b[n]
                ==> (bytes_less(a, b) <==> (a[n] as int) < (
            b[n] as int)),
        forall|n: int| #[trigger] same_up_to(a, b, n) && n == a.len() && n < b.len() ==> bytes_less(a, b),
        forall|n: int| #[trigger] same_up_to(a, b, n) && n == b.len() ==> !bytes_less(a, b),
{
    assert forall|n: int| #[trigger] same_up_to(a, b, n) implies bytes_less(a, b) == bytes_less(
        a.skip(n),
        b.skip(n),
    ) by {
        common_prefix_is_skipped(a, b, n as nat);
    }
    let n = there_is_a_first_difference(a, b);
    assert(bytes_less(a, b) == bytes_less(a.skip(n), b.skip(n)));
}

/// `comes_before` tells that order.
pub proof fn comes_before_goes_by_the_first_difference(a: Vec<u8>, b: Vec<u8>, less: bool)
    requires
        call_ensures(comes_before, (&a, &b), less),
    ensures
        less <==> exists|n: int| #[trigger]
            same_up_to(a@, b@, n) && n < b@.len() && (n == a@.len() || (a@[n] as int) < (b@[n] as int)),
{
    the_first_difference_decides(a@, b@);
}

/// `has_datatype_of` compares the datatypes and nothing else.
pub proof fn values_are_alike_in_datatype_only(a: TypedDictEntry, b: TypedDictEntry, same: bool)
    requires
        call_ensures(TypedDictEntry::has_datatype_of, (&a, &b), same),
    ensures
        same <==> a.datatype == b.datatype,
{
}

} // verus!
