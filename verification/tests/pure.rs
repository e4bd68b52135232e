//! What needs no store.

use tdb_succinct::Datatype;
use terminusdb_store_prolog::entry::{comes_before, ObjectType, TypedDictEntry};
use terminusdb_store_prolog::error::{ErrorKind, IoError};
use terminusdb_store_prolog::name::{can_cut, name_to_string, same_name, string_to_name};
use terminusdb_store_prolog::pack::{can_read, layer_names, pack_error, packed_layers, PackFailure};
use terminusdb_store_prolog::process::{bytes_or_fail, mach_rss_bytes, parse_rss_bytes, parse_rss_kib};
use terminusdb_store_prolog::prolog::{attempt_opt, found_or_fail, into_prolog_result, try_or_die, PrologError, Raised};
use terminusdb_store_prolog::sinks::ErrorSinks;
use terminusdb_store_prolog::store::{choose_bucket, object_store_config, Bucket, BucketTerm, ConditionalPut};
use terminusdb_store_prolog::transaction::{
    transaction_instance_builder, transaction_instance_layer, transaction_schema_layer, GraphObject, Transaction,
};
use terminusdb_store_prolog::triple::IdTriple;
use terminusdb_store_prolog::triple_query::{start_exists, start_triples, TripleCursor, TriplePattern, TripleRead};
use terminusdb_store_prolog::value_query::{neighbour, Candidate, Direction};

fn error(kind: ErrorKind) -> IoError {
    IoError::new(kind, "why".to_string())
}

// ---- names ----

#[test]
fn a_name_reads_back_from_its_text() {
    let name = [0xdead, 0xbeef, 0, 1, 0xffffffff];
    let text = name_to_string(name);
    assert_eq!(text, "0000dead0000beef0000000000000001ffffffff");
    assert_eq!(string_to_name(&text).unwrap(), name);
    assert_eq!(string_to_name(&text.to_uppercase()).unwrap(), name);
    assert_eq!(string_to_name("+000dead0000beef0000000000000001ffffffff").unwrap(), name);
    assert!(same_name(&name, &string_to_name(&text).unwrap()));
    assert!(!same_name(&name, &[0xdead, 0xbeef, 0, 1, 0xfffffffe]));
}

#[test]
fn a_text_that_is_no_name_is_refused() {
    let e = string_to_name("abc").unwrap_err();
    assert_eq!(e.kind(), ErrorKind::Other);
    assert_eq!(e.message, "string not len 40: abc");
    let e = string_to_name("0000dead0000beef000000000000000-ffffffff").unwrap_err();
    assert_eq!(e.kind(), ErrorKind::InvalidData);
    assert_eq!(e.message, "invalid digit found in string");
    // forty characters, but more bytes
    let e = string_to_name(&"é".repeat(40)).unwrap_err();
    assert_eq!(e.kind(), ErrorKind::Other);
    // forty bytes, but fewer characters
    let e = string_to_name(&"é".repeat(20)).unwrap_err();
    assert_eq!(e.kind(), ErrorKind::InvalidData);
    assert_eq!(e.message, "invalid digit found in string");
}

#[test]
fn a_text_is_cut_between_characters_only() {
    assert!(can_cut("short"));
    assert!(can_cut(&"0".repeat(40)));
    assert!(can_cut(&"é".repeat(20)));
    // a character lies across the first cut
    let across = format!("0000000é{}", "0".repeat(31));
    assert_eq!(across.len(), 40);
    assert!(!can_cut(&across));
    // across the second cut, which is reached
    let across = format!("00000000{}", &across[..32]);
    assert_eq!(across.len(), 40);
    assert!(!can_cut(&across));
    // across the second cut, which is not: the first word is none
    let never = format!("z{}", &across[1..]);
    assert!(can_cut(&never));
    assert_eq!(string_to_name(&never).unwrap_err().kind(), ErrorKind::InvalidData);

    let good = "0".repeat(40);
    assert!(can_read(&vec![good.clone(), good.clone()]));
    assert!(!can_read(&vec![good.clone(), across.clone()]));
    // an id after the first bad one is not read
    let ids = vec![good, "short".to_string(), across];
    assert!(can_read(&ids));
    assert!(layer_names(&ids).is_err());
}

// ---- ends of predicates ----

#[test]
fn failures_and_exceptions_stay_apart() {
    assert_eq!(try_or_die(Ok(1)).unwrap(), 1);
    assert!(matches!(
        try_or_die::<u64>(Err(error(ErrorKind::TimedOut))),
        Err(PrologError::Exception(Raised::Io(IoError { kind: ErrorKind::TimedOut, .. })))
    ));
    assert_eq!(found_or_fail(Ok(Some(1))).unwrap(), 1);
    assert!(matches!(found_or_fail::<u64>(Ok(None)), Err(PrologError::Failure)));
    assert!(matches!(
        found_or_fail::<u64>(Err(error(ErrorKind::TimedOut))),
        Err(PrologError::Exception(_))
    ));
    assert_eq!(attempt_opt(Ok(1)).unwrap(), Some(1));
    assert_eq!(attempt_opt::<u64>(Err(PrologError::Failure)).unwrap(), None);
    assert!(attempt_opt::<u64>(Err(PrologError::Exception(Raised::Engine))).is_err());
    assert!(into_prolog_result(true).is_ok());
    assert!(matches!(into_prolog_result(false), Err(PrologError::Failure)));
}

// ---- sinks ----

#[test]
fn a_sink_keeps_the_first_error() {
    let mut sinks = ErrorSinks::new();
    let a = sinks.fresh();
    let b = sinks.fresh();
    assert!(a != b);
    assert!(sinks.take(a).is_none());
    sinks.record(a, error(ErrorKind::TimedOut));
    sinks.record(a, error(ErrorKind::BrokenPipe));
    assert!(sinks.take(b).is_none());
    assert_eq!(sinks.take(a).unwrap().kind(), ErrorKind::TimedOut);
    assert!(sinks.take(a).is_none());
    sinks.record(a, error(ErrorKind::BrokenPipe));
    assert_eq!(sinks.take(a).unwrap().kind(), ErrorKind::BrokenPipe);
}

// ---- queries ----

fn t(s: u64, p: u64, o: u64) -> IdTriple {
    IdTriple::new(s, p, o)
}

#[test]
fn a_query_is_answered_by_the_most_selective_read() {
    let read = |s, p, o| TriplePattern::new(s, p, o).read();
    assert_eq!(
        read(Some(1), Some(2), Some(3)),
        TripleRead::Exists { subject: 1, predicate: 2, object: 3 }
    );
    assert_eq!(read(Some(1), Some(2), None), TripleRead::SubjectPredicate { subject: 1, predicate: 2 });
    assert_eq!(read(Some(1), None, Some(3)), TripleRead::Subject { subject: 1 });
    assert_eq!(read(Some(1), None, None), TripleRead::Subject { subject: 1 });
    assert_eq!(read(None, Some(2), Some(3)), TripleRead::Object { object: 3 });
    assert_eq!(read(None, None, Some(3)), TripleRead::Object { object: 3 });
    assert_eq!(read(None, Some(2), None), TripleRead::Predicate { predicate: 2 });
    assert_eq!(read(None, None, None), TripleRead::All);
}

#[test]
fn what_the_read_did_not_see_to_is_filtered() {
    let triples = vec![t(1, 1, 1), t(1, 2, 1), t(1, 2, 3), t(2, 2, 3)];
    let kept = |s, p, o| TriplePattern::new(s, p, o).solutions(&triples);
    assert_eq!(kept(Some(1), None, Some(3)), vec![t(1, 2, 3), t(2, 2, 3)]);
    assert_eq!(kept(None, Some(2), Some(1)), vec![t(1, 2, 1), t(1, 2, 3), t(2, 2, 3)]);
    assert_eq!(kept(Some(1), None, None), triples);
    assert_eq!(kept(None, Some(2), None), triples);
}

#[test]
fn a_cursor_says_whether_there_is_more() {
    let mut cursor = TripleCursor::new(vec![t(1, 1, 1), t(1, 1, 2)]);
    assert_eq!(cursor.next_solution().unwrap(), (t(1, 1, 1), true));
    assert_eq!(cursor.next_solution().unwrap(), (t(1, 1, 2), false));
    assert!(matches!(cursor.next_solution(), Err(PrologError::Failure)));
}

#[test]
fn the_reply_decides_how_a_query_starts() {
    assert!(start_exists(Ok(true)).unwrap().is_none());
    assert!(matches!(start_exists(Ok(false)), Err(PrologError::Failure)));
    assert!(matches!(
        start_exists(Err(error(ErrorKind::TimedOut))),
        Err(PrologError::Exception(Raised::Io(_)))
    ));
    let pattern = TriplePattern::new(Some(1), None, None);
    assert!(start_triples(&pattern, Ok(Vec::new())).unwrap().is_some());
    assert!(matches!(
        start_triples(&pattern, Err(error(ErrorKind::TimedOut))),
        Err(PrologError::Exception(Raised::Io(_)))
    ));
}

// ---- values ----

fn value(id: u64, bytes: &[u8]) -> Candidate {
    Candidate {
        id,
        object: Some(ObjectType::Value(TypedDictEntry::new(Datatype::String, bytes.to_vec()))),
    }
}

#[test]
fn bytes_are_ordered_lexicographically() {
    assert!(comes_before(&b"a".to_vec(), &b"b".to_vec()));
    assert!(comes_before(&b"a".to_vec(), &b"aa".to_vec()));
    assert!(comes_before(&b"".to_vec(), &b"a".to_vec()));
    assert!(comes_before(&b"ab".to_vec(), &b"b".to_vec()));
    assert!(!comes_before(&b"a".to_vec(), &b"a".to_vec()));
    assert!(!comes_before(&b"b".to_vec(), &b"ab".to_vec()));
}

#[test]
fn the_first_of_equal_neighbours_is_taken() {
    let reference = TypedDictEntry::new(Datatype::String, b"b".to_vec());
    let candidates = vec![
        value(1, b"d"),
        value(2, b"c"),
        value(3, b"c"),
        value(4, b"b"),
        value(5, b"a"),
        value(6, b"a"),
        Candidate { id: 7, object: Some(ObjectType::Node("bb".to_string())) },
        Candidate { id: 8, object: None },
        Candidate {
            id: 9,
            object: Some(ObjectType::Value(TypedDictEntry::new(Datatype::UInt32, b"bb".to_vec()))),
        },
    ];
    assert_eq!(neighbour(Direction::Next, &candidates, &reference), Some(2));
    assert_eq!(neighbour(Direction::Previous, &candidates, &reference), Some(5));
    let last = TypedDictEntry::new(Datatype::String, b"d".to_vec());
    assert_eq!(neighbour(Direction::Next, &candidates, &last), None);
    assert_eq!(neighbour(Direction::Previous, &candidates, &last), Some(2));
}

// ---- transactions ----

fn one(read: Result<u64, PrologError>, write: Result<char, PrologError>) -> Vec<GraphObject<u64, char>> {
    vec![
        GraphObject { read, write },
        GraphObject { read: Ok(99), write: Ok('z') },
    ]
}

#[test]
fn only_the_first_object_of_a_transaction_counts() {
    let transaction = || Transaction {
        instance_objects: Ok(one(Ok(1), Ok('a'))),
        schema_objects: Ok(one(Ok(2), Ok('b'))),
    };
    assert_eq!(transaction_instance_layer(transaction()).unwrap(), Some(1));
    assert_eq!(transaction_schema_layer(transaction()).unwrap(), Some(2));
    assert_eq!(transaction_instance_builder(transaction()).unwrap(), Some('a'));
}

#[test]
fn a_key_that_is_missing_is_nothing_and_a_list_that_is_missing_a_failure() {
    let transaction = || Transaction {
        instance_objects: Ok(one(Err(PrologError::Failure), Err(PrologError::Failure))),
        schema_objects: Err(PrologError::Failure),
    };
    assert_eq!(transaction_instance_layer(transaction()).unwrap(), None);
    assert_eq!(transaction_instance_builder(transaction()).unwrap(), None);
    assert!(matches!(transaction_schema_layer(transaction()), Err(PrologError::Failure)));
    let empty: Transaction<u64, char> =
        Transaction { instance_objects: Ok(Vec::new()), schema_objects: Ok(Vec::new()) };
    assert_eq!(transaction_instance_layer(empty).unwrap(), None);
    let raised: Transaction<u64, char> = Transaction {
        instance_objects: Ok(one(
            Err(PrologError::Exception(Raised::Engine)),
            Err(PrologError::Exception(Raised::Engine)),
        )),
        schema_objects: Ok(Vec::new()),
    };
    assert!(matches!(
        transaction_instance_builder(raised),
        Err(PrologError::Exception(Raised::Engine))
    ));
}

// ---- packs ----

#[test]
fn pack_failures_become_storage_errors() {
    let e = pack_error(PackFailure::LayerNotFound);
    assert_eq!(e.kind(), ErrorKind::NotFound);
    assert_eq!(e.message, "a layer from the pack was not found");
    assert_eq!(pack_error(PackFailure::Io(error(ErrorKind::UnexpectedEof))).kind(), ErrorKind::UnexpectedEof);
    let e = pack_error(PackFailure::NotText("bad".to_string()));
    assert_eq!(e.kind(), ErrorKind::InvalidData);
    assert_eq!(e.message, "bad");
    assert!(matches!(
        packed_layers(Err(PackFailure::LayerNotFound)),
        Err(PrologError::Exception(Raised::Io(_)))
    ));
    let layers = packed_layers(Ok(vec![([0; 5], None), ([1; 5], Some([0; 5]))])).unwrap();
    assert_eq!(layers[0].id, "0".repeat(40));
    assert_eq!(layers[0].parent, None);
    assert_eq!(layers[1].id, "00000001".repeat(5));
    assert_eq!(layers[1].parent, Some("0".repeat(40)));
}

// ---- object stores ----

#[test]
fn the_atom_memory_is_the_bucket_in_the_process() {
    assert!(matches!(choose_bucket(BucketTerm::Unbound), Ok(Bucket::Memory)));
    assert!(matches!(choose_bucket(BucketTerm::Atom("memory".to_string())), Ok(Bucket::Memory)));
    // a string does not unify with an atom
    match choose_bucket(BucketTerm::Text("memory".to_string())) {
        Ok(Bucket::S3 { name, conditional_put }) => {
            assert_eq!(name, "memory");
            assert_eq!(conditional_put, ConditionalPut::ETagMatch);
        }
        _ => panic!("a bucket of that name"),
    }
    match choose_bucket(BucketTerm::Atom("data".to_string())) {
        Ok(Bucket::S3 { name, .. }) => assert_eq!(name, "data"),
        _ => panic!("a bucket of that name"),
    }
}

#[test]
fn the_terms_of_an_object_store_are_looked_at_in_order() {
    let raised = || PrologError::Exception(Raised::Engine);
    let config = object_store_config(BucketTerm::Unbound, Ok("prefix".to_string()), Ok(17)).unwrap();
    assert_eq!(config.prefix, "prefix");
    assert_eq!(config.cache_size, 17);
    assert!(matches!(
        object_store_config(BucketTerm::Other(raised()), Err(PrologError::Failure), Err(raised())),
        Err(PrologError::Failure)
    ));
    assert!(matches!(
        object_store_config(BucketTerm::Other(raised()), Ok(String::new()), Err(PrologError::Failure)),
        Err(PrologError::Failure)
    ));
    assert!(matches!(
        object_store_config(BucketTerm::Other(raised()), Ok(String::new()), Ok(1)),
        Err(PrologError::Exception(Raised::Engine))
    ));
}

// ---- the process ----

#[test]
fn the_resident_set_size_is_read_from_its_line() {
    let status = "Name:\tswipl\nVmPeak:\t  999 kB\nVmRSS:\t   12345 kB\nVmRSS:\t 1 kB\n";
    assert_eq!(parse_rss_bytes(status), Some(12345 * 1024));
    assert_eq!(parse_rss_bytes("VmRSS: 7"), Some(7 * 1024));
    assert_eq!(parse_rss_bytes("VmRSS:\u{2003}+7\r\n"), Some(7 * 1024));
    assert_eq!(parse_rss_bytes("x\nVmRSS:\t0 kB"), Some(0));
    assert_eq!(parse_rss_kib(status), Some(12345));
    assert_eq!(parse_rss_kib("VmRSS: 18446744073709551615 kB"), Some(18446744073709551615));
    assert_eq!(parse_rss_kib("VmRSS: 18446744073709551616 kB"), None);
}

#[test]
fn a_description_without_a_size_gives_none() {
    assert_eq!(parse_rss_bytes(""), None);
    assert_eq!(parse_rss_bytes("\n\n"), None);
    assert_eq!(parse_rss_bytes("Name:\tswipl\n VmRSS: 7\n"), None);
    assert_eq!(parse_rss_bytes("VmRSS:\n"), None);
    assert_eq!(parse_rss_bytes("VmRSS: kB\nVmRSS: 7\n"), None);
    assert_eq!(parse_rss_bytes("VmRSS: -7 kB"), None);
    assert_eq!(parse_rss_bytes("VmRSS: + kB"), None);
    assert_eq!(parse_rss_bytes("VmRSS: 99999999999999999999999 kB"), None);
    assert_eq!(parse_rss_bytes("VmRSS:7 kB"), None);
}

#[test]
fn an_unknown_size_is_a_failure() {
    assert_eq!(bytes_or_fail(Some(5)).unwrap(), 5);
    assert!(matches!(bytes_or_fail(None), Err(PrologError::Failure)));
    assert_eq!(mach_rss_bytes(0, 77), Some(77));
    assert_eq!(mach_rss_bytes(5, 77), None);
}
