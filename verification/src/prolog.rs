//! How a predicate ends.
//!
//! A predicate of the Prolog interface succeeds, fails, or raises. Failure is
//! an answer ("there is no solution"); an exception is not. What this module
//! is careful about is that a storage error never turns into a failure.
use crate::error::IoError;
use vstd::prelude::*;

verus! {

/// What a predicate raises.
#[derive(Debug)]
pub enum Raised {
    /// A storage operation failed.
    Io(IoError),
    /// The term for an object is neither a node nor a value.
    NotAnObject,
    /// The term for a literal is neither a value nor a language string.
    NotALiteral,
    /// A builder was asked of a named graph that has no layer yet.
    CannotOpenNamedGraphWithoutBaseLayer,
    /// The parameters of compaction are not both positive.
    CompactionParamsNotPositive,
    /// The Prolog engine itself holds the exception.
    Engine,
}

/// The two ways in which a predicate does not succeed.
#[derive(Debug)]
pub enum PrologError {
    Failure,
    Exception(Raised),
}

/// What a predicate makes of a storage operation: its value, or the exception
/// that carries its error. Never a failure.
pub open spec fn or_die<T>(result: Result<T, IoError>) -> Result<T, PrologError> {
    match result {
        Ok(v) => Ok(v),
        Err(e) => Err(PrologError::Exception(Raised::Io(e))),
    }
}

/// Turns the error of a storage operation into an exception.
pub fn try_or_die<T>(result: Result<T, IoError>) -> (r: Result<T, PrologError>)
    ensures
        r == or_die(result),
{
    match result {
        Ok(v) => Ok(v),
        Err(e) => Err(PrologError::Exception(Raised::Io(e))),
    }
}

/// Turns a failure into an absent value; an exception stays one.
pub fn attempt_opt<T>(result: Result<T, PrologError>) -> (r: Result<Option<T>, PrologError>)
    ensures
        r == (match result {
            Ok(v) => Ok(Some(v)),
            Err(PrologError::Failure) => Ok(None),
            Err(PrologError::Exception(x)) => Err(PrologError::Exception(x)),
        }),
{
    match result {
        Ok(v) => Ok(Some(v)),
        Err(PrologError::Failure) => Ok(None),
        Err(PrologError::Exception(x)) => Err(PrologError::Exception(x)),
    }
}

/// A predicate that succeeds exactly if `holds`.
pub fn into_prolog_result(holds: bool) -> (r: Result<(), PrologError>)
    ensures
        r == (if holds {
            Ok(())
        } else {
            Err(PrologError::Failure)
        }),
{
    if holds {
        Ok(())
    } else {
        Err(PrologError::Failure)
    }
}

/// What a predicate makes of a storage operation that may find nothing:
/// nothing found is a failure, an error is an exception.
pub open spec fn found<T>(result: Result<Option<T>, IoError>) -> Result<T, PrologError> {
    match result {
        Ok(Some(v)) => Ok(v),
        Ok(None) => Err(PrologError::Failure),
        Err(e) => Err(PrologError::Exception(Raised::Io(e))),
    }
}

/// Turns nothing found into a failure and an error into an exception.
pub fn found_or_fail<T>(result: Result<Option<T>, IoError>) -> (r: Result<T, PrologError>)
    ensures
        r == found(result),
{
    match result {
        Ok(Some(v)) => Ok(v),
        Ok(None) => Err(PrologError::Failure),
        Err(e) => Err(PrologError::Exception(Raised::Io(e))),
    }
}

/// A storage error surfaces as the exception that carries it, and as nothing
/// else: a predicate fails only where the storage said that there is nothing.
pub proof fn a_storage_error_is_never_a_failure<T>(result: Result<Option<T>, IoError>, error: IoError)
    ensures
        found(result) == Err::<T, PrologError>(PrologError::Failure) <==> result == Ok::<
            Option<T>,
            IoError,
        >(None),
        found(result) == Err::<T, PrologError>(PrologError::Exception(Raised::Io(error))) <==> result
            == Err::<Option<T>, IoError>(error),
{
}

/// A storage operation that succeeded gives its value, and one that failed
/// raises its error.
pub proof fn an_error_is_raised<T>(result: Result<T, IoError>, r: Result<T, PrologError>)
    requires
        call_ensures(try_or_die::<T>, (result,), r),
    ensures
        result matches Ok(v) ==> r == Ok::<T, PrologError>(v),
        result matches Err(e) ==> r == Err::<T, PrologError>(PrologError::Exception(Raised::Io(e))),
{
}

/// What was found is given, nothing found fails, and an error is raised.
pub proof fn nothing_found_is_a_failure<T>(result: Result<Option<T>, IoError>, r: Result<T, PrologError>)
    requires
        call_ensures(found_or_fail::<T>, (result,), r),
    ensures
        result matches Ok(Some(v)) ==> r == Ok::<T, PrologError>(v),
        result matches Ok(None) ==> r == Err::<T, PrologError>(PrologError::Failure),
        result matches Err(e) ==> r == Err::<T, PrologError>(PrologError::Exception(Raised::Io(e))),
{
}

/// An attempt takes a failure for nothing, and leaves values and exceptions.
pub proof fn an_attempt_stops_failures_only<T>(result: Result<T, PrologError>, r: Result<Option<T>, PrologError>)
    requires
        call_ensures(attempt_opt::<T>, (result,), r),
    ensures
        result matches Ok(v) ==> r == Ok::<Option<T>, PrologError>(Some(v)),
        result == Err::<T, PrologError>(PrologError::Failure) ==> r == Ok::<Option<T>, PrologError>(None),
        result matches Err(PrologError::Exception(x)) ==> r == Err::<Option<T>, PrologError>(
            PrologError::Exception(x),
        ),
{
}

/// A condition is a success if it holds, and else a failure.
pub proof fn a_condition_succeeds_or_fails(holds: bool, r: Result<(), PrologError>)
    requires
        call_ensures(into_prolog_result, (holds,), r),
    ensures
        holds ==> r == Ok::<(), PrologError>(()),
        !holds ==> r == Err::<(), PrologError>(PrologError::Failure),
{
}

} // verus!
