//! The error of every storage decision.
use vstd::prelude::*;

verus! {

/// What kind of failure an error reports.
#[derive(Debug, Clone, Copy, PartialEq, Eq, Structural)]
pub enum ErrorKind {
    NotFound,
    PermissionDenied,
    AlreadyExists,
    WouldBlock,
    InvalidInput,
    InvalidData,
    Other,
    /// A failure of the operating system that carries its own number.
    System(i32),
}

/// A failed storage operation.
#[derive(Debug)]
pub struct StorageError {
    pub kind: ErrorKind,
    pub message: String,
    /// Whether the failure is a conflict with durable session authority.
    pub authority_conflict: bool,
}

/// What an error says.
pub struct ErrorView {
    pub kind: ErrorKind,
    pub message: Seq<char>,
    pub authority_conflict: bool,
}

impl View for StorageError {
    type V = ErrorView;

    open spec fn view(&self) -> ErrorView {
        ErrorView {
            kind: self.kind,
            message: self.message@,
            authority_conflict: self.authority_conflict,
        }
    }
}

/// An ordinary failure of some kind.
pub open spec fn plain_error(kind: ErrorKind, message: Seq<char>) -> ErrorView {
    ErrorView { kind, message, authority_conflict: false }
}

/// A conflict with durable session authority.
pub open spec fn conflict_error(kind: ErrorKind, message: Seq<char>) -> ErrorView {
    ErrorView { kind, message, authority_conflict: true }
}

/// The view of a result whose value has one of its own.
pub open spec fn result_view<T: View>(r: Result<T, StorageError>) -> Result<T::V, ErrorView> {
    match r {
        Ok(v) => Ok(v@),
        Err(e) => Err(e@),
    }
}

/// The view of a result whose value is already plain.
pub open spec fn plain_view<T>(r: Result<T, StorageError>) -> Result<T, ErrorView> {
    match r {
        Ok(v) => Ok(v),
        Err(e) => Err(e@),
    }
}

impl StorageError {
    /// An ordinary failure of some kind.
    pub fn new(kind: ErrorKind, message: String) -> (e: StorageError)
        ensures
            e@ == plain_error(kind, message@),
    {
        StorageError { kind, message, authority_conflict: false }
    }

    /// A conflict with durable session authority.
    pub fn conflict(kind: ErrorKind, message: String) -> (e: StorageError)
        ensures
            e@ == conflict_error(kind, message@),
    {
        StorageError { kind, message, authority_conflict: true }
    }
}

impl Clone for StorageError {
    fn clone(&self) -> (e: StorageError)
        ensures
            e == *self,
    {
        StorageError {
            kind: self.kind,
            message: self.message.clone(),
            authority_conflict: self.authority_conflict,
        }
    }
}

/// A failure with no kind of its own.
pub fn other_io_error(message: &str) -> (e: StorageError)
    ensures
        e@ == plain_error(ErrorKind::Other, message@),
{
    StorageError::new(ErrorKind::Other, message.to_owned())
}

/// An error is seen with its kind, its message and whether it is a conflict; an ordinary failure is
/// none, a conflict is one.
pub proof fn errors_are_seen_whole(e: StorageError, kind: ErrorKind, message: Seq<char>)
    ensures
        e@.kind == e.kind && e@.message == e.message@ && e@.authority_conflict
            == e.authority_conflict,
        plain_error(kind, message).kind == kind && plain_error(kind, message).message == message,
        !plain_error(kind, message).authority_conflict,
        conflict_error(kind, message).kind == kind && conflict_error(kind, message).message
            == message,
        conflict_error(kind, message).authority_conflict,
{
}

/// A result is seen as a success with its value or as a failure with its error.
pub proof fn results_are_seen_whole<T: View>(v: T, e: StorageError)
    ensures
        plain_view(Ok::<T, StorageError>(v)) == Ok::<T, ErrorView>(v),
        plain_view(Err::<T, StorageError>(e)) == Err::<T, ErrorView>(e@),
        result_view(Ok::<T, StorageError>(v)) == Ok::<T::V, ErrorView>(v@),
        result_view(Err::<T, StorageError>(e)) == Err::<T::V, ErrorView>(e@),
{
}

} // verus!
