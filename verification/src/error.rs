//! Errors of the storage side.
//!
//! A storage operation that fails says of which kind the failure was and what
//! explains it. Both travel unchanged from where the operation was made to
//! where the failure is raised.
use vstd::prelude::*;

verus! {

/// Of which kind a failed storage operation was: the kinds of std, by their
/// names.
#[derive(Clone, Copy, Debug, PartialEq, Eq, Structural)]
pub enum ErrorKind {
    NotFound,
    PermissionDenied,
    ConnectionRefused,
    ConnectionReset,
    HostUnreachable,
    NetworkUnreachable,
    ConnectionAborted,
    NotConnected,
    AddrInUse,
    AddrNotAvailable,
    NetworkDown,
    BrokenPipe,
    AlreadyExists,
    WouldBlock,
    NotADirectory,
    IsADirectory,
    DirectoryNotEmpty,
    ReadOnlyFilesystem,
    FilesystemLoop,
    StaleNetworkFileHandle,
    InvalidInput,
    InvalidData,
    TimedOut,
    WriteZero,
    StorageFull,
    NotSeekable,
    QuotaExceeded,
    FileTooLarge,
    ResourceBusy,
    ExecutableFileBusy,
    Deadlock,
    CrossesDevices,
    TooManyLinks,
    InvalidFilename,
    ArgumentListTooLong,
    Interrupted,
    Unsupported,
    UnexpectedEof,
    OutOfMemory,
    InProgress,
    Other,
    /// A failure that the operating system reports and std has no kind for.
    Uncategorized,
}

/// A failed storage operation: its kind, and the text that explains it.
#[derive(Debug)]
pub struct IoError {
    pub kind: ErrorKind,
    pub message: String,
}

impl IoError {
    pub fn new(kind: ErrorKind, message: String) -> (error: IoError)
        ensures
            error.kind == kind,
            error.message == message,
    {
        IoError { kind, message }
    }

    pub fn kind(&self) -> (kind: ErrorKind)
        ensures
            kind == self.kind,
    {
        self.kind
    }
}

} // verus!
