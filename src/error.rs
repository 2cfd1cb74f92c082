//! The error and readiness values that the stream's operations hand back, and the
//! default classification of transport errors into disconnects and transient ones.
use vstd::prelude::*;

verus! {

/// The kinds of I/O error that a transport reports.
#[derive(Clone, Copy, PartialEq, Eq, Debug, Structural)]
pub enum IoErrorKind {
    NotFound,
    PermissionDenied,
    ConnectionRefused,
    ConnectionReset,
    ConnectionAborted,
    NotConnected,
    AddrInUse,
    AddrNotAvailable,
    BrokenPipe,
    AlreadyExists,
    WouldBlock,
    InvalidInput,
    InvalidData,
    TimedOut,
    WriteZero,
    Interrupted,
    UnexpectedEof,
    Other,
}

/// An I/O error: its kind and a human-readable reason.
#[derive(Clone, Debug)]
pub struct IoError {
    pub kind: IoErrorKind,
    pub message: String,
}

/// The result of one non-blocking step of an operation: done, with a value or an
/// error, or not ready yet (the caller retries once woken).
#[derive(Debug)]
pub enum IoPoll<R> {
    Ready(Result<R, IoError>),
    Pending,
}

/// The kinds that mean the connection is gone, by default.
pub open spec fn is_disconnect_kind(kind: IoErrorKind) -> bool {
    match kind {
        IoErrorKind::NotFound
        | IoErrorKind::PermissionDenied
        | IoErrorKind::ConnectionRefused
        | IoErrorKind::ConnectionReset
        | IoErrorKind::ConnectionAborted
        | IoErrorKind::NotConnected
        | IoErrorKind::AddrInUse
        | IoErrorKind::AddrNotAvailable
        | IoErrorKind::BrokenPipe
        | IoErrorKind::AlreadyExists => true,
        _ => false,
    }
}

/// Whether an error of `kind` means, by default, that the connection is gone.
pub fn default_is_disconnect_error(kind: IoErrorKind) -> (r: bool)
    ensures
        r == is_disconnect_kind(kind),
{
    match kind {
        IoErrorKind::NotFound
        | IoErrorKind::PermissionDenied
        | IoErrorKind::ConnectionRefused
        | IoErrorKind::ConnectionReset
        | IoErrorKind::ConnectionAborted
        | IoErrorKind::NotConnected
        | IoErrorKind::AddrInUse
        | IoErrorKind::AddrNotAvailable
        | IoErrorKind::BrokenPipe
        | IoErrorKind::AlreadyExists => true,
        _ => false,
    }
}

/// Whether a successful read of `bytes_read` bytes means, by default, that the
/// peer closed: a read of zero bytes does.
pub fn default_is_final_read(bytes_read: usize) -> (r: bool)
    ensures
        r == (bytes_read == 0),
{
    bytes_read == 0
}

/// The reason given once the reconnect schedule is spent.
pub open spec fn exhausted_reason() -> Seq<char> {
    "Disconnected. Connection attempts have been exhausted."@
}

/// The reason given for a shutdown while the transport is gone.
pub open spec fn disconnected_reason() -> Seq<char> {
    "Underlying I/O is disconnected."@
}

/// `p` is a finished step that failed with an error of `kind` and `reason`.
pub open spec fn is_err_with<R>(p: IoPoll<R>, kind: IoErrorKind, reason: Seq<char>) -> bool {
    match p {
        IoPoll::Ready(Err(e)) => e.kind == kind && e.message@ == reason,
        _ => false,
    }
}

/// The error that every operation reports once reconnect attempts are exhausted.
pub open spec fn is_exhausted_err<R>(p: IoPoll<R>) -> bool {
    is_err_with(p, IoErrorKind::NotConnected, exhausted_reason())
}

/// The error that a shutdown reports while the transport is gone.
pub open spec fn is_disconnected_err<R>(p: IoPoll<R>) -> bool {
    is_err_with(p, IoErrorKind::NotConnected, disconnected_reason())
}

/// A finished step that failed with an error of `kind` and `reason`.
pub fn poll_err<R>(kind: IoErrorKind, reason: &str) -> (r: IoPoll<R>)
    ensures
        is_err_with(r, kind, reason@),
{
    IoPoll::Ready(Err(IoError { kind, message: reason.to_owned() }))
}

/// The error once reconnect attempts are exhausted.
pub fn exhausted_err<R>() -> (r: IoPoll<R>)
    ensures
        is_exhausted_err(r),
{
    poll_err(IoErrorKind::NotConnected, "Disconnected. Connection attempts have been exhausted.")
}

/// The error for a shutdown while the transport is gone.
pub fn disconnected_err<R>() -> (r: IoPoll<R>)
    ensures
        is_disconnected_err(r),
{
    poll_err(IoErrorKind::NotConnected, "Underlying I/O is disconnected.")
}

} // verus!
