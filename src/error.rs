//! The errors that a scan can end in.

use vstd::prelude::*;
use vstd::string::StringExecFns;

verus! {

/// What went wrong, one kind for each way a lifecycle call can fail.
#[derive(Debug, Clone, Copy, PartialEq, Eq, Structural)]
pub enum ErrorKind {
    UnsupportedEndpoint,
    MissingRequiredParameter,
    InvalidParameterRange,
    TransportError,
    MalformedResponse,
    UnknownColumn,
    RowIndexOutOfBounds,
    UnsupportedOperation,
}

/// An error: its kind, and a message for the person who wrote the query.
#[derive(Debug)]
pub struct FdwError {
    pub kind: ErrorKind,
    pub message: String,
}

impl FdwError {
    /// An error of the given kind with a fixed message.
    pub fn new(kind: ErrorKind, message: &str) -> (r: FdwError)
        ensures
            r.kind == kind,
            r.message@ == message@,
    {
        FdwError { kind, message: message.to_owned() }
    }
}

/// The text `a`, then `b`, then `c`.
pub fn join3(a: &str, b: &str, c: &str) -> (r: String)
    ensures
        r@ == a@ + b@ + c@,
{
    let s = String::from_str(a);
    let s = s.concat(b);
    s.concat(c)
}

/// An error of the given kind whose message puts `detail` between two fixed texts.
pub fn error_with(kind: ErrorKind, before: &str, detail: &str, after: &str) -> (r: FdwError)
    ensures
        r.kind == kind,
        r.message@ == before@ + detail@ + after@,
{
    FdwError { kind, message: join3(before, detail, after) }
}

} // verus!
