//! Errors reported by every operation.
use vstd::prelude::*;
use vstd::string::StringExecFns;

verus! {

/// The four ways an operation can fail.
#[derive(Clone, Copy, Debug, PartialEq, Eq, Structural)]
pub enum ErrorKind {
    /// The path did not exist when the operation was called.
    PathMissing,
    /// A helper program could not be started.
    SpawnFailure,
    /// The helper ran but reported failure.
    LaunchRejected,
    /// A platform API call itself returned an error.
    PlatformApiFailure,
}

/// A failed operation: its kind and a message naming the path and, where
/// relevant, the helper.
#[derive(Clone, Debug)]
pub struct OpenError {
    pub kind: ErrorKind,
    pub message: String,
}

impl OpenError {
    pub fn new(kind: ErrorKind, message: String) -> (r: OpenError)
        ensures
            r.kind == kind,
            r.message@ == message@,
    {
        OpenError { kind, message }
    }

    pub fn kind(&self) -> (r: ErrorKind)
        ensures
            r == self.kind,
    {
        self.kind
    }

    pub fn message(&self) -> (r: String)
        ensures
            r@ == self.message@,
    {
        self.message.clone()
    }
}

/// `a` followed by `b`.
pub fn join(a: &str, b: &str) -> (r: String)
    ensures
        r@ == a@ + b@,
{
    String::from_str(a).concat(b)
}

/// `a`, then `b`, then `c`, then `d`.
pub fn join4(a: &str, b: &str, c: &str, d: &str) -> (r: String)
    ensures
        r@ == a@ + b@ + c@ + d@,
{
    String::from_str(a).concat(b).concat(c).concat(d)
}

/// The message when the launcher ran but refused to open `path`.
pub open spec fn open_rejected(path: Seq<char>) -> Seq<char> {
    "Failed to open path: "@ + path
}

/// The message when the launcher ran but refused to reveal `path`.
pub open spec fn reveal_rejected(path: Seq<char>) -> Seq<char> {
    "Failed to reveal path: "@ + path
}

/// The message when `app` ran but refused to open `path`.
pub open spec fn open_with_rejected(path: Seq<char>, app: Seq<char>) -> Seq<char> {
    "Failed to open "@ + path + " with "@ + app
}

/// The message when `path` does not exist.
pub open spec fn path_missing_message(path: Seq<char>) -> Seq<char> {
    "Path does not exist: "@ + path
}

/// The error raised before dispatch when `path` does not exist.
pub fn path_missing(path: &str) -> (r: OpenError)
    ensures
        r.kind == ErrorKind::PathMissing,
        r.message@ == path_missing_message(path@),
{
    OpenError::new(ErrorKind::PathMissing, join("Path does not exist: ", path))
}

} // verus!
