use vstd::prelude::*;

verus! {

/// An opaque identifier of an open pool, issued by the pool service.
pub type PoolHandle = i32;

/// An opaque identifier issued by the pool service when a close begins,
/// later matched against the acknowledgement of that close.
pub type CommandHandle = i32;

/// What went wrong.
#[derive(Clone, Copy, Debug, PartialEq, Eq, Structural)]
pub enum ErrorKind {
    InvalidStructure,
    InvalidState,
    IOError,
    PoolNotCreated,
    InvalidPoolHandle,
    PoolTerminated,
    PoolTimeout,
    PoolConfigAlreadyExists,
    PoolIncompatibleProtocolVersion,
}

/// An error handed to a callback: its kind and a message for people.
#[derive(Clone, Debug, PartialEq)]
pub struct PoolError {
    pub kind: ErrorKind,
    pub message: String,
}

pub type PoolResult<T> = Result<T, PoolError>;

impl PoolError {
    pub fn new(kind: ErrorKind, message: String) -> (r: PoolError)
        ensures
            r.kind == kind,
            r.message@ == message@,
    {
        PoolError { kind, message }
    }

    pub fn kind(&self) -> (r: ErrorKind)
        ensures
            r == self.kind,
    {
        self.kind
    }
}

/// Whether `r` failed with an error of the given kind.
pub open spec fn fails_with<T>(r: PoolResult<T>, kind: ErrorKind) -> bool {
    r is Err && r->Err_0.kind == kind
}

} // verus!
