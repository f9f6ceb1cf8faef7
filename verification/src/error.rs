//! Errors that the kernel reports back to a caller.
use vstd::prelude::*;

verus! {

/// The kernel errors that the runtime produces itself.
#[derive(Clone, Copy, Debug, PartialEq, Eq, Structural)]
pub enum KernelError {
    InvalidArgs,
    InvalidCapability,
    NotFound,
    NotSupported,
    IoError,
}

/// The first word of a reply: a value, or an error that the host encodes with its
/// own error numbers.
#[derive(Clone, Copy, Debug, PartialEq, Eq, Structural)]
pub enum RetCode {
    Value(usize),
    Error(KernelError),
}

/// A reply to an invocation: the return word and the message registers to hand back.
pub struct Reply {
    pub ret: RetCode,
    pub mrs: Vec<usize>,
}

impl Reply {
    /// The reply `(value, [])`.
    pub fn value(v: usize) -> (r: Self)
        ensures
            r.ret == RetCode::Value(v),
            r.mrs@ == Seq::<usize>::empty(),
    {
        Reply { ret: RetCode::Value(v), mrs: Vec::new() }
    }

    /// The reply `(error, [])`.
    pub fn error(e: KernelError) -> (r: Self)
        ensures
            r.ret == RetCode::Error(e),
            r.mrs@ == Seq::<usize>::empty(),
    {
        Reply { ret: RetCode::Error(e), mrs: Vec::new() }
    }
}

} // verus!
