//! The decisions of the I/O ring emulator: which slot an index names, whether the
//! completion queue has room, what a submission does, and the completion code.
use vstd::prelude::*;

verus! {

/// The operations a submission can ask for.
#[derive(Clone, Copy, Debug, PartialEq, Eq, Structural)]
pub enum SqeOp {
    Read,
    Write,
    Sync,
    /// Any opcode the emulator does not know.
    Unknown,
}

/// What to do with a submission.
#[derive(Clone, Copy, Debug, PartialEq, Eq, Structural)]
pub enum SqePlan {
    /// No file is attached: complete with the bad-file error.
    BadFile,
    /// An unknown operation: complete with the invalid-argument error.
    Invalid,
    /// Perform the operation on the file.
    Perform(SqeOp),
}

/// A submission without a file fails as a bad file, one with an unknown operation as
/// invalid; any other is performed.
pub fn plan_sqe(has_file: bool, op: SqeOp) -> (p: SqePlan)
    ensures
        p == (if !has_file {
            SqePlan::BadFile
        } else if op == SqeOp::Unknown {
            SqePlan::Invalid
        } else {
            SqePlan::Perform(op)
        }),
{
    if !has_file {
        SqePlan::BadFile
    } else if op == SqeOp::Unknown {
        SqePlan::Invalid
    } else {
        SqePlan::Perform(op)
    }
}

/// The completion code of a performed operation: the byte count, cut to 32 bits, or
/// the negated error number.
pub fn completion_code(done: Result<usize, i32>) -> (code: i32)
    requires
        done matches Err(e) ==> e != i32::MIN,
    ensures
        code as int == (match done {
            Ok(n) => (n as i32) as int,
            Err(e) => -e,
        }),
{
    match done {
        Ok(n) => {
            #[verifier::truncate]
            (n as i32)
        },
        Err(e) => -e,
    }
}

/// The ring slot that a running index names.
pub fn ring_slot(index: u64, mask: u64) -> (slot: usize)
    ensures
        slot == (index & mask) as usize,
{
    #[verifier::truncate]
    ((index & mask) as usize)
}

/// The completion queue has room while fewer than `entries` completions are unread.
pub fn cq_has_room(head: u64, tail: u64, entries: u64) -> (room: bool)
    requires
        head <= tail,
    ensures
        room == (tail - head < entries),
{
    tail - head < entries
}

} // verus!
