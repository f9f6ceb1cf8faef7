//! The address space capability.
use vstd::prelude::*;
use crate::error::{Reply, RetCode};
use crate::kernel::KernelState;

verus! {

impl KernelState {
    /// The host manages the address space: mapping, table mapping, setup and every other
    /// method succeed with 0.
    pub fn handle_vspace_invocation(&self, method: usize, tag: usize, mrs: Vec<usize>) -> (r: Reply)
        ensures
            r.ret == RetCode::Value(0),
            r.mrs@ == Seq::<usize>::empty(),
    {
        Reply::value(0)
    }
}

} // verus!
