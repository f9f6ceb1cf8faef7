//! The thread control block capability.
use vstd::prelude::*;
use crate::error::{Reply, RetCode};
use crate::kernel::KernelState;

verus! {

impl KernelState {
    /// Thread configuration is the host's business: every method succeeds with 0.
    pub fn handle_tcb_invocation(&self, method: usize, tag: usize, mrs: Vec<usize>) -> (r: Reply)
        ensures
            r.ret == RetCode::Value(0),
            r.mrs@ == Seq::<usize>::empty(),
    {
        Reply::value(0)
    }
}

} // verus!
