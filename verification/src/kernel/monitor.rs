//! The monitor capability: growing the heap and exiting.
use vstd::prelude::*;
use crate::error::{Reply, RetCode};
use crate::kernel::KernelState;
use crate::service::resource::{moved_brk, sbrk_ok};

verus! {

/// The methods of the monitor capability.
#[derive(Clone, Copy, Debug, PartialEq, Eq, Structural)]
pub enum MonitorMethod {
    Sbrk,
    Exit,
    /// Any method code that the monitor does not know.
    Other,
}

/// What an invocation asks of the host: reply to the invoker, or end the program with
/// an exit code.
pub enum Outcome {
    Reply(Reply),
    Exit(usize),
}

/// The invocation has the arguments it reads: both methods read the first register, and
/// the heap break must not overflow.
pub open spec fn monitor_args_ok(k: KernelState, method: MonitorMethod, mrs: Seq<usize>) -> bool {
    match method {
        MonitorMethod::Sbrk => mrs.len() >= 1 && sbrk_ok(k.resource.brk, mrs[0] as isize),
        MonitorMethod::Exit => mrs.len() >= 1,
        MonitorMethod::Other => true,
    }
}

impl KernelState {
    /// `Sbrk` moves the heap break by the first register (read as signed) and returns
    /// the old break; `Exit` ends the program with the first register as its code; other
    /// methods get `usize::MAX`.
    pub fn handle_monitor_invocation(&mut self, method: MonitorMethod, tag: usize, mrs: Vec<usize>) -> (o: Outcome)
        requires
            monitor_args_ok(*old(self), method, mrs@),
        ensures
            final(self).cspace == old(self).cspace,
            final(self).irq_manager == old(self).irq_manager,
            final(self).resource.registered_caps@ == old(self).resource.registered_caps@,
            final(self).resource.endpoints@ == old(self).resource.endpoints@,
            final(self).resource.heap_start == old(self).resource.heap_start,
            final(self).resource.heap_size == old(self).resource.heap_size,
            match method {
                MonitorMethod::Sbrk => {
                    &&& o matches Outcome::Reply(r) && r.ret == RetCode::Value(old(self).resource.brk)
                        && r.mrs@ == Seq::<usize>::empty()
                    &&& final(self).resource.brk == moved_brk(old(self).resource.brk, mrs@[0] as isize)
                },
                MonitorMethod::Exit => {
                    &&& o == Outcome::Exit(mrs@[0])
                    &&& final(self).resource.brk == old(self).resource.brk
                },
                MonitorMethod::Other => {
                    &&& o matches Outcome::Reply(r) && r.ret == RetCode::Value(usize::MAX)
                        && r.mrs@ == Seq::<usize>::empty()
                    &&& final(self).resource.brk == old(self).resource.brk
                },
            },
    {
        match method {
            MonitorMethod::Sbrk => {
                let incr = mrs[0] as isize;
                let old_brk = self.resource.sbrk(incr);
                Outcome::Reply(Reply::value(old_brk))
            },
            MonitorMethod::Exit => Outcome::Exit(mrs[0]),
            MonitorMethod::Other => Outcome::Reply(Reply::value(usize::MAX)),
        }
    }
}

} // verus!
