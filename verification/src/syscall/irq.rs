//! The IRQ handler capability: binding a line to an endpoint, acknowledging, clearing.
use vstd::prelude::*;
use crate::error::{KernelError, Reply, RetCode};
use crate::kernel::KernelState;
use crate::kernel::capability::CapType;
use crate::kernel::irq::{IrqSlot, MAX_IRQS};

verus! {

/// The methods of an IRQ handler capability.
#[derive(Clone, Copy, Debug, PartialEq, Eq, Structural)]
pub enum IrqMethod {
    SetNotification,
    Ack,
    ClearNotification,
    SetPriority,
    SetThreshold,
    /// Any method code that an IRQ handler does not know.
    Other,
}

/// A reply, and whether the host must unmask the devices on the line.
pub struct IrqReply {
    pub reply: Reply,
    pub ack: bool,
}

/// Register `i` of a message, or 0 where the message is shorter.
pub open spec fn mr_or_zero(mrs: Seq<usize>, i: int) -> usize {
    if i < mrs.len() {
        mrs[i]
    } else {
        0
    }
}

impl KernelState {
    /// `SetNotification` binds line `irq` to the endpoint in slot `mrs[0]` with badge
    /// `mrs[1]` (0 where missing), answering `InvalidCapability` if that slot holds no
    /// endpoint and `InvalidArgs` for a line past the table; `Ack` asks the host to unmask
    /// the line's devices; `ClearNotification` unbinds the line; priority and threshold
    /// are accepted and ignored. All of these answer 0; other methods get `usize::MAX`.
    pub fn handle_irq_invocation(&mut self, irq: usize, method: IrqMethod, tag: usize, mrs: Vec<usize>) -> (r: IrqReply)
        requires
            old(self).wf(),
        ensures
            final(self).wf(),
            final(self).cspace == old(self).cspace,
            final(self).resource == old(self).resource,
            r.reply.mrs@ == Seq::<usize>::empty(),
            r.ack == (method == IrqMethod::Ack),
            match method {
                IrqMethod::SetNotification => {
                    let ep = mr_or_zero(mrs@, 0);
                    let badge = mr_or_zero(mrs@, 1);
                    if old(self).cspace.caps().contains_key(ep) && old(self).cspace.caps()[ep].cap_type
                        == CapType::Endpoint {
                        if irq < MAX_IRQS {
                            &&& r.reply.ret == RetCode::Value(0)
                            &&& final(self).irq_manager.table@ == old(self).irq_manager.table@.update(
                                irq as int,
                                IrqSlot { cptr: Some(ep), badge, enabled: true },
                            )
                        } else {
                            &&& r.reply.ret == RetCode::Error(KernelError::InvalidArgs)
                            &&& final(self).irq_manager.table@ == old(self).irq_manager.table@
                        }
                    } else {
                        &&& r.reply.ret == RetCode::Error(KernelError::InvalidCapability)
                        &&& final(self).irq_manager == old(self).irq_manager
                    }
                },
                IrqMethod::ClearNotification => {
                    &&& r.reply.ret == RetCode::Value(0)
                    &&& irq < MAX_IRQS ==> final(self).irq_manager.table@ == old(self).irq_manager.table@.update(
                        irq as int,
                        IrqSlot { cptr: None, enabled: false, ..old(self).irq_manager.table@[irq as int] },
                    )
                    &&& irq >= MAX_IRQS ==> final(self).irq_manager.table@ == old(self).irq_manager.table@
                },
                IrqMethod::Ack | IrqMethod::SetPriority | IrqMethod::SetThreshold => {
                    &&& r.reply.ret == RetCode::Value(0)
                    &&& final(self).irq_manager == old(self).irq_manager
                },
                IrqMethod::Other => {
                    &&& r.reply.ret == RetCode::Value(usize::MAX)
                    &&& final(self).irq_manager == old(self).irq_manager
                },
            },
    {
        match method {
            IrqMethod::SetNotification => {
                let ep = if mrs.len() > 0 {
                    mrs[0]
                } else {
                    0
                };
                let badge = if mrs.len() > 1 {
                    mrs[1]
                } else {
                    0
                };
                let is_endpoint = match self.cspace.get(ep) {
                    Some(c) => c.cap_type == CapType::Endpoint,
                    None => false,
                };
                if is_endpoint {
                    match self.irq_manager.bind_notification(irq, ep, badge) {
                        Ok(()) => IrqReply { reply: Reply::value(0), ack: false },
                        Err(e) => IrqReply { reply: Reply::error(e), ack: false },
                    }
                } else {
                    IrqReply { reply: Reply::error(KernelError::InvalidCapability), ack: false }
                }
            },
            IrqMethod::Ack => IrqReply { reply: Reply::value(0), ack: true },
            IrqMethod::ClearNotification => {
                let _ = self.irq_manager.clear_notification(irq);
                IrqReply { reply: Reply::value(0), ack: false }
            },
            IrqMethod::SetPriority | IrqMethod::SetThreshold => IrqReply { reply: Reply::value(0), ack: false },
            IrqMethod::Other => IrqReply { reply: Reply::value(usize::MAX), ack: false },
        }
    }
}

} // verus!
