//! The IRQ table: which endpoint each interrupt line notifies, and with which badge.
use vstd::prelude::*;
use crate::error::KernelError;

verus! {

/// The number of interrupt lines.
pub const MAX_IRQS: usize = 256;

/// One interrupt line: the endpoint it notifies, the badge it sends, and whether it is on.
#[derive(Clone, Copy, Debug, PartialEq, Eq, Structural)]
pub struct IrqSlot {
    pub cptr: Option<usize>,
    pub badge: usize,
    pub enabled: bool,
}

impl IrqSlot {
    /// A line bound to nothing.
    pub fn new() -> (s: Self)
        ensures
            s == unbound_slot(),
    {
        IrqSlot { cptr: None, badge: 0, enabled: false }
    }
}

/// A line bound to nothing.
pub open spec fn unbound_slot() -> IrqSlot {
    IrqSlot { cptr: None, badge: 0, enabled: false }
}

/// What a line notifies when it fires: the endpoint and the badge, if it is bound and on.
pub open spec fn irq_target(table: Seq<IrqSlot>, irq: usize) -> Option<(usize, usize)> {
    if irq < MAX_IRQS && irq < table.len() && table[irq as int].enabled && table[irq as int].cptr is Some {
        Some((table[irq as int].cptr->0, table[irq as int].badge))
    } else {
        None
    }
}

/// The IRQ table.
pub struct IrqManager {
    pub table: Vec<IrqSlot>,
}

impl IrqManager {
    /// The table has one slot per line.
    pub open spec fn wf(&self) -> bool {
        self.table@.len() == MAX_IRQS
    }

    /// A table with every line unbound.
    pub fn new() -> (m: Self)
        ensures
            m.wf(),
            forall|i: int| 0 <= i < MAX_IRQS ==> #[trigger] m.table@[i] == unbound_slot(),
    {
        let mut table: Vec<IrqSlot> = Vec::new();
        let mut i: usize = 0;
        while i < MAX_IRQS
            invariant
                0 <= i <= MAX_IRQS,
                table@.len() == i,
                forall|j: int| 0 <= j < i ==> #[trigger] table@[j] == unbound_slot(),
            decreases MAX_IRQS - i,
        {
            table.push(IrqSlot::new());
            i = i + 1;
        }
        IrqManager { table }
    }

    /// Binds line `irq` to notify `cptr` with `badge`, and turns it on. Lines past the
    /// table are refused with `InvalidArgs`.
    pub fn bind_notification(&mut self, irq: usize, cptr: usize, badge: usize) -> (r: Result<(), KernelError>)
        requires
            old(self).wf(),
        ensures
            final(self).wf(),
            irq >= MAX_IRQS ==> r == Err::<(), KernelError>(KernelError::InvalidArgs)
                && final(self).table@ == old(self).table@,
            irq < MAX_IRQS ==> r == Ok::<(), KernelError>(())
                && final(self).table@ == old(self).table@.update(
                irq as int,
                IrqSlot { cptr: Some(cptr), badge, enabled: true },
            ),
    {
        if irq >= MAX_IRQS {
            return Err(KernelError::InvalidArgs);
        }
        self.table.set(irq, IrqSlot { cptr: Some(cptr), badge, enabled: true });
        Ok(())
    }

    /// Unbinds line `irq` and turns it off; its badge stays. Lines past the table are
    /// refused with `InvalidArgs`.
    pub fn clear_notification(&mut self, irq: usize) -> (r: Result<(), KernelError>)
        requires
            old(self).wf(),
        ensures
            final(self).wf(),
            irq >= MAX_IRQS ==> r == Err::<(), KernelError>(KernelError::InvalidArgs)
                && final(self).table@ == old(self).table@,
            irq < MAX_IRQS ==> r == Ok::<(), KernelError>(())
                && final(self).table@ == old(self).table@.update(
                irq as int,
                IrqSlot { cptr: None, enabled: false, ..old(self).table@[irq as int] },
            ),
    {
        if irq >= MAX_IRQS {
            return Err(KernelError::InvalidArgs);
        }
        let old_slot = self.table[irq];
        self.table.set(irq, IrqSlot { cptr: None, badge: old_slot.badge, enabled: false });
        Ok(())
    }

    /// The endpoint and badge that line `irq` notifies when it fires, if any.
    pub fn target(&self, irq: usize) -> (r: Option<(usize, usize)>)
        requires
            self.wf(),
        ensures
            r == irq_target(self.table@, irq),
    {
        if irq >= MAX_IRQS {
            return None;
        }
        let slot = self.table[irq];
        match slot.cptr {
            Some(c) => if slot.enabled {
                Some((c, slot.badge))
            } else {
                None
            },
            None => None,
        }
    }
}

/// A line that was just bound fires to what it was bound to; a line that was just
/// cleared fires to nothing; other lines are not touched.
pub proof fn law_bind_then_fire(table: Seq<IrqSlot>, irq: usize, cptr: usize, badge: usize, other: usize)
    requires
        table.len() == MAX_IRQS,
        irq < MAX_IRQS,
        other != irq,
    ensures
        irq_target(table.update(irq as int, IrqSlot { cptr: Some(cptr), badge, enabled: true }), irq)
            == Some((cptr, badge)),
        irq_target(table.update(irq as int, IrqSlot { cptr: None, enabled: false, ..table[irq as int] }), irq)
            == None::<(usize, usize)>,
        irq_target(table.update(irq as int, IrqSlot { cptr: Some(cptr), badge, enabled: true }), other)
            == irq_target(table, other),
        irq_target(table.update(irq as int, IrqSlot { cptr: None, enabled: false, ..table[irq as int] }), other)
            == irq_target(table, other),
{
}

} // verus!
