//! The kernel objects: capabilities, the capability space and its derivation tree,
//! endpoints, the IRQ table, and the kernel state that ties them together.
use vstd::prelude::*;
use crate::config::Config;
use crate::kernel::capability::{CapType, Capability};
use crate::kernel::cspace::CSpace;
use crate::kernel::endpoint::{endpoint_next, reply_step, IpcMethod, IpcStep, StepView};
use crate::kernel::irq::{irq_target, unbound_slot, IrqManager, MAX_IRQS};
use crate::service::resource::ResourceManager;

pub mod capability;
pub mod cdt;
pub mod cspace;
pub mod endpoint;
pub mod irq;
pub mod monitor;
pub mod trap;

verus! {

/// The slot of the capability space itself.
pub const CSPACE_CPTR: usize = 1;

/// The slot of the address space.
pub const VSPACE_CPTR: usize = 2;

/// The slot of the thread control block.
pub const TCB_CPTR: usize = 3;

/// The slot of the monitor endpoint.
pub const MONITOR_CPTR: usize = 4;

/// The slot of the console.
pub const CONSOLE_CPTR: usize = 5;

/// The slot of the reply capability.
pub const REPLY_CPTR: usize = 6;

/// The slot of the general-purpose endpoint.
pub const ENDPOINT_CPTR: usize = 8;

/// The state that invocations act on: the capability space, the IRQ table and the
/// resource service with its endpoints.
pub struct KernelState {
    pub irq_manager: IrqManager,
    pub cspace: CSpace,
    pub resource: ResourceManager,
}

/// The capabilities that every program finds in its well-known slots, each with a data
/// cell of its own.
pub open spec fn initial_caps() -> Map<usize, Capability> {
    Map::<usize, Capability>::empty()
        .insert(CSPACE_CPTR, cap_of(CapType::CNode, 0))
        .insert(VSPACE_CPTR, cap_of(CapType::VSpace, 1))
        .insert(TCB_CPTR, cap_of(CapType::TCB, 2))
        .insert(MONITOR_CPTR, cap_of(CapType::Endpoint, 3))
        .insert(CONSOLE_CPTR, cap_of(CapType::Console, 4))
        .insert(REPLY_CPTR, cap_of(CapType::Reply, 5))
        .insert(ENDPOINT_CPTR, cap_of(CapType::Endpoint, 6))
}

/// A fresh capability of type `t` with data cell `cell`.
pub open spec fn cap_of(t: CapType, cell: usize) -> Capability {
    Capability { cap_type: t, badge: None, data: cell }
}

/// The badge an invocation through `cap` carries: the capability's badge, or 0.
pub open spec fn badge_of(cap: Capability) -> usize {
    match cap.badge {
        Some(b) => b,
        None => 0,
    }
}

/// What an IPC invocation of slot `cptr` does to the kernel: a slot that holds no
/// endpoint capability gets `usize::MAX` and nothing changes; otherwise the endpoint
/// behind the slot steps, with the capability's badge, and nothing else changes.
pub open spec fn endpoint_invoked(
    pre: KernelState,
    post: KernelState,
    cptr: usize,
    method: IpcMethod,
    tag: usize,
    mrs: Seq<usize>,
    token: usize,
    step: StepView,
) -> bool {
    &&& post.cspace == pre.cspace
    &&& post.irq_manager == pre.irq_manager
    &&& match pre.endpoint_cap(cptr) {
        None => {
            &&& step == reply_step(usize::MAX, Seq::empty())
            &&& post.resource == pre.resource
        },
        Some(cap) => {
            let (e, st) = endpoint_next(pre.resource.endpoint_state(cptr), method, badge_of(cap), tag, mrs, token);
            &&& step == st
            &&& post.resource.endpoint_state(cptr) == e
            &&& forall|c: usize| c != cptr ==> #[trigger] post.resource.endpoint_state(c)
                == pre.resource.endpoint_state(c)
            &&& post.resource.brk == pre.resource.brk
            &&& post.resource.heap_start == pre.resource.heap_start
            &&& post.resource.heap_size == pre.resource.heap_size
            &&& post.resource.registered_caps@ == pre.resource.registered_caps@
            &&& post.resource.endpoints@.dom() == pre.resource.endpoints@.dom().insert(cptr)
        },
    }
}

impl KernelState {
    /// The IRQ table has one slot per line, and the capability space's data cells are
    /// consistent.
    pub open spec fn wf(&self) -> bool {
        &&& self.irq_manager.wf()
        &&& self.cspace.wf()
    }

    /// The endpoint capability in slot `cptr`, if the slot holds one.
    pub open spec fn endpoint_cap(&self, cptr: usize) -> Option<Capability> {
        if self.cspace.caps().contains_key(cptr) && self.cspace.caps()[cptr].cap_type == CapType::Endpoint {
            Some(self.cspace.caps()[cptr])
        } else {
            None
        }
    }

    /// A kernel with the well-known capabilities, no derivations, every IRQ line
    /// unbound, and the configured heap.
    pub fn new(config: &Config) -> (k: Self)
        ensures
            k.wf(),
            k.cspace.caps() == initial_caps(),
            k.cspace.tree() == Map::<usize, Seq<usize>>::empty(),
            k.cspace.cells.cells@ == Map::<usize, crate::kernel::capability::CapData>::empty(),
            k.cspace.cells.next_cell == 7,
            forall|i: int| 0 <= i < MAX_IRQS ==> #[trigger] k.irq_manager.table@[i] == unbound_slot(),
            k.resource.heap_start == config.resources.heap_start,
            k.resource.heap_size == config.resources.heap_size,
            k.resource.brk == config.resources.heap_start,
            k.resource.registered_caps@ == Map::<usize, usize>::empty(),
            k.resource.endpoints@ == Map::<usize, crate::kernel::endpoint::Endpoint>::empty(),
    {
        let mut cspace = CSpace::new();
        let c = Capability::new(CapType::CNode, &mut cspace.cells);
        cspace.insert(CSPACE_CPTR, c);
        let c = Capability::new(CapType::VSpace, &mut cspace.cells);
        cspace.insert(VSPACE_CPTR, c);
        let c = Capability::new(CapType::TCB, &mut cspace.cells);
        cspace.insert(TCB_CPTR, c);
        let c = Capability::new(CapType::Endpoint, &mut cspace.cells);
        cspace.insert(MONITOR_CPTR, c);
        let c = Capability::new(CapType::Console, &mut cspace.cells);
        cspace.insert(CONSOLE_CPTR, c);
        let c = Capability::new(CapType::Reply, &mut cspace.cells);
        cspace.insert(REPLY_CPTR, c);
        let c = Capability::new(CapType::Endpoint, &mut cspace.cells);
        cspace.insert(ENDPOINT_CPTR, c);
        assert(cspace.caps() =~= initial_caps());
        KernelState {
            cspace,
            irq_manager: IrqManager::new(),
            resource: ResourceManager::new(config.resources.heap_start, config.resources.heap_size),
        }
    }

    /// An IPC invocation of slot `cptr`. A slot that holds no endpoint capability gets
    /// `usize::MAX` and nothing changes; otherwise the endpoint behind the slot steps,
    /// with the capability's badge.
    pub fn handle_endpoint_invocation(
        &mut self,
        cptr: usize,
        method: IpcMethod,
        tag: usize,
        mrs: Vec<usize>,
        token: usize,
    ) -> (step: IpcStep)
        ensures
            endpoint_invoked(*old(self), *final(self), cptr, method, tag, mrs@, token, step@),
    {
        let found = match self.cspace.get(cptr) {
            Some(c) => Some(*c),
            None => None,
        };
        let is_endpoint = match found {
            Some(c) => c.cap_type == CapType::Endpoint,
            None => false,
        };
        if !is_endpoint {
            let empty: Vec<usize> = Vec::new();
            let step = IpcStep {
                deliver: None,
                wake: None,
                adopt_reply: None,
                wait: crate::kernel::endpoint::IpcWait::Ready,
                ret: usize::MAX,
                mrs: empty,
            };
            assert(step@ =~= reply_step(usize::MAX, Seq::empty()));
            return step;
        }
        let cap = found.unwrap();
        let badge = match cap.badge {
            Some(b) => b,
            None => 0,
        };
        self.resource.invoke_endpoint(cptr, method, badge, tag, mrs, token)
    }

    /// An interrupt on line `irq`: if the line is bound and on, its endpoint is notified
    /// with the line's badge; otherwise nothing happens.
    pub fn trigger_irq(&mut self, irq: usize, token: usize) -> (step: Option<IpcStep>)
        requires
            old(self).wf(),
        ensures
            final(self).wf(),
            match irq_target(old(self).irq_manager.table@, irq) {
                None => step is None && *final(self) == *old(self),
                Some((cptr, badge)) => step is Some && endpoint_invoked(
                    *old(self),
                    *final(self),
                    cptr,
                    IpcMethod::Notify,
                    badge,
                    Seq::empty(),
                    token,
                    step->0@,
                ),
            },
    {
        match self.irq_manager.target(irq) {
            None => None,
            Some((cptr, badge)) => {
                let empty: Vec<usize> = Vec::new();
                let step = self.handle_endpoint_invocation(cptr, IpcMethod::Notify, badge, empty, token);
                Some(step)
            },
        }
    }
}

} // verus!
