//! Capability invocations: which handler an invocation goes to, and the handlers of the
//! emulated process and resource protocols.
use vstd::prelude::*;
use crate::error::{KernelError, Reply, RetCode};
use crate::kernel::KernelState;
use crate::kernel::capability::{CapType, Capability};
use crate::kernel::monitor::Outcome;
use crate::service::resource::{after_registrations, moved_brk, never_names, sbrk_ok};

pub mod cnode;
pub mod console;
pub mod irq;
pub mod tcb;
pub mod vspace;

verus! {

/// The protocol that an endpoint message's tag names.
#[derive(Clone, Copy, Debug, PartialEq, Eq, Structural)]
pub enum Proto {
    Process,
    Resource,
    Other,
}

/// The handler that an invocation goes to.
#[derive(Clone, Copy, Debug, PartialEq, Eq, Structural)]
pub enum Route {
    Console,
    Tcb,
    CNode,
    VSpace,
    Reply,
    ProcessEmulation,
    ResourceEmulation,
    Endpoint,
    /// The IRQ handler for this line (the capability's badge, or 0).
    Irq(usize),
    /// A capability type that no handler serves.
    Unimplemented(CapType),
    /// The slot is empty.
    InvalidCap,
}

/// The handler for an invocation through `cap` (none if the slot is empty), whose
/// message names protocol `proto`.
pub open spec fn route_of(cap: Option<Capability>, proto: Proto) -> Route {
    match cap {
        None => Route::InvalidCap,
        Some(c) => match c.cap_type {
            CapType::Console => Route::Console,
            CapType::TCB => Route::Tcb,
            CapType::CNode => Route::CNode,
            CapType::VSpace => Route::VSpace,
            CapType::Reply => Route::Reply,
            CapType::Endpoint => match proto {
                Proto::Process => Route::ProcessEmulation,
                Proto::Resource => Route::ResourceEmulation,
                Proto::Other => Route::Endpoint,
            },
            CapType::IrqHandler => Route::Irq(
                match c.badge {
                    Some(b) => b,
                    None => 0,
                },
            ),
            t => Route::Unimplemented(t),
        },
    }
}

/// The answer to an invocation that no handler serves: an empty slot, or a capability
/// whose type has no handler, gets `usize::MAX` and no message registers. A route that a
/// handler serves gets no answer here.
pub fn unserved_reply(route: Route) -> (r: Option<Reply>)
    ensures
        (route is InvalidCap || route is Unimplemented) <==> r is Some,
        r matches Some(rep) ==> rep.ret == RetCode::Value(usize::MAX) && rep.mrs@.len() == 0,
{
    match route {
        Route::InvalidCap | Route::Unimplemented(_) => Some(Reply::value(usize::MAX)),
        _ => None,
    }
}

/// What a `GetCap` call for service `id` answers from the registry `caps`: 0 and the
/// registered slot for the receive window, or `NotFound` and no window.
pub open spec fn get_cap_answer(caps: Map<usize, usize>, id: usize) -> (RetCode, Option<usize>) {
    match caps.get(id) {
        Some(c) => (RetCode::Value(0), Some(c)),
        None => (RetCode::Error(KernelError::NotFound), None),
    }
}

/// A `GetCap` call answers with the capability that the last `RegisterCap` for its
/// service recorded, whatever other services registered since; a service that was never
/// registered in a fresh kernel is answered `NotFound`, with the window left alone.
pub proof fn law_register_then_get_cap(
    caps: Map<usize, usize>,
    before: Seq<(usize, usize)>,
    id: usize,
    cap: usize,
    after: Seq<(usize, usize)>,
)
    requires
        never_names(after, id),
    ensures
        get_cap_answer(after_registrations(after_registrations(caps, before).insert(id, cap), after), id)
            == (RetCode::Value(0), Some(cap)),
        never_names(before, id) ==> get_cap_answer(after_registrations(Map::empty(), before), id) == (
            RetCode::Error(KernelError::NotFound),
            None::<usize>,
        ),
{
    crate::service::resource::law_registration_survives(caps, before, id, cap, after);
    if never_names(before, id) {
        crate::service::resource::law_unregistered_not_found(before, id);
    }
}

/// The calls of the emulated process protocol.
#[derive(Clone, Copy, Debug, PartialEq, Eq, Structural)]
pub enum ProcessCall {
    Exit,
    Other,
}

/// The calls of the emulated resource protocol.
#[derive(Clone, Copy, Debug, PartialEq, Eq, Structural)]
pub enum ResourceCall {
    Sbrk,
    RegisterCap,
    GetCap,
    Other,
}

/// A reply to a resource call, and the slot to set as the invoker's receive window.
pub struct ResourceReply {
    pub reply: Reply,
    pub recv_window: Option<usize>,
}

/// The resource call has the registers it reads, and `sbrk` does not overflow.
pub open spec fn resource_args_ok(k: KernelState, call: ResourceCall, mrs: Seq<usize>) -> bool {
    match call {
        ResourceCall::Sbrk => mrs.len() >= 1 && sbrk_ok(k.resource.brk, mrs[0] as isize),
        ResourceCall::RegisterCap => mrs.len() >= 2,
        ResourceCall::GetCap => mrs.len() >= 2,
        ResourceCall::Other => true,
    }
}

impl KernelState {
    /// The handler that an invocation of slot `cptr` goes to.
    pub fn route_invocation(&self, cptr: usize, proto: Proto) -> (r: Route)
        ensures
            r == route_of(self.cspace.caps().get(cptr), proto),
    {
        match self.cspace.get(cptr) {
            None => Route::InvalidCap,
            Some(c) => match c.cap_type {
                CapType::Console => Route::Console,
                CapType::TCB => Route::Tcb,
                CapType::CNode => Route::CNode,
                CapType::VSpace => Route::VSpace,
                CapType::Reply => Route::Reply,
                CapType::Endpoint => match proto {
                    Proto::Process => Route::ProcessEmulation,
                    Proto::Resource => Route::ResourceEmulation,
                    Proto::Other => Route::Endpoint,
                },
                CapType::IrqHandler => Route::Irq(
                    match c.badge {
                        Some(b) => b,
                        None => 0,
                    },
                ),
                t => Route::Unimplemented(t),
            },
        }
    }

    /// The emulated process protocol: `Exit` ends the program with the first register as
    /// its code; anything else gets `usize::MAX`.
    pub fn handle_process_emulation(&self, call: ProcessCall, tag: usize, mrs: Vec<usize>) -> (o: Outcome)
        requires
            call == ProcessCall::Exit ==> mrs@.len() >= 1,
        ensures
            call == ProcessCall::Exit ==> o == Outcome::Exit(mrs@[0]),
            call == ProcessCall::Other ==> (o matches Outcome::Reply(r) && r.ret == RetCode::Value(usize::MAX)
                && r.mrs@ == Seq::<usize>::empty()),
    {
        match call {
            ProcessCall::Exit => Outcome::Exit(mrs[0]),
            ProcessCall::Other => Outcome::Reply(Reply::value(usize::MAX)),
        }
    }

    /// The emulated resource protocol. `Sbrk` moves the break by the first register and
    /// returns the old one; `RegisterCap` records the transferred capability `cap_transfer`
    /// for the service in the second register; `GetCap` hands the capability registered
    /// for the service in the second register to the invoker's receive window, or answers
    /// `NotFound`; anything else gets `usize::MAX`.
    pub fn handle_resource_emulation(
        &mut self,
        call: ResourceCall,
        tag: usize,
        mrs: Vec<usize>,
        cap_transfer: usize,
    ) -> (r: ResourceReply)
        requires
            resource_args_ok(*old(self), call, mrs@),
        ensures
            final(self).cspace == old(self).cspace,
            final(self).irq_manager == old(self).irq_manager,
            final(self).resource.endpoints@ == old(self).resource.endpoints@,
            final(self).resource.heap_start == old(self).resource.heap_start,
            final(self).resource.heap_size == old(self).resource.heap_size,
            r.reply.mrs@ == Seq::<usize>::empty(),
            match call {
                ResourceCall::Sbrk => {
                    &&& r.reply.ret == RetCode::Value(old(self).resource.brk)
                    &&& r.recv_window is None
                    &&& final(self).resource.brk == moved_brk(old(self).resource.brk, mrs@[0] as isize)
                    &&& final(self).resource.registered_caps@ == old(self).resource.registered_caps@
                },
                ResourceCall::RegisterCap => {
                    &&& r.reply.ret == RetCode::Value(0)
                    &&& r.recv_window is None
                    &&& final(self).resource.brk == old(self).resource.brk
                    &&& final(self).resource.registered_caps@ == old(self).resource.registered_caps@.insert(
                        mrs@[1],
                        cap_transfer,
                    )
                },
                ResourceCall::GetCap => {
                    &&& final(self).resource.brk == old(self).resource.brk
                    &&& final(self).resource.registered_caps@ == old(self).resource.registered_caps@
                    &&& (r.reply.ret, r.recv_window) == get_cap_answer(
                        old(self).resource.registered_caps@,
                        mrs@[1],
                    )
                },
                ResourceCall::Other => {
                    &&& r.reply.ret == RetCode::Value(usize::MAX)
                    &&& r.recv_window is None
                    &&& final(self).resource.brk == old(self).resource.brk
                    &&& final(self).resource.registered_caps@ == old(self).resource.registered_caps@
                },
            },
    {
        match call {
            ResourceCall::Sbrk => {
                let incr = mrs[0] as isize;
                let old_brk = self.resource.sbrk(incr);
                ResourceReply { reply: Reply::value(old_brk), recv_window: None }
            },
            ResourceCall::RegisterCap => {
                let id = mrs[1];
                self.resource.register_cap(id, cap_transfer);
                ResourceReply { reply: Reply::value(0), recv_window: None }
            },
            ResourceCall::GetCap => {
                let id = mrs[1];
                match self.resource.get_registered_cap(id) {
                    Some(c) => ResourceReply { reply: Reply::value(0), recv_window: Some(c) },
                    None => ResourceReply { reply: Reply::error(KernelError::NotFound), recv_window: None },
                }
            },
            ResourceCall::Other => ResourceReply { reply: Reply::value(usize::MAX), recv_window: None },
        }
    }
}

} // verus!
