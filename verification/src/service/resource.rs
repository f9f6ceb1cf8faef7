//! The resource service: the heap break, the registry of service capabilities, and the
//! endpoints that back endpoint capabilities.
use vstd::prelude::*;
use std::collections::HashMap;
use crate::error::KernelError;
use crate::kernel::endpoint::{empty_endpoint, endpoint_next, Endpoint, EndpointView, IpcMethod, IpcStep};

verus! {

/// The kinds of resource that a capability can be asked for or registered as.
#[derive(Clone, Copy, Debug, PartialEq, Eq, Structural)]
pub enum ResourceType {
    Endpoint,
    /// Any other kind of resource.
    Other,
}

/// Memory figures of the heap.
#[derive(Clone, Copy, Debug, PartialEq, Eq, Structural)]
pub struct MemoryStatus {
    pub available_bytes: usize,
    pub total_bytes: usize,
}

/// The status that the resource service reports.
#[derive(Clone, Copy, Debug, PartialEq, Eq, Structural)]
pub struct WarrenStatus {
    pub memory: MemoryStatus,
}

/// What a request for a `cap_type` capability of service `id` gets from the registry
/// `caps`: the registered endpoint, `NotFound` when none is registered, `NotSupported`
/// for any other kind of resource.
pub open spec fn registry_lookup(caps: Map<usize, usize>, cap_type: ResourceType, id: usize) -> Result<
    usize,
    KernelError,
> {
    match cap_type {
        ResourceType::Endpoint => match caps.get(id) {
            Some(c) => Ok(c),
            None => Err(KernelError::NotFound),
        },
        ResourceType::Other => Err(KernelError::NotSupported),
    }
}

/// The registry `caps` after the registrations `regs` in turn, each `(id, cap)` recording
/// `cap` for service `id`.
pub open spec fn after_registrations(caps: Map<usize, usize>, regs: Seq<(usize, usize)>) -> Map<usize, usize>
    decreases regs.len(),
{
    if regs.len() == 0 {
        caps
    } else {
        after_registrations(caps, regs.drop_last()).insert(regs.last().0, regs.last().1)
    }
}

/// No registration in `regs` is for service `id`.
pub open spec fn never_names(regs: Seq<(usize, usize)>, id: usize) -> bool {
    forall|i: int| 0 <= i < regs.len() ==> #[trigger] regs[i].0 != id
}

/// The heap, the registered capabilities and the endpoints.
pub struct ResourceManager {
    pub heap_start: usize,
    pub heap_size: usize,
    pub brk: usize,
    pub registered_caps: HashMap<usize, usize>,
    pub endpoints: HashMap<usize, Endpoint>,
}

/// The break after moving `brk` by `incr`, as the host computes it.
pub open spec fn moved_brk(brk: usize, incr: isize) -> usize {
    ((brk as isize) + incr) as usize
}

/// Moving the break by `incr` does not overflow.
pub open spec fn sbrk_ok(brk: usize, incr: isize) -> bool {
    isize::MIN <= (brk as isize) + incr <= isize::MAX
}

/// Whether moving `brk` by `incr` stays in range.
pub fn sbrk_fits(brk: usize, incr: isize) -> (b: bool)
    ensures
        b == sbrk_ok(brk, incr),
{
    let b = brk as isize;
    if incr >= 0 {
        b <= isize::MAX - incr
    } else {
        b >= isize::MIN - incr
    }
}

impl ResourceManager {
    /// The state of the endpoint behind `cptr`; one that was never used is empty.
    pub open spec fn endpoint_state(&self, cptr: usize) -> EndpointView {
        if self.endpoints@.contains_key(cptr) {
            self.endpoints@[cptr]@
        } else {
            empty_endpoint()
        }
    }

    /// A heap of `heap_size` bytes at `heap_start`, with the break at its start.
    pub fn new(heap_start: usize, heap_size: usize) -> (r: Self)
        ensures
            r.heap_start == heap_start,
            r.heap_size == heap_size,
            r.brk == heap_start,
            r.registered_caps@ == Map::<usize, usize>::empty(),
            r.endpoints@ == Map::<usize, Endpoint>::empty(),
    {
        ResourceManager {
            heap_start,
            heap_size,
            brk: heap_start,
            registered_caps: HashMap::new(),
            endpoints: HashMap::new(),
        }
    }

    /// Moves the break by `incr` bytes and returns where it was.
    pub fn sbrk(&mut self, incr: isize) -> (old_brk: usize)
        requires
            sbrk_ok(old(self).brk, incr),
        ensures
            old_brk == old(self).brk,
            final(self).brk == moved_brk(old(self).brk, incr),
            final(self).heap_start == old(self).heap_start,
            final(self).heap_size == old(self).heap_size,
            final(self).registered_caps@ == old(self).registered_caps@,
            final(self).endpoints@ == old(self).endpoints@,
    {
        let old_brk = self.brk;
        self.brk = ((self.brk as isize) + incr) as usize;
        old_brk
    }

    /// Records `cptr` as the capability of the service `endpoint_id`.
    pub fn register_cap(&mut self, endpoint_id: usize, cptr: usize)
        ensures
            final(self).registered_caps@ == old(self).registered_caps@.insert(endpoint_id, cptr),
            final(self).brk == old(self).brk,
            final(self).heap_start == old(self).heap_start,
            final(self).heap_size == old(self).heap_size,
            final(self).endpoints@ == old(self).endpoints@,
    {
        broadcast use vstd::std_specs::hash::group_hash_axioms;

        self.registered_caps.insert(endpoint_id, cptr);
    }

    /// The capability registered for the service `endpoint_id`, if any.
    pub fn get_registered_cap(&self, endpoint_id: usize) -> (r: Option<usize>)
        ensures
            r == self.registered_caps@.get(endpoint_id),
    {
        broadcast use vstd::std_specs::hash::group_hash_axioms;

        match self.registered_caps.get(&endpoint_id) {
            Some(c) => Some(*c),
            None => None,
        }
    }

    /// The endpoint behind `cptr`, made empty on first use; the caller acts on it in place.
    pub fn get_endpoint(&mut self, cptr: usize) -> (ep: &mut Endpoint)
        ensures
            ep@ == old(self).endpoint_state(cptr),
            old(self).endpoints@.contains_key(cptr) ==> *ep == old(self).endpoints@[cptr],
            final(self).endpoints@ == old(self).endpoints@.insert(cptr, *final(ep)),
            final(self).brk == old(self).brk,
            final(self).heap_start == old(self).heap_start,
            final(self).heap_size == old(self).heap_size,
            final(self).registered_caps@ == old(self).registered_caps@,
    {
        broadcast use vstd::std_specs::hash::group_hash_axioms;

        self.endpoints.entry(cptr).or_insert(Endpoint::new())
    }

    /// One invocation of the endpoint behind `cptr`, which is made on first use.
    pub fn invoke_endpoint(
        &mut self,
        cptr: usize,
        method: IpcMethod,
        badge: usize,
        tag: usize,
        mrs: Vec<usize>,
        token: usize,
    ) -> (step: IpcStep)
        ensures
            ({
                let (e, st) = endpoint_next(old(self).endpoint_state(cptr), method, badge, tag, mrs@, token);
                &&& step@ == st
                &&& final(self).endpoints@.contains_key(cptr)
                &&& final(self).endpoint_state(cptr) == e
            }),
            forall|c: usize| c != cptr ==> #[trigger] final(self).endpoint_state(c) == old(self).endpoint_state(c),
            final(self).endpoints@.dom() == old(self).endpoints@.dom().insert(cptr),
            final(self).brk == old(self).brk,
            final(self).heap_start == old(self).heap_start,
            final(self).heap_size == old(self).heap_size,
            final(self).registered_caps@ == old(self).registered_caps@,
    {
        broadcast use vstd::std_specs::hash::group_hash_axioms;

        let ep = self.get_endpoint(cptr);
        let step = ep.invoke(method, badge, tag, mrs, token);
        step
    }

    /// What a service capability request gets: the registered endpoint, `NotFound` when
    /// none is registered, `NotSupported` for any other kind of resource.
    pub fn get_cap(&self, cap_type: ResourceType, id: usize) -> (r: Result<usize, KernelError>)
        ensures
            r == registry_lookup(self.registered_caps@, cap_type, id),
    {
        match cap_type {
            ResourceType::Endpoint => match self.get_registered_cap(id) {
                Some(c) => Ok(c),
                None => Err(KernelError::NotFound),
            },
            ResourceType::Other => Err(KernelError::NotSupported),
        }
    }

    /// Registers a service capability; only endpoints can be registered.
    pub fn register_service_cap(&mut self, cap_type: ResourceType, id: usize, cap: usize) -> (r: Result<(), KernelError>)
        ensures
            cap_type == ResourceType::Endpoint ==> r == Ok::<(), KernelError>(())
                && final(self).registered_caps@ == old(self).registered_caps@.insert(id, cap),
            cap_type != ResourceType::Endpoint ==> r == Err::<(), KernelError>(KernelError::NotSupported)
                && final(self).registered_caps@ == old(self).registered_caps@,
            final(self).brk == old(self).brk,
            final(self).heap_start == old(self).heap_start,
            final(self).heap_size == old(self).heap_size,
            final(self).endpoints@ == old(self).endpoints@,
    {
        match cap_type {
            ResourceType::Endpoint => {
                self.register_cap(id, cap);
                Ok(())
            },
            ResourceType::Other => Err(KernelError::NotSupported),
        }
    }

    /// The heap's figures: the bytes past the break's start that are in use, and what is
    /// left of the heap (both saturating at zero).
    pub fn status(&self) -> (st: WarrenStatus)
        ensures
            st.memory.total_bytes == self.heap_size,
            st.memory.available_bytes == (if self.brk >= self.heap_start {
                if self.heap_size >= self.brk - self.heap_start {
                    self.heap_size - (self.brk - self.heap_start)
                } else {
                    0
                }
            } else {
                self.heap_size as int
            }),
    {
        let used = self.brk.saturating_sub(self.heap_start);
        let available = self.heap_size.saturating_sub(used);
        WarrenStatus { memory: MemoryStatus { available_bytes: available, total_bytes: self.heap_size } }
    }
}

/// Growing the break and asking again gives the old break plus the growth, as long as
/// the break stays in the signed range.
pub proof fn law_sbrk_grows(brk: usize, n: isize)
    requires
        brk <= isize::MAX,
        0 <= n,
        brk + n <= isize::MAX,
    ensures
        sbrk_ok(brk, n),
        moved_brk(brk, n) == brk + n,
        sbrk_ok(moved_brk(brk, n), 0),
        moved_brk(moved_brk(brk, n), 0) == brk + n,
{
}

/// Asking again for an endpoint that is there, and leaving it as it is, leaves the
/// endpoint table as it was; asking for one that is not there adds an empty endpoint
/// under that slot only.
pub proof fn law_get_endpoint_again(eps: Map<usize, Endpoint>, cptr: usize, fresh: Endpoint, other: usize)
    requires
        fresh@ == empty_endpoint(),
        other != cptr,
    ensures
        eps.contains_key(cptr) ==> eps.insert(cptr, eps[cptr]) == eps,
        eps.insert(cptr, fresh)[cptr]@ == empty_endpoint(),
        eps.contains_key(other) ==> eps.insert(cptr, fresh)[other] == eps[other],
        eps.insert(cptr, fresh).dom() == eps.dom().insert(cptr),
{
    if eps.contains_key(cptr) {
        assert(eps.insert(cptr, eps[cptr]) =~= eps);
    }
}

/// What was registered for a service is what a lookup of that service answers, and a
/// registration leaves every other service's entry as it was.
pub proof fn law_register_then_lookup(caps: Map<usize, usize>, id: usize, cptr: usize, other: usize)
    requires
        other != id,
    ensures
        caps.insert(id, cptr).get(id) == Some(cptr),
        caps.insert(id, cptr).get(other) == caps.get(other),
{
}

/// Registrations of other services leave a service's entry as it was.
proof fn lemma_others_keep_entry(caps: Map<usize, usize>, regs: Seq<(usize, usize)>, id: usize)
    requires
        never_names(regs, id),
    ensures
        after_registrations(caps, regs).get(id) == caps.get(id),
    decreases regs.len(),
{
    if regs.len() > 0 {
        assert(regs.last().0 != id);
        assert forall|i: int| 0 <= i < regs.drop_last().len() implies #[trigger] regs.drop_last()[i].0 != id by {
            assert(regs.drop_last()[i] == regs[i]);
        }
        lemma_others_keep_entry(caps, regs.drop_last(), id);
    }
}

/// A registered endpoint stays what a request for it gets, whatever was registered
/// before it and whatever other services register after it; a request for another
/// kind of resource is not supported.
pub proof fn law_registration_survives(
    caps: Map<usize, usize>,
    before: Seq<(usize, usize)>,
    id: usize,
    cap: usize,
    after: Seq<(usize, usize)>,
)
    requires
        never_names(after, id),
    ensures
        ({
            let reg = after_registrations(after_registrations(caps, before).insert(id, cap), after);
            &&& registry_lookup(reg, ResourceType::Endpoint, id) == Ok::<usize, KernelError>(cap)
            &&& registry_lookup(reg, ResourceType::Other, id) == Err::<usize, KernelError>(
                KernelError::NotSupported,
            )
        }),
{
    lemma_others_keep_entry(after_registrations(caps, before).insert(id, cap), after, id);
}

/// A service that was never registered is not found, from a fresh registry through any
/// registrations of other services.
pub proof fn law_unregistered_not_found(regs: Seq<(usize, usize)>, id: usize)
    requires
        never_names(regs, id),
    ensures
        registry_lookup(after_registrations(Map::empty(), regs), ResourceType::Endpoint, id)
            == Err::<usize, KernelError>(KernelError::NotFound),
{
    lemma_others_keep_entry(Map::empty(), regs, id);
}

} // verus!
