//! Exceptions: a trapped fault becomes a message that is called to the fault endpoint.
use vstd::prelude::*;
use crate::kernel::{endpoint_invoked, KernelState};
use crate::kernel::endpoint::{IpcMethod, IpcStep};

verus! {

/// The kinds of fault that a program's exception is reported as.
#[derive(Clone, Copy, Debug, PartialEq, Eq, Structural)]
pub enum FaultKind {
    PageFault,
    IllegalInstruction,
    Breakpoint,
    AccessFault,
    AccessMisaligned,
    UnknownFault,
}

/// The message tag that the protocol gives each kind of fault.
#[derive(Clone, Copy, Debug)]
pub struct FaultTags {
    pub page_fault: usize,
    pub illegal_instruction: usize,
    pub breakpoint: usize,
    pub access_fault: usize,
    pub access_misaligned: usize,
    pub unknown_fault: usize,
}

impl FaultTags {
    /// The tag of fault kind `k`.
    pub open spec fn tag_of(self, k: FaultKind) -> usize {
        match k {
            FaultKind::PageFault => self.page_fault,
            FaultKind::IllegalInstruction => self.illegal_instruction,
            FaultKind::Breakpoint => self.breakpoint,
            FaultKind::AccessFault => self.access_fault,
            FaultKind::AccessMisaligned => self.access_misaligned,
            FaultKind::UnknownFault => self.unknown_fault,
        }
    }

    /// The tag of fault kind `k`.
    pub fn tag(&self, k: FaultKind) -> (t: usize)
        ensures
            t == self.tag_of(k),
    {
        match k {
            FaultKind::PageFault => self.page_fault,
            FaultKind::IllegalInstruction => self.illegal_instruction,
            FaultKind::Breakpoint => self.breakpoint,
            FaultKind::AccessFault => self.access_fault,
            FaultKind::AccessMisaligned => self.access_misaligned,
            FaultKind::UnknownFault => self.unknown_fault,
        }
    }
}

/// The fault kind of a RISC-V exception cause: instruction, load and store page faults;
/// illegal instruction; breakpoint; load and store access faults; load and store
/// misalignment; anything else.
pub open spec fn fault_kind(cause: usize) -> FaultKind {
    if cause == 12 || cause == 13 || cause == 15 {
        FaultKind::PageFault
    } else if cause == 2 {
        FaultKind::IllegalInstruction
    } else if cause == 3 {
        FaultKind::Breakpoint
    } else if cause == 5 || cause == 7 {
        FaultKind::AccessFault
    } else if cause == 4 || cause == 6 {
        FaultKind::AccessMisaligned
    } else {
        FaultKind::UnknownFault
    }
}

/// The message registers of a fault report.
pub open spec fn fault_mrs(k: FaultKind, cause: usize, pc: usize, value: usize) -> Seq<usize> {
    match k {
        FaultKind::PageFault => seq![value, pc, cause],
        FaultKind::IllegalInstruction => seq![value, pc],
        FaultKind::Breakpoint => seq![pc],
        FaultKind::AccessFault => seq![value, pc],
        FaultKind::AccessMisaligned => seq![value, pc],
        FaultKind::UnknownFault => seq![cause, value, pc],
    }
}

/// Every RISC-V page fault (instruction 12, load 13, store/AMO 15) is reported to the
/// pager as a page fault, with the faulting address, the pc and the cause, under the
/// page-fault tag; the other causes that the runtime knows are reported under their own
/// kinds with the registers the pager expects, and only the rest are unknown faults.
pub proof fn law_fault_classes(cause: usize, pc: usize, value: usize, tags: FaultTags)
    ensures
        cause == 12 || cause == 13 || cause == 15 ==> {
            &&& fault_kind(cause) == FaultKind::PageFault
            &&& tags.tag_of(fault_kind(cause)) == tags.page_fault
            &&& fault_mrs(fault_kind(cause), cause, pc, value) == seq![value, pc, cause]
        },
        cause == 2 ==> fault_kind(cause) == FaultKind::IllegalInstruction
            && fault_mrs(fault_kind(cause), cause, pc, value) == seq![value, pc],
        cause == 3 ==> fault_kind(cause) == FaultKind::Breakpoint
            && fault_mrs(fault_kind(cause), cause, pc, value) == seq![pc],
        cause == 5 || cause == 7 ==> fault_kind(cause) == FaultKind::AccessFault
            && fault_mrs(fault_kind(cause), cause, pc, value) == seq![value, pc],
        cause == 4 || cause == 6 ==> fault_kind(cause) == FaultKind::AccessMisaligned
            && fault_mrs(fault_kind(cause), cause, pc, value) == seq![value, pc],
        fault_kind(cause) == FaultKind::UnknownFault <==> !(cause == 2 || cause == 3 || (4 <= cause <= 7)
            || cause == 12 || cause == 13 || cause == 15),
{
}

/// The fault kind and message registers that report exception `cause` at `pc` with
/// trap value `value`.
pub fn exception_message(cause: usize, pc: usize, value: usize) -> (r: (FaultKind, Vec<usize>))
    ensures
        r.0 == fault_kind(cause),
        r.1@ == fault_mrs(r.0, cause, pc, value),
{
    let kind = if cause == 12 || cause == 13 || cause == 15 {
        FaultKind::PageFault
    } else if cause == 2 {
        FaultKind::IllegalInstruction
    } else if cause == 3 {
        FaultKind::Breakpoint
    } else if cause == 5 || cause == 7 {
        FaultKind::AccessFault
    } else if cause == 4 || cause == 6 {
        FaultKind::AccessMisaligned
    } else {
        FaultKind::UnknownFault
    };
    let mut mrs: Vec<usize> = Vec::new();
    match kind {
        FaultKind::PageFault => {
            mrs.push(value);
            mrs.push(pc);
            mrs.push(cause);
        },
        FaultKind::IllegalInstruction | FaultKind::AccessFault | FaultKind::AccessMisaligned => {
            mrs.push(value);
            mrs.push(pc);
        },
        FaultKind::Breakpoint => {
            mrs.push(pc);
        },
        FaultKind::UnknownFault => {
            mrs.push(cause);
            mrs.push(value);
            mrs.push(pc);
        },
    }
    assert(mrs@ =~= fault_mrs(kind, cause, pc, value));
    (kind, mrs)
}

impl KernelState {
    /// Reports an exception: the fault's message is called to the endpoint in slot
    /// `fault_ep`, so that the faulting thread waits to be resumed.
    pub fn handle_exception(
        &mut self,
        fault_ep: usize,
        cause: usize,
        pc: usize,
        value: usize,
        tags: &FaultTags,
        token: usize,
    ) -> (step: IpcStep)
        ensures
            endpoint_invoked(
                *old(self),
                *final(self),
                fault_ep,
                IpcMethod::Call,
                tags.tag_of(fault_kind(cause)),
                fault_mrs(fault_kind(cause), cause, pc, value),
                token,
                step@,
            ),
    {
        let (kind, mrs) = exception_message(cause, pc, value);
        let tag = tags.tag(kind);
        self.handle_endpoint_invocation(fault_ep, IpcMethod::Call, tag, mrs, token)
    }
}

} // verus!
