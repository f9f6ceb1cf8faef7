//! The capability-space capability: minting, copying, deleting and revoking.
use vstd::prelude::*;
use crate::error::{KernelError, Reply, RetCode};
use crate::kernel::KernelState;
use crate::kernel::capability::Capability;
use crate::kernel::cdt::{descendants, subtree};

verus! {

/// The methods of the capability-space capability.
#[derive(Clone, Copy, Debug, PartialEq, Eq, Structural)]
pub enum CNodeMethod {
    Mint,
    Copy,
    Delete,
    Revoke,
    /// Any method code that the capability space does not know.
    Other,
}

/// The invocation has the registers that its method reads: source, destination and
/// badge for `Mint`; source and destination for `Copy`; the slot for `Delete` and `Revoke`.
pub open spec fn cnode_args_ok(method: CNodeMethod, mrs: Seq<usize>) -> bool {
    match method {
        CNodeMethod::Mint => mrs.len() >= 3,
        CNodeMethod::Copy => mrs.len() >= 2,
        CNodeMethod::Delete | CNodeMethod::Revoke => mrs.len() >= 1,
        CNodeMethod::Other => true,
    }
}

impl KernelState {
    /// `Mint` copies the capability in slot `mrs[0]` to slot `mrs[1]` with badge `mrs[2]`
    /// and records the derivation (the copy shares the source's data cell); `Copy` does the
    /// same without a badge; both answer
    /// `InvalidCapability` for an empty source. `Delete` and `Revoke` act on slot `mrs[0]`
    /// and answer 0. Other methods get `usize::MAX`.
    pub fn handle_cnode_invocation(&mut self, method: CNodeMethod, tag: usize, mrs: Vec<usize>) -> (r: Reply)
        requires
            cnode_args_ok(method, mrs@),
            old(self).wf(),
        ensures
            final(self).wf(),
            final(self).cspace.cells == old(self).cspace.cells,
            final(self).irq_manager == old(self).irq_manager,
            final(self).resource == old(self).resource,
            r.mrs@ == Seq::<usize>::empty(),
            match method {
                CNodeMethod::Mint | CNodeMethod::Copy => {
                    let src = mrs@[0];
                    let dest = mrs@[1];
                    if old(self).cspace.caps().contains_key(src) {
                        let cap = old(self).cspace.caps()[src];
                        let new_cap = if method == CNodeMethod::Mint {
                            Capability { badge: Some(mrs@[2]), ..cap }
                        } else {
                            cap
                        };
                        &&& r.ret == RetCode::Value(0)
                        &&& final(self).cspace.caps() == old(self).cspace.caps().insert(dest, new_cap)
                        &&& final(self).cspace.tree() == old(self).cspace.tree().insert(
                            src,
                            old(self).cspace.children(src).push(dest),
                        )
                    } else {
                        &&& r.ret == RetCode::Error(KernelError::InvalidCapability)
                        &&& final(self).cspace == old(self).cspace
                    }
                },
                CNodeMethod::Delete => {
                    &&& r.ret == RetCode::Value(0)
                    &&& final(self).cspace.caps() == old(self).cspace.caps().remove(mrs@[0])
                    &&& final(self).cspace.tree() == old(self).cspace.tree().map_values(
                        |s: Seq<usize>| s.remove_value(mrs@[0]),
                    )
                },
                CNodeMethod::Revoke => {
                    &&& r.ret == RetCode::Value(0)
                    &&& final(self).cspace.tree() == old(self).cspace.tree().remove_keys(
                        subtree(old(self).cspace.tree(), mrs@[0]),
                    )
                    &&& final(self).cspace.caps() == old(self).cspace.caps().remove_keys(
                        descendants(old(self).cspace.tree(), mrs@[0]),
                    )
                },
                CNodeMethod::Other => {
                    &&& r.ret == RetCode::Value(usize::MAX)
                    &&& final(self).cspace == old(self).cspace
                },
            },
    {
        match method {
            CNodeMethod::Mint => {
                let src = mrs[0];
                let dest = mrs[1];
                let badge = mrs[2];
                match self.cspace.get(src) {
                    Some(c) => {
                        let cap = *c;
                        self.cspace.insert_derived(src, dest, cap.with_badge(badge));
                        Reply::value(0)
                    },
                    None => Reply::error(KernelError::InvalidCapability),
                }
            },
            CNodeMethod::Copy => {
                let src = mrs[0];
                let dest = mrs[1];
                match self.cspace.get(src) {
                    Some(c) => {
                        let cap = *c;
                        self.cspace.insert_derived(src, dest, cap);
                        Reply::value(0)
                    },
                    None => Reply::error(KernelError::InvalidCapability),
                }
            },
            CNodeMethod::Delete => {
                self.cspace.delete(mrs[0]);
                Reply::value(0)
            },
            CNodeMethod::Revoke => {
                self.cspace.revoke(mrs[0]);
                Reply::value(0)
            },
            CNodeMethod::Other => Reply::value(usize::MAX),
        }
    }
}

} // verus!
