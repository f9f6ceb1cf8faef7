//! The console capability: a message's registers, one character each, are printed.
use vstd::prelude::*;
use crate::error::{Reply, RetCode};
use crate::kernel::KernelState;
use crate::kernel::endpoint::IpcMethod;

verus! {

/// The bytes that a console message prints: the low byte of each register, up to the
/// first zero register.
pub open spec fn console_text(mrs: Seq<usize>) -> Seq<u8>
    decreases mrs.len(),
{
    if mrs.len() == 0 || mrs[0] == 0 {
        Seq::empty()
    } else {
        seq![mrs[0] as u8] + console_text(mrs.drop_first())
    }
}

/// A reply, and the bytes to print.
pub struct ConsoleReply {
    pub reply: Reply,
    pub text: Vec<u8>,
}

impl KernelState {
    /// A `Send` or `Call` to the console prints its message; every method gets 0.
    pub fn handle_console_invocation(&self, method: IpcMethod, tag: usize, mrs: Vec<usize>) -> (r: ConsoleReply)
        ensures
            r.reply.ret == RetCode::Value(0),
            r.reply.mrs@ == Seq::<usize>::empty(),
            r.text@ == (if method == IpcMethod::Send || method == IpcMethod::Call {
                console_text(mrs@)
            } else {
                Seq::empty()
            }),
    {
        let mut text: Vec<u8> = Vec::new();
        if method == IpcMethod::Send || method == IpcMethod::Call {
            let mut i: usize = 0;
            assert(mrs@.subrange(0, mrs@.len() as int) =~= mrs@);
            while i < mrs.len()
                invariant
                    0 <= i <= mrs@.len(),
                    forall|j: int| 0 <= j < i ==> mrs@[j] != 0,
                    text@ + console_text(mrs@.subrange(i as int, mrs@.len() as int)) == console_text(mrs@),
                ensures
                    0 <= i <= mrs@.len(),
                    text@ + console_text(mrs@.subrange(i as int, mrs@.len() as int)) == console_text(mrs@),
                    i == mrs@.len() || mrs@[i as int] == 0,
                decreases mrs.len() - i,
            {
                let val = mrs[i];
                if val == 0 {
                    break;
                }
                proof {
                    let rest = mrs@.subrange(i as int, mrs@.len() as int);
                    assert(rest.drop_first() =~= mrs@.subrange(i + 1, mrs@.len() as int));
                    assert(text@.push(val as u8) + console_text(rest.drop_first()) =~= text@ + console_text(rest));
                }
                text.push(#[verifier::truncate] (val as u8));
                i = i + 1;
            }
            proof {
                let rest = mrs@.subrange(i as int, mrs@.len() as int);
                assert(console_text(rest) =~= Seq::<u8>::empty());
                assert(text@ =~= text@ + console_text(rest));
            }
        }
        ConsoleReply { reply: Reply::value(0), text }
    }
}

} // verus!
