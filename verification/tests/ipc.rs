use hutch::config::Config;
use hutch::kernel::capability::{CapType, Capability};
use hutch::kernel::endpoint::{answer_reply, reply_on_active, Endpoint, IPCKind, IpcMethod, IpcWait, ReplyChannel};
use hutch::kernel::{KernelState, CONSOLE_CPTR, ENDPOINT_CPTR};

#[test]
fn send_then_recv_delivers_message() {
    let mut ep = Endpoint::new();
    let s = ep.invoke(IpcMethod::Send, 0, 0xcafe, vec![0xcafe], 1);
    assert_eq!(s.wait, IpcWait::Signal(1));
    assert_eq!(ep.inner.senders.len(), 1);
    let r = ep.invoke(IpcMethod::Recv, 0, 0, vec![], 2);
    assert_eq!(r.wait, IpcWait::Ready);
    assert_eq!(r.ret, 0xcafe);
    assert_eq!(r.mrs, vec![0xcafe]);
    assert_eq!(r.wake, Some(1));
    assert!(ep.inner.senders.is_empty());
}

#[test]
fn recv_then_send_hands_message_to_receiver() {
    let mut ep = Endpoint::new();
    let r = ep.invoke(IpcMethod::Recv, 0, 0, vec![], 4);
    assert_eq!(r.wait, IpcWait::Message(4));
    let s = ep.invoke(IpcMethod::Send, 0, 3, vec![0xcafe], 5);
    assert_eq!(s.wait, IpcWait::Ready);
    let d = s.deliver.unwrap();
    assert_eq!(d.receiver, 4);
    assert_eq!(d.tag, 3);
    assert_eq!(d.mrs, vec![0xcafe]);
    assert_eq!(d.reply, None);
    assert!(ep.inner.receivers.is_empty());
}

#[test]
fn notify_then_recv_returns_badge() {
    let mut ep = Endpoint::new();
    let n = ep.invoke(IpcMethod::Notify, 0, 0x1337, vec![], 0);
    assert_eq!(n.wait, IpcWait::Ready);
    assert_eq!(ep.inner.notifications, 0x1337);
    let n2 = ep.invoke(IpcMethod::Notify, 0x4000, 0x1, vec![], 0);
    assert_eq!(n2.ret, 0);
    assert_eq!(ep.inner.notifications, 0x5337);
    let r = ep.invoke(IpcMethod::Recv, 0, 0, vec![], 9);
    assert_eq!(r.ret, 0x5337);
    assert_eq!(ep.inner.notifications, 0);
}

#[test]
fn recv_then_notify_delivers_badge() {
    let mut ep = Endpoint::new();
    ep.invoke(IpcMethod::Recv, 0, 0, vec![], 4);
    let n = ep.invoke(IpcMethod::Notify, 0, 0x1337, vec![], 0);
    let d = n.deliver.unwrap();
    assert_eq!(d.receiver, 4);
    assert_eq!(d.tag, 0x1337);
    assert!(d.mrs.is_empty());
}

#[test]
fn badged_send_puts_badge_in_upper_half() {
    let mut ep = Endpoint::new();
    ep.invoke(IpcMethod::Send, 0x2, 0x11, vec![], 1);
    let r = ep.invoke(IpcMethod::Recv, 0, 0, vec![], 2);
    assert_eq!(r.ret, 0x11 | (0x2usize << 32));
}

#[test]
fn call_carries_reply_channel() {
    let mut ep = Endpoint::new();
    let c = ep.invoke(IpcMethod::Call, 0, 8, vec![1, 2], 30);
    assert_eq!(c.wait, IpcWait::Reply(ReplyChannel { id: 30 }));
    match ep.inner.senders[0].kind {
        IPCKind::Call(ch) => assert_eq!(ch.id, 30),
        IPCKind::Send(_) => panic!("a call queues as a call"),
    }
    let r = ep.invoke(IpcMethod::Recv, 0, 0, vec![], 31);
    assert_eq!(r.adopt_reply, Some(ReplyChannel { id: 30 }));
    assert_eq!(r.wake, None);
    assert_eq!(r.ret, 8);
    assert_eq!(r.mrs, vec![1, 2]);
    // the other way round
    ep.invoke(IpcMethod::Recv, 0, 0, vec![], 40);
    let c = ep.invoke(IpcMethod::Call, 0, 9, vec![3], 41);
    assert_eq!(c.wait, IpcWait::Reply(ReplyChannel { id: 41 }));
    let d = c.deliver.unwrap();
    assert_eq!(d.receiver, 40);
    assert_eq!(d.reply, Some(ReplyChannel { id: 41 }));
}

#[test]
fn senders_are_served_in_order() {
    let mut ep = Endpoint::new();
    ep.invoke(IpcMethod::Send, 0, 1, vec![10], 1);
    ep.invoke(IpcMethod::Send, 0, 2, vec![20], 2);
    let a = ep.invoke(IpcMethod::Recv, 0, 0, vec![], 3);
    let b = ep.invoke(IpcMethod::Recv, 0, 0, vec![], 4);
    assert_eq!((a.ret, a.mrs.clone()), (1, vec![10]));
    assert_eq!((b.ret, b.mrs.clone()), (2, vec![20]));
}

#[test]
fn unknown_method_is_refused() {
    let mut ep = Endpoint::new();
    let s = ep.invoke(IpcMethod::Other, 0, 0, vec![], 0);
    assert_eq!(s.ret, usize::MAX);
    assert!(ep.inner.senders.is_empty() && ep.inner.receivers.is_empty());
}

#[test]
fn kernel_endpoint_uses_cap_badge() {
    let mut k = KernelState::new(&Config::default());
    let c = Capability::new(CapType::Endpoint, &mut k.cspace.cells);
    k.cspace.insert(12, c.with_badge(0x7));
    k.handle_endpoint_invocation(12, IpcMethod::Notify, 0x1, vec![], 0);
    let r = k.handle_endpoint_invocation(12, IpcMethod::Recv, 0, vec![], 1);
    assert_eq!(r.ret, 0x7);
    // endpoints are per slot
    let r = k.handle_endpoint_invocation(ENDPOINT_CPTR, IpcMethod::Recv, 0, vec![], 2);
    assert_eq!(r.wait, IpcWait::Message(2));
    // a slot without an endpoint
    let r = k.handle_endpoint_invocation(CONSOLE_CPTR, IpcMethod::Send, 0, vec![], 3);
    assert_eq!(r.ret, usize::MAX);
    let r = k.handle_endpoint_invocation(99, IpcMethod::Send, 0, vec![], 3);
    assert_eq!(r.ret, usize::MAX);
}

#[test]
fn reply_goes_to_the_callers_channel() {
    let mut ep = Endpoint::new();
    let c = ep.invoke(IpcMethod::Call, 0, 8, vec![1], 30);
    let r = ep.invoke(IpcMethod::Recv, 0, 0, vec![], 31);
    let a = answer_reply(r.adopt_reply, 5, vec![6, 7]);
    assert_eq!(a.ret, 0);
    assert_eq!(c.wait, IpcWait::Reply(a.channel.unwrap()));
    assert_eq!((a.tag, a.mrs.clone()), (5, vec![6, 7]));
    let none = answer_reply(None, 5, vec![6]);
    assert_eq!(none.ret, usize::MAX);
    assert!(none.channel.is_none());
    assert!(none.mrs.is_empty());
}

#[test]
fn endpoint_table_gains_only_the_invoked_slot() {
    let mut k = KernelState::new(&Config::default());
    assert!(k.resource.endpoints.is_empty());
    k.handle_endpoint_invocation(ENDPOINT_CPTR, IpcMethod::Notify, 3, vec![], 0);
    assert_eq!(k.resource.endpoints.len(), 1);
    assert!(k.resource.endpoints.contains_key(&ENDPOINT_CPTR));
    k.handle_endpoint_invocation(CONSOLE_CPTR, IpcMethod::Notify, 3, vec![], 0);
    assert_eq!(k.resource.endpoints.len(), 1);
    let before = k.resource.endpoints.get(&ENDPOINT_CPTR).unwrap().inner.notifications;
    let again = k.resource.get_endpoint(ENDPOINT_CPTR).inner.notifications;
    assert_eq!(before, again);
    assert_eq!(k.resource.endpoints.len(), 1);
}

#[test]
fn a_call_is_answered_once() {
    let mut ep = Endpoint::new();
    let c = ep.invoke(IpcMethod::Call, 0, 8, vec![1], 40);
    let r = ep.invoke(IpcMethod::Recv, 0, 0, vec![], 41);
    let mut active = r.adopt_reply;
    let first = reply_on_active(&mut active, 9, vec![2, 3]);
    assert_eq!(first.ret, 0);
    assert_eq!(c.wait, IpcWait::Reply(first.channel.unwrap()));
    assert_eq!((first.tag, first.mrs.clone()), (9, vec![2, 3]));
    assert!(active.is_none());
    let second = reply_on_active(&mut active, 9, vec![4]);
    assert_eq!(second.ret, usize::MAX);
    assert!(second.channel.is_none());
    assert!(second.mrs.is_empty());
    assert!(active.is_none());
}
