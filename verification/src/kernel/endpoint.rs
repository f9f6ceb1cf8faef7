//! Endpoint IPC as a state machine.
//!
//! An endpoint holds the receivers that wait for a message, the senders and callers
//! that wait for a receiver, and the notification bits that no receiver took yet.
//! One invocation moves the endpoint to its next state and says what the host must do:
//! hand a message to a waiting receiver, wake a waiting sender, adopt a reply channel,
//! and whether the invoker now blocks. Waiting threads and reply channels are named by
//! tokens that the host hands in.
use vstd::prelude::*;
use std::collections::VecDeque;

verus! {

/// The IPC operations that an endpoint capability accepts.
#[derive(Clone, Copy, Debug, PartialEq, Eq, Structural)]
pub enum IpcMethod {
    Notify,
    Send,
    Recv,
    Call,
    /// Any method code that an endpoint does not know.
    Other,
}

/// The channel on which a caller waits for its reply.
#[derive(Clone, Copy, Debug, PartialEq, Eq, Structural)]
pub struct ReplyChannel {
    pub id: usize,
}

/// How a queued sender waits: a plain sender for a receiver to pick its message up,
/// a caller for the reply on its channel.
#[derive(Clone, Copy, Debug, PartialEq, Eq, Structural)]
pub enum IPCKind {
    Send(usize),
    Call(ReplyChannel),
}

/// A sender or caller queued on an endpoint, with its message.
pub struct WaitingThread {
    pub tag: usize,
    pub mrs: Vec<usize>,
    pub kind: IPCKind,
}

/// The queues and pending notification bits of an endpoint.
pub struct EndpointInner {
    pub receivers: VecDeque<usize>,
    pub senders: VecDeque<WaitingThread>,
    pub notifications: usize,
}

/// An IPC endpoint.
pub struct Endpoint {
    pub inner: EndpointInner,
}

/// A message handed to a waiting receiver.
pub struct Delivery {
    pub receiver: usize,
    pub tag: usize,
    pub mrs: Vec<usize>,
    pub reply: Option<ReplyChannel>,
}

/// What the invoker waits for after the step.
#[derive(Clone, Copy, Debug, PartialEq, Eq, Structural)]
pub enum IpcWait {
    /// Nothing: the invoker returns `ret` and `mrs` at once.
    Ready,
    /// A receiver to pick up the message; the invoker then returns `(0, [])`.
    Signal(usize),
    /// A message delivered to this receiver token, which the invoker returns.
    Message(usize),
    /// The reply on this channel, which the invoker returns (`(0, [])` if none comes).
    Reply(ReplyChannel),
}

/// The effects of one endpoint invocation.
pub struct IpcStep {
    pub deliver: Option<Delivery>,
    pub wake: Option<usize>,
    pub adopt_reply: Option<ReplyChannel>,
    pub wait: IpcWait,
    pub ret: usize,
    pub mrs: Vec<usize>,
}

/// A queued sender, as a value.
#[verifier::ext_equal]
pub struct WaitingView {
    pub tag: usize,
    pub mrs: Seq<usize>,
    pub kind: IPCKind,
}

/// An endpoint, as a value.
#[verifier::ext_equal]
pub struct EndpointView {
    pub receivers: Seq<usize>,
    pub senders: Seq<WaitingView>,
    pub notifications: usize,
}

/// A delivery, as a value.
#[verifier::ext_equal]
pub struct DeliveryView {
    pub receiver: usize,
    pub tag: usize,
    pub mrs: Seq<usize>,
    pub reply: Option<ReplyChannel>,
}

/// A step, as a value.
#[verifier::ext_equal]
pub struct StepView {
    pub deliver: Option<DeliveryView>,
    pub wake: Option<usize>,
    pub adopt_reply: Option<ReplyChannel>,
    pub wait: IpcWait,
    pub ret: usize,
    pub mrs: Seq<usize>,
}

impl View for WaitingThread {
    type V = WaitingView;

    open spec fn view(&self) -> WaitingView {
        WaitingView { tag: self.tag, mrs: self.mrs@, kind: self.kind }
    }
}

impl View for Endpoint {
    type V = EndpointView;

    open spec fn view(&self) -> EndpointView {
        EndpointView {
            receivers: self.inner.receivers@,
            senders: self.inner.senders@.map_values(|w: WaitingThread| w@),
            notifications: self.inner.notifications,
        }
    }
}

impl View for Delivery {
    type V = DeliveryView;

    open spec fn view(&self) -> DeliveryView {
        DeliveryView { receiver: self.receiver, tag: self.tag, mrs: self.mrs@, reply: self.reply }
    }
}

impl View for IpcStep {
    type V = StepView;

    open spec fn view(&self) -> StepView {
        StepView {
            deliver: match self.deliver {
                Some(d) => Some(d@),
                None => None,
            },
            wake: self.wake,
            adopt_reply: self.adopt_reply,
            wait: self.wait,
            ret: self.ret,
            mrs: self.mrs@,
        }
    }
}

/// The badge that a notification carries: the capability's badge, or the tag where
/// the capability has none.
pub open spec fn notify_badge(badge: usize, tag: usize) -> usize {
    if badge != 0 {
        badge
    } else {
        tag
    }
}

/// The tag that a sent message carries: a non-zero badge goes into the upper half.
pub open spec fn sent_tag(tag: usize, badge: usize) -> usize {
    if badge != 0 {
        tag | (((badge as u64) << 32u64) as usize)
    } else {
        tag
    }
}

/// A step that returns `(ret, mrs)` at once and does nothing else.
pub open spec fn reply_step(ret: usize, mrs: Seq<usize>) -> StepView {
    StepView { deliver: None, wake: None, adopt_reply: None, wait: IpcWait::Ready, ret, mrs }
}

/// A step that hands a message to `receiver` and returns `(0, [])` or waits as `wait` says.
pub open spec fn deliver_step(d: DeliveryView, wait: IpcWait) -> StepView {
    StepView { deliver: Some(d), wake: None, adopt_reply: None, wait, ret: 0, mrs: Seq::empty() }
}

/// A step that only makes the invoker wait.
pub open spec fn wait_step(wait: IpcWait) -> StepView {
    StepView { deliver: None, wake: None, adopt_reply: None, wait, ret: 0, mrs: Seq::empty() }
}

/// The endpoint with no waiter and no pending notification.
pub open spec fn empty_endpoint() -> EndpointView {
    EndpointView { receivers: Seq::empty(), senders: Seq::empty(), notifications: 0 }
}

/// One invocation of an endpoint: the next state, and the step's effects. `token` names
/// what the invoker may come to wait on (its signal, its receive slot or its reply channel).
pub open spec fn endpoint_next(
    e: EndpointView,
    method: IpcMethod,
    badge: usize,
    tag: usize,
    mrs: Seq<usize>,
    token: usize,
) -> (EndpointView, StepView) {
    match method {
        IpcMethod::Notify => {
            let b = notify_badge(badge, tag);
            if e.receivers.len() > 0 {
                (
                    EndpointView { receivers: e.receivers.drop_first(), ..e },
                    deliver_step(
                        DeliveryView { receiver: e.receivers[0], tag: b, mrs: Seq::empty(), reply: None },
                        IpcWait::Ready,
                    ),
                )
            } else {
                (EndpointView { notifications: e.notifications | b, ..e }, reply_step(0, Seq::empty()))
            }
        },
        IpcMethod::Send => {
            let t = sent_tag(tag, badge);
            if e.receivers.len() > 0 {
                (
                    EndpointView { receivers: e.receivers.drop_first(), ..e },
                    deliver_step(
                        DeliveryView { receiver: e.receivers[0], tag: t, mrs, reply: None },
                        IpcWait::Ready,
                    ),
                )
            } else {
                (
                    EndpointView {
                        senders: e.senders.push(WaitingView { tag: t, mrs, kind: IPCKind::Send(token) }),
                        ..e
                    },
                    wait_step(IpcWait::Signal(token)),
                )
            }
        },
        IpcMethod::Recv => {
            if e.notifications != 0 {
                (EndpointView { notifications: 0, ..e }, reply_step(e.notifications, Seq::empty()))
            } else if e.senders.len() > 0 {
                let w = e.senders[0];
                (
                    EndpointView { senders: e.senders.drop_first(), ..e },
                    StepView {
                        deliver: None,
                        wake: match w.kind {
                            IPCKind::Send(s) => Some(s),
                            IPCKind::Call(_) => None,
                        },
                        adopt_reply: match w.kind {
                            IPCKind::Send(_) => None,
                            IPCKind::Call(c) => Some(c),
                        },
                        wait: IpcWait::Ready,
                        ret: w.tag,
                        mrs: w.mrs,
                    },
                )
            } else {
                (
                    EndpointView { receivers: e.receivers.push(token), ..e },
                    wait_step(IpcWait::Message(token)),
                )
            }
        },
        IpcMethod::Call => {
            let t = sent_tag(tag, badge);
            let chan = ReplyChannel { id: token };
            if e.receivers.len() > 0 {
                (
                    EndpointView { receivers: e.receivers.drop_first(), ..e },
                    deliver_step(
                        DeliveryView { receiver: e.receivers[0], tag: t, mrs, reply: Some(chan) },
                        IpcWait::Reply(chan),
                    ),
                )
            } else {
                (
                    EndpointView {
                        senders: e.senders.push(WaitingView { tag: t, mrs, kind: IPCKind::Call(chan) }),
                        ..e
                    },
                    wait_step(IpcWait::Reply(chan)),
                )
            }
        },
        IpcMethod::Other => (e, reply_step(usize::MAX, Seq::empty())),
    }
}

/// The endpoint's invariant: receivers and senders never wait at the same time, and
/// receivers wait only while no notification is pending.
pub open spec fn endpoint_wf(e: EndpointView) -> bool {
    &&& !(e.receivers.len() > 0 && e.senders.len() > 0)
    &&& (e.receivers.len() > 0 ==> e.notifications == 0)
}

/// Every invocation keeps the endpoint's invariant.
pub proof fn law_invoke_keeps_wf(
    e: EndpointView,
    method: IpcMethod,
    badge: usize,
    tag: usize,
    mrs: Seq<usize>,
    token: usize,
)
    requires
        endpoint_wf(e),
    ensures
        endpoint_wf(endpoint_next(e, method, badge, tag, mrs, token).0),
{
}

/// A message sent while nobody waits is what the next receive returns, and the
/// receive wakes its sender; the endpoint is idle again.
pub proof fn law_send_then_recv(
    badge: usize,
    tag: usize,
    mrs: Seq<usize>,
    s: usize,
    rbadge: usize,
    rtag: usize,
    rmrs: Seq<usize>,
    r: usize,
)
    ensures
        ({
            let (e1, st1) = endpoint_next(empty_endpoint(), IpcMethod::Send, badge, tag, mrs, s);
            let (e2, st2) = endpoint_next(e1, IpcMethod::Recv, rbadge, rtag, rmrs, r);
            &&& st1.wait == IpcWait::Signal(s)
            &&& st2.wait == IpcWait::Ready
            &&& st2.ret == sent_tag(tag, badge)
            &&& st2.mrs == mrs
            &&& st2.wake == Some(s)
            &&& e2 == empty_endpoint()
        }),
{
    let (e1, st1) = endpoint_next(empty_endpoint(), IpcMethod::Send, badge, tag, mrs, s);
    let (e2, st2) = endpoint_next(e1, IpcMethod::Recv, rbadge, rtag, rmrs, r);
    assert(e2 =~= empty_endpoint());
}

/// A receiver that waits gets the next message sent, as it was sent.
pub proof fn law_recv_then_send(
    rbadge: usize,
    rtag: usize,
    rmrs: Seq<usize>,
    r: usize,
    badge: usize,
    tag: usize,
    mrs: Seq<usize>,
    s: usize,
)
    ensures
        ({
            let (e1, st1) = endpoint_next(empty_endpoint(), IpcMethod::Recv, rbadge, rtag, rmrs, r);
            let (e2, st2) = endpoint_next(e1, IpcMethod::Send, badge, tag, mrs, s);
            &&& st1.wait == IpcWait::Message(r)
            &&& st2.wait == IpcWait::Ready
            &&& st2.deliver == Some(
                DeliveryView { receiver: r, tag: sent_tag(tag, badge), mrs, reply: None },
            )
            &&& e2 == empty_endpoint()
        }),
{
    let (e1, st1) = endpoint_next(empty_endpoint(), IpcMethod::Recv, rbadge, rtag, rmrs, r);
    let (e2, st2) = endpoint_next(e1, IpcMethod::Send, badge, tag, mrs, s);
    assert(e2 =~= empty_endpoint());
}

/// Notification bits that arrive while no receiver waits are kept, OR-ed together, and
/// the next receive takes them all at once.
pub proof fn law_notify_then_recv(
    e: EndpointView,
    badge: usize,
    tag: usize,
    rbadge: usize,
    rtag: usize,
    rmrs: Seq<usize>,
    r: usize,
)
    requires
        e.receivers.len() == 0,
        (e.notifications | notify_badge(badge, tag)) != 0,
    ensures
        ({
            let (e1, st1) = endpoint_next(e, IpcMethod::Notify, badge, tag, Seq::empty(), r);
            let (e2, st2) = endpoint_next(e1, IpcMethod::Recv, rbadge, rtag, rmrs, r);
            &&& st1.wait == IpcWait::Ready
            &&& st2.ret == (e.notifications | notify_badge(badge, tag))
            &&& st2.wait == IpcWait::Ready
            &&& e2.notifications == 0
            &&& e2.senders == e.senders
            &&& e2.receivers == e.receivers
        }),
{
}

/// A notification through a badged capability carries exactly the capability's badge,
/// whatever tag the notifier passes: a waiting receiver is handed the badge, and
/// otherwise the badge's bits are added to the pending ones, so that a receive on an
/// endpoint with nothing pending gets the badge itself. Only an unbadged capability
/// passes the notifier's tag on.
pub proof fn law_badged_notify_carries_badge(
    e: EndpointView,
    badge: usize,
    tag: usize,
    other_tag: usize,
    mrs: Seq<usize>,
    n: usize,
    rbadge: usize,
    rtag: usize,
    rmrs: Seq<usize>,
    r: usize,
)
    ensures
        badge != 0 ==> endpoint_next(e, IpcMethod::Notify, badge, tag, mrs, n) == endpoint_next(
            e,
            IpcMethod::Notify,
            badge,
            other_tag,
            mrs,
            n,
        ),
        ({
            let carried = if badge != 0 {
                badge
            } else {
                tag
            };
            let (e1, st1) = endpoint_next(e, IpcMethod::Notify, badge, tag, mrs, n);
            &&& e.receivers.len() > 0 ==> (st1.deliver matches Some(d) && d.tag == carried)
            &&& e.receivers.len() == 0 ==> e1.notifications == (e.notifications | carried)
        }),
        ({
            let (e1, _) = endpoint_next(empty_endpoint(), IpcMethod::Notify, badge, tag, mrs, n);
            let (_, st2) = endpoint_next(e1, IpcMethod::Recv, rbadge, rtag, rmrs, r);
            badge != 0 ==> st2.ret == badge
        }),
{
    assert(0usize | badge == badge) by (bit_vector);
}

/// A receiver that waits is handed the badge of the next notification.
pub proof fn law_recv_then_notify(
    rbadge: usize,
    rtag: usize,
    rmrs: Seq<usize>,
    r: usize,
    badge: usize,
    tag: usize,
    nmrs: Seq<usize>,
    n: usize,
)
    ensures
        ({
            let (e1, st1) = endpoint_next(empty_endpoint(), IpcMethod::Recv, rbadge, rtag, rmrs, r);
            let (e2, st2) = endpoint_next(e1, IpcMethod::Notify, badge, tag, nmrs, n);
            &&& st1.wait == IpcWait::Message(r)
            &&& st2.deliver == Some(
                DeliveryView { receiver: r, tag: notify_badge(badge, tag), mrs: Seq::empty(), reply: None },
            )
            &&& e2 == empty_endpoint()
        }),
{
    let (e1, st1) = endpoint_next(empty_endpoint(), IpcMethod::Recv, rbadge, rtag, rmrs, r);
    let (e2, st2) = endpoint_next(e1, IpcMethod::Notify, badge, tag, nmrs, n);
    assert(e2 =~= empty_endpoint());
}

/// A badged message carries the badge in the upper half of its tag and the sender's
/// tag in the lower half, so that senders whose badges differ anywhere are told apart:
/// for a tag and a non-zero badge that fit in 32 bits each, the receiver gets
/// `tag + badge * 2^32`, whichever of sender and receiver comes first.
pub proof fn law_badge_in_upper_half(
    tag: usize,
    badge: usize,
    mrs: Seq<usize>,
    s: usize,
    rbadge: usize,
    rtag: usize,
    rmrs: Seq<usize>,
    r: usize,
)
    requires
        tag < 0x1_0000_0000,
        0 < badge < 0x1_0000_0000,
        tag + badge * 0x1_0000_0000 <= usize::MAX,
    ensures
        sent_tag(tag, badge) == tag + badge * 0x1_0000_0000,
        ({
            let (e1, _) = endpoint_next(empty_endpoint(), IpcMethod::Send, badge, tag, mrs, s);
            let (_, st2) = endpoint_next(e1, IpcMethod::Recv, rbadge, rtag, rmrs, r);
            st2.ret == tag + badge * 0x1_0000_0000
        }),
        ({
            let (e1, _) = endpoint_next(empty_endpoint(), IpcMethod::Recv, rbadge, rtag, rmrs, r);
            let (_, st2) = endpoint_next(e1, IpcMethod::Call, badge, tag, mrs, s);
            st2.deliver matches Some(d) && d.tag == tag + badge * 0x1_0000_0000
        }),
{
    assert(usize::BITS == 64);
    assert(tag | (((badge as u64) << 32u64) as usize) == tag + badge * 0x1_0000_0000) by (bit_vector)
        requires
            tag < 0x1_0000_0000,
            badge < 0x1_0000_0000,
            usize::BITS == 64,
    ;
}

/// A caller's message reaches the receiver together with the channel on which the
/// caller waits, whichever of the two comes first.
pub proof fn law_call_reply_channel(
    badge: usize,
    tag: usize,
    mrs: Seq<usize>,
    c: usize,
    rbadge: usize,
    rtag: usize,
    rmrs: Seq<usize>,
    r: usize,
)
    ensures
        ({
            let (e1, st1) = endpoint_next(empty_endpoint(), IpcMethod::Call, badge, tag, mrs, c);
            let (e2, st2) = endpoint_next(e1, IpcMethod::Recv, rbadge, rtag, rmrs, r);
            &&& st1.wait == IpcWait::Reply(ReplyChannel { id: c })
            &&& st2.adopt_reply == Some(ReplyChannel { id: c })
            &&& st2.ret == sent_tag(tag, badge)
            &&& st2.mrs == mrs
        }),
        ({
            let (e1, st1) = endpoint_next(empty_endpoint(), IpcMethod::Recv, rbadge, rtag, rmrs, r);
            let (e2, st2) = endpoint_next(e1, IpcMethod::Call, badge, tag, mrs, c);
            &&& st2.wait == IpcWait::Reply(ReplyChannel { id: c })
            &&& st2.deliver == Some(
                DeliveryView {
                    receiver: r,
                    tag: sent_tag(tag, badge),
                    mrs,
                    reply: Some(ReplyChannel { id: c }),
                },
            )
        }),
{
}

/// Queued senders are served in the order they came.
pub proof fn law_senders_fifo(
    e: EndpointView,
    badge: usize,
    tag: usize,
    mrs: Seq<usize>,
    s: usize,
    rbadge: usize,
    rtag: usize,
    rmrs: Seq<usize>,
    r: usize,
)
    requires
        endpoint_wf(e),
        e.senders.len() > 0,
        e.notifications == 0,
    ensures
        ({
            let (e1, st1) = endpoint_next(e, IpcMethod::Send, badge, tag, mrs, s);
            let (e2, st2) = endpoint_next(e1, IpcMethod::Recv, rbadge, rtag, rmrs, r);
            &&& st2.ret == e.senders[0].tag
            &&& st2.mrs == e.senders[0].mrs
            &&& e2.senders == e.senders.drop_first().push(
                WaitingView { tag: sent_tag(tag, badge), mrs, kind: IPCKind::Send(s) },
            )
        }),
{
    let (e1, st1) = endpoint_next(e, IpcMethod::Send, badge, tag, mrs, s);
    let (e2, st2) = endpoint_next(e1, IpcMethod::Recv, rbadge, rtag, rmrs, r);
    assert(e2.senders =~= e.senders.drop_first().push(
        WaitingView { tag: sent_tag(tag, badge), mrs, kind: IPCKind::Send(s) },
    ));
}

/// A reply through the reply capability: the channel it answers, if the replier holds
/// one, with the reply message, and what the replier gets back.
pub struct ReplyAnswer {
    pub channel: Option<ReplyChannel>,
    pub tag: usize,
    pub mrs: Vec<usize>,
    pub ret: usize,
}

/// Where a reply goes and what the replier gets: with a channel, the message goes to it
/// and the replier gets 0; without one, nothing goes anywhere and the replier gets
/// `usize::MAX`.
pub open spec fn reply_answer(active: Option<ReplyChannel>, tag: usize, mrs: Seq<usize>) -> (
    Option<(ReplyChannel, usize, Seq<usize>)>,
    usize,
) {
    match active {
        Some(c) => (Some((c, tag, mrs)), 0),
        None => (None, usize::MAX),
    }
}

/// Answers through the reply capability, with `active` the channel that the replier
/// adopted when it received a call.
pub fn answer_reply(active: Option<ReplyChannel>, tag: usize, mrs: Vec<usize>) -> (a: ReplyAnswer)
    ensures
        ({
            let (to, ret) = reply_answer(active, tag, mrs@);
            &&& a.ret == ret
            &&& match to {
                Some((c, t, m)) => a.channel == Some(c) && a.tag == t && a.mrs@ == m,
                None => a.channel is None && a.mrs@ == Seq::<usize>::empty(),
            }
        }),
{
    match active {
        Some(c) => ReplyAnswer { channel: Some(c), tag, mrs, ret: 0 },
        None => ReplyAnswer { channel: None, tag, mrs: Vec::new(), ret: usize::MAX },
    }
}

/// A reply through the reply capability as a step on the replier's active channel: the
/// channel is spent, and the answer is that of `reply_answer`.
pub open spec fn active_reply_step(active: Option<ReplyChannel>, tag: usize, mrs: Seq<usize>) -> (
    Option<ReplyChannel>,
    (Option<(ReplyChannel, usize, Seq<usize>)>, usize),
) {
    (None, reply_answer(active, tag, mrs))
}

/// Answers through the reply capability with the channel that the replier adopted, and
/// spends that channel.
pub fn reply_on_active(active: &mut Option<ReplyChannel>, tag: usize, mrs: Vec<usize>) -> (a: ReplyAnswer)
    ensures
        ({
            let (rest, (to, ret)) = active_reply_step(*old(active), tag, mrs@);
            &&& *final(active) == rest
            &&& a.ret == ret
            &&& match to {
                Some((c, t, m)) => a.channel == Some(c) && a.tag == t && a.mrs@ == m,
                None => a.channel is None && a.mrs@ == Seq::<usize>::empty(),
            }
        }),
{
    let taken = active.take();
    answer_reply(taken, tag, mrs)
}

/// A received call is answered at most once: a reply with an adopted channel goes to
/// that channel and gets 0, and any reply after a reply reaches nobody and gets
/// `usize::MAX`.
pub proof fn law_reply_once(active: Option<ReplyChannel>, t1: usize, m1: Seq<usize>, t2: usize, m2: Seq<usize>)
    ensures
        ({
            let (a1, r1) = active_reply_step(active, t1, m1);
            let (a2, r2) = active_reply_step(a1, t2, m2);
            &&& active matches Some(c) ==> r1 == (Some((c, t1, m1)), 0usize)
            &&& r2 == (None::<(ReplyChannel, usize, Seq<usize>)>, usize::MAX)
            &&& a2 is None
        }),
{
}

/// A call and its reply: whichever of caller and receiver comes first, the receiver
/// gets the caller's message and the caller's channel, and the reply it then sends goes
/// to exactly the channel the caller waits on.
pub proof fn law_call_round_trip(
    badge: usize,
    tag: usize,
    mrs: Seq<usize>,
    c: usize,
    rbadge: usize,
    rtag: usize,
    rmrs: Seq<usize>,
    r: usize,
    t2: usize,
    m2: Seq<usize>,
)
    ensures
        ({
            let (e1, st1) = endpoint_next(empty_endpoint(), IpcMethod::Call, badge, tag, mrs, c);
            let (e2, st2) = endpoint_next(e1, IpcMethod::Recv, rbadge, rtag, rmrs, r);
            &&& st1.wait == IpcWait::Reply(ReplyChannel { id: c })
            &&& st2.ret == sent_tag(tag, badge)
            &&& st2.mrs == mrs
            &&& reply_answer(st2.adopt_reply, t2, m2) == (Some((ReplyChannel { id: c }, t2, m2)), 0usize)
            &&& e2 == empty_endpoint()
        }),
        ({
            let (e1, st1) = endpoint_next(empty_endpoint(), IpcMethod::Recv, rbadge, rtag, rmrs, r);
            let (e2, st2) = endpoint_next(e1, IpcMethod::Call, badge, tag, mrs, c);
            &&& st1.wait == IpcWait::Message(r)
            &&& st2.wait == IpcWait::Reply(ReplyChannel { id: c })
            &&& st2.deliver matches Some(d) && d.receiver == r && d.tag == sent_tag(tag, badge) && d.mrs == mrs
                && reply_answer(d.reply, t2, m2) == (Some((ReplyChannel { id: c }, t2, m2)), 0usize)
            &&& e2 == empty_endpoint()
        }),
{
    let (e1, st1) = endpoint_next(empty_endpoint(), IpcMethod::Call, badge, tag, mrs, c);
    let (e2, st2) = endpoint_next(e1, IpcMethod::Recv, rbadge, rtag, rmrs, r);
    assert(e2 =~= empty_endpoint());
    let (f1, su1) = endpoint_next(empty_endpoint(), IpcMethod::Recv, rbadge, rtag, rmrs, r);
    let (f2, su2) = endpoint_next(f1, IpcMethod::Call, badge, tag, mrs, c);
    assert(f2 =~= empty_endpoint());
}

fn compute_sent_tag(tag: usize, badge: usize) -> (t: usize)
    ensures
        t == sent_tag(tag, badge),
{
    if badge != 0 {
        tag | (((badge as u64) << 32u64) as usize)
    } else {
        tag
    }
}

impl Endpoint {
    /// An endpoint with no waiter and no pending notification.
    pub fn new() -> (ep: Self)
        ensures
            ep@ == empty_endpoint(),
            endpoint_wf(ep@),
    {
        let ep = Endpoint {
            inner: EndpointInner { receivers: VecDeque::new(), senders: VecDeque::new(), notifications: 0 },
        };
        assert(ep@ =~= empty_endpoint());
        ep
    }

    /// One invocation with `method`, through a capability badged `badge` (0 for none).
    pub fn invoke(
        &mut self,
        method: IpcMethod,
        badge: usize,
        tag: usize,
        mrs: Vec<usize>,
        token: usize,
    ) -> (step: IpcStep)
        ensures
            (final(self)@, step@) == endpoint_next(old(self)@, method, badge, tag, mrs@, token),
    {
        let ghost e = old(self)@;
        let ghost next = endpoint_next(e, method, badge, tag, mrs@, token);
        let empty: Vec<usize> = Vec::new();
        match method {
            IpcMethod::Notify => {
                let b = if badge != 0 {
                    badge
                } else {
                    tag
                };
                match self.inner.receivers.pop_front() {
                    Some(r) => {
                        let step = IpcStep {
                            deliver: Some(Delivery { receiver: r, tag: b, mrs: empty, reply: None }),
                            wake: None,
                            adopt_reply: None,
                            wait: IpcWait::Ready,
                            ret: 0,
                            mrs: Vec::new(),
                        };
                        assert(self@ =~= next.0);
                        assert(step@ =~= next.1);
                        step
                    },
                    None => {
                        self.inner.notifications = self.inner.notifications | b;
                        let step = IpcStep {
                            deliver: None,
                            wake: None,
                            adopt_reply: None,
                            wait: IpcWait::Ready,
                            ret: 0,
                            mrs: empty,
                        };
                        assert(self@ =~= next.0);
                        assert(step@ =~= next.1);
                        step
                    },
                }
            },
            IpcMethod::Send => {
                let t = compute_sent_tag(tag, badge);
                match self.inner.receivers.pop_front() {
                    Some(r) => {
                        let step = IpcStep {
                            deliver: Some(Delivery { receiver: r, tag: t, mrs, reply: None }),
                            wake: None,
                            adopt_reply: None,
                            wait: IpcWait::Ready,
                            ret: 0,
                            mrs: empty,
                        };
                        assert(self@ =~= next.0);
                        assert(step@ =~= next.1);
                        step
                    },
                    None => {
                        let ghost m = mrs@;
                        self.inner.senders.push_back(WaitingThread { tag: t, mrs, kind: IPCKind::Send(token) });
                        let step = IpcStep {
                            deliver: None,
                            wake: None,
                            adopt_reply: None,
                            wait: IpcWait::Signal(token),
                            ret: 0,
                            mrs: empty,
                        };
                        assert(self@.senders =~= e.senders.push(
                            WaitingView { tag: t, mrs: m, kind: IPCKind::Send(token) },
                        ));
                        assert(self@ =~= next.0);
                        assert(step@ =~= next.1);
                        step
                    },
                }
            },
            IpcMethod::Recv => {
                if self.inner.notifications != 0 {
                    let b = self.inner.notifications;
                    self.inner.notifications = 0;
                    let step = IpcStep {
                        deliver: None,
                        wake: None,
                        adopt_reply: None,
                        wait: IpcWait::Ready,
                        ret: b,
                        mrs: empty,
                    };
                    assert(self@ =~= next.0);
                    assert(step@ =~= next.1);
                    step
                } else {
                    match self.inner.senders.pop_front() {
                        Some(w) => {
                            let (wake, adopt) = match w.kind {
                                IPCKind::Send(s) => (Some(s), None),
                                IPCKind::Call(c) => (None, Some(c)),
                            };
                            let step = IpcStep {
                                deliver: None,
                                wake,
                                adopt_reply: adopt,
                                wait: IpcWait::Ready,
                                ret: w.tag,
                                mrs: w.mrs,
                            };
                            assert(self@.senders =~= e.senders.drop_first());
                            assert(self@ =~= next.0);
                            assert(step@ =~= next.1);
                            step
                        },
                        None => {
                            self.inner.receivers.push_back(token);
                            let step = IpcStep {
                                deliver: None,
                                wake: None,
                                adopt_reply: None,
                                wait: IpcWait::Message(token),
                                ret: 0,
                                mrs: empty,
                            };
                            assert(self@ =~= next.0);
                            assert(step@ =~= next.1);
                            step
                        },
                    }
                }
            },
            IpcMethod::Call => {
                let t = compute_sent_tag(tag, badge);
                let chan = ReplyChannel { id: token };
                match self.inner.receivers.pop_front() {
                    Some(r) => {
                        let step = IpcStep {
                            deliver: Some(Delivery { receiver: r, tag: t, mrs, reply: Some(chan) }),
                            wake: None,
                            adopt_reply: None,
                            wait: IpcWait::Reply(chan),
                            ret: 0,
                            mrs: empty,
                        };
                        assert(self@ =~= next.0);
                        assert(step@ =~= next.1);
                        step
                    },
                    None => {
                        let ghost m = mrs@;
                        self.inner.senders.push_back(WaitingThread { tag: t, mrs, kind: IPCKind::Call(chan) });
                        let step = IpcStep {
                            deliver: None,
                            wake: None,
                            adopt_reply: None,
                            wait: IpcWait::Reply(chan),
                            ret: 0,
                            mrs: empty,
                        };
                        assert(self@.senders =~= e.senders.push(
                            WaitingView { tag: t, mrs: m, kind: IPCKind::Call(chan) },
                        ));
                        assert(self@ =~= next.0);
                        assert(step@ =~= next.1);
                        step
                    },
                }
            },
            IpcMethod::Other => {
                let step = IpcStep {
                    deliver: None,
                    wake: None,
                    adopt_reply: None,
                    wait: IpcWait::Ready,
                    ret: usize::MAX,
                    mrs: empty,
                };
                assert(self@ =~= next.0);
                assert(step@ =~= next.1);
                step
            },
        }
    }
}

} // verus!
