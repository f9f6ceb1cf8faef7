use hutch::config::Config;
use hutch::error::{KernelError, RetCode};
use hutch::kernel::capability::{CapData, CapDataStore, CapType, Capability};
use hutch::kernel::cspace::CSpace;
use hutch::kernel::irq::{IrqManager, IrqSlot, MAX_IRQS};
use hutch::kernel::monitor::{MonitorMethod, Outcome};
use hutch::kernel::trap::{exception_message, FaultKind, FaultTags};
use hutch::kernel::endpoint::{IpcMethod, IpcWait, ReplyChannel};
use hutch::kernel::{KernelState, CONSOLE_CPTR, CSPACE_CPTR, ENDPOINT_CPTR, MONITOR_CPTR, REPLY_CPTR, TCB_CPTR, VSPACE_CPTR};
use hutch::syscall::cnode::CNodeMethod;
use hutch::syscall::irq::IrqMethod;
use hutch::syscall::{unserved_reply, ProcessCall, Proto, ResourceCall, Route};

fn kernel() -> KernelState {
    KernelState::new(&Config::default())
}

fn cap(cs: &mut CSpace, t: CapType) -> Capability {
    Capability::new(t, &mut cs.cells)
}

#[test]
fn capability_badge_and_data() {
    let mut store = CapDataStore::new();
    let c = Capability::new(CapType::Endpoint, &mut store);
    assert_eq!(c.badge, None);
    assert_eq!(c.get_data(&store), CapData::Empty);
    let b = c.with_badge(7);
    assert_eq!(b.badge, Some(7));
    assert_eq!(b.cap_type, CapType::Endpoint);
    b.set_data(&mut store, CapData::Frame(3));
    assert_eq!(b.get_data(&store), CapData::Frame(3));
    // the capability it was minted from sees the same data
    assert_eq!(c.get_data(&store), CapData::Frame(3));
    let other = Capability::new(CapType::Endpoint, &mut store);
    assert_eq!(other.get_data(&store), CapData::Empty);
    assert_ne!(other.data, c.data);
}

#[test]
fn clone_shares_data() {
    let mut store = CapDataStore::new();
    let c = Capability::new(CapType::Untyped, &mut store);
    let c2 = c.clone();
    c2.set_data(&mut store, CapData::Untyped(5));
    assert_eq!(c.get_data(&store), CapData::Untyped(5));
}

#[test]
fn minted_copy_shares_data() {
    let mut k = kernel();
    let r = k.handle_cnode_invocation(CNodeMethod::Mint, 0, vec![ENDPOINT_CPTR, 20, 0x99]);
    assert_eq!(r.ret, RetCode::Value(0));
    let minted = *k.cspace.get(20).unwrap();
    minted.set_data(&mut k.cspace.cells, CapData::Frame(8));
    let source = *k.cspace.get(ENDPOINT_CPTR).unwrap();
    assert_eq!(source.get_data(&k.cspace.cells), CapData::Frame(8));
    let unrelated = *k.cspace.get(CONSOLE_CPTR).unwrap();
    assert_eq!(unrelated.get_data(&k.cspace.cells), CapData::Empty);
}

#[test]
fn cspace_insert_get_delete() {
    let mut cs = CSpace::new();
    assert!(cs.get(1).is_none());
    { let c = cap(&mut cs, CapType::CNode); cs.insert(1, c); }
    assert_eq!(cs.get(1).unwrap().cap_type, CapType::CNode);
    { let c = cap(&mut cs, CapType::Frame); cs.insert_derived(1, 2, c); }
    { let c = cap(&mut cs, CapType::Frame); cs.insert_derived(1, 3, c); }
    assert_eq!(cs.cdt.get(&1).unwrap(), &vec![2, 3]);
    cs.delete(2);
    assert!(cs.get(2).is_none());
    assert_eq!(cs.cdt.get(&1).unwrap(), &vec![3]);
    assert!(cs.get(1).is_some());
}

#[test]
fn cspace_revoke_removes_descendants_only() {
    let mut cs = CSpace::new();
    { let c = cap(&mut cs, CapType::Endpoint); cs.insert(1, c); }
    { let c = cap(&mut cs, CapType::Console); cs.insert(9, c); }
    { let c = cap(&mut cs, CapType::Endpoint); cs.insert_derived(1, 2, c); }
    { let c = cap(&mut cs, CapType::Endpoint); cs.insert_derived(2, 3, c); }
    { let c = cap(&mut cs, CapType::Endpoint); cs.insert_derived(1, 4, c); }
    { let c = cap(&mut cs, CapType::Console); cs.insert_derived(9, 5, c); }
    cs.revoke(1);
    assert!(cs.get(1).is_some());
    assert!(cs.get(2).is_none());
    assert!(cs.get(3).is_none());
    assert!(cs.get(4).is_none());
    assert!(cs.get(5).is_some());
    assert!(cs.get(9).is_some());
    assert!(cs.cdt.get(&1).is_none());
    assert!(cs.cdt.get(&2).is_none());
    assert_eq!(cs.cdt.get(&9).unwrap(), &vec![5]);
}

#[test]
fn cspace_revoke_cycle_terminates() {
    let mut cs = CSpace::new();
    { let c = cap(&mut cs, CapType::Endpoint); cs.insert(1, c); }
    { let c = cap(&mut cs, CapType::Endpoint); cs.insert_derived(1, 2, c); }
    { let c = cap(&mut cs, CapType::Endpoint); cs.insert_derived(2, 1, c); }
    cs.revoke(1);
    // 1 is reached from itself through 2, so its slot goes too.
    assert!(cs.get(1).is_none());
    assert!(cs.get(2).is_none());
    assert!(cs.cdt.is_empty());
}

#[test]
fn kernel_new_has_well_known_caps() {
    let k = kernel();
    assert_eq!(k.cspace.get(CSPACE_CPTR).unwrap().cap_type, CapType::CNode);
    assert_eq!(k.cspace.get(VSPACE_CPTR).unwrap().cap_type, CapType::VSpace);
    assert_eq!(k.cspace.get(TCB_CPTR).unwrap().cap_type, CapType::TCB);
    assert_eq!(k.cspace.get(MONITOR_CPTR).unwrap().cap_type, CapType::Endpoint);
    assert_eq!(k.cspace.get(CONSOLE_CPTR).unwrap().cap_type, CapType::Console);
    assert_eq!(k.cspace.get(REPLY_CPTR).unwrap().cap_type, CapType::Reply);
    assert_eq!(k.cspace.get(ENDPOINT_CPTR).unwrap().cap_type, CapType::Endpoint);
    assert!(k.cspace.get(7).is_none());
    assert_eq!(k.resource.brk, 0x10000000);
    assert_eq!(k.irq_manager.table.len(), MAX_IRQS);
}

#[test]
fn irq_bind_clear_and_target() {
    let mut m = IrqManager::new();
    assert_eq!(m.target(3), None);
    assert_eq!(m.bind_notification(3, 8, 0x55), Ok(()));
    assert_eq!(m.target(3), Some((8, 0x55)));
    assert_eq!(m.bind_notification(MAX_IRQS, 8, 1), Err(KernelError::InvalidArgs));
    assert_eq!(m.clear_notification(3), Ok(()));
    assert_eq!(m.target(3), None);
    assert_eq!(m.table[3], IrqSlot { cptr: None, badge: 0x55, enabled: false });
    assert_eq!(m.clear_notification(MAX_IRQS + 1), Err(KernelError::InvalidArgs));
}

#[test]
fn trigger_irq_notifies_bound_endpoint() {
    let mut k = kernel();
    let r = k.handle_irq_invocation(5, IrqMethod::SetNotification, 0, vec![ENDPOINT_CPTR, 0x40]);
    assert_eq!(r.reply.ret, RetCode::Value(0));
    assert!(!r.ack);
    // no receiver waits: the badge is kept
    let step = k.trigger_irq(5, 0).unwrap();
    assert_eq!(step.wait, IpcWait::Ready);
    let recv = k.handle_endpoint_invocation(ENDPOINT_CPTR, IpcMethod::Recv, 0, vec![], 1);
    assert_eq!(recv.ret, 0x40);
    assert!(k.trigger_irq(6, 0).is_none());
}

#[test]
fn irq_set_notification_needs_endpoint() {
    let mut k = kernel();
    let r = k.handle_irq_invocation(5, IrqMethod::SetNotification, 0, vec![CONSOLE_CPTR]);
    assert_eq!(r.reply.ret, RetCode::Error(KernelError::InvalidCapability));
    let r = k.handle_irq_invocation(MAX_IRQS, IrqMethod::SetNotification, 0, vec![ENDPOINT_CPTR]);
    assert_eq!(r.reply.ret, RetCode::Error(KernelError::InvalidArgs));
    let r = k.handle_irq_invocation(5, IrqMethod::Ack, 0, vec![]);
    assert!(r.ack);
    assert_eq!(r.reply.ret, RetCode::Value(0));
    let r = k.handle_irq_invocation(5, IrqMethod::Other, 0, vec![]);
    assert_eq!(r.reply.ret, RetCode::Value(usize::MAX));
}

#[test]
fn cnode_mint_copy_delete_revoke() {
    let mut k = kernel();
    let r = k.handle_cnode_invocation(CNodeMethod::Mint, 0, vec![ENDPOINT_CPTR, 20, 0x99]);
    assert_eq!(r.ret, RetCode::Value(0));
    assert_eq!(k.cspace.get(20).unwrap().badge, Some(0x99));
    let r = k.handle_cnode_invocation(CNodeMethod::Copy, 0, vec![20, 21]);
    assert_eq!(r.ret, RetCode::Value(0));
    assert_eq!(k.cspace.get(21).unwrap().badge, Some(0x99));
    let r = k.handle_cnode_invocation(CNodeMethod::Copy, 0, vec![77, 22]);
    assert_eq!(r.ret, RetCode::Error(KernelError::InvalidCapability));
    let r = k.handle_cnode_invocation(CNodeMethod::Revoke, 0, vec![ENDPOINT_CPTR]);
    assert_eq!(r.ret, RetCode::Value(0));
    assert!(k.cspace.get(20).is_none());
    assert!(k.cspace.get(21).is_none());
    assert!(k.cspace.get(ENDPOINT_CPTR).is_some());
    let r = k.handle_cnode_invocation(CNodeMethod::Delete, 0, vec![ENDPOINT_CPTR]);
    assert_eq!(r.ret, RetCode::Value(0));
    assert!(k.cspace.get(ENDPOINT_CPTR).is_none());
    let r = k.handle_cnode_invocation(CNodeMethod::Other, 0, vec![]);
    assert_eq!(r.ret, RetCode::Value(usize::MAX));
}

#[test]
fn routes_by_cap_type_and_protocol() {
    let mut k = kernel();
    assert_eq!(k.route_invocation(CONSOLE_CPTR, Proto::Other), Route::Console);
    assert_eq!(k.route_invocation(TCB_CPTR, Proto::Other), Route::Tcb);
    assert_eq!(k.route_invocation(CSPACE_CPTR, Proto::Other), Route::CNode);
    assert_eq!(k.route_invocation(VSPACE_CPTR, Proto::Other), Route::VSpace);
    assert_eq!(k.route_invocation(REPLY_CPTR, Proto::Other), Route::Reply);
    assert_eq!(k.route_invocation(MONITOR_CPTR, Proto::Resource), Route::ResourceEmulation);
    assert_eq!(k.route_invocation(MONITOR_CPTR, Proto::Process), Route::ProcessEmulation);
    assert_eq!(k.route_invocation(ENDPOINT_CPTR, Proto::Other), Route::Endpoint);
    assert_eq!(k.route_invocation(99, Proto::Other), Route::InvalidCap);
    let c = cap(&mut k.cspace, CapType::IrqHandler);
    k.cspace.insert(30, c.with_badge(12));
    assert_eq!(k.route_invocation(30, Proto::Other), Route::Irq(12));
    let c = cap(&mut k.cspace, CapType::Frame);
    k.cspace.insert(31, c);
    assert_eq!(k.route_invocation(31, Proto::Other), Route::Unimplemented(CapType::Frame));
}

#[test]
fn monitor_sbrk_and_exit() {
    let mut k = kernel();
    match k.handle_monitor_invocation(MonitorMethod::Sbrk, 0, vec![0]) {
        Outcome::Reply(r) => assert_eq!(r.ret, RetCode::Value(0x10000000)),
        Outcome::Exit(_) => panic!("sbrk must reply"),
    }
    match k.handle_monitor_invocation(MonitorMethod::Sbrk, 0, vec![4096]) {
        Outcome::Reply(r) => assert_eq!(r.ret, RetCode::Value(0x10000000)),
        Outcome::Exit(_) => panic!("sbrk must reply"),
    }
    assert_eq!(k.resource.brk, 0x10000000 + 4096);
    // a negative increment, passed as a register
    match k.handle_monitor_invocation(MonitorMethod::Sbrk, 0, vec![(-4096isize) as usize]) {
        Outcome::Reply(r) => assert_eq!(r.ret, RetCode::Value(0x10000000 + 4096)),
        Outcome::Exit(_) => panic!("sbrk must reply"),
    }
    assert_eq!(k.resource.brk, 0x10000000);
    assert!(matches!(k.handle_monitor_invocation(MonitorMethod::Exit, 0, vec![3]), Outcome::Exit(3)));
    match k.handle_monitor_invocation(MonitorMethod::Other, 0, vec![]) {
        Outcome::Reply(r) => assert_eq!(r.ret, RetCode::Value(usize::MAX)),
        Outcome::Exit(_) => panic!("unknown methods reply"),
    }
}

#[test]
fn resource_emulation_sbrk_register_get() {
    let mut k = kernel();
    let r = k.handle_resource_emulation(ResourceCall::Sbrk, 0, vec![0], 0);
    assert_eq!(r.reply.ret, RetCode::Value(0x10000000));
    let r = k.handle_resource_emulation(ResourceCall::Sbrk, 0, vec![4096], 0);
    assert_eq!(r.reply.ret, RetCode::Value(0x10000000));
    let r = k.handle_resource_emulation(ResourceCall::Sbrk, 0, vec![0], 0);
    assert_eq!(r.reply.ret, RetCode::Value(0x10000000 + 4096));
    let r = k.handle_resource_emulation(ResourceCall::GetCap, 0, vec![0, 2], 0);
    assert_eq!(r.reply.ret, RetCode::Error(KernelError::NotFound));
    assert_eq!(r.recv_window, None);
    let r = k.handle_resource_emulation(ResourceCall::RegisterCap, 0, vec![0, 2], 40);
    assert_eq!(r.reply.ret, RetCode::Value(0));
    let r = k.handle_resource_emulation(ResourceCall::GetCap, 0, vec![0, 2], 0);
    assert_eq!(r.reply.ret, RetCode::Value(0));
    assert_eq!(r.recv_window, Some(40));
    let r = k.handle_resource_emulation(ResourceCall::Other, 0, vec![], 0);
    assert_eq!(r.reply.ret, RetCode::Value(usize::MAX));
}

#[test]
fn process_emulation_exit() {
    let k = kernel();
    assert!(matches!(k.handle_process_emulation(ProcessCall::Exit, 0, vec![7]), Outcome::Exit(7)));
    match k.handle_process_emulation(ProcessCall::Other, 0, vec![]) {
        Outcome::Reply(r) => assert_eq!(r.ret, RetCode::Value(usize::MAX)),
        Outcome::Exit(_) => panic!("other calls reply"),
    }
}

#[test]
fn console_prints_until_zero() {
    let k = kernel();
    let r = k.handle_console_invocation(IpcMethod::Send, 0, vec![b'h' as usize, b'i' as usize, 0, b'x' as usize]);
    assert_eq!(r.text, b"hi".to_vec());
    assert_eq!(r.reply.ret, RetCode::Value(0));
    // the low byte of each register
    let r = k.handle_console_invocation(IpcMethod::Call, 0, vec![0x141]);
    assert_eq!(r.text, vec![0x41]);
    let r = k.handle_console_invocation(IpcMethod::Recv, 0, vec![b'h' as usize]);
    assert!(r.text.is_empty());
}

#[test]
fn tcb_and_vspace_succeed() {
    let k = kernel();
    assert_eq!(k.handle_tcb_invocation(1, 0, vec![]).ret, RetCode::Value(0));
    assert_eq!(k.handle_vspace_invocation(9, 0, vec![1, 2]).ret, RetCode::Value(0));
}

#[test]
fn exception_causes_map_to_faults() {
    let (k, m) = exception_message(13, 0x1000, 0xdead);
    assert_eq!(k, FaultKind::PageFault);
    assert_eq!(m, vec![0xdead, 0x1000, 13]);
    let (k, m) = exception_message(2, 0x10, 0x20);
    assert_eq!(k, FaultKind::IllegalInstruction);
    assert_eq!(m, vec![0x20, 0x10]);
    let (k, m) = exception_message(3, 0x10, 0x20);
    assert_eq!(k, FaultKind::Breakpoint);
    assert_eq!(m, vec![0x10]);
    assert_eq!(exception_message(7, 1, 2).0, FaultKind::AccessFault);
    assert_eq!(exception_message(6, 1, 2).0, FaultKind::AccessMisaligned);
    let (k, m) = exception_message(99, 1, 2);
    assert_eq!(k, FaultKind::UnknownFault);
    assert_eq!(m, vec![99, 2, 1]);
}

#[test]
fn exception_calls_fault_endpoint() {
    let mut k = kernel();
    let tags = FaultTags {
        page_fault: 1,
        illegal_instruction: 2,
        breakpoint: 3,
        access_fault: 4,
        access_misaligned: 5,
        unknown_fault: 6,
    };
    let step = k.handle_exception(ENDPOINT_CPTR, 12, 0x40, 0x80, &tags, 77);
    assert_eq!(step.wait, IpcWait::Reply(ReplyChannel { id: 77 }));
    let recv = k.handle_endpoint_invocation(ENDPOINT_CPTR, IpcMethod::Recv, 0, vec![], 5);
    assert_eq!(recv.ret, 1);
    assert_eq!(recv.mrs, vec![0x80, 0x40, 12]);
    assert_eq!(recv.adopt_reply, Some(ReplyChannel { id: 77 }));
    // a fault endpoint that is not an endpoint
    let step = k.handle_exception(CONSOLE_CPTR, 3, 0, 0, &tags, 1);
    assert_eq!(step.ret, usize::MAX);
}

#[test]
fn unserved_invocations_get_all_ones() {
    let mut k = kernel();
    let r = unserved_reply(k.route_invocation(99, Proto::Other)).unwrap();
    assert_eq!(r.ret, RetCode::Value(usize::MAX));
    assert!(r.mrs.is_empty());
    let c = cap(&mut k.cspace, CapType::Frame);
    k.cspace.insert(31, c);
    let r = unserved_reply(k.route_invocation(31, Proto::Other)).unwrap();
    assert_eq!(r.ret, RetCode::Value(usize::MAX));
    assert!(unserved_reply(Route::Console).is_none());
    assert!(unserved_reply(Route::Irq(3)).is_none());
    assert!(unserved_reply(k.route_invocation(ENDPOINT_CPTR, Proto::Other)).is_none());
}

#[test]
fn registered_cap_survives_other_registrations() {
    let mut k = kernel();
    k.handle_resource_emulation(ResourceCall::RegisterCap, 0, vec![0, 2], 40);
    k.handle_resource_emulation(ResourceCall::RegisterCap, 0, vec![0, 3], 50);
    k.handle_resource_emulation(ResourceCall::Sbrk, 0, vec![4096], 0);
    k.handle_resource_emulation(ResourceCall::RegisterCap, 0, vec![0, 4], 60);
    let r = k.handle_resource_emulation(ResourceCall::GetCap, 0, vec![0, 2], 0);
    assert_eq!(r.reply.ret, RetCode::Value(0));
    assert_eq!(r.recv_window, Some(40));
    k.handle_resource_emulation(ResourceCall::RegisterCap, 0, vec![0, 2], 70);
    let r = k.handle_resource_emulation(ResourceCall::GetCap, 0, vec![0, 2], 0);
    assert_eq!(r.recv_window, Some(70));
    let r = k.handle_resource_emulation(ResourceCall::GetCap, 0, vec![0, 9], 0);
    assert_eq!(r.reply.ret, RetCode::Error(KernelError::NotFound));
    assert_eq!(r.recv_window, None);
}
