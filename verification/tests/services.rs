use hutch::config::{Config, VfioConfig};
use hutch::error::{KernelError, RetCode};
use hutch::io::vfio::{check_container, ContainerCheck, VfioDeviceRegionInfo, VfioGroupStatus, VfioIrqSet};
use hutch::kernel::capability::CapType;
use hutch::kernel::cspace::CSpace;
use hutch::kernel::endpoint::IpcMethod;
use hutch::proto::{encode_frame, frame_body_len};
use hutch::service::device::{DeviceCall, DeviceManager, MMIORegion};
use hutch::service::dirent::{parse_dirents, records_well_formed};
use hutch::service::fs::{open_mode, seek_target, Sandbox, SeekPos, Whence};
use hutch::service::counter::HandleCounter;
use hutch::io::uring::{completion_code, cq_has_room, plan_sqe, ring_slot, SqeOp, SqePlan};
use hutch::service::resource::{ResourceManager, ResourceType};
use hutch::service::time::{clock_word, uptime_ns_from_ms, TimeManager};

#[test]
fn config_default_values() {
    let c = Config::default();
    assert_eq!(c.hutch.socket_path, "/tmp/glenda_hutch.sock");
    assert_eq!(c.sandbox.root_path, "/tmp/glenda_root");
    assert_eq!(c.resources.heap_start, 0x10000000);
    assert_eq!(c.resources.heap_size, 0x10000000);
    assert!(c.vfio.devices.is_empty());
    assert!(VfioConfig::default().devices.is_empty());
}

#[test]
fn sbrk_moves_break() {
    let mut r = ResourceManager::new(0x1000, 0x4000);
    let old = r.sbrk(0);
    assert_eq!(old, 0x1000);
    assert_eq!(r.sbrk(4096), old);
    assert_eq!(r.sbrk(0), old + 4096);
    assert_eq!(r.sbrk(-4096), old + 4096);
    assert_eq!(r.brk, old);
}

#[test]
fn status_saturates() {
    let mut r = ResourceManager::new(0x1000, 0x4000);
    r.sbrk(0x1000);
    let st = r.status();
    assert_eq!(st.memory.total_bytes, 0x4000);
    assert_eq!(st.memory.available_bytes, 0x3000);
    r.sbrk(0x10000);
    assert_eq!(r.status().memory.available_bytes, 0);
    r.sbrk(-0x12000);
    assert_eq!(r.status().memory.available_bytes, 0x4000);
}

#[test]
fn service_caps_register_and_lookup() {
    let mut r = ResourceManager::new(0, 0);
    assert_eq!(r.get_cap(ResourceType::Endpoint, 3), Err(KernelError::NotFound));
    assert_eq!(r.get_cap(ResourceType::Other, 3), Err(KernelError::NotSupported));
    assert_eq!(r.register_service_cap(ResourceType::Endpoint, 3, 44), Ok(()));
    assert_eq!(r.register_service_cap(ResourceType::Other, 4, 45), Err(KernelError::NotSupported));
    assert_eq!(r.get_cap(ResourceType::Endpoint, 3), Ok(44));
    assert_eq!(r.get_registered_cap(4), None);
    r.register_cap(3, 46);
    assert_eq!(r.get_registered_cap(3), Some(46));
}

#[test]
fn sandbox_maps_paths_under_root() {
    let s = Sandbox::new("/tmp/root");
    assert_eq!(s.map_path("/etc/passwd"), "/tmp/root/etc/passwd");
    assert_eq!(s.map_path("///a"), "/tmp/root/a");
    assert_eq!(s.map_path("rel/x"), "/tmp/root/rel/x");
    assert_eq!(s.map_path("/"), "/tmp/root/");
    let t = Sandbox::new("/tmp/root/");
    assert_eq!(t.map_path("/x"), "/tmp/root/x");
    let e = Sandbox::new("");
    assert_eq!(e.map_path("/x"), "x");
}

#[test]
fn sandbox_numbers_files_from_ten() {
    let mut s = Sandbox::new("/r");
    assert_eq!(s.alloc_fd(), 10);
    assert_eq!(s.alloc_fd(), 11);
}

#[test]
fn seek_targets() {
    assert_eq!(seek_target(5, Whence::Start), Ok(SeekPos::Start(5)));
    assert_eq!(seek_target(-1, Whence::Start), Ok(SeekPos::Start(u64::MAX)));
    assert_eq!(seek_target(-3, Whence::Cur), Ok(SeekPos::Current(-3)));
    assert_eq!(seek_target(-3, Whence::End), Ok(SeekPos::End(-3)));
    assert_eq!(seek_target(0, Whence::Other), Err(KernelError::InvalidArgs));
}

fn record(ino: u64, off: i64, typ: u8, name: &[u8], reclen: u16) -> Vec<u8> {
    let mut r = Vec::new();
    r.extend_from_slice(&ino.to_le_bytes());
    r.extend_from_slice(&off.to_le_bytes());
    r.extend_from_slice(&reclen.to_le_bytes());
    r.push(typ);
    r.extend_from_slice(name);
    r.push(0);
    while r.len() < reclen as usize {
        r.push(0);
    }
    r
}

#[test]
fn dirents_parse_records() {
    let mut buf = record(7, 1, 4, b".", 24);
    buf.extend(record(42, -2, 8, b"hello", 32));
    let n = buf.len();
    buf.extend(vec![0u8; 16]);
    assert!(records_well_formed(&buf, n));
    let ents = parse_dirents(&buf, n);
    assert_eq!(ents.len(), 2);
    assert_eq!(ents[0].d_ino, 7);
    assert_eq!(ents[0].d_off, 1);
    assert_eq!(ents[0].d_reclen, 24);
    assert_eq!(ents[0].d_type, 4);
    assert_eq!(ents[0].d_name.len(), 256);
    assert_eq!(&ents[0].d_name[..2], b".\0");
    assert_eq!(ents[1].d_ino, 42);
    assert_eq!(ents[1].d_off, -2);
    assert_eq!(&ents[1].d_name[..6], b"hello\0");
    assert!(ents[1].d_name[6..].iter().all(|b| *b == 0));
}

#[test]
fn dirents_long_name_is_cut() {
    let name = vec![b'a'; 300];
    let buf = record(1, 0, 8, &name, 330);
    assert!(records_well_formed(&buf, buf.len()));
    let ents = parse_dirents(&buf, buf.len());
    assert_eq!(ents.len(), 1);
    assert!(ents[0].d_name[..255].iter().all(|b| *b == b'a'));
    assert_eq!(ents[0].d_name[255], 0);
}

#[test]
fn dirents_malformed_are_refused() {
    let mut buf = record(1, 0, 8, b"x", 24);
    buf[16] = 0;
    buf[17] = 0;
    assert!(!records_well_formed(&buf, buf.len()));
    let short = vec![0u8; 10];
    assert!(!records_well_formed(&short, 10));
    assert!(records_well_formed(&short, 0));
    assert!(parse_dirents(&short, 0).is_empty());
}

#[test]
fn frames_roundtrip() {
    let body = vec![1u8, 2, 3];
    let f = encode_frame(&body);
    assert_eq!(f, vec![3, 0, 0, 0, 1, 2, 3]);
    let header = [f[0], f[1], f[2], f[3]];
    assert_eq!(frame_body_len(&header), 3);
    assert_eq!(frame_body_len(&[0x01, 0x02, 0x03, 0x04]), 0x04030201);
    let big = vec![0u8; 300];
    let f = encode_frame(&big);
    assert_eq!(&f[..4], &[44, 1, 0, 0]);
    assert_eq!(f.len(), 304);
}

#[test]
fn vfio_argument_blocks() {
    let t = VfioIrqSet::trigger_eventfd(0, 9);
    assert_eq!(t.argsz, 24);
    assert_eq!(t.flags, 4 | 32);
    assert_eq!((t.index, t.start, t.count, t.data), (0, 0, 1, 9));
    let u = VfioIrqSet::unmask(2);
    assert_eq!(u.flags, 1 | 16);
    assert_eq!((u.index, u.data), (2, 0));
    let s = VfioGroupStatus::query();
    assert_eq!((s.argsz, s.flags), (8, 0));
    assert!(!s.is_viable());
    assert!(VfioGroupStatus { argsz: 8, flags: 3 }.is_viable());
    let r = VfioDeviceRegionInfo::query(1);
    assert_eq!((r.argsz, r.index, r.size), (32, 1, 0));
    assert_eq!(check_container(0, 1), ContainerCheck::Usable);
    assert_eq!(check_container(1, 1), ContainerCheck::UnknownApiVersion);
    assert_eq!(check_container(0, 0), ContainerCheck::NoType1Iommu);
}

#[test]
fn device_calls() {
    let mut m = DeviceManager::new(None);
    let id = m.add_device(
        "uart".to_string(),
        vec!["ns16550".to_string()],
        vec![MMIORegion { base_addr: 0x9000, size: 0x100 }],
        true,
        Some(20),
        Some(21),
    );
    assert_eq!(id, 1);
    let id2 = m.add_device("blk".to_string(), vec![], vec![], false, None, None);
    assert_eq!(id2, 2);
    let mut cs = CSpace::new();
    let r = m.handle_device_call(IpcMethod::Call, DeviceCall::GetMmio, vec![1], 0, &mut cs);
    assert_eq!(r.reply.ret, RetCode::Value(0));
    assert_eq!(r.reply.mrs, vec![0x9000, 0x100]);
    let r = m.handle_device_call(IpcMethod::Call, DeviceCall::GetMmio, vec![2], 0, &mut cs);
    assert_eq!(r.reply.ret, RetCode::Value(usize::MAX));
    let r = m.handle_device_call(IpcMethod::Send, DeviceCall::GetIrq, vec![1], 50, &mut cs);
    assert_eq!(r.reply.mrs, vec![0]);
    let cap = cs.get(50).unwrap();
    assert_eq!(cap.cap_type, CapType::IrqHandler);
    assert_eq!(cap.badge, Some(1));
    let r = m.handle_device_call(IpcMethod::Call, DeviceCall::GetIrq, vec![2], 51, &mut cs);
    assert_eq!(r.reply.mrs, vec![0]);
    assert!(cs.get(51).is_none());
    let r = m.handle_device_call(IpcMethod::Call, DeviceCall::ScanPlatform, vec![], 0, &mut cs);
    let mut ids = r.scan.unwrap();
    ids.sort();
    assert_eq!(ids, vec![1, 2]);
    let r = m.handle_device_call(IpcMethod::Recv, DeviceCall::GetMmio, vec![], 0, &mut cs);
    assert_eq!(r.reply.ret, RetCode::Value(0));
    assert!(r.scan.is_none());
    assert_eq!(m.db.devices_on_irq(1), vec![21]);
    assert!(m.db.devices_on_irq(2).is_empty());
    assert_eq!(m.db.get_device(1), Some(21));
    assert_eq!(m.db.get_device(3), None);
}

#[test]
fn time_moves_forward() {
    let t = TimeManager::new();
    let a = t.get_uptime_ms();
    let b = t.get_uptime_ms();
    assert!(b >= a);
    assert!(t.get_time_ns().unwrap() > 1_600_000_000_000_000_000);
    assert_eq!(uptime_ns_from_ms(3), 3_000_000);
}

#[test]
fn clock_words() {
    assert_eq!(clock_word(0), 0);
    assert_eq!(clock_word(12), 12);
    assert_eq!(clock_word((1u128 << 64) + 5), 5);
}

#[test]
fn open_modes() {
    let m = open_mode(true, false, true, false, false);
    assert!(m.read && m.write && m.create && !m.truncate && !m.append);
    let m = open_mode(false, true, false, true, true);
    assert!(!m.read && m.write && m.truncate && m.append);
    let m = open_mode(false, false, false, false, false);
    assert!(m.read && !m.write);
}

#[test]
fn handle_counters() {
    let mut c = HandleCounter::new(100);
    assert_eq!(c.take(), 100);
    assert_eq!(c.take(), 101);
    assert_eq!(c.next, 102);
}

#[test]
fn uring_decisions() {
    assert_eq!(plan_sqe(false, SqeOp::Read), SqePlan::BadFile);
    assert_eq!(plan_sqe(true, SqeOp::Unknown), SqePlan::Invalid);
    assert_eq!(plan_sqe(true, SqeOp::Sync), SqePlan::Perform(SqeOp::Sync));
    assert_eq!(completion_code(Ok(12)), 12);
    assert_eq!(completion_code(Err(5)), -5);
    assert_eq!(completion_code(Ok((1usize << 32) + 3)), 3);
    assert_eq!(ring_slot(17, 7), 1);
    assert!(cq_has_room(3, 4, 2));
    assert!(!cq_has_room(3, 5, 2));
}

#[test]
fn service_registry_keeps_entries_apart() {
    let mut r = ResourceManager::new(0x1000, 0x1000);
    assert_eq!(r.register_service_cap(ResourceType::Endpoint, 1, 11), Ok(()));
    assert_eq!(r.register_service_cap(ResourceType::Endpoint, 2, 22), Ok(()));
    r.sbrk(16);
    assert_eq!(r.register_service_cap(ResourceType::Other, 1, 99), Err(KernelError::NotSupported));
    assert_eq!(r.get_cap(ResourceType::Endpoint, 1), Ok(11));
    assert_eq!(r.get_cap(ResourceType::Endpoint, 2), Ok(22));
    assert_eq!(r.get_cap(ResourceType::Other, 1), Err(KernelError::NotSupported));
    assert_eq!(r.get_cap(ResourceType::Endpoint, 3), Err(KernelError::NotFound));
}
