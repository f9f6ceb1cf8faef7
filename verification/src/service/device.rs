//! The device service: the database of passed-through devices, and the calls that hand
//! out their MMIO regions and interrupt lines.
use vstd::prelude::*;
use std::collections::HashMap;
use vstd::std_specs::iter::IteratorSpec;
use crate::error::{Reply, RetCode};
use crate::kernel::capability::{CapType, Capability};
use crate::kernel::cspace::CSpace;
use crate::kernel::endpoint::IpcMethod;

verus! {

/// A device's memory-mapped region, as mapped into the runtime.
#[derive(Clone, Copy, Debug, PartialEq, Eq, Structural)]
pub struct MMIORegion {
    pub base_addr: usize,
    pub size: usize,
}

/// A device as the platform describes it.
pub struct DeviceDesc {
    pub name: String,
    pub compatible: Vec<String>,
    pub mmio: Vec<MMIORegion>,
    pub irq: Vec<usize>,
}

/// A device in the database, with the host descriptors of its VFIO group and device.
pub struct DeviceEntry {
    pub desc: DeviceDesc,
    pub allocated: bool,
    pub owner_pid: Option<usize>,
    pub vfio_group: Option<i32>,
    pub vfio_device: Option<i32>,
}

/// The devices, by id.
pub struct DeviceDatabase {
    pub entries: HashMap<usize, DeviceEntry>,
}

/// The device service.
pub struct DeviceManager {
    pub db: DeviceDatabase,
    pub next_id: usize,
    pub vfio_container: Option<i32>,
}

/// The calls of the device protocol that the runtime serves.
#[derive(Clone, Copy, Debug, PartialEq, Eq, Structural)]
pub enum DeviceCall {
    ScanPlatform,
    GetMmio,
    GetIrq,
    Other,
}

/// A reply to a device call; for a platform scan, the ids of the devices to report.
pub struct DeviceReply {
    pub reply: Reply,
    pub scan: Option<Vec<usize>>,
}

/// The descriptors of the VFIO devices on interrupt line `irq`.
pub open spec fn devices_on_irq_spec(entries: Map<usize, DeviceEntry>, irq: usize) -> Set<i32> {
    Set::new(
        |fd: i32|
            exists|id: usize|
                #![trigger entries[id]]
                entries.contains_key(id) && entries[id].desc.irq@.contains(irq) && entries[id].vfio_device
                    == Some(fd),
    )
}

/// The keys of a map, each once.
fn device_ids(m: &HashMap<usize, DeviceEntry>) -> (v: Vec<usize>)
    ensures
        v@.to_set() == m@.dom(),
        v@.no_duplicates(),
{
    broadcast use vstd::std_specs::hash::group_hash_axioms;

    let mut v: Vec<usize> = Vec::new();
    for k in it: m.keys()
        invariant
            v@.len() == it.index(),
            forall|i: int| 0 <= i < v@.len() ==> v@[i] == *it.seq()[i],
            it.seq() == vstd::std_specs::hash::spec_keys_iter(m).remaining(),
            it.index() <= it.seq().len(),
    {
        v.push(*k);
    }
    assert(v@ =~= vstd::std_specs::hash::spec_keys_iter(m).remaining().unref());
    v
}

fn contains_usize(v: &Vec<usize>, x: usize) -> (b: bool)
    ensures
        b == v@.contains(x),
{
    let mut i: usize = 0;
    while i < v.len()
        invariant
            0 <= i <= v.len(),
            forall|j: int| 0 <= j < i ==> v@[j] != x,
        decreases v.len() - i,
    {
        if v[i] == x {
            assert(v@[i as int] == x);
            return true;
        }
        i = i + 1;
    }
    false
}

impl DeviceDatabase {
    /// An empty database.
    pub fn new() -> (db: Self)
        ensures
            db.entries@ == Map::<usize, DeviceEntry>::empty(),
    {
        DeviceDatabase { entries: HashMap::new() }
    }

    /// Adds device `id`, not allocated and without owner, with its VFIO descriptors.
    pub fn insert_with_vfio(&mut self, id: usize, desc: DeviceDesc, group: Option<i32>, device: Option<i32>)
        ensures
            final(self).entries@ == old(self).entries@.insert(
                id,
                DeviceEntry { desc, allocated: false, owner_pid: None, vfio_group: group, vfio_device: device },
            ),
    {
        broadcast use vstd::std_specs::hash::group_hash_axioms;

        self.entries.insert(
            id,
            DeviceEntry { desc, allocated: false, owner_pid: None, vfio_group: group, vfio_device: device },
        );
    }

    /// The VFIO device descriptor of device `id`, if it has one.
    pub fn get_device(&self, id: usize) -> (r: Option<i32>)
        ensures
            r == (if self.entries@.contains_key(id) {
                self.entries@[id].vfio_device
            } else {
                None
            }),
    {
        broadcast use vstd::std_specs::hash::group_hash_axioms;

        match self.entries.get(&id) {
            Some(e) => e.vfio_device,
            None => None,
        }
    }

    /// The VFIO devices to unmask when line `irq` is acknowledged: those of every device
    /// whose interrupt lines include `irq`.
    pub fn devices_on_irq(&self, irq: usize) -> (fds: Vec<i32>)
        ensures
            fds@.to_set() == devices_on_irq_spec(self.entries@, irq),
    {
        broadcast use vstd::std_specs::hash::group_hash_axioms;

        let ids = device_ids(&self.entries);
        let mut fds: Vec<i32> = Vec::new();
        let mut i: usize = 0;
        while i < ids.len()
            invariant
                0 <= i <= ids.len(),
                ids@.to_set() == self.entries@.dom(),
                forall|fd: i32| #[trigger] fds@.contains(fd) <==> exists|j: int|
                    0 <= j < i && #[trigger] self.entries@.contains_key(ids@[j])
                        && self.entries@[ids@[j]].desc.irq@.contains(irq) && self.entries@[ids@[j]].vfio_device
                        == Some(fd),
            decreases ids.len() - i,
        {
            let id = ids[i];
            assert(ids@.to_set().contains(id));
            let e = self.entries.get(&id).unwrap();
            let ghost old_fds = fds@;
            if contains_usize(&e.desc.irq, irq) {
                match e.vfio_device {
                    Some(fd) => {
                        fds.push(fd);
                    },
                    None => {},
                }
            }
            assert forall|fd: i32| #[trigger] fds@.contains(fd) <==> exists|j: int|
                0 <= j < i + 1 && #[trigger] self.entries@.contains_key(ids@[j])
                    && self.entries@[ids@[j]].desc.irq@.contains(irq) && self.entries@[ids@[j]].vfio_device
                    == Some(fd) by {
                if fds@.contains(fd) && !old_fds.contains(fd) {
                    let k = choose|k: int| 0 <= k < fds@.len() && fds@[k] == fd;
                    assert(k == old_fds.len());
                    assert(self.entries@.contains_key(ids@[i as int]));
                }
                if old_fds.contains(fd) {
                    let k = choose|k: int| 0 <= k < old_fds.len() && old_fds[k] == fd;
                    assert(fds@[k] == fd);
                }
                if exists|j: int|
                    0 <= j < i + 1 && #[trigger] self.entries@.contains_key(ids@[j])
                        && self.entries@[ids@[j]].desc.irq@.contains(irq) && self.entries@[ids@[j]].vfio_device
                        == Some(fd) {
                    let j = choose|j: int|
                        0 <= j < i + 1 && #[trigger] self.entries@.contains_key(ids@[j])
                            && self.entries@[ids@[j]].desc.irq@.contains(irq)
                            && self.entries@[ids@[j]].vfio_device == Some(fd);
                    if j == i {
                        assert(fds@[fds@.len() - 1] == fd);
                    }
                }
            }
            i = i + 1;
        }
        assert forall|fd: i32| #[trigger] devices_on_irq_spec(self.entries@, irq).contains(fd) implies fds@.contains(
            fd,
        ) by {
            let id = choose|id: usize|
                #![trigger self.entries@[id]]
                self.entries@.contains_key(id) && self.entries@[id].desc.irq@.contains(irq)
                    && self.entries@[id].vfio_device == Some(fd);
            assert(ids@.to_set().contains(id));
            let j = choose|j: int| 0 <= j < ids@.len() && ids@[j] == id;
            assert(self.entries@.contains_key(ids@[j]));
        }
        assert(fds@.to_set() =~= devices_on_irq_spec(self.entries@, irq));
        fds
    }
}

impl DeviceManager {
    /// A device service with no devices yet, over the given VFIO container.
    pub fn new(vfio_container: Option<i32>) -> (m: Self)
        ensures
            m.db.entries@ == Map::<usize, DeviceEntry>::empty(),
            m.next_id == 1,
            m.vfio_container == vfio_container,
    {
        DeviceManager { db: DeviceDatabase::new(), next_id: 1, vfio_container }
    }

    /// Adds a device that was set up, under the next id. Its only interrupt line, if the
    /// host could route one, is numbered by the device's id. Returns the id.
    pub fn add_device(
        &mut self,
        name: String,
        compatible: Vec<String>,
        mmio: Vec<MMIORegion>,
        has_irq: bool,
        group: Option<i32>,
        device: Option<i32>,
    ) -> (id: usize)
        requires
            old(self).next_id < usize::MAX,
        ensures
            id == old(self).next_id,
            final(self).next_id == old(self).next_id + 1,
            final(self).vfio_container == old(self).vfio_container,
            final(self).db.entries@.dom() == old(self).db.entries@.dom().insert(id),
            forall|k: usize| k != id && #[trigger] old(self).db.entries@.contains_key(k)
                ==> final(self).db.entries@[k] == old(self).db.entries@[k],
            ({
                let e = final(self).db.entries@[id];
                &&& e.desc.name == name
                &&& e.desc.compatible == compatible
                &&& e.desc.mmio == mmio
                &&& e.desc.irq@ == (if has_irq {
                    seq![id]
                } else {
                    Seq::empty()
                })
                &&& !e.allocated
                &&& e.owner_pid is None
                &&& e.vfio_group == group
                &&& e.vfio_device == device
            }),
    {
        let id = self.next_id;
        let mut irq: Vec<usize> = Vec::new();
        if has_irq {
            irq.push(id);
        }
        self.db.insert_with_vfio(id, DeviceDesc { name, compatible, mmio, irq }, group, device);
        self.next_id = id + 1;
        id
    }

    /// A device call. Only `Call` and `Send` are served; anything else gets 0. A platform
    /// scan reports every device, each once; `GetMmio` answers the first region of
    /// device `mrs[0]` as `[base, size]`, or `usize::MAX`; `GetIrq` puts an IRQ handler
    /// for the first line of device `mrs[0]` in the receive window `recv` (when it is
    /// not 0 and the device has a line) and answers `[0]`; other calls get 0.
    pub fn handle_device_call(
        &mut self,
        method: IpcMethod,
        call: DeviceCall,
        mrs: Vec<usize>,
        recv: usize,
        cspace: &mut CSpace,
    ) -> (r: DeviceReply)
        requires
            (method == IpcMethod::Call || method == IpcMethod::Send) && (call == DeviceCall::GetMmio || call
                == DeviceCall::GetIrq) ==> mrs@.len() >= 1,
            old(cspace).wf(),
            (method == IpcMethod::Call || method == IpcMethod::Send) && call == DeviceCall::GetIrq
                ==> old(cspace).cells.next_cell < usize::MAX,
        ensures
            final(cspace).wf(),
            !((method == IpcMethod::Call || method == IpcMethod::Send) && call == DeviceCall::GetIrq)
                ==> final(cspace).cells == old(cspace).cells,
            final(self).db.entries@ == old(self).db.entries@,
            final(self).next_id == old(self).next_id,
            final(cspace).tree() == old(cspace).tree(),
            if method == IpcMethod::Call || method == IpcMethod::Send {
                match call {
                    DeviceCall::ScanPlatform => {
                        &&& r.reply.ret == RetCode::Value(0)
                        &&& r.reply.mrs@ == Seq::<usize>::empty()
                        &&& r.scan matches Some(ids) && ids@.to_set() == old(self).db.entries@.dom()
                            && ids@.no_duplicates()
                        &&& final(cspace).caps() == old(cspace).caps()
                    },
                    DeviceCall::GetMmio => {
                        let entries = old(self).db.entries@;
                        let id = mrs@[0];
                        &&& r.scan is None
                        &&& final(cspace).caps() == old(cspace).caps()
                        &&& if entries.contains_key(id) && entries[id].desc.mmio@.len() > 0 {
                            &&& r.reply.ret == RetCode::Value(0)
                            &&& r.reply.mrs@ == seq![
                                entries[id].desc.mmio@[0].base_addr,
                                entries[id].desc.mmio@[0].size,
                            ]
                        } else {
                            &&& r.reply.ret == RetCode::Value(usize::MAX)
                            &&& r.reply.mrs@ == Seq::<usize>::empty()
                        }
                    },
                    DeviceCall::GetIrq => {
                        let entries = old(self).db.entries@;
                        let id = mrs@[0];
                        &&& r.scan is None
                        &&& r.reply.ret == RetCode::Value(0)
                        &&& r.reply.mrs@ == seq![0usize]
                        &&& if recv != 0 && entries.contains_key(id) && entries[id].desc.irq@.len() > 0 {
                            final(cspace).caps() == old(cspace).caps().insert(
                                recv,
                                Capability {
                                    cap_type: CapType::IrqHandler,
                                    badge: Some(entries[id].desc.irq@[0]),
                                    data: old(cspace).cells.next_cell,
                                },
                            ) && final(cspace).cells.next_cell == old(cspace).cells.next_cell + 1
                                && final(cspace).cells.cells@ == old(cspace).cells.cells@
                        } else {
                            final(cspace).caps() == old(cspace).caps() && final(cspace).cells == old(cspace).cells
                        }
                    },
                    DeviceCall::Other => {
                        &&& r.reply.ret == RetCode::Value(0)
                        &&& r.reply.mrs@ == Seq::<usize>::empty()
                        &&& r.scan is None
                        &&& final(cspace).caps() == old(cspace).caps()
                    },
                }
            } else {
                &&& r.reply.ret == RetCode::Value(0)
                &&& r.reply.mrs@ == Seq::<usize>::empty()
                &&& r.scan is None
                &&& final(cspace).caps() == old(cspace).caps()
            },
    {
        broadcast use vstd::std_specs::hash::group_hash_axioms;

        if !(method == IpcMethod::Call || method == IpcMethod::Send) {
            return DeviceReply { reply: Reply::value(0), scan: None };
        }
        match call {
            DeviceCall::ScanPlatform => {
                let ids = device_ids(&self.db.entries);
                DeviceReply { reply: Reply::value(0), scan: Some(ids) }
            },
            DeviceCall::GetMmio => {
                let id = mrs[0];
                match self.db.entries.get(&id) {
                    Some(e) => {
                        if e.desc.mmio.len() > 0 {
                            let mut out: Vec<usize> = Vec::new();
                            out.push(e.desc.mmio[0].base_addr);
                            out.push(e.desc.mmio[0].size);
                            return DeviceReply { reply: Reply { ret: RetCode::Value(0), mrs: out }, scan: None };
                        }
                    },
                    None => {},
                }
                DeviceReply { reply: Reply::value(usize::MAX), scan: None }
            },
            DeviceCall::GetIrq => {
                let id = mrs[0];
                if recv != 0 {
                    match self.db.entries.get(&id) {
                        Some(e) => {
                            if e.desc.irq.len() > 0 {
                                let irq_num = e.desc.irq[0];
                                let cap = Capability::new(CapType::IrqHandler, &mut cspace.cells);
                                cspace.insert(recv, cap.with_badge(irq_num));
                            }
                        },
                        None => {},
                    }
                }
                let mut out: Vec<usize> = Vec::new();
                out.push(0);
                DeviceReply { reply: Reply { ret: RetCode::Value(0), mrs: out }, scan: None }
            },
            DeviceCall::Other => DeviceReply { reply: Reply::value(0), scan: None },
        }
    }
}

} // verus!
