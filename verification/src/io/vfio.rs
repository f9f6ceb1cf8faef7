//! The VFIO argument blocks that the runtime fills in for the host's ioctls, and the
//! checks it makes of what the host answers.
use vstd::prelude::*;

verus! {

/// Interrupt setting carries no data.
pub const VFIO_IRQ_SET_DATA_NONE: u32 = 1;
/// Interrupt setting carries booleans.
pub const VFIO_IRQ_SET_DATA_BOOL: u32 = 2;
/// Interrupt setting carries event file descriptors.
pub const VFIO_IRQ_SET_DATA_EVENTFD: u32 = 4;
/// Mask the interrupt.
pub const VFIO_IRQ_SET_ACTION_MASK: u32 = 8;
/// Unmask the interrupt.
pub const VFIO_IRQ_SET_ACTION_UNMASK: u32 = 16;
/// Signal the interrupt through the data.
pub const VFIO_IRQ_SET_ACTION_TRIGGER: u32 = 32;
/// The VFIO API version that the runtime speaks.
pub const VFIO_API_VERSION: i32 = 0;
/// The group can be used.
pub const VFIO_GROUP_FLAGS_VIABLE: u32 = 1;
/// The size of the C layout of an interrupt setting.
pub const VFIO_IRQ_SET_SIZE: u32 = 24;
/// The size of the C layout of a group status.
pub const VFIO_GROUP_STATUS_SIZE: u32 = 8;
/// The size of the C layout of a region description.
pub const VFIO_REGION_INFO_SIZE: u32 = 32;

/// An interrupt setting of a device.
#[derive(Clone, Copy, Debug, PartialEq, Eq, Structural)]
pub struct VfioIrqSet {
    pub argsz: u32,
    pub flags: u32,
    pub index: u32,
    pub start: u32,
    pub count: u32,
    pub data: i32,
}

/// The status of a VFIO group.
#[derive(Clone, Copy, Debug, PartialEq, Eq, Structural)]
pub struct VfioGroupStatus {
    pub argsz: u32,
    pub flags: u32,
}

/// The description of a device region.
#[derive(Clone, Copy, Debug, PartialEq, Eq, Structural)]
pub struct VfioDeviceRegionInfo {
    pub argsz: u32,
    pub flags: u32,
    pub index: u32,
    pub cap_offset: u32,
    pub size: u64,
    pub offset: u64,
}

/// What the host says of a VFIO container.
#[derive(Clone, Copy, Debug, PartialEq, Eq, Structural)]
pub enum ContainerCheck {
    Usable,
    UnknownApiVersion,
    NoType1Iommu,
}

/// A container is usable when it speaks the runtime's API version and supports the
/// type-1 IOMMU.
pub fn check_container(api_version: i32, type1_extension: i32) -> (c: ContainerCheck)
    ensures
        c == (if api_version != VFIO_API_VERSION {
            ContainerCheck::UnknownApiVersion
        } else if type1_extension != 1 {
            ContainerCheck::NoType1Iommu
        } else {
            ContainerCheck::Usable
        }),
{
    if api_version != VFIO_API_VERSION {
        ContainerCheck::UnknownApiVersion
    } else if type1_extension != 1 {
        ContainerCheck::NoType1Iommu
    } else {
        ContainerCheck::Usable
    }
}

impl VfioIrqSet {
    /// Routes interrupt `index` of a device to the event file `eventfd`.
    pub fn trigger_eventfd(index: u32, eventfd: i32) -> (s: Self)
        ensures
            s == (VfioIrqSet {
                argsz: VFIO_IRQ_SET_SIZE,
                flags: VFIO_IRQ_SET_DATA_EVENTFD | VFIO_IRQ_SET_ACTION_TRIGGER,
                index,
                start: 0,
                count: 1,
                data: eventfd,
            }),
    {
        VfioIrqSet {
            argsz: VFIO_IRQ_SET_SIZE,
            flags: VFIO_IRQ_SET_DATA_EVENTFD | VFIO_IRQ_SET_ACTION_TRIGGER,
            index,
            start: 0,
            count: 1,
            data: eventfd,
        }
    }

    /// Unmasks interrupt `index` of a device.
    pub fn unmask(index: u32) -> (s: Self)
        ensures
            s == (VfioIrqSet {
                argsz: VFIO_IRQ_SET_SIZE,
                flags: VFIO_IRQ_SET_DATA_NONE | VFIO_IRQ_SET_ACTION_UNMASK,
                index,
                start: 0,
                count: 1,
                data: 0,
            }),
    {
        VfioIrqSet {
            argsz: VFIO_IRQ_SET_SIZE,
            flags: VFIO_IRQ_SET_DATA_NONE | VFIO_IRQ_SET_ACTION_UNMASK,
            index,
            start: 0,
            count: 1,
            data: 0,
        }
    }
}

impl VfioGroupStatus {
    /// A status block for the host to fill in.
    pub fn query() -> (s: Self)
        ensures
            s == (VfioGroupStatus { argsz: VFIO_GROUP_STATUS_SIZE, flags: 0 }),
    {
        VfioGroupStatus { argsz: VFIO_GROUP_STATUS_SIZE, flags: 0 }
    }

    /// The group can be used.
    pub fn is_viable(&self) -> (b: bool)
        ensures
            b == (self.flags & VFIO_GROUP_FLAGS_VIABLE != 0),
    {
        self.flags & VFIO_GROUP_FLAGS_VIABLE != 0
    }
}

impl VfioDeviceRegionInfo {
    /// A description block of region `index` for the host to fill in.
    pub fn query(index: u32) -> (r: Self)
        ensures
            r == (VfioDeviceRegionInfo {
                argsz: VFIO_REGION_INFO_SIZE,
                flags: 0,
                index,
                cap_offset: 0,
                size: 0,
                offset: 0,
            }),
    {
        VfioDeviceRegionInfo { argsz: VFIO_REGION_INFO_SIZE, flags: 0, index, cap_offset: 0, size: 0, offset: 0 }
    }
}

} // verus!
