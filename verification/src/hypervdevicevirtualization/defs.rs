//! Definitions of the device-virtualization interface.

use crate::windefs::Handle;
use vstd::prelude::*;

verus! {

/// Handle to a device-emulation host, bound to one compute system.
pub type HdvHostHandle = Handle;

/// Handle to one device registered with a device-emulation host: the token
/// under which the device reaches guest memory and delivers interrupts.
///
/// Only a handle that the host issued is held, so a device handle is never
/// the null handle.
#[derive(Debug, Clone, Copy, PartialEq, Eq, Hash)]
pub struct HdvDeviceHandle {
    handle: Handle,
}

impl View for HdvDeviceHandle {
    type V = Handle;

    closed spec fn view(&self) -> Handle {
        self.handle
    }
}

impl HdvDeviceHandle {
    #[verifier::type_invariant]
    spec fn issued(self) -> bool {
        !self.handle.is_null_spec()
    }

    /// The device handle for what the host wrote at a registration: there is
    /// one unless the host wrote the null handle.
    pub fn new(handle: Handle) -> (device_handle: Option<HdvDeviceHandle>)
        ensures
            device_handle is Some <==> !handle.is_null_spec(),
            device_handle matches Some(issued) ==> issued@ == handle,
    {
        if handle.is_null() {
            None
        } else {
            Some(HdvDeviceHandle { handle })
        }
    }

    /// The native handle, which is not null.
    pub fn handle(&self) -> (handle: Handle)
        ensures
            handle == self@,
            !handle.is_null_spec(),
    {
        proof {
            use_type_invariant(self);
        }
        self.handle
    }
}

/// Number of base address regions a PCI device has.
pub const HDV_PCI_BAR_COUNT: u32 = 6;

/// Kind of an emulated device.
#[derive(Debug, Clone, Copy, PartialEq, Eq, Hash, Structural)]
pub enum HdvDeviceType {
    Undefined,
    Pci,
}

impl HdvDeviceType {
    /// The value the native interface uses for this kind.
    pub open spec fn code_spec(self) -> u32 {
        match self {
            HdvDeviceType::Undefined => 0,
            HdvDeviceType::Pci => 1,
        }
    }

    /// The value the native interface uses for this kind.
    pub fn code(&self) -> (code: u32)
        ensures
            code == self.code_spec(),
    {
        match self {
            HdvDeviceType::Undefined => 0,
            HdvDeviceType::Pci => 1,
        }
    }
}

/// Version of the table of callbacks a PCI device registers.
#[derive(Debug, Clone, Copy, PartialEq, Eq, Hash, Structural)]
pub enum HdvPciInterfaceVersion {
    Invalid,
    Version1,
}

impl HdvPciInterfaceVersion {
    /// The version tag the native interface reads from the table.
    pub open spec fn code_spec(self) -> u32 {
        match self {
            HdvPciInterfaceVersion::Invalid => 0,
            HdvPciInterfaceVersion::Version1 => 1,
        }
    }

    /// The version tag the native interface reads from the table.
    pub fn code(&self) -> (code: u32)
        ensures
            code == self.code_spec(),
    {
        match self {
            HdvPciInterfaceVersion::Invalid => 0,
            HdvPciInterfaceVersion::Version1 => 1,
        }
    }
}

/// Selects one of the base address regions of a PCI device.
#[derive(Debug, Clone, Copy, PartialEq, Eq, Hash, Structural)]
pub enum HdvPciBarSelector {
    Bar0,
    Bar1,
    Bar2,
    Bar3,
    Bar4,
    Bar5,
}

impl HdvPciBarSelector {
    /// The index of the selected region, counted from zero.
    pub open spec fn index_spec(self) -> u32 {
        match self {
            HdvPciBarSelector::Bar0 => 0,
            HdvPciBarSelector::Bar1 => 1,
            HdvPciBarSelector::Bar2 => 2,
            HdvPciBarSelector::Bar3 => 3,
            HdvPciBarSelector::Bar4 => 4,
            HdvPciBarSelector::Bar5 => 5,
        }
    }

    /// The index of the selected region, always below [`HDV_PCI_BAR_COUNT`].
    pub fn index(&self) -> (index: u32)
        ensures
            index == self.index_spec(),
            index < HDV_PCI_BAR_COUNT,
            Self::from_index_spec(index) == Some(*self),
    {
        match self {
            HdvPciBarSelector::Bar0 => 0,
            HdvPciBarSelector::Bar1 => 1,
            HdvPciBarSelector::Bar2 => 2,
            HdvPciBarSelector::Bar3 => 3,
            HdvPciBarSelector::Bar4 => 4,
            HdvPciBarSelector::Bar5 => 5,
        }
    }

    /// The selector of the region with the given index, if there is one.
    pub open spec fn from_index_spec(index: u32) -> Option<HdvPciBarSelector> {
        if index == 0 {
            Some(HdvPciBarSelector::Bar0)
        } else if index == 1 {
            Some(HdvPciBarSelector::Bar1)
        } else if index == 2 {
            Some(HdvPciBarSelector::Bar2)
        } else if index == 3 {
            Some(HdvPciBarSelector::Bar3)
        } else if index == 4 {
            Some(HdvPciBarSelector::Bar4)
        } else if index == 5 {
            Some(HdvPciBarSelector::Bar5)
        } else {
            None
        }
    }

    /// The selector of the region with the given index: there is one exactly
    /// for the indices below [`HDV_PCI_BAR_COUNT`], and its index is the one
    /// given.
    pub fn from_index(index: u32) -> (selector: Option<HdvPciBarSelector>)
        ensures
            selector == Self::from_index_spec(index),
            selector is Some <==> index < HDV_PCI_BAR_COUNT,
            selector matches Some(bar) ==> bar.index_spec() == index,
    {
        match index {
            0 => Some(HdvPciBarSelector::Bar0),
            1 => Some(HdvPciBarSelector::Bar1),
            2 => Some(HdvPciBarSelector::Bar2),
            3 => Some(HdvPciBarSelector::Bar3),
            4 => Some(HdvPciBarSelector::Bar4),
            5 => Some(HdvPciBarSelector::Bar5),
            _ => None,
        }
    }
}

/// Plug-and-play identity of a PCI device, as its configuration space
/// reports it.
#[derive(Debug, Clone, Copy, PartialEq, Eq, Hash, Structural)]
pub struct HdvPciPnpId {
    pub vendor_id: u16,
    pub device_id: u16,
    pub revision_id: u8,
    pub prog_if: u8,
    pub sub_class: u8,
    pub base_class: u8,
    pub sub_vendor_id: u16,
    pub sub_system_id: u16,
}

impl Default for HdvPciPnpId {
    /// The identity with every field zero.
    fn default() -> (r: Self)
        ensures
            r == (HdvPciPnpId {
                vendor_id: 0,
                device_id: 0,
                revision_id: 0,
                prog_if: 0,
                sub_class: 0,
                base_class: 0,
                sub_vendor_id: 0,
                sub_system_id: 0,
            }),
    {
        HdvPciPnpId {
            vendor_id: 0,
            device_id: 0,
            revision_id: 0,
            prog_if: 0,
            sub_class: 0,
            base_class: 0,
            sub_vendor_id: 0,
            sub_system_id: 0,
        }
    }
}

} // verus!
