//! Virtual PCI devices backed by a flexible I/O emulator.

use crate::schema::utils::GuidSerde;
use vstd::prelude::*;

verus! {

/// Where the emulator of a flexible I/O device runs.
#[derive(Debug, Clone, PartialEq, Eq, Structural)]
pub enum FlexibleIoDeviceHostingModel {
    Internal,
    External,
}

impl Default for FlexibleIoDeviceHostingModel {
    /// An emulator is hosted internally unless the document says otherwise.
    fn default() -> (r: Self)
        ensures
            r == FlexibleIoDeviceHostingModel::Internal,
    {
        FlexibleIoDeviceHostingModel::Internal
    }
}

/// A flexible I/O device: the emulator that backs it, where the emulator runs
/// and the configuration strings handed to it.
#[derive(Debug, Clone, PartialEq)]
pub struct FlexibleIoDevice {
    pub emulator_id: GuidSerde,
    pub hosting_model: FlexibleIoDeviceHostingModel,
    pub configuration: Vec<String>,
}

impl FlexibleIoDevice {
    /// The device has the null emulator, is hosted internally and has no
    /// configuration.
    pub open spec fn is_default_spec(&self) -> bool {
        &&& self.emulator_id.is_default_spec()
        &&& self.hosting_model == FlexibleIoDeviceHostingModel::Internal
        &&& self.configuration@ == Seq::<String>::empty()
    }
}

impl Default for FlexibleIoDevice {
    /// A device with the null emulator, hosted internally, with no
    /// configuration.
    fn default() -> (r: Self)
        ensures
            r.is_default_spec(),
    {
        FlexibleIoDevice {
            emulator_id: GuidSerde::default(),
            hosting_model: FlexibleIoDeviceHostingModel::default(),
            configuration: Vec::new(),
        }
    }
}

} // verus!
