//! The device-virtualization host: the definitions of its interface and the
//! adapter that lets a device implementation be driven by it.

pub mod defs;
pub mod guest_values;
pub mod utilities;
