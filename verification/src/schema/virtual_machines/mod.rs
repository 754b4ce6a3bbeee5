//! Documents that describe a virtual machine.

pub mod resources;
