//! Resources that can be assigned to a virtual machine.

pub mod vpci;
