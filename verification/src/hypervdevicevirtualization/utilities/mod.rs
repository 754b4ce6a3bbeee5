//! The PCI device adapter: a device implementation bound to the handle the
//! native host issued for it.
//!
//! The native host is reached through plain values.  A call into it is
//! described by a request ([`DeviceInstanceRequest`], [`GuestMemoryWrite`]);
//! the caller performs it and hands back what the host answered, and the
//! adapter decides what that answer amounts to.

pub mod device_base_interface;

use crate::compute::errorcodes::{failure_of, hresult_to_result, outcome_of, ResultCode, S_OK};
use crate::hypervdevicevirtualization::defs::{
    HdvDeviceHandle, HdvDeviceType, HdvHostHandle, HdvPciBarSelector, HdvPciInterfaceVersion,
    HdvPciPnpId,
};
use crate::hypervdevicevirtualization::guest_values::GuestValue;
use crate::windefs::{Byte, Guid, HResult, Handle};
use crate::HcsResult;
use vstd::prelude::*;

verus! {

/// The operations a virtual PCI device must support.
///
/// Every operation comes with a relation, named after it, between what the
/// operation is given and what it leaves behind.  An implementation states
/// there what its operation does; the adapter promises of each callback that
/// it did what the relation of the device allows, and nothing else.  A
/// relation that is left as it is promises nothing.
///
/// Beyond its relation an operation promises one thing only: a buffer it
/// writes to keeps its length.
pub trait HdvPciDevice {
    /// What `initialize` may do to the device and return.
    open spec fn initialize_post(&self, after: &Self, result: HResult) -> bool {
        true
    }

    /// Called once, before the device is used.
    fn initialize(&mut self) -> (result: HResult)
        ensures
            old(self).initialize_post(final(self), result),
    ;

    /// What `teardown` may do to the device.
    open spec fn teardown_post(&self, after: &Self) -> bool {
        true
    }

    /// Called once, when the device is no longer used.  It cannot report a
    /// failure.
    fn teardown(&mut self)
        ensures
            old(self).teardown_post(final(self)),
    ;

    /// What `set_configuration` may do to the device and return, given the
    /// configuration strings in their order.
    open spec fn set_configuration_post(
        &self,
        values: Seq<String>,
        after: &Self,
        result: HResult,
    ) -> bool {
        true
    }

    /// Hands the device its configuration strings, in the order the host
    /// holds them.
    fn set_configuration(&mut self, values: &[String]) -> (result: HResult)
        ensures
            old(self).set_configuration_post(values@, final(self), result),
    ;

    /// What `get_details` may write and return: the identity and the
    /// region sizes before and after the call.
    open spec fn get_details_post(
        &self,
        pnp_id_before: HdvPciPnpId,
        pnp_id_after: HdvPciPnpId,
        probed_bars_before: Seq<u32>,
        probed_bars_after: Seq<u32>,
        result: HResult,
    ) -> bool {
        true
    }

    /// Reports the plug-and-play identity of the device and the sizes of its
    /// base address regions.  The host decides how many regions it asks for:
    /// the device fills the sizes it is given room for, no more and no fewer.
    fn get_details(&self, pnp_id: &mut HdvPciPnpId, probed_bars: &mut [u32]) -> (result: HResult)
        ensures
            final(probed_bars)@.len() == old(probed_bars)@.len(),
            self.get_details_post(
                *old(pnp_id),
                *final(pnp_id),
                old(probed_bars)@,
                final(probed_bars)@,
                result,
            ),
    ;

    /// What `start` may do to the device and return.
    open spec fn start_post(&self, after: &Self, result: HResult) -> bool {
        true
    }

    /// Takes the device to the running state.
    fn start(&mut self) -> (result: HResult)
        ensures
            old(self).start_post(final(self), result),
    ;

    /// What `stop` may do to the device.
    open spec fn stop_post(&self, after: &Self) -> bool {
        true
    }

    /// Takes the device to the stopped state.  It cannot report a failure.
    fn stop(&mut self)
        ensures
            old(self).stop_post(final(self)),
    ;

    /// What `read_config_space` may write and return, given the offset and
    /// the value before and after the call.
    open spec fn read_config_space_post(
        &self,
        offset: u32,
        value_before: u32,
        value_after: u32,
        result: HResult,
    ) -> bool {
        true
    }

    /// Reads 32 bits of the PCI configuration space at a byte offset.
    fn read_config_space(&self, offset: u32, value: &mut u32) -> (result: HResult)
        ensures
            self.read_config_space_post(offset, *old(value), *final(value), result),
    ;

    /// What `write_config_space` may do to the device and return.
    open spec fn write_config_space_post(
        &self,
        offset: u32,
        value: u32,
        after: &Self,
        result: HResult,
    ) -> bool {
        true
    }

    /// Writes 32 bits of the PCI configuration space at a byte offset.
    fn write_config_space(&mut self, offset: u32, value: u32) -> (result: HResult)
        ensures
            old(self).write_config_space_post(offset, value, final(self), result),
    ;

    /// What `read_intercepted_memory` may write and return, given the region,
    /// the offset and the buffer before and after the call.
    open spec fn read_intercepted_memory_post(
        &self,
        bar_index: HdvPciBarSelector,
        offset: u64,
        value_before: Seq<Byte>,
        value_after: Seq<Byte>,
        result: HResult,
    ) -> bool {
        true
    }

    /// Serves a read the guest made in an intercepted memory-mapped region:
    /// fills the buffer with what is at the offset.  The buffer keeps the
    /// length the host gave it.
    fn read_intercepted_memory(
        &self,
        bar_index: HdvPciBarSelector,
        offset: u64,
        value: &mut [Byte],
    ) -> (result: HResult)
        ensures
            final(value)@.len() == old(value)@.len(),
            self.read_intercepted_memory_post(
                bar_index,
                offset,
                old(value)@,
                final(value)@,
                result,
            ),
    ;

    /// What `write_intercepted_memory` may do to the device and return.
    open spec fn write_intercepted_memory_post(
        &self,
        bar_index: HdvPciBarSelector,
        offset: u64,
        value: Seq<Byte>,
        after: &Self,
        result: HResult,
    ) -> bool {
        true
    }

    /// Serves a write the guest made in an intercepted memory-mapped region:
    /// takes the buffer as what is now at the offset.
    fn write_intercepted_memory(
        &mut self,
        bar_index: HdvPciBarSelector,
        offset: u64,
        value: &[Byte],
    ) -> (result: HResult)
        ensures
            old(self).write_intercepted_memory_post(bar_index, offset, value@, final(self), result),
    ;
}

/// What is handed to the native host to register a device.  Besides these
/// values the host is given the table of callbacks, of the version named
/// here, and the address at which the adapter will live.
#[derive(Debug, Clone, Copy)]
pub struct DeviceInstanceRequest {
    pub device_host_handle: HdvHostHandle,
    pub device_type: HdvDeviceType,
    pub device_class_id: Guid,
    pub device_instance_id: Guid,
    pub interface_version: HdvPciInterfaceVersion,
}

impl DeviceInstanceRequest {
    /// The request that registers a PCI device of the given class and
    /// instance with the given host, through version 1 of the callback
    /// table.
    pub fn pci(
        device_host_handle: HdvHostHandle,
        device_class_id: &Guid,
        device_instance_id: &Guid,
    ) -> (request: DeviceInstanceRequest)
        ensures
            request.device_host_handle == device_host_handle,
            request.device_type == HdvDeviceType::Pci,
            request.device_class_id == *device_class_id,
            request.device_instance_id == *device_instance_id,
            request.interface_version == HdvPciInterfaceVersion::Version1,
    {
        DeviceInstanceRequest {
            device_host_handle,
            device_type: HdvDeviceType::Pci,
            device_class_id: *device_class_id,
            device_instance_id: *device_instance_id,
            interface_version: HdvPciInterfaceVersion::Version1,
        }
    }
}

/// What the native host answered to a [`DeviceInstanceRequest`]: its result
/// code and the handle it wrote.
#[derive(Debug, Clone, Copy, PartialEq, Eq, Structural)]
pub struct DeviceInstanceReply {
    pub result: HResult,
    pub device_handle: Handle,
}

impl DeviceInstanceReply {
    /// The host registered the device: it reported success and issued a
    /// handle.
    pub open spec fn registered(&self) -> bool {
        self.result == S_OK && !self.device_handle.is_null_spec()
    }

    /// Why the device is not registered: the failure the host reported, or
    /// `Unexpected` where it reported success without issuing a handle.
    pub open spec fn failure(&self) -> ResultCode {
        if self.result != S_OK {
            failure_of(self.result)
        } else {
            ResultCode::Unexpected
        }
    }
}

/// A device implementation together with the handle under which the native
/// host knows it.
///
/// An adapter exists only for a device the host has registered, so its handle
/// is never null.  The callbacks of the host change the device and never the
/// handle.
pub struct HdvPciDeviceBase<D: HdvPciDevice> {
    pub device: D,
    device_handle: HdvDeviceHandle,
}

/// What an adapter holds: the device and the native handle of its
/// registration.
pub struct HdvPciDeviceBaseView<D> {
    pub device: D,
    pub device_handle: Handle,
}

impl<D: HdvPciDevice> View for HdvPciDeviceBase<D> {
    type V = HdvPciDeviceBaseView<D>;

    closed spec fn view(&self) -> HdvPciDeviceBaseView<D> {
        HdvPciDeviceBaseView { device: self.device, device_handle: self.device_handle@ }
    }
}

/// A write to guest physical memory, as it is handed to the native host: the
/// bytes of `buffer`, all of them, go to `guest_physical_address` on behalf of
/// the device `requestor`.
///
/// A request is made by an adapter and cannot be changed afterwards, so the
/// byte count the host is given is always the length of the buffer.
#[derive(Debug, PartialEq, Eq)]
pub struct GuestMemoryWrite {
    requestor: HdvDeviceHandle,
    guest_physical_address: u64,
    byte_count: u32,
    buffer: Vec<Byte>,
}

/// What a write request asks for.
pub struct GuestMemoryWriteView {
    pub requestor: Handle,
    pub guest_physical_address: u64,
    pub bytes: Seq<Byte>,
}

impl View for GuestMemoryWrite {
    type V = GuestMemoryWriteView;

    closed spec fn view(&self) -> GuestMemoryWriteView {
        GuestMemoryWriteView {
            requestor: self.requestor@,
            guest_physical_address: self.guest_physical_address,
            bytes: self.buffer@,
        }
    }
}

impl GuestMemoryWrite {
    #[verifier::type_invariant]
    spec fn counts_its_buffer(self) -> bool {
        self.byte_count == self.buffer@.len()
    }

    /// The request writes exactly `bytes`, all of them, to
    /// `guest_physical_address` on behalf of `requestor`.
    pub open spec fn writes(
        &self,
        requestor: Handle,
        guest_physical_address: u64,
        bytes: Seq<Byte>,
    ) -> bool {
        &&& self@.requestor == requestor
        &&& self@.guest_physical_address == guest_physical_address
        &&& self@.bytes == bytes
    }

    /// The device on whose behalf the write is made.
    pub fn requestor(&self) -> (requestor: HdvDeviceHandle)
        ensures
            requestor@ == self@.requestor,
    {
        self.requestor
    }

    /// The guest physical address the first byte goes to.
    pub fn guest_physical_address(&self) -> (address: u64)
        ensures
            address == self@.guest_physical_address,
    {
        self.guest_physical_address
    }

    /// The number of bytes to write: the length of the buffer.
    pub fn byte_count(&self) -> (count: u32)
        ensures
            count == self@.bytes.len(),
    {
        proof {
            use_type_invariant(self);
        }
        self.byte_count
    }

    /// The bytes to write, in the order of their addresses.
    pub fn buffer(&self) -> (bytes: &[Byte])
        ensures
            bytes@ == self@.bytes,
    {
        self.buffer.as_slice()
    }

    /// What the write amounts to once the native host has answered it with
    /// `result`: success for zero, else the failure the host reported.  A
    /// failed write reports nothing of what may have been written.
    pub fn complete(&self, result: HResult) -> (outcome: HcsResult<()>)
        ensures
            outcome == outcome_of(result),
            outcome is Ok <==> result == S_OK,
            outcome matches Err(code) ==> code.wf() && code.hresult_spec() == result,
    {
        hresult_to_result(result)
    }
}

/// Writing a value is writing its raw bytes.  A request that writes
/// `value` and one that writes the raw bytes of `value` as a buffer, to the
/// same address for the same device, ask the native host for the same thing.
pub proof fn lemma_value_write_is_buffer_write<T: GuestValue>(
    by_value: GuestMemoryWrite,
    by_buffer: GuestMemoryWrite,
    requestor: Handle,
    guest_physical_address: u64,
    value: T,
    buffer: Seq<Byte>,
)
    requires
        by_value.writes(requestor, guest_physical_address, value.raw_bytes()),
        by_buffer.writes(requestor, guest_physical_address, buffer),
        buffer == value.raw_bytes(),
    ensures
        by_value@ == by_buffer@,
        by_value@.bytes.len() == T::size(),
{
    value.lemma_fixed_size();
}

impl<D: HdvPciDevice> HdvPciDeviceBase<D> {
    /// Binds `device` to the handle the native host issued for it.
    ///
    /// `reply` is the answer of the host to the registration request.  Where
    /// the host registered the device, the adapter holds the device as it was
    /// supplied and the handle of the reply, which is not null.  Else there
    /// is no adapter and no handle is kept: the device is dropped and the
    /// failure returned.
    pub fn new(device: D, reply: DeviceInstanceReply) -> (created: HcsResult<HdvPciDeviceBase<D>>)
        ensures
            created is Ok <==> reply.registered(),
            created matches Ok(base) ==> {
                &&& base@.device == device
                &&& base@.device_handle == reply.device_handle
                &&& !base@.device_handle.is_null_spec()
            },
            created matches Err(code) ==> code == reply.failure(),
    {
        match hresult_to_result(reply.result) {
            Ok(()) => match HdvDeviceHandle::new(reply.device_handle) {
                Some(device_handle) => Ok(HdvPciDeviceBase { device, device_handle }),
                None => Err(ResultCode::Unexpected),
            },
            Err(code) => Err(code),
        }
    }

    /// The handle under which the native host knows the device.  In every
    /// adapter it is a handle the host issued: it is not null, whatever
    /// callbacks the adapter has been through.
    pub fn device_handle(&self) -> (handle: HdvDeviceHandle)
        ensures
            handle@ == self@.device_handle,
            !self@.device_handle.is_null_spec(),
    {
        let issued = self.device_handle;
        // Reading the native handle recalls that it is not null.
        let _ = issued.handle();
        issued
    }

    /// Writes the contents of the supplied buffer to guest primary memory
    /// (RAM): the request to hand to the native host.  It writes the whole
    /// buffer, byte for byte, at the given address.
    ///
    /// The native host counts the bytes of a write in 32 bits.  A longer
    /// buffer cannot be written whole, so it is refused as an invalid
    /// argument and no request is made.
    pub fn write_guest_memory_buffer(&self, guest_physical_address: u64, buffer: &[Byte]) -> (request:
        HcsResult<GuestMemoryWrite>)
        ensures
            request is Ok <==> buffer@.len() <= u32::MAX,
            request matches Ok(write) ==> write.writes(
                self@.device_handle,
                guest_physical_address,
                buffer@,
            ),
            request matches Err(code) ==> code == ResultCode::InvalidArgument,
    {
        if buffer.len() > u32::MAX as usize {
            Err(ResultCode::InvalidArgument)
        } else {
            Ok(
                GuestMemoryWrite {
                    requestor: self.device_handle,
                    guest_physical_address,
                    byte_count: buffer.len() as u32,
                    buffer: vstd::slice::slice_to_vec(buffer),
                },
            )
        }
    }

    /// Writes the supplied value to guest primary memory (RAM): the request
    /// to hand to the native host.  It is the very request that
    /// `write_guest_memory_buffer` makes for the raw bytes of the value, and
    /// is refused on the same condition: that the type takes more bytes than
    /// the native host can count.
    pub fn write_guest_memory<T: GuestValue>(&self, guest_physical_address: u64, data: &T) -> (request:
        HcsResult<GuestMemoryWrite>)
        ensures
            request is Ok <==> T::size() <= u32::MAX,
            request matches Ok(write) ==> write@.bytes.len() == T::size() && write.writes(
                self@.device_handle,
                guest_physical_address,
                data.raw_bytes(),
            ),
            request matches Err(code) ==> code == ResultCode::InvalidArgument,
    {
        proof {
            data.lemma_fixed_size();
        }
        let bytes = data.to_raw_bytes();
        self.write_guest_memory_buffer(guest_physical_address, bytes.as_slice())
    }

    /// Ends the adapter once the native host no longer calls it, and gives
    /// back the handle to release and the device as the last callback left
    /// it.
    pub fn destroy(self) -> (parts: (HdvDeviceHandle, D))
        ensures
            parts.0@ == self@.device_handle,
            parts.1 == self@.device,
    {
        (self.device_handle, self.device)
    }
}

} // verus!
