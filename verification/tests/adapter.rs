use hcs_rs::compute::defs::HCS_E_SERVICE_DISCONNECT;
use hcs_rs::compute::errorcodes::{ResultCode, E_FAIL, E_INVALIDARG, E_OUTOFMEMORY, S_OK};
use hcs_rs::hypervdevicevirtualization::defs::{
    HdvDeviceType, HdvPciBarSelector, HdvPciInterfaceVersion, HdvPciPnpId,
};
use hcs_rs::hypervdevicevirtualization::utilities::device_base_interface::initialize;
use hcs_rs::hypervdevicevirtualization::utilities::{
    DeviceInstanceReply, DeviceInstanceRequest, HdvPciDevice, HdvPciDeviceBase,
};
use hcs_rs::windefs::{Guid, HResult, Handle};

/// A device that only counts how often it was initialized.
#[derive(Debug, PartialEq)]
struct Probe {
    tag: u32,
    initialized: u32,
}

impl HdvPciDevice for Probe {
    fn initialize(&mut self) -> HResult {
        self.initialized += 1;
        S_OK
    }

    fn teardown(&mut self) {}

    fn set_configuration(&mut self, _values: &[String]) -> HResult {
        S_OK
    }

    fn get_details(&self, _pnp_id: &mut HdvPciPnpId, _probed_bars: &mut [u32]) -> HResult {
        S_OK
    }

    fn start(&mut self) -> HResult {
        S_OK
    }

    fn stop(&mut self) {}

    fn read_config_space(&self, _offset: u32, _value: &mut u32) -> HResult {
        S_OK
    }

    fn write_config_space(&mut self, _offset: u32, _value: u32) -> HResult {
        S_OK
    }

    fn read_intercepted_memory(
        &self,
        _bar_index: HdvPciBarSelector,
        _offset: u64,
        _value: &mut [u8],
    ) -> HResult {
        S_OK
    }

    fn write_intercepted_memory(
        &mut self,
        _bar_index: HdvPciBarSelector,
        _offset: u64,
        _value: &[u8],
    ) -> HResult {
        S_OK
    }
}

fn probe(tag: u32) -> Probe {
    Probe { tag, initialized: 0 }
}

fn registered(address: usize) -> HdvPciDeviceBase<Probe> {
    let reply = DeviceInstanceReply { result: S_OK, device_handle: Handle { address } };
    match HdvPciDeviceBase::new(probe(7), reply) {
        Ok(base) => base,
        Err(code) => panic!("registration failed: {:?}", code),
    }
}

#[test]
fn registration_request_names_a_pci_device() {
    let class_id = Guid { data1: 1, data2: 2, data3: 3, data4: [4, 5, 6, 7, 8, 9, 10, 11] };
    let instance_id = Guid { data1: 21, data2: 22, data3: 23, data4: [0; 8] };
    let request = DeviceInstanceRequest::pci(Handle { address: 0x5000 }, &class_id, &instance_id);
    assert_eq!(request.device_host_handle, Handle { address: 0x5000 });
    assert_eq!(request.device_type, HdvDeviceType::Pci);
    assert_eq!(request.device_type.code(), 1);
    assert_eq!(request.device_class_id, class_id);
    assert_eq!(request.device_instance_id, instance_id);
    assert_eq!(request.interface_version, HdvPciInterfaceVersion::Version1);
    assert_eq!(request.interface_version.code(), 1);
}

#[test]
fn successful_registration_keeps_handle_and_device() {
    let reply = DeviceInstanceReply { result: S_OK, device_handle: Handle { address: 0x1000 } };
    let base = HdvPciDeviceBase::new(probe(42), reply).expect("the host registered the device");
    assert_eq!(base.device_handle().handle(), Handle { address: 0x1000 });
    assert!(!base.device_handle().handle().is_null());
    assert_eq!(base.device, Probe { tag: 42, initialized: 0 });
}

#[test]
fn failed_registration_gives_no_adapter() {
    let reply = DeviceInstanceReply { result: E_OUTOFMEMORY, device_handle: Handle::null() };
    let created = HdvPciDeviceBase::new(probe(1), reply);
    assert_eq!(created.err(), Some(ResultCode::OutOfMemory));
}

#[test]
fn failed_registration_ignores_a_handle_the_host_wrote() {
    let reply = DeviceInstanceReply { result: E_FAIL, device_handle: Handle { address: 0x1000 } };
    let created = HdvPciDeviceBase::new(probe(1), reply);
    assert_eq!(created.err(), Some(ResultCode::Fail));
}

#[test]
fn failed_registration_keeps_an_unnamed_code() {
    let reply = DeviceInstanceReply { result: -5, device_handle: Handle::null() };
    let created = HdvPciDeviceBase::new(probe(1), reply);
    assert_eq!(created.err(), Some(ResultCode::WindowsHResult(-5)));
    let reply = DeviceInstanceReply { result: 1, device_handle: Handle { address: 8 } };
    let created = HdvPciDeviceBase::new(probe(1), reply);
    assert_eq!(created.err(), Some(ResultCode::WindowsHResult(1)));
}

#[test]
fn success_without_a_handle_is_unexpected() {
    let reply = DeviceInstanceReply { result: S_OK, device_handle: Handle::null() };
    let created = HdvPciDeviceBase::new(probe(1), reply);
    assert_eq!(created.err(), Some(ResultCode::Unexpected));
}

#[test]
fn destroy_hands_back_handle_and_device() {
    let mut base = registered(0x2000);
    for _ in 0..3 {
        assert_eq!(initialize(&mut base), S_OK);
    }
    let (handle, device) = base.destroy();
    assert_eq!(handle.handle(), Handle { address: 0x2000 });
    assert_eq!(device, Probe { tag: 7, initialized: 3 });
}

#[test]
fn buffer_write_hands_over_the_whole_buffer() {
    let base = registered(0x3000);
    let buffer = [0xDEu8, 0xAD, 0xBE, 0xEF, 0x01];
    let write = base.write_guest_memory_buffer(0x1_0000_0000, &buffer).expect("five bytes fit");
    assert_eq!(write.requestor().handle(), Handle { address: 0x3000 });
    assert_eq!(write.requestor(), base.device_handle());
    assert_eq!(write.guest_physical_address(), 0x1_0000_0000);
    assert_eq!(write.byte_count(), 5);
    assert_eq!(write.buffer(), [0xDEu8, 0xAD, 0xBE, 0xEF, 0x01]);
}

#[test]
fn empty_buffer_write_has_no_bytes() {
    let base = registered(0x3000);
    let write = base.write_guest_memory_buffer(0, &[]).expect("no bytes fit");
    assert_eq!(write.byte_count(), 0);
    assert!(write.buffer().is_empty());
    assert_eq!(write.guest_physical_address(), 0);
}

#[test]
fn buffer_beyond_the_native_count_is_refused() {
    let base = registered(0x3000);
    let too_long = vec![0u8; u32::MAX as usize + 1];
    assert_eq!(
        base.write_guest_memory_buffer(0, &too_long).err(),
        Some(ResultCode::InvalidArgument)
    );
}

#[test]
fn value_write_is_the_buffer_write_of_its_bytes() {
    let base = registered(0x3000);
    let value: u32 = 0x1122_3344;
    let by_value = base.write_guest_memory(0x8000, &value).expect("four bytes fit");
    let by_buffer =
        base.write_guest_memory_buffer(0x8000, &[0x44, 0x33, 0x22, 0x11]).expect("four bytes fit");
    assert_eq!(by_value, by_buffer);
    assert_eq!(by_value.byte_count(), 4);
    assert_eq!(by_value.buffer(), [0x44u8, 0x33, 0x22, 0x11]);
}

#[test]
fn value_write_of_every_width() {
    let base = registered(0x3000);
    let one = base.write_guest_memory(16, &0xABu8).expect("one byte fits");
    assert_eq!((one.byte_count(), one.buffer()), (1, &[0xABu8][..]));
    let two = base.write_guest_memory(16, &0x0102u16).expect("two bytes fit");
    assert_eq!((two.byte_count(), two.buffer()), (2, &[0x02u8, 0x01][..]));
    let eight = base.write_guest_memory(16, &0x0102_0304_0506_0708u64).expect("eight bytes fit");
    assert_eq!(
        (eight.byte_count(), eight.buffer()),
        (8, &[0x08u8, 0x07, 0x06, 0x05, 0x04, 0x03, 0x02, 0x01][..])
    );
    assert_eq!(eight.requestor().handle(), Handle { address: 0x3000 });
    assert_eq!(eight.guest_physical_address(), 16);
}

#[test]
fn completed_write_reports_what_the_host_answered() {
    let base = registered(0x3000);
    let write = base.write_guest_memory_buffer(64, &[1, 2, 3]).expect("three bytes fit");
    assert_eq!(write.complete(S_OK), Ok(()));
    assert_eq!(write.complete(E_INVALIDARG), Err(ResultCode::InvalidArgument));
    assert_eq!(write.complete(HCS_E_SERVICE_DISCONNECT), Err(ResultCode::ServiceDisconnect));
    assert_eq!(write.complete(-1), Err(ResultCode::WindowsHResult(-1)));
    assert_eq!(write.complete(1), Err(ResultCode::WindowsHResult(1)));
}
