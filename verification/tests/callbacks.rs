use hcs_rs::compute::errorcodes::{E_FAIL, E_INVALIDARG, S_OK};
use hcs_rs::hypervdevicevirtualization::defs::{HdvPciBarSelector, HdvPciPnpId};
use hcs_rs::hypervdevicevirtualization::utilities::device_base_interface::{
    boundary_result, get_details, initialize, read_config_space, read_intercepted_memory,
    set_configuration, start, stop, teardown, write_config_space, write_intercepted_memory,
    BOUNDARY_FAILURE,
};
use hcs_rs::hypervdevicevirtualization::utilities::{
    DeviceInstanceReply, HdvPciDevice, HdvPciDeviceBase,
};
use hcs_rs::windefs::{HResult, Handle};

/// A device that records every call it receives and answers each operation
/// with a code of its own.
#[derive(Debug, Default)]
struct Recorder {
    calls: Vec<String>,
    config_space: Vec<(u32, u32)>,
    memory: Vec<(HdvPciBarSelector, u64, Vec<u8>)>,
}

impl HdvPciDevice for Recorder {
    fn initialize(&mut self) -> HResult {
        self.calls.push(format!("initialize"));
        101
    }

    fn teardown(&mut self) {
        self.calls.push(format!("teardown"));
    }

    fn set_configuration(&mut self, values: &[String]) -> HResult {
        self.calls.push(format!("set_configuration {:?}", values));
        102
    }

    fn get_details(&self, pnp_id: &mut HdvPciPnpId, probed_bars: &mut [u32]) -> HResult {
        pnp_id.vendor_id = 0x1414;
        pnp_id.device_id = 0x0001;
        pnp_id.base_class = 0x02;
        for (index, bar) in probed_bars.iter_mut().enumerate() {
            *bar = 0x1000 * (index as u32 + 1);
        }
        103
    }

    fn start(&mut self) -> HResult {
        self.calls.push(format!("start"));
        104
    }

    fn stop(&mut self) {
        self.calls.push(format!("stop"));
    }

    fn read_config_space(&self, offset: u32, value: &mut u32) -> HResult {
        *value = offset.wrapping_mul(3);
        105
    }

    fn write_config_space(&mut self, offset: u32, value: u32) -> HResult {
        self.config_space.push((offset, value));
        106
    }

    fn read_intercepted_memory(
        &self,
        bar_index: HdvPciBarSelector,
        offset: u64,
        value: &mut [u8],
    ) -> HResult {
        for (index, byte) in value.iter_mut().enumerate() {
            *byte = (bar_index.index() as u8) * 16 + (offset as u8) + (index as u8);
        }
        107
    }

    fn write_intercepted_memory(
        &mut self,
        bar_index: HdvPciBarSelector,
        offset: u64,
        value: &[u8],
    ) -> HResult {
        self.memory.push((bar_index, offset, value.to_vec()));
        108
    }
}

fn adapter() -> HdvPciDeviceBase<Recorder> {
    let reply = DeviceInstanceReply { result: S_OK, device_handle: Handle { address: 0xABC0 } };
    match HdvPciDeviceBase::new(Recorder::default(), reply) {
        Ok(base) => base,
        Err(code) => panic!("registration failed: {:?}", code),
    }
}

#[test]
fn lifecycle_callbacks_reach_the_device_in_order() {
    let mut base = adapter();
    assert_eq!(initialize(&mut base), 101);
    assert_eq!(start(&mut base), 104);
    stop(&mut base);
    teardown(&mut base);
    assert_eq!(base.device.calls, vec!["initialize", "start", "stop", "teardown"]);
}

#[test]
fn set_configuration_passes_the_values_in_order() {
    let mut base = adapter();
    let values = vec![String::from("mode=fast"), String::from("7"), String::new()];
    assert_eq!(set_configuration(&mut base, &values), 102);
    assert_eq!(base.device.calls, vec![format!("set_configuration {:?}", values)]);
    assert_eq!(set_configuration(&mut base, &[]), 102);
    assert_eq!(base.device.calls.len(), 2);
}

#[test]
fn get_details_fills_identity_and_regions() {
    let base = adapter();
    let mut pnp_id = HdvPciPnpId::default();
    let mut bars = [0u32; 6];
    assert_eq!(get_details(&base, &mut pnp_id, &mut bars), 103);
    assert_eq!(pnp_id.vendor_id, 0x1414);
    assert_eq!(pnp_id.device_id, 0x0001);
    assert_eq!(pnp_id.base_class, 0x02);
    assert_eq!(pnp_id.sub_system_id, 0);
    assert_eq!(bars, [0x1000, 0x2000, 0x3000, 0x4000, 0x5000, 0x6000]);
    let mut two = [0u32; 2];
    assert_eq!(get_details(&base, &mut pnp_id, &mut two), 103);
    assert_eq!(two, [0x1000, 0x2000]);
}

#[test]
fn config_space_callbacks_pass_offset_and_value() {
    let mut base = adapter();
    let mut value = 0u32;
    assert_eq!(read_config_space(&base, 0x10, &mut value), 105);
    assert_eq!(value, 0x30);
    assert_eq!(write_config_space(&mut base, 0x04, 0xFFFF_0007), 106);
    assert_eq!(write_config_space(&mut base, 0x3C, 1), 106);
    assert_eq!(base.device.config_space, vec![(0x04, 0xFFFF_0007), (0x3C, 1)]);
}

#[test]
fn intercepted_read_fills_the_buffer() {
    let base = adapter();
    let mut buffer = [0u8; 4];
    assert_eq!(read_intercepted_memory(&base, 2, 0x40, &mut buffer), 107);
    assert_eq!(buffer, [0x60, 0x61, 0x62, 0x63]);
    let mut none: [u8; 0] = [];
    assert_eq!(read_intercepted_memory(&base, 0, 0, &mut none), 107);
}

#[test]
fn intercepted_write_hands_over_the_buffer() {
    let mut base = adapter();
    assert_eq!(write_intercepted_memory(&mut base, 5, 0x1_0000_0000, &[9, 8, 7]), 108);
    assert_eq!(write_intercepted_memory(&mut base, 0, 0, &[]), 108);
    assert_eq!(
        base.device.memory,
        vec![
            (HdvPciBarSelector::Bar5, 0x1_0000_0000, vec![9u8, 8, 7]),
            (HdvPciBarSelector::Bar0, 0, vec![]),
        ]
    );
}

#[test]
fn unknown_region_is_refused_without_calling_the_device() {
    let mut base = adapter();
    let mut buffer = [0xEEu8; 3];
    assert_eq!(read_intercepted_memory(&base, 6, 0, &mut buffer), E_INVALIDARG);
    assert_eq!(buffer, [0xEE, 0xEE, 0xEE]);
    assert_eq!(write_intercepted_memory(&mut base, 6, 0, &[1]), E_INVALIDARG);
    assert_eq!(write_intercepted_memory(&mut base, u32::MAX, 0, &[1]), E_INVALIDARG);
    assert!(base.device.memory.is_empty());
}

#[test]
fn callbacks_leave_the_handle_alone() {
    let mut base = adapter();
    let before = base.device_handle();
    initialize(&mut base);
    set_configuration(&mut base, &[String::from("a")]);
    start(&mut base);
    write_config_space(&mut base, 0, 0);
    write_intercepted_memory(&mut base, 1, 2, &[3]);
    write_intercepted_memory(&mut base, 9, 2, &[3]);
    stop(&mut base);
    teardown(&mut base);
    assert_eq!(base.device_handle(), before);
    assert_eq!(base.device_handle().handle(), Handle { address: 0xABC0 });
}

#[test]
fn a_result_crosses_the_boundary_unchanged() {
    assert_eq!(boundary_result(Some(S_OK)), S_OK);
    assert_eq!(boundary_result(Some(107)), 107);
    assert_eq!(boundary_result(Some(E_INVALIDARG)), E_INVALIDARG);
    assert_eq!(boundary_result(Some(i32::MIN)), i32::MIN);
}

#[test]
fn a_fault_crosses_the_boundary_as_the_generic_failure() {
    assert_eq!(boundary_result(None), BOUNDARY_FAILURE);
    assert_eq!(BOUNDARY_FAILURE, E_FAIL);
    assert_eq!(BOUNDARY_FAILURE as u32, 0x8000_4005);
}
