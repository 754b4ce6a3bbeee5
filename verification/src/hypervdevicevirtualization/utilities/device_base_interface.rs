//! The callbacks of the native host, one for each operation of a device.
//!
//! The native host calls back with the adapter it was given at registration
//! and with the arguments of the operation in its own shape.  Each callback
//! hands the call to the device of that adapter and returns what the device
//! returned.  It touches nothing else: the handle of the adapter is the same
//! before and after every callback.
//!
//! [`HdvPciDeviceCall`] names a callback together with what it was given and
//! what it gave back, and [`callback_post`] says what one such callback may
//! do to an adapter.  Every callback below meets it, and
//! [`lemma_callbacks_keep_the_handle`] draws the consequence for any number
//! of callbacks in any order.

use crate::compute::errorcodes::{E_FAIL, E_INVALIDARG};
use crate::hypervdevicevirtualization::defs::{HdvPciBarSelector, HdvPciPnpId};
use crate::hypervdevicevirtualization::utilities::{
    HdvPciDevice, HdvPciDeviceBase, HdvPciDeviceBaseView,
};
use crate::windefs::{Byte, HResult};
use vstd::prelude::*;

verus! {

/// One callback of the native host: the operation, what it was given, and
/// what it wrote and returned.
pub enum HdvPciDeviceCall {
    Initialize { result: HResult },
    Teardown,
    SetConfiguration { configuration_values: Seq<String>, result: HResult },
    GetDetails {
        pnp_id_before: HdvPciPnpId,
        pnp_id_after: HdvPciPnpId,
        probed_bars_before: Seq<u32>,
        probed_bars_after: Seq<u32>,
        result: HResult,
    },
    Start { result: HResult },
    Stop,
    ReadConfigSpace { offset: u32, value_before: u32, value_after: u32, result: HResult },
    WriteConfigSpace { offset: u32, value: u32, result: HResult },
    ReadInterceptedMemory {
        bar_index: u32,
        offset: u64,
        value_before: Seq<Byte>,
        value_after: Seq<Byte>,
        result: HResult,
    },
    WriteInterceptedMemory { bar_index: u32, offset: u64, value: Seq<Byte>, result: HResult },
}

/// What one callback may do to an adapter.  The handle stays as it is.  The
/// device goes through the operation the callback names, once, with the
/// arguments the host gave, and the host is returned what the device
/// returned.  An operation that only reads leaves the device as it is, and so
/// does a memory access to a region that does not exist, which is refused
/// without calling the device.  A buffer the host gave to be filled keeps its
/// length.
pub open spec fn callback_post<D: HdvPciDevice>(
    before: HdvPciDeviceBaseView<D>,
    call: HdvPciDeviceCall,
    after: HdvPciDeviceBaseView<D>,
) -> bool {
    &&& after.device_handle == before.device_handle
    &&& match call {
        HdvPciDeviceCall::Initialize { result } => before.device.initialize_post(
            &after.device,
            result,
        ),
        HdvPciDeviceCall::Teardown => before.device.teardown_post(&after.device),
        HdvPciDeviceCall::SetConfiguration { configuration_values, result } => {
            before.device.set_configuration_post(configuration_values, &after.device, result)
        },
        HdvPciDeviceCall::GetDetails {
            pnp_id_before,
            pnp_id_after,
            probed_bars_before,
            probed_bars_after,
            result,
        } => {
            &&& after.device == before.device
            &&& probed_bars_after.len() == probed_bars_before.len()
            &&& before.device.get_details_post(
                pnp_id_before,
                pnp_id_after,
                probed_bars_before,
                probed_bars_after,
                result,
            )
        },
        HdvPciDeviceCall::Start { result } => before.device.start_post(&after.device, result),
        HdvPciDeviceCall::Stop => before.device.stop_post(&after.device),
        HdvPciDeviceCall::ReadConfigSpace { offset, value_before, value_after, result } => {
            &&& after.device == before.device
            &&& before.device.read_config_space_post(offset, value_before, value_after, result)
        },
        HdvPciDeviceCall::WriteConfigSpace { offset, value, result } => {
            before.device.write_config_space_post(offset, value, &after.device, result)
        },
        HdvPciDeviceCall::ReadInterceptedMemory {
            bar_index,
            offset,
            value_before,
            value_after,
            result,
        } => {
            &&& after.device == before.device
            &&& value_after.len() == value_before.len()
            &&& match HdvPciBarSelector::from_index_spec(bar_index) {
                Some(bar) => before.device.read_intercepted_memory_post(
                    bar,
                    offset,
                    value_before,
                    value_after,
                    result,
                ),
                None => result == E_INVALIDARG && value_after == value_before,
            }
        },
        HdvPciDeviceCall::WriteInterceptedMemory { bar_index, offset, value, result } => {
            match HdvPciBarSelector::from_index_spec(bar_index) {
                Some(bar) => before.device.write_intercepted_memory_post(
                    bar,
                    offset,
                    value,
                    &after.device,
                    result,
                ),
                None => result == E_INVALIDARG && after.device == before.device,
            }
        },
    }
}

/// `states` is what an adapter went through under `calls`: it starts as
/// `states[0]`, and callback `calls[k]` takes it from `states[k]` to
/// `states[k + 1]`.
pub open spec fn is_run<D: HdvPciDevice>(
    states: Seq<HdvPciDeviceBaseView<D>>,
    calls: Seq<HdvPciDeviceCall>,
) -> bool {
    &&& states.len() == calls.len() + 1
    &&& forall|k: int|
        0 <= k < calls.len() ==> callback_post(#[trigger] states[k], calls[k], states[k + 1])
}

/// Whatever callbacks arrive, however many and in whatever order, the adapter
/// keeps the handle it was registered with: only the device changes, and only
/// as its own operations change it.
pub proof fn lemma_callbacks_keep_the_handle<D: HdvPciDevice>(
    states: Seq<HdvPciDeviceBaseView<D>>,
    calls: Seq<HdvPciDeviceCall>,
    i: int,
)
    requires
        is_run(states, calls),
        0 <= i < states.len(),
    ensures
        states[i].device_handle == states[0].device_handle,
    decreases i,
{
    if i > 0 {
        lemma_callbacks_keep_the_handle(states, calls, i - 1);
    }
}

/// The code the native host is given for a callback that ended in a fault
/// instead of a result.
pub const BOUNDARY_FAILURE: HResult = E_FAIL;

/// What a fallible callback returns to the native host.  `outcome` is what
/// the call into the device came to: its result code, or nothing where the
/// call was cut short by a fault.  A result code goes to the host unchanged,
/// a success as well as a failure; a fault goes as the generic internal
/// error, so that no fault ever crosses into the host.
pub fn boundary_result(outcome: Option<HResult>) -> (result: HResult)
    ensures
        outcome matches Some(code) ==> result == code,
        outcome is None ==> result == BOUNDARY_FAILURE,
{
    match outcome {
        Some(code) => code,
        None => BOUNDARY_FAILURE,
    }
}

/// Forwards `initialize` to the device of the adapter.
pub fn initialize<D: HdvPciDevice>(device_base: &mut HdvPciDeviceBase<D>) -> (result: HResult)
    ensures
        old(device_base)@.device.initialize_post(&final(device_base)@.device, result),
        final(device_base)@.device_handle == old(device_base)@.device_handle,
        callback_post(
            old(device_base)@,
            HdvPciDeviceCall::Initialize { result },
            final(device_base)@,
        ),
{
    device_base.device.initialize()
}

/// Forwards `teardown` to the device of the adapter.
pub fn teardown<D: HdvPciDevice>(device_base: &mut HdvPciDeviceBase<D>)
    ensures
        old(device_base)@.device.teardown_post(&final(device_base)@.device),
        final(device_base)@.device_handle == old(device_base)@.device_handle,
        callback_post(old(device_base)@, HdvPciDeviceCall::Teardown, final(device_base)@),
{
    device_base.device.teardown();
}

/// Forwards `set_configuration` to the device of the adapter, with the
/// configuration strings in the order the host gave them.
pub fn set_configuration<D: HdvPciDevice>(
    device_base: &mut HdvPciDeviceBase<D>,
    configuration_values: &[String],
) -> (result: HResult)
    ensures
        old(device_base)@.device.set_configuration_post(
            configuration_values@,
            &final(device_base)@.device,
            result,
        ),
        final(device_base)@.device_handle == old(device_base)@.device_handle,
        callback_post(
            old(device_base)@,
            HdvPciDeviceCall::SetConfiguration {
                configuration_values: configuration_values@,
                result,
            },
            final(device_base)@,
        ),
{
    device_base.device.set_configuration(configuration_values)
}

/// Forwards `get_details` to the device of the adapter.  The adapter is
/// read, not changed, and the region sizes stay as many as the host asked
/// for.
pub fn get_details<D: HdvPciDevice>(
    device_base: &HdvPciDeviceBase<D>,
    pnp_id: &mut HdvPciPnpId,
    probed_bars: &mut [u32],
) -> (result: HResult)
    ensures
        final(probed_bars)@.len() == old(probed_bars)@.len(),
        device_base@.device.get_details_post(
            *old(pnp_id),
            *final(pnp_id),
            old(probed_bars)@,
            final(probed_bars)@,
            result,
        ),
        callback_post(
            device_base@,
            HdvPciDeviceCall::GetDetails {
                pnp_id_before: *old(pnp_id),
                pnp_id_after: *final(pnp_id),
                probed_bars_before: old(probed_bars)@,
                probed_bars_after: final(probed_bars)@,
                result,
            },
            device_base@,
        ),
{
    device_base.device.get_details(pnp_id, probed_bars)
}

/// Forwards `start` to the device of the adapter.
pub fn start<D: HdvPciDevice>(device_base: &mut HdvPciDeviceBase<D>) -> (result: HResult)
    ensures
        old(device_base)@.device.start_post(&final(device_base)@.device, result),
        final(device_base)@.device_handle == old(device_base)@.device_handle,
        callback_post(old(device_base)@, HdvPciDeviceCall::Start { result }, final(device_base)@),
{
    device_base.device.start()
}

/// Forwards `stop` to the device of the adapter.
pub fn stop<D: HdvPciDevice>(device_base: &mut HdvPciDeviceBase<D>)
    ensures
        old(device_base)@.device.stop_post(&final(device_base)@.device),
        final(device_base)@.device_handle == old(device_base)@.device_handle,
        callback_post(old(device_base)@, HdvPciDeviceCall::Stop, final(device_base)@),
{
    device_base.device.stop();
}

/// Forwards `read_config_space` to the device of the adapter.  The adapter
/// is read, not changed.
pub fn read_config_space<D: HdvPciDevice>(
    device_base: &HdvPciDeviceBase<D>,
    offset: u32,
    value: &mut u32,
) -> (result: HResult)
    ensures
        device_base@.device.read_config_space_post(offset, *old(value), *final(value), result),
        callback_post(
            device_base@,
            HdvPciDeviceCall::ReadConfigSpace {
                offset,
                value_before: *old(value),
                value_after: *final(value),
                result,
            },
            device_base@,
        ),
{
    device_base.device.read_config_space(offset, value)
}

/// Forwards `write_config_space` to the device of the adapter.
pub fn write_config_space<D: HdvPciDevice>(
    device_base: &mut HdvPciDeviceBase<D>,
    offset: u32,
    value: u32,
) -> (result: HResult)
    ensures
        old(device_base)@.device.write_config_space_post(
            offset,
            value,
            &final(device_base)@.device,
            result,
        ),
        final(device_base)@.device_handle == old(device_base)@.device_handle,
        callback_post(
            old(device_base)@,
            HdvPciDeviceCall::WriteConfigSpace { offset, value, result },
            final(device_base)@,
        ),
{
    device_base.device.write_config_space(offset, value)
}

/// Forwards `read_intercepted_memory` to the device of the adapter, for the
/// region the host names by its index.  The adapter is read, not changed.
/// An index that names no region is refused as an invalid argument: the
/// device is not called and the buffer is left as it is.  The buffer keeps
/// its length in either case.
pub fn read_intercepted_memory<D: HdvPciDevice>(
    device_base: &HdvPciDeviceBase<D>,
    bar_index: u32,
    offset: u64,
    value: &mut [Byte],
) -> (result: HResult)
    ensures
        final(value)@.len() == old(value)@.len(),
        match HdvPciBarSelector::from_index_spec(bar_index) {
            Some(bar) => device_base@.device.read_intercepted_memory_post(
                bar,
                offset,
                old(value)@,
                final(value)@,
                result,
            ),
            None => result == E_INVALIDARG && final(value)@ == old(value)@,
        },
        callback_post(
            device_base@,
            HdvPciDeviceCall::ReadInterceptedMemory {
                bar_index,
                offset,
                value_before: old(value)@,
                value_after: final(value)@,
                result,
            },
            device_base@,
        ),
{
    match HdvPciBarSelector::from_index(bar_index) {
        Some(bar) => device_base.device.read_intercepted_memory(bar, offset, value),
        None => E_INVALIDARG,
    }
}

/// Forwards `write_intercepted_memory` to the device of the adapter, for the
/// region the host names by its index.  An index that names no region is
/// refused as an invalid argument: the device is not called and stays as it
/// is.
pub fn write_intercepted_memory<D: HdvPciDevice>(
    device_base: &mut HdvPciDeviceBase<D>,
    bar_index: u32,
    offset: u64,
    value: &[Byte],
) -> (result: HResult)
    ensures
        match HdvPciBarSelector::from_index_spec(bar_index) {
            Some(bar) => old(device_base)@.device.write_intercepted_memory_post(
                bar,
                offset,
                value@,
                &final(device_base)@.device,
                result,
            ),
            None => result == E_INVALIDARG && final(device_base)@.device == old(
                device_base,
            )@.device,
        },
        final(device_base)@.device_handle == old(device_base)@.device_handle,
        callback_post(
            old(device_base)@,
            HdvPciDeviceCall::WriteInterceptedMemory { bar_index, offset, value: value@, result },
            final(device_base)@,
        ),
{
    match HdvPciBarSelector::from_index(bar_index) {
        Some(bar) => device_base.device.write_intercepted_memory(bar, offset, value),
        None => E_INVALIDARG,
    }
}

} // verus!
