use hcs_rs::compute::defs::{HCS_E_PROCESS_INFO_NOT_AVAILABLE, HCS_E_SERVICE_DISCONNECT};
use hcs_rs::compute::errorcodes::{
    hresult_to_result, ResultCode, E_FAIL, E_INVALIDARG, E_OUTOFMEMORY, E_UNEXPECTED, S_OK,
};

#[test]
fn named_codes_are_the_native_bit_patterns() {
    assert_eq!(S_OK, 0);
    assert_eq!(E_FAIL as u32, 0x8000_4005);
    assert_eq!(E_UNEXPECTED as u32, 0x8000_FFFF);
    assert_eq!(E_OUTOFMEMORY as u32, 0x8007_000E);
    assert_eq!(E_INVALIDARG as u32, 0x8007_0057);
    assert_eq!(HCS_E_PROCESS_INFO_NOT_AVAILABLE as u32, 0x8037_011D);
    assert_eq!(HCS_E_SERVICE_DISCONNECT as u32, 0x8037_011E);
}

#[test]
fn zero_is_success() {
    assert_eq!(hresult_to_result(S_OK), Ok(()));
    assert_eq!(hresult_to_result(0), Ok(()));
}

#[test]
fn every_named_failure_has_its_variant() {
    assert_eq!(hresult_to_result(E_OUTOFMEMORY), Err(ResultCode::OutOfMemory));
    assert_eq!(hresult_to_result(E_FAIL), Err(ResultCode::Fail));
    assert_eq!(hresult_to_result(E_INVALIDARG), Err(ResultCode::InvalidArgument));
    assert_eq!(hresult_to_result(E_UNEXPECTED), Err(ResultCode::Unexpected));
    assert_eq!(
        hresult_to_result(HCS_E_PROCESS_INFO_NOT_AVAILABLE),
        Err(ResultCode::ProcessInfoNotAvailable)
    );
    assert_eq!(hresult_to_result(HCS_E_SERVICE_DISCONNECT), Err(ResultCode::ServiceDisconnect));
}

#[test]
fn other_codes_are_kept_as_they_came() {
    assert_eq!(hresult_to_result(1), Err(ResultCode::WindowsHResult(1)));
    assert_eq!(hresult_to_result(-1), Err(ResultCode::WindowsHResult(-1)));
    assert_eq!(hresult_to_result(i32::MAX), Err(ResultCode::WindowsHResult(i32::MAX)));
    assert_eq!(hresult_to_result(i32::MIN), Err(ResultCode::WindowsHResult(i32::MIN)));
    assert_eq!(
        hresult_to_result(HCS_E_SERVICE_DISCONNECT + 1),
        Err(ResultCode::WindowsHResult(HCS_E_SERVICE_DISCONNECT + 1))
    );
}

#[test]
fn failure_gives_back_its_code() {
    assert_eq!(ResultCode::OutOfMemory.hresult(), E_OUTOFMEMORY);
    assert_eq!(ResultCode::Fail.hresult(), E_FAIL);
    assert_eq!(ResultCode::InvalidArgument.hresult(), E_INVALIDARG);
    assert_eq!(ResultCode::Unexpected.hresult(), E_UNEXPECTED);
    assert_eq!(ResultCode::ProcessInfoNotAvailable.hresult(), HCS_E_PROCESS_INFO_NOT_AVAILABLE);
    assert_eq!(ResultCode::ServiceDisconnect.hresult(), HCS_E_SERVICE_DISCONNECT);
    assert_eq!(ResultCode::WindowsHResult(-99).hresult(), -99);
}

#[test]
fn code_and_failure_go_round() {
    let codes = [
        E_OUTOFMEMORY,
        E_FAIL,
        E_INVALIDARG,
        E_UNEXPECTED,
        HCS_E_PROCESS_INFO_NOT_AVAILABLE,
        HCS_E_SERVICE_DISCONNECT,
        1,
        -1,
        0x7FFF_0000,
        i32::MIN,
    ];
    for code in codes {
        match hresult_to_result(code) {
            Ok(()) => panic!("{} is a failure", code),
            Err(failure) => {
                assert_eq!(failure.hresult(), code);
                assert_eq!(hresult_to_result(failure.hresult()), Err(failure));
            }
        }
    }
}

#[test]
fn service_disconnect_is_told_apart() {
    assert!(ResultCode::ServiceDisconnect.is_service_disconnect());
    assert!(ResultCode::WindowsHResult(HCS_E_SERVICE_DISCONNECT).is_service_disconnect());
    assert!(!ResultCode::Fail.is_service_disconnect());
    assert!(!ResultCode::ProcessInfoNotAvailable.is_service_disconnect());
    assert!(!ResultCode::WindowsHResult(HCS_E_SERVICE_DISCONNECT - 1).is_service_disconnect());
}
