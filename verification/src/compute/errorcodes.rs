//! Native result codes and the failures they stand for.

use crate::compute::defs::{HCS_E_PROCESS_INFO_NOT_AVAILABLE, HCS_E_SERVICE_DISCONNECT};
use crate::windefs::HResult;
use crate::HcsResult;
use vstd::prelude::*;

verus! {

/// The operation succeeded.
pub const S_OK: HResult = 0;

/// Unspecified failure (`0x80004005`): the generic internal error.
pub const E_FAIL: HResult = -2147467259;

/// Catastrophic, unexpected failure (`0x8000FFFF`).
pub const E_UNEXPECTED: HResult = -2147418113;

/// The system ran out of memory (`0x8007000E`).
pub const E_OUTOFMEMORY: HResult = -2147024882;

/// An argument was not valid (`0x80070057`).
pub const E_INVALIDARG: HResult = -2147024809;

/// The signed value of a result code given by its 32 bits.
pub open spec fn hresult_from_bits(bits: u32) -> HResult {
    if bits < 0x8000_0000 {
        bits as i32
    } else {
        (bits - 0x1_0000_0000) as i32
    }
}

/// The named result codes are the bit patterns the native headers give.
pub proof fn lemma_named_codes()
    ensures
        S_OK == hresult_from_bits(0),
        E_FAIL == hresult_from_bits(0x80004005),
        E_UNEXPECTED == hresult_from_bits(0x8000FFFF),
        E_OUTOFMEMORY == hresult_from_bits(0x8007000E),
        E_INVALIDARG == hresult_from_bits(0x80070057),
        HCS_E_PROCESS_INFO_NOT_AVAILABLE == hresult_from_bits(0x8037011D),
        HCS_E_SERVICE_DISCONNECT == hresult_from_bits(0x8037011E),
{
}

/// A failure reported by the native host.
///
/// Failures the library tells apart have a variant of their own; every other
/// non-zero code is kept as it came in `WindowsHResult`.
#[derive(Debug, Clone, Copy, PartialEq, Eq, Structural)]
pub enum ResultCode {
    OutOfMemory,
    Fail,
    InvalidArgument,
    Unexpected,
    ProcessInfoNotAvailable,
    ServiceDisconnect,
    WindowsHResult(HResult),
}

/// Whether a result code has a variant of its own in [`ResultCode`].
pub open spec fn is_named_failure(hresult: HResult) -> bool {
    ||| hresult == E_OUTOFMEMORY
    ||| hresult == E_FAIL
    ||| hresult == E_INVALIDARG
    ||| hresult == E_UNEXPECTED
    ||| hresult == HCS_E_PROCESS_INFO_NOT_AVAILABLE
    ||| hresult == HCS_E_SERVICE_DISCONNECT
}

/// The failure a non-zero result code stands for.
pub open spec fn failure_of(hresult: HResult) -> ResultCode {
    if hresult == E_OUTOFMEMORY {
        ResultCode::OutOfMemory
    } else if hresult == E_FAIL {
        ResultCode::Fail
    } else if hresult == E_INVALIDARG {
        ResultCode::InvalidArgument
    } else if hresult == E_UNEXPECTED {
        ResultCode::Unexpected
    } else if hresult == HCS_E_PROCESS_INFO_NOT_AVAILABLE {
        ResultCode::ProcessInfoNotAvailable
    } else if hresult == HCS_E_SERVICE_DISCONNECT {
        ResultCode::ServiceDisconnect
    } else {
        ResultCode::WindowsHResult(hresult)
    }
}

/// What a native call that returned `hresult` amounts to: success for zero,
/// the failure the code stands for otherwise.
pub open spec fn outcome_of(hresult: HResult) -> HcsResult<()> {
    if hresult == S_OK {
        Ok(())
    } else {
        Err(failure_of(hresult))
    }
}

impl ResultCode {
    /// The native code of this failure.
    pub open spec fn hresult_spec(self) -> HResult {
        match self {
            ResultCode::OutOfMemory => E_OUTOFMEMORY,
            ResultCode::Fail => E_FAIL,
            ResultCode::InvalidArgument => E_INVALIDARG,
            ResultCode::Unexpected => E_UNEXPECTED,
            ResultCode::ProcessInfoNotAvailable => HCS_E_PROCESS_INFO_NOT_AVAILABLE,
            ResultCode::ServiceDisconnect => HCS_E_SERVICE_DISCONNECT,
            ResultCode::WindowsHResult(hresult) => hresult,
        }
    }

    /// A failure is well formed when `WindowsHResult` holds a non-zero code
    /// that has no variant of its own.
    pub open spec fn wf(self) -> bool {
        match self {
            ResultCode::WindowsHResult(hresult) => hresult != S_OK && !is_named_failure(hresult),
            _ => true,
        }
    }

    /// The native code of this failure.  For a well-formed failure it is
    /// non-zero and stands for this very failure.
    pub fn hresult(&self) -> (hresult: HResult)
        ensures
            hresult == self.hresult_spec(),
            self.wf() ==> hresult != S_OK && failure_of(hresult) == *self,
    {
        match self {
            ResultCode::OutOfMemory => E_OUTOFMEMORY,
            ResultCode::Fail => E_FAIL,
            ResultCode::InvalidArgument => E_INVALIDARG,
            ResultCode::Unexpected => E_UNEXPECTED,
            ResultCode::ProcessInfoNotAvailable => HCS_E_PROCESS_INFO_NOT_AVAILABLE,
            ResultCode::ServiceDisconnect => HCS_E_SERVICE_DISCONNECT,
            ResultCode::WindowsHResult(hresult) => *hresult,
        }
    }

    /// Whether the failure is the loss of the connection to the host service,
    /// which is reported apart from every other failure.
    pub fn is_service_disconnect(&self) -> (disconnect: bool)
        ensures
            disconnect == (self.hresult_spec() == HCS_E_SERVICE_DISCONNECT),
    {
        match self {
            ResultCode::ServiceDisconnect => true,
            ResultCode::WindowsHResult(hresult) => *hresult == HCS_E_SERVICE_DISCONNECT,
            _ => false,
        }
    }
}

/// Reads the result code of a native call: zero is success, every other
/// code the failure it stands for.  The failure is well formed and keeps the
/// code, so nothing of what the native host reported is lost.
pub fn hresult_to_result(hresult: HResult) -> (result: HcsResult<()>)
    ensures
        result == outcome_of(hresult),
        result is Ok <==> hresult == S_OK,
        result matches Err(code) ==> code.wf() && code.hresult_spec() == hresult,
{
    if hresult == S_OK {
        Ok(())
    } else if hresult == E_OUTOFMEMORY {
        Err(ResultCode::OutOfMemory)
    } else if hresult == E_FAIL {
        Err(ResultCode::Fail)
    } else if hresult == E_INVALIDARG {
        Err(ResultCode::InvalidArgument)
    } else if hresult == E_UNEXPECTED {
        Err(ResultCode::Unexpected)
    } else if hresult == HCS_E_PROCESS_INFO_NOT_AVAILABLE {
        Err(ResultCode::ProcessInfoNotAvailable)
    } else if hresult == HCS_E_SERVICE_DISCONNECT {
        Err(ResultCode::ServiceDisconnect)
    } else {
        Err(ResultCode::WindowsHResult(hresult))
    }
}

} // verus!
