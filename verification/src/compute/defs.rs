//! Public types and definitions used by the Host Compute Service.
//!
//! The native interface numbers the variants of its enumerations.  Each
//! enumeration here gives the number of a variant with `code` and finds the
//! variant of a number with `from_code`.

use crate::windefs::{DWord, HResult, Handle};
use vstd::prelude::*;

verus! {

/// Information about the process is not available (`0x8037011D`).
pub const HCS_E_PROCESS_INFO_NOT_AVAILABLE: HResult = -2143878883;

/// The connection to the host service was lost (`0x8037011E`).
pub const HCS_E_SERVICE_DISCONNECT: HResult = -2143878882;

/// Handle to a compute system
pub type HcsSystemHandle = Handle;

/// Handle to a process running in a compute system
pub type HcsProcessHandle = Handle;

/// Handle to an operation on a compute system
pub type HcsOperationHandle = Handle;

/// Handle to a callback registered on a compute system or process handle.
pub type HcsCallbackHandle = Handle;

/// The operation id that names no operation.
pub const HCS_INVALID_OPERATION_ID: u64 = 0xFFFF_FFFF_FFFF_FFFF;

/// Type of an operation. These correspond to the functions that invoke the operation.
#[derive(Debug, Copy, Clone, PartialEq, Eq, Hash, Structural)]
pub enum HcsOperationType {
    NoOperation,
    Enumerate,
    Create,
    Start,
    Shutdown,
    Pause,
    Resume,
    Save,
    Terminate,
    Modify,
    GetProperties,
    CreateProcess,
    SignalProcess,
    GetProcessInfo,
    GetProcessProperties,
    ModifyProcess,
}

impl HcsOperationType {
    /// The number of the variant in the native interface.
    pub open spec fn code_spec(self) -> i32 {
        match self {
            HcsOperationType::NoOperation => -1i32,
            HcsOperationType::Enumerate => 0,
            HcsOperationType::Create => 1,
            HcsOperationType::Start => 2,
            HcsOperationType::Shutdown => 3,
            HcsOperationType::Pause => 4,
            HcsOperationType::Resume => 5,
            HcsOperationType::Save => 6,
            HcsOperationType::Terminate => 7,
            HcsOperationType::Modify => 8,
            HcsOperationType::GetProperties => 9,
            HcsOperationType::CreateProcess => 10,
            HcsOperationType::SignalProcess => 11,
            HcsOperationType::GetProcessInfo => 12,
            HcsOperationType::GetProcessProperties => 13,
            HcsOperationType::ModifyProcess => 14,
        }
    }

    /// The variant with the given number, if there is one.
    pub open spec fn from_code_spec(code: i32) -> Option<HcsOperationType> {
        if code == -1 {
            Some(HcsOperationType::NoOperation)
        } else if code == 0 {
            Some(HcsOperationType::Enumerate)
        } else if code == 1 {
            Some(HcsOperationType::Create)
        } else if code == 2 {
            Some(HcsOperationType::Start)
        } else if code == 3 {
            Some(HcsOperationType::Shutdown)
        } else if code == 4 {
            Some(HcsOperationType::Pause)
        } else if code == 5 {
            Some(HcsOperationType::Resume)
        } else if code == 6 {
            Some(HcsOperationType::Save)
        } else if code == 7 {
            Some(HcsOperationType::Terminate)
        } else if code == 8 {
            Some(HcsOperationType::Modify)
        } else if code == 9 {
            Some(HcsOperationType::GetProperties)
        } else if code == 10 {
            Some(HcsOperationType::CreateProcess)
        } else if code == 11 {
            Some(HcsOperationType::SignalProcess)
        } else if code == 12 {
            Some(HcsOperationType::GetProcessInfo)
        } else if code == 13 {
            Some(HcsOperationType::GetProcessProperties)
        } else if code == 14 {
            Some(HcsOperationType::ModifyProcess)
        } else {
            None
        }
    }

    /// The number of the variant in the native interface.  It is the number
    /// under which `from_code` finds the variant again.
    pub fn code(&self) -> (code: i32)
        ensures
            code == self.code_spec(),
            Self::from_code_spec(code) == Some(*self),
    {
        match self {
            HcsOperationType::NoOperation => -1,
            HcsOperationType::Enumerate => 0,
            HcsOperationType::Create => 1,
            HcsOperationType::Start => 2,
            HcsOperationType::Shutdown => 3,
            HcsOperationType::Pause => 4,
            HcsOperationType::Resume => 5,
            HcsOperationType::Save => 6,
            HcsOperationType::Terminate => 7,
            HcsOperationType::Modify => 8,
            HcsOperationType::GetProperties => 9,
            HcsOperationType::CreateProcess => 10,
            HcsOperationType::SignalProcess => 11,
            HcsOperationType::GetProcessInfo => 12,
            HcsOperationType::GetProcessProperties => 13,
            HcsOperationType::ModifyProcess => 14,
        }
    }

    /// The variant with the given number.  There is one exactly where some
    /// variant has that number, and it is the variant that has it.
    pub fn from_code(code: i32) -> (found: Option<HcsOperationType>)
        ensures
            found == Self::from_code_spec(code),
            found matches Some(operation) ==> operation.code_spec() == code,
            found is None ==> forall|operation: HcsOperationType| operation.code_spec() != code,
    {
        match code {
            -1 => Some(HcsOperationType::NoOperation),
            0 => Some(HcsOperationType::Enumerate),
            1 => Some(HcsOperationType::Create),
            2 => Some(HcsOperationType::Start),
            3 => Some(HcsOperationType::Shutdown),
            4 => Some(HcsOperationType::Pause),
            5 => Some(HcsOperationType::Resume),
            6 => Some(HcsOperationType::Save),
            7 => Some(HcsOperationType::Terminate),
            8 => Some(HcsOperationType::Modify),
            9 => Some(HcsOperationType::GetProperties),
            10 => Some(HcsOperationType::CreateProcess),
            11 => Some(HcsOperationType::SignalProcess),
            12 => Some(HcsOperationType::GetProcessInfo),
            13 => Some(HcsOperationType::GetProcessProperties),
            14 => Some(HcsOperationType::ModifyProcess),
            _ => None,
        }
    }
}

/// Events indicated to callbacks registered by HcsRegisterComputeSystemCallback or
/// HcsRegisterProcessCallback (since Windows 1809).
#[derive(Debug, Copy, Clone, PartialEq, Eq, Hash, Structural)]
pub enum HcsEventType {
    Invalid,
    /// Events for HcsSystemHandle
    SystemExited,
    SystemCrashInitiated,
    SystemCrashReport,
    SystemRdpEnhancedModeStateChanged,
    SystemSiloJobCreated,
    SystemGuestConnectionClosed,
    /// Events for HcsProcessHandle
    ProcessExited,
    /// Common Events
    OperationCallback,
    ServiceDisconnect,
}

impl HcsEventType {
    /// The number of the variant in the native interface.
    pub open spec fn code_spec(self) -> u32 {
        match self {
            HcsEventType::Invalid => 0x0000_0000,
            HcsEventType::SystemExited => 0x0000_0001,
            HcsEventType::SystemCrashInitiated => 0x0000_0002,
            HcsEventType::SystemCrashReport => 0x0000_0003,
            HcsEventType::SystemRdpEnhancedModeStateChanged => 0x0000_0004,
            HcsEventType::SystemSiloJobCreated => 0x0000_0005,
            HcsEventType::SystemGuestConnectionClosed => 0x0000_0006,
            HcsEventType::ProcessExited => 0x0001_0000,
            HcsEventType::OperationCallback => 0x0100_0000,
            HcsEventType::ServiceDisconnect => 0x0200_0000,
        }
    }

    /// The variant with the given number, if there is one.
    pub open spec fn from_code_spec(code: u32) -> Option<HcsEventType> {
        if code == 0x0000_0000 {
            Some(HcsEventType::Invalid)
        } else if code == 0x0000_0001 {
            Some(HcsEventType::SystemExited)
        } else if code == 0x0000_0002 {
            Some(HcsEventType::SystemCrashInitiated)
        } else if code == 0x0000_0003 {
            Some(HcsEventType::SystemCrashReport)
        } else if code == 0x0000_0004 {
            Some(HcsEventType::SystemRdpEnhancedModeStateChanged)
        } else if code == 0x0000_0005 {
            Some(HcsEventType::SystemSiloJobCreated)
        } else if code == 0x0000_0006 {
            Some(HcsEventType::SystemGuestConnectionClosed)
        } else if code == 0x0001_0000 {
            Some(HcsEventType::ProcessExited)
        } else if code == 0x0100_0000 {
            Some(HcsEventType::OperationCallback)
        } else if code == 0x0200_0000 {
            Some(HcsEventType::ServiceDisconnect)
        } else {
            None
        }
    }

    /// The number of the variant in the native interface.  It is the number
    /// under which `from_code` finds the variant again.
    pub fn code(&self) -> (code: u32)
        ensures
            code == self.code_spec(),
            Self::from_code_spec(code) == Some(*self),
    {
        match self {
            HcsEventType::Invalid => 0x0000_0000,
            HcsEventType::SystemExited => 0x0000_0001,
            HcsEventType::SystemCrashInitiated => 0x0000_0002,
            HcsEventType::SystemCrashReport => 0x0000_0003,
            HcsEventType::SystemRdpEnhancedModeStateChanged => 0x0000_0004,
            HcsEventType::SystemSiloJobCreated => 0x0000_0005,
            HcsEventType::SystemGuestConnectionClosed => 0x0000_0006,
            HcsEventType::ProcessExited => 0x0001_0000,
            HcsEventType::OperationCallback => 0x0100_0000,
            HcsEventType::ServiceDisconnect => 0x0200_0000,
        }
    }

    /// The variant with the given number.  There is one exactly where some
    /// variant has that number, and it is the variant that has it.
    pub fn from_code(code: u32) -> (found: Option<HcsEventType>)
        ensures
            found == Self::from_code_spec(code),
            found matches Some(event) ==> event.code_spec() == code,
            found is None ==> forall|event: HcsEventType| event.code_spec() != code,
    {
        match code {
            0x0000_0000 => Some(HcsEventType::Invalid),
            0x0000_0001 => Some(HcsEventType::SystemExited),
            0x0000_0002 => Some(HcsEventType::SystemCrashInitiated),
            0x0000_0003 => Some(HcsEventType::SystemCrashReport),
            0x0000_0004 => Some(HcsEventType::SystemRdpEnhancedModeStateChanged),
            0x0000_0005 => Some(HcsEventType::SystemSiloJobCreated),
            0x0000_0006 => Some(HcsEventType::SystemGuestConnectionClosed),
            0x0001_0000 => Some(HcsEventType::ProcessExited),
            0x0100_0000 => Some(HcsEventType::OperationCallback),
            0x0200_0000 => Some(HcsEventType::ServiceDisconnect),
            _ => None,
        }
    }
}

/// Provides information about an event that occurred on a compute system or process.
#[derive(Debug, Clone, PartialEq, Eq)]
pub struct HcsEvent {
    /// Type of Event (see HcsEventType)
    pub event_type: HcsEventType,
    /// Provides additional data for the event, if the event has any.
    pub event_data: Option<String>,
    /// Handle to a completed operation (if Type is HcsEventType::OperationCallback).
    pub operation: HcsOperationHandle,
}

/// Options for an event callback registration
#[derive(Debug, Copy, Clone, PartialEq, Eq, Hash, Structural)]
pub enum HcsEventOptions {
    NoOptions,
    EnableOperationCallbacks,
}

impl HcsEventOptions {
    /// The number of the variant in the native interface.
    pub open spec fn code_spec(self) -> u32 {
        match self {
            HcsEventOptions::NoOptions => 0x0000_0000,
            HcsEventOptions::EnableOperationCallbacks => 0x0000_0001,
        }
    }

    /// The variant with the given number, if there is one.
    pub open spec fn from_code_spec(code: u32) -> Option<HcsEventOptions> {
        if code == 0x0000_0000 {
            Some(HcsEventOptions::NoOptions)
        } else if code == 0x0000_0001 {
            Some(HcsEventOptions::EnableOperationCallbacks)
        } else {
            None
        }
    }

    /// The number of the variant in the native interface.  It is the number
    /// under which `from_code` finds the variant again.
    pub fn code(&self) -> (code: u32)
        ensures
            code == self.code_spec(),
            Self::from_code_spec(code) == Some(*self),
    {
        match self {
            HcsEventOptions::NoOptions => 0x0000_0000,
            HcsEventOptions::EnableOperationCallbacks => 0x0000_0001,
        }
    }

    /// The variant with the given number.  There is one exactly where some
    /// variant has that number, and it is the variant that has it.
    pub fn from_code(code: u32) -> (found: Option<HcsEventOptions>)
        ensures
            found == Self::from_code_spec(code),
            found matches Some(options) ==> options.code_spec() == code,
            found is None ==> forall|options: HcsEventOptions| options.code_spec() != code,
    {
        match code {
            0x0000_0000 => Some(HcsEventOptions::NoOptions),
            0x0000_0001 => Some(HcsEventOptions::EnableOperationCallbacks),
            _ => None,
        }
    }
}

/// Flags applicable to HcsNotifications
#[derive(Debug, Copy, Clone, PartialEq, Eq, Hash, Structural)]
pub enum HcsNotificationFlag {
    Success,
    Failure,
}

impl HcsNotificationFlag {
    /// The number of the variant in the native interface.
    pub open spec fn code_spec(self) -> u32 {
        match self {
            HcsNotificationFlag::Success => 0x0000_0000,
            HcsNotificationFlag::Failure => 0x8000_0000,
        }
    }

    /// The variant with the given number, if there is one.
    pub open spec fn from_code_spec(code: u32) -> Option<HcsNotificationFlag> {
        if code == 0x0000_0000 {
            Some(HcsNotificationFlag::Success)
        } else if code == 0x8000_0000 {
            Some(HcsNotificationFlag::Failure)
        } else {
            None
        }
    }

    /// The number of the variant in the native interface.  It is the number
    /// under which `from_code` finds the variant again.
    pub fn code(&self) -> (code: u32)
        ensures
            code == self.code_spec(),
            Self::from_code_spec(code) == Some(*self),
    {
        match self {
            HcsNotificationFlag::Success => 0x0000_0000,
            HcsNotificationFlag::Failure => 0x8000_0000,
        }
    }

    /// The variant with the given number.  There is one exactly where some
    /// variant has that number, and it is the variant that has it.
    pub fn from_code(code: u32) -> (found: Option<HcsNotificationFlag>)
        ensures
            found == Self::from_code_spec(code),
            found matches Some(flag) ==> flag.code_spec() == code,
            found is None ==> forall|flag: HcsNotificationFlag| flag.code_spec() != code,
    {
        match code {
            0x0000_0000 => Some(HcsNotificationFlag::Success),
            0x8000_0000 => Some(HcsNotificationFlag::Failure),
            _ => None,
        }
    }
}

/// Notifications indicated to callbacks registered by HcsRegisterComputeSystemCallback or
/// HcsRegisterProcessCallback (until Windows 1803).
#[derive(Debug, Copy, Clone, PartialEq, Eq, Hash, Structural)]
pub enum HcsNotifications {
    Invalid,
    /// Notifications for HcsSystemHandle
    SystemExited,
    SystemCreateCompleted,
    SystemStartCompleted,
    SystemPauseCompleted,
    SystemResumeCompleted,
    SystemCrashReport,
    SystemSiloJobCreated,
    SystemSaveCompleted,
    SystemRdpEnhancedModeStateChanged,
    SystemShutdownFailed,
    SystemGetPropertiesCompleted,
    SystemModifyCompleted,
    SystemCrashInitiated,
    SystemGuestConnectionClosed,
    /// Notifications for HcsProcessHandle
    ProcessExited,
    /// Common notifications
    ServiceDisconnect,
    /// The upper 4 bits are reserved.
    FlagsReserved,
}

impl HcsNotifications {
    /// The number of the variant in the native interface.
    pub open spec fn code_spec(self) -> u32 {
        match self {
            HcsNotifications::Invalid => 0x0000_0000,
            HcsNotifications::SystemExited => 0x0000_0001,
            HcsNotifications::SystemCreateCompleted => 0x0000_0002,
            HcsNotifications::SystemStartCompleted => 0x0000_0003,
            HcsNotifications::SystemPauseCompleted => 0x0000_0004,
            HcsNotifications::SystemResumeCompleted => 0x0000_0005,
            HcsNotifications::SystemCrashReport => 0x0000_0006,
            HcsNotifications::SystemSiloJobCreated => 0x0000_0007,
            HcsNotifications::SystemSaveCompleted => 0x0000_0008,
            HcsNotifications::SystemRdpEnhancedModeStateChanged => 0x0000_0009,
            HcsNotifications::SystemShutdownFailed => 0x0000_000A,
            HcsNotifications::SystemGetPropertiesCompleted => 0x0000_000B,
            HcsNotifications::SystemModifyCompleted => 0x0000_000C,
            HcsNotifications::SystemCrashInitiated => 0x0000_000D,
            HcsNotifications::SystemGuestConnectionClosed => 0x0000_000E,
            HcsNotifications::ProcessExited => 0x0001_0000,
            HcsNotifications::ServiceDisconnect => 0x0100_0000,
            HcsNotifications::FlagsReserved => 0xF000_0000,
        }
    }

    /// The variant with the given number, if there is one.
    pub open spec fn from_code_spec(code: u32) -> Option<HcsNotifications> {
        if code == 0x0000_0000 {
            Some(HcsNotifications::Invalid)
        } else if code == 0x0000_0001 {
            Some(HcsNotifications::SystemExited)
        } else if code == 0x0000_0002 {
            Some(HcsNotifications::SystemCreateCompleted)
        } else if code == 0x0000_0003 {
            Some(HcsNotifications::SystemStartCompleted)
        } else if code == 0x0000_0004 {
            Some(HcsNotifications::SystemPauseCompleted)
        } else if code == 0x0000_0005 {
            Some(HcsNotifications::SystemResumeCompleted)
        } else if code == 0x0000_0006 {
            Some(HcsNotifications::SystemCrashReport)
        } else if code == 0x0000_0007 {
            Some(HcsNotifications::SystemSiloJobCreated)
        } else if code == 0x0000_0008 {
            Some(HcsNotifications::SystemSaveCompleted)
        } else if code == 0x0000_0009 {
            Some(HcsNotifications::SystemRdpEnhancedModeStateChanged)
        } else if code == 0x0000_000A {
            Some(HcsNotifications::SystemShutdownFailed)
        } else if code == 0x0000_000B {
            Some(HcsNotifications::SystemGetPropertiesCompleted)
        } else if code == 0x0000_000C {
            Some(HcsNotifications::SystemModifyCompleted)
        } else if code == 0x0000_000D {
            Some(HcsNotifications::SystemCrashInitiated)
        } else if code == 0x0000_000E {
            Some(HcsNotifications::SystemGuestConnectionClosed)
        } else if code == 0x0001_0000 {
            Some(HcsNotifications::ProcessExited)
        } else if code == 0x0100_0000 {
            Some(HcsNotifications::ServiceDisconnect)
        } else if code == 0xF000_0000 {
            Some(HcsNotifications::FlagsReserved)
        } else {
            None
        }
    }

    /// The number of the variant in the native interface.  It is the number
    /// under which `from_code` finds the variant again.
    pub fn code(&self) -> (code: u32)
        ensures
            code == self.code_spec(),
            Self::from_code_spec(code) == Some(*self),
    {
        match self {
            HcsNotifications::Invalid => 0x0000_0000,
            HcsNotifications::SystemExited => 0x0000_0001,
            HcsNotifications::SystemCreateCompleted => 0x0000_0002,
            HcsNotifications::SystemStartCompleted => 0x0000_0003,
            HcsNotifications::SystemPauseCompleted => 0x0000_0004,
            HcsNotifications::SystemResumeCompleted => 0x0000_0005,
            HcsNotifications::SystemCrashReport => 0x0000_0006,
            HcsNotifications::SystemSiloJobCreated => 0x0000_0007,
            HcsNotifications::SystemSaveCompleted => 0x0000_0008,
            HcsNotifications::SystemRdpEnhancedModeStateChanged => 0x0000_0009,
            HcsNotifications::SystemShutdownFailed => 0x0000_000A,
            HcsNotifications::SystemGetPropertiesCompleted => 0x0000_000B,
            HcsNotifications::SystemModifyCompleted => 0x0000_000C,
            HcsNotifications::SystemCrashInitiated => 0x0000_000D,
            HcsNotifications::SystemGuestConnectionClosed => 0x0000_000E,
            HcsNotifications::ProcessExited => 0x0001_0000,
            HcsNotifications::ServiceDisconnect => 0x0100_0000,
            HcsNotifications::FlagsReserved => 0xF000_0000,
        }
    }

    /// The variant with the given number.  There is one exactly where some
    /// variant has that number, and it is the variant that has it.
    pub fn from_code(code: u32) -> (found: Option<HcsNotifications>)
        ensures
            found == Self::from_code_spec(code),
            found matches Some(notification) ==> notification.code_spec() == code,
            found is None ==> forall|notification: HcsNotifications| notification.code_spec() != code,
    {
        match code {
            0x0000_0000 => Some(HcsNotifications::Invalid),
            0x0000_0001 => Some(HcsNotifications::SystemExited),
            0x0000_0002 => Some(HcsNotifications::SystemCreateCompleted),
            0x0000_0003 => Some(HcsNotifications::SystemStartCompleted),
            0x0000_0004 => Some(HcsNotifications::SystemPauseCompleted),
            0x0000_0005 => Some(HcsNotifications::SystemResumeCompleted),
            0x0000_0006 => Some(HcsNotifications::SystemCrashReport),
            0x0000_0007 => Some(HcsNotifications::SystemSiloJobCreated),
            0x0000_0008 => Some(HcsNotifications::SystemSaveCompleted),
            0x0000_0009 => Some(HcsNotifications::SystemRdpEnhancedModeStateChanged),
            0x0000_000A => Some(HcsNotifications::SystemShutdownFailed),
            0x0000_000B => Some(HcsNotifications::SystemGetPropertiesCompleted),
            0x0000_000C => Some(HcsNotifications::SystemModifyCompleted),
            0x0000_000D => Some(HcsNotifications::SystemCrashInitiated),
            0x0000_000E => Some(HcsNotifications::SystemGuestConnectionClosed),
            0x0001_0000 => Some(HcsNotifications::ProcessExited),
            0x0100_0000 => Some(HcsNotifications::ServiceDisconnect),
            0xF000_0000 => Some(HcsNotifications::FlagsReserved),
            _ => None,
        }
    }
}

/// Struct containing information about a process created by HcsStartProcessInComputeSystem
#[derive(Debug, Copy, Clone, PartialEq, Eq, Structural)]
pub struct HcsProcessInformation {
    /// Identifier of the created process
    pub process_id: DWord,
    /// If created, standard input handle of the process
    pub std_input: Handle,
    /// If created, standard output handle of the process
    pub std_output: Handle,
    /// If created, standard error handle of the process
    pub std_error: Handle,
}

} // verus!
