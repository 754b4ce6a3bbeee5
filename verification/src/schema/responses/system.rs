//! Properties, statistics and notifications of a compute system.

use crate::schema::utils::{DateTimeUtc, GuidSerde};
use crate::schema::Version;
use vstd::prelude::*;

verus! {

/// Lifecycle state of a compute system.
#[derive(Debug, Clone, PartialEq, Eq, Structural)]
pub enum State {
    Created,
    Running,
    Paused,
    Stopped,
    SavedAsTemplate,
}

impl Default for State {
    /// A compute system starts out created.
    fn default() -> (r: Self)
        ensures
            r == State::Created,
    {
        State::Created
    }
}

/// Operating system that runs inside a compute system.
#[derive(Debug, Clone, PartialEq, Eq, Structural)]
pub enum OsType {
    Windows,
    Linux,
}

impl Default for OsType {
    /// Windows, unless the document says otherwise.
    fn default() -> (r: Self)
        ensures
            r == OsType::Windows,
    {
        OsType::Windows
    }
}

/// Kind of a compute system.
#[derive(Debug, Clone, PartialEq, Eq, Structural)]
pub enum SystemType {
    Container,
    VirtualMachine,
    Host,
}

impl Default for SystemType {
    /// A container, unless the document says otherwise.
    fn default() -> (r: Self)
        ensures
            r == SystemType::Container,
    {
        SystemType::Container
    }
}

/// How a compute system came to exit.
#[derive(Debug, Clone, PartialEq, Eq, Structural)]
pub enum NotificationType {
    NoExit,
    GracefulExit,
    ForcedExit,
    UnexpectedExit,
    Unknown,
}

impl Default for NotificationType {
    /// No exit was notified.
    fn default() -> (r: Self)
        ensures
            r == NotificationType::NoExit,
    {
        NotificationType::NoExit
    }
}

/// Placement and size of one virtual NUMA node.
#[derive(Debug, Clone, PartialEq, Eq, Structural)]
pub struct VirtualNodeInfo {
    pub virtual_node_index: u8,
    pub physical_node_number: u8,
    pub virtual_processor_count: u32,
    pub memory_usage_in_pages: u64,
}

impl VirtualNodeInfo {
    /// The document is at its default: every number is zero.
    pub open spec fn is_default_spec(&self) -> bool {
        &&& self.virtual_node_index == 0
        &&& self.physical_node_number == 0
        &&& self.virtual_processor_count == 0
        &&& self.memory_usage_in_pages == 0
    }
}

impl Default for VirtualNodeInfo {
    /// The document with every field at its default.
    fn default() -> (r: Self)
        ensures
            r.is_default_spec(),
    {
        VirtualNodeInfo {
            virtual_node_index: 0,
            physical_node_number: 0,
            virtual_processor_count: 0,
            memory_usage_in_pages: 0,
        }
    }
}

/// Memory assigned to and available in a virtual machine.
#[derive(Debug, Clone, PartialEq, Eq, Structural)]
pub struct VmMemory {
    pub available_memory: i32,
    pub available_memory_buffer: i32,
    pub reserved_memory: u64,
    pub assigned_memory: u64,
    pub slp_active: bool,
    pub balancing_enabled: bool,
    pub dm_operation_in_progress: bool,
}

impl VmMemory {
    /// The document is at its default: every number is zero and every flag is
    /// off.
    pub open spec fn is_default_spec(&self) -> bool {
        &&& self.available_memory == 0
        &&& self.available_memory_buffer == 0
        &&& self.reserved_memory == 0
        &&& self.assigned_memory == 0
        &&& !self.slp_active
        &&& !self.balancing_enabled
        &&& !self.dm_operation_in_progress
    }
}

impl Default for VmMemory {
    /// The document with every field at its default.
    fn default() -> (r: Self)
        ensures
            r.is_default_spec(),
    {
        VmMemory {
            available_memory: 0,
            available_memory_buffer: 0,
            reserved_memory: 0,
            assigned_memory: 0,
            slp_active: false,
            balancing_enabled: false,
            dm_operation_in_progress: false,
        }
    }
}

/// Memory of a virtual machine, as a whole and node by node.
#[derive(Debug, Clone, PartialEq)]
pub struct MemoryInformationForVm {
    pub virtual_node_count: u8,
    pub virtual_machine_memory: VmMemory,
    pub virtual_nodes: Vec<VirtualNodeInfo>,
}

impl MemoryInformationForVm {
    /// The document is at its default: every number is zero, every list is
    /// empty and every enumeration and nested document is at its own default.
    pub open spec fn is_default_spec(&self) -> bool {
        &&& self.virtual_node_count == 0
        &&& self.virtual_machine_memory.is_default_spec()
        &&& self.virtual_nodes@ == Seq::<VirtualNodeInfo>::empty()
    }
}

impl Default for MemoryInformationForVm {
    /// The document with every field at its default.
    fn default() -> (r: Self)
        ensures
            r.is_default_spec(),
    {
        MemoryInformationForVm {
            virtual_node_count: 0,
            virtual_machine_memory: VmMemory::default(),
            virtual_nodes: Vec::new(),
        }
    }
}

/// CPU runtime statistics
#[derive(Debug, Clone, PartialEq, Eq, Structural)]
pub struct ProcessorStats {
    pub total_runtime100ns: u64,
    pub runtime_user100ns: u64,
    pub runtime_kernel100ns: u64,
}

impl ProcessorStats {
    /// The document is at its default: every number is zero.
    pub open spec fn is_default_spec(&self) -> bool {
        &&& self.total_runtime100ns == 0
        &&& self.runtime_user100ns == 0
        &&& self.runtime_kernel100ns == 0
    }
}

impl Default for ProcessorStats {
    /// The document with every field at its default.
    fn default() -> (r: Self)
        ensures
            r.is_default_spec(),
    {
        ProcessorStats {
            total_runtime100ns: 0,
            runtime_user100ns: 0,
            runtime_kernel100ns: 0,
        }
    }
}

/// Memory runtime statistics
#[derive(Debug, Clone, PartialEq, Eq, Structural)]
pub struct MemoryStats {
    pub memory_usage_commit_bytes: u64,
    pub memory_usage_commit_peak_bytes: u64,
    pub memory_usage_private_working_set_bytes: u64,
}

impl MemoryStats {
    /// The document is at its default: every number is zero.
    pub open spec fn is_default_spec(&self) -> bool {
        &&& self.memory_usage_commit_bytes == 0
        &&& self.memory_usage_commit_peak_bytes == 0
        &&& self.memory_usage_private_working_set_bytes == 0
    }
}

impl Default for MemoryStats {
    /// The document with every field at its default.
    fn default() -> (r: Self)
        ensures
            r.is_default_spec(),
    {
        MemoryStats {
            memory_usage_commit_bytes: 0,
            memory_usage_commit_peak_bytes: 0,
            memory_usage_private_working_set_bytes: 0,
        }
    }
}

/// Storage runtime statistics
#[derive(Debug, Clone, PartialEq, Eq, Structural)]
pub struct StorageStats {
    pub read_count_normalized: u64,
    pub read_size_bytes: u64,
    pub write_count_normalized: u64,
    pub write_size_bytes: u64,
}

impl StorageStats {
    /// The document is at its default: every number is zero.
    pub open spec fn is_default_spec(&self) -> bool {
        &&& self.read_count_normalized == 0
        &&& self.read_size_bytes == 0
        &&& self.write_count_normalized == 0
        &&& self.write_size_bytes == 0
    }
}

impl Default for StorageStats {
    /// The document with every field at its default.
    fn default() -> (r: Self)
        ensures
            r.is_default_spec(),
    {
        StorageStats {
            read_count_normalized: 0,
            read_size_bytes: 0,
            write_count_normalized: 0,
            write_size_bytes: 0,
        }
    }
}

/// Runtime statistics for a container
#[derive(Debug, Clone, PartialEq)]
pub struct Statistics {
    pub timestamp: Option<DateTimeUtc>,
    pub container_start_time: Option<DateTimeUtc>,
    pub uptime100ns: u64,
    pub processor: ProcessorStats,
    pub memory: MemoryStats,
    pub storage: StorageStats,
}

impl Statistics {
    /// The document is at its default: every number is zero, every optional
    /// part is absent and every enumeration and nested document is at its own
    /// default.
    pub open spec fn is_default_spec(&self) -> bool {
        &&& self.timestamp is None
        &&& self.container_start_time is None
        &&& self.uptime100ns == 0
        &&& self.processor.is_default_spec()
        &&& self.memory.is_default_spec()
        &&& self.storage.is_default_spec()
    }
}

impl Default for Statistics {
    /// The document with every field at its default.
    fn default() -> (r: Self)
        ensures
            r.is_default_spec(),
    {
        Statistics {
            timestamp: None,
            container_start_time: None,
            uptime100ns: 0,
            processor: ProcessorStats::default(),
            memory: MemoryStats::default(),
            storage: StorageStats::default(),
        }
    }
}

/// Information about a process running in a container
#[derive(Debug, Clone, PartialEq)]
pub struct ProcessDetails {
    pub process_id: u32,
    pub image_name: String,
    pub create_timestamp: Option<DateTimeUtc>,
    pub user_time100ns: u64,
    pub kernel_time100ns: u64,
    pub memory_commit_bytes: u64,
    pub memory_working_set_private_bytes: u64,
    pub memory_working_set_shared_bytes: u64,
}

impl ProcessDetails {
    /// The document is at its default: every number is zero, every string is
    /// empty and every optional part is absent.
    pub open spec fn is_default_spec(&self) -> bool {
        &&& self.process_id == 0
        &&& self.image_name@ == Seq::<char>::empty()
        &&& self.create_timestamp is None
        &&& self.user_time100ns == 0
        &&& self.kernel_time100ns == 0
        &&& self.memory_commit_bytes == 0
        &&& self.memory_working_set_private_bytes == 0
        &&& self.memory_working_set_shared_bytes == 0
    }
}

impl Default for ProcessDetails {
    /// The document with every field at its default.
    fn default() -> (r: Self)
        ensures
            r.is_default_spec(),
    {
        ProcessDetails {
            process_id: 0,
            image_name: String::new(),
            create_timestamp: None,
            user_time100ns: 0,
            kernel_time100ns: 0,
            memory_commit_bytes: 0,
            memory_working_set_private_bytes: 0,
            memory_working_set_shared_bytes: 0,
        }
    }
}

/// A named section of memory shared with the guest.
#[derive(Debug, Clone, PartialEq)]
pub struct SharedMemoryRegionInfo {
    pub section_name: String,
    pub guest_physical_address: u64,
}

impl SharedMemoryRegionInfo {
    /// The document is at its default: every number is zero and every string is
    /// empty.
    pub open spec fn is_default_spec(&self) -> bool {
        &&& self.section_name@ == Seq::<char>::empty()
        &&& self.guest_physical_address == 0
    }
}

impl Default for SharedMemoryRegionInfo {
    /// The document with every field at its default.
    fn default() -> (r: Self)
        ensures
            r.is_default_spec(),
    {
        SharedMemoryRegionInfo {
            section_name: String::new(),
            guest_physical_address: 0,
        }
    }
}

/// What the guest said of itself when it connected.
#[derive(Debug, Clone, PartialEq)]
pub struct GuestConnectionInfo {
    /// Each schema version x.y stands for the range of versions a.b where a==x
    /// and b<=y. This list comes from the SupportedSchemaVersions field in GcsCapabilities.
    pub supported_schema_versions: Vec<Version>,
    pub protocol_version: u32,
    pub guest_defined_capabilities: serde_json::Value,
}

impl GuestConnectionInfo {
    /// The document is at its default: every number is zero and every list is
    /// empty.  Of the JSON value nothing is said.
    pub open spec fn is_default_spec(&self) -> bool {
        &&& self.supported_schema_versions@ == Seq::<Version>::empty()
        &&& self.protocol_version == 0
    }
}

impl Default for GuestConnectionInfo {
    /// The document with every field at its default; the JSON value is the
    /// one `serde_json` takes as its default.
    fn default() -> (r: Self)
        ensures
            r.is_default_spec(),
    {
        GuestConnectionInfo {
            supported_schema_versions: Vec::new(),
            protocol_version: 0,
            guest_defined_capabilities: serde_json::Value::default(),
        }
    }
}

/// Level-3 cache occupancy and bandwidth of a compute system.
#[derive(Debug, Clone, PartialEq, Eq, Structural)]
pub struct CacheQueryStatsResponse {
    pub l3_occupancy_bytes: u64,
    pub l3_total_bw_bytes: u64,
    pub l3_local_bw_bytes: u64,
}

impl CacheQueryStatsResponse {
    /// The document is at its default: every number is zero.
    pub open spec fn is_default_spec(&self) -> bool {
        &&& self.l3_occupancy_bytes == 0
        &&& self.l3_total_bw_bytes == 0
        &&& self.l3_local_bw_bytes == 0
    }
}

impl Default for CacheQueryStatsResponse {
    /// The document with every field at its default.
    fn default() -> (r: Self)
        ensures
            r.is_default_spec(),
    {
        CacheQueryStatsResponse {
            l3_occupancy_bytes: 0,
            l3_total_bw_bytes: 0,
            l3_local_bw_bytes: 0,
        }
    }
}

/// Properties of a compute system.
#[derive(Debug, Clone, PartialEq)]
pub struct Properties {
    pub id: String,
    pub system_type: SystemType,
    pub runtime_os_type: OsType,
    pub name: String,
    pub owner: String,
    pub runtime_id: GuidSerde,
    pub runtime_template_id: String,
    pub state: State,
    pub stopped: bool,
    pub exit_type: NotificationType,
    pub memory: MemoryInformationForVm,
    pub statistics: Statistics,
    pub process_list: Vec<ProcessDetails>,
    pub terminate_on_last_handle_closed: bool,
    pub hosting_system_id: String,
    pub shared_memory_region_info: Vec<SharedMemoryRegionInfo>,
    pub guest_connection_info: Option<GuestConnectionInfo>,
}

impl Properties {
    /// The document is at its default: every flag is off, every string is
    /// empty, every list is empty, every optional part is absent, every GUID is
    /// null and every enumeration and nested document is at its own default.
    pub open spec fn is_default_spec(&self) -> bool {
        &&& self.id@ == Seq::<char>::empty()
        &&& self.system_type == SystemType::Container
        &&& self.runtime_os_type == OsType::Windows
        &&& self.name@ == Seq::<char>::empty()
        &&& self.owner@ == Seq::<char>::empty()
        &&& self.runtime_id.is_default_spec()
        &&& self.runtime_template_id@ == Seq::<char>::empty()
        &&& self.state == State::Created
        &&& !self.stopped
        &&& self.exit_type == NotificationType::NoExit
        &&& self.memory.is_default_spec()
        &&& self.statistics.is_default_spec()
        &&& self.process_list@ == Seq::<ProcessDetails>::empty()
        &&& !self.terminate_on_last_handle_closed
        &&& self.hosting_system_id@ == Seq::<char>::empty()
        &&& self.shared_memory_region_info@ == Seq::<SharedMemoryRegionInfo>::empty()
        &&& self.guest_connection_info is None
    }
}

impl Default for Properties {
    /// The document with every field at its default.
    fn default() -> (r: Self)
        ensures
            r.is_default_spec(),
    {
        Properties {
            id: String::new(),
            system_type: SystemType::default(),
            runtime_os_type: OsType::default(),
            name: String::new(),
            owner: String::new(),
            runtime_id: GuidSerde::default(),
            runtime_template_id: String::new(),
            state: State::default(),
            stopped: false,
            exit_type: NotificationType::default(),
            memory: MemoryInformationForVm::default(),
            statistics: Statistics::default(),
            process_list: Vec::new(),
            terminate_on_last_handle_closed: false,
            hosting_system_id: String::new(),
            shared_memory_region_info: Vec::new(),
            guest_connection_info: None,
        }
    }
}

/// Exit status of a compute system.
#[derive(Debug, Clone, PartialEq, Eq, Structural)]
pub struct SystemExitStatus {
    pub status: i32,
    pub exit_type: NotificationType,
}

impl SystemExitStatus {
    /// The document is at its default: every number is zero and every
    /// enumeration and nested document is at its own default.
    pub open spec fn is_default_spec(&self) -> bool {
        &&& self.status == 0
        &&& self.exit_type == NotificationType::NoExit
    }
}

impl Default for SystemExitStatus {
    /// The document with every field at its default.
    fn default() -> (r: Self)
        ensures
            r.is_default_spec(),
    {
        SystemExitStatus {
            status: 0,
            exit_type: NotificationType::default(),
        }
    }
}

/// Status of a process that runs in a compute system.
#[derive(Debug, Clone, PartialEq, Eq, Structural)]
pub struct ProcessStatus {
    pub process_id: u32,
    pub exited: bool,
    pub exit_code: u32,
    pub last_wait_result: i32,
}

impl ProcessStatus {
    /// The document is at its default: every number is zero and every flag is
    /// off.
    pub open spec fn is_default_spec(&self) -> bool {
        &&& self.process_id == 0
        &&& !self.exited
        &&& self.exit_code == 0
        &&& self.last_wait_result == 0
    }
}

impl Default for ProcessStatus {
    /// The document with every field at its default.
    fn default() -> (r: Self)
        ensures
            r.is_default_spec(),
    {
        ProcessStatus {
            process_id: 0,
            exited: false,
            exit_code: 0,
            last_wait_result: 0,
        }
    }
}

/// How far a Windows guest got in writing its crash dump.
#[derive(Debug, Clone, PartialEq, Eq, Structural)]
pub enum WindowsCrashPhase {
    Inactive,
    CrashValues,
    Starting,
    Started,
    Writing,
    Complete,
}

impl Default for WindowsCrashPhase {
    /// No crash dump is under way.
    fn default() -> (r: Self)
        ensures
            r == WindowsCrashPhase::Inactive,
    {
        WindowsCrashPhase::Inactive
    }
}

/// Windows specific crash information
#[derive(Debug, Clone, PartialEq)]
pub struct WindowsCrashReport {
    pub dump_file: String,
    pub os_major_version: u32,
    pub os_minor_version: u32,
    pub os_build_number: u32,
    pub os_service_pack_major_version: u32,
    pub os_service_pack_minor_version: u32,
    pub os_suite_mask: u32,
    pub os_product_type: u32,
    pub status: i32,
    pub final_phase: WindowsCrashPhase,
}

impl WindowsCrashReport {
    /// The document is at its default: every number is zero, every string is
    /// empty and every enumeration and nested document is at its own default.
    pub open spec fn is_default_spec(&self) -> bool {
        &&& self.dump_file@ == Seq::<char>::empty()
        &&& self.os_major_version == 0
        &&& self.os_minor_version == 0
        &&& self.os_build_number == 0
        &&& self.os_service_pack_major_version == 0
        &&& self.os_service_pack_minor_version == 0
        &&& self.os_suite_mask == 0
        &&& self.os_product_type == 0
        &&& self.status == 0
        &&& self.final_phase == WindowsCrashPhase::Inactive
    }
}

impl Default for WindowsCrashReport {
    /// The document with every field at its default.
    fn default() -> (r: Self)
        ensures
            r.is_default_spec(),
    {
        WindowsCrashReport {
            dump_file: String::new(),
            os_major_version: 0,
            os_minor_version: 0,
            os_build_number: 0,
            os_service_pack_major_version: 0,
            os_service_pack_minor_version: 0,
            os_suite_mask: 0,
            os_product_type: 0,
            status: 0,
            final_phase: WindowsCrashPhase::default(),
        }
    }
}

/// crash information reported through CrashReport notifications
#[derive(Debug, Clone, PartialEq)]
pub struct CrashReport {
    pub system_id: String,
    pub activity_id: GuidSerde,
    pub windows_crash_info: Option<WindowsCrashReport>,
    pub crash_parameters: Vec<u64>,
    pub crash_log: String,
}

impl CrashReport {
    /// The document is at its default: every string is empty, every list is
    /// empty, every optional part is absent and every GUID is null.
    pub open spec fn is_default_spec(&self) -> bool {
        &&& self.system_id@ == Seq::<char>::empty()
        &&& self.activity_id.is_default_spec()
        &&& self.windows_crash_info is None
        &&& self.crash_parameters@ == Seq::<u64>::empty()
        &&& self.crash_log@ == Seq::<char>::empty()
    }
}

impl Default for CrashReport {
    /// The document with every field at its default.
    fn default() -> (r: Self)
        ensures
            r.is_default_spec(),
    {
        CrashReport {
            system_id: String::new(),
            activity_id: GuidSerde::default(),
            windows_crash_info: None,
            crash_parameters: Vec::new(),
            crash_log: String::new(),
        }
    }
}

} // verus!
