//! The records exchanged with the hypervisor. Field names are those of the
//! hypervisor's wire format.

use vstd::prelude::*;
use vstd::string::*;

verus! {

/// The kernel to boot and its command line.
#[derive(Debug, PartialEq, Eq)]
pub struct VmBootSource {
    pub kernel_image_path: String,
    pub boot_args: String,
}

pub struct VmBootSourceView {
    pub kernel_image_path: Seq<char>,
    pub boot_args: Seq<char>,
}

impl View for VmBootSource {
    type V = VmBootSourceView;

    open spec fn view(&self) -> VmBootSourceView {
        VmBootSourceView {
            kernel_image_path: self.kernel_image_path@,
            boot_args: self.boot_args@,
        }
    }
}

impl Clone for VmBootSource {
    fn clone(&self) -> (out: Self)
        ensures
            out@ == self@,
    {
        VmBootSource {
            kernel_image_path: self.kernel_image_path.clone(),
            boot_args: self.boot_args.clone(),
        }
    }
}

/// A block device of the guest, backed by a file on the host.
#[derive(Debug, PartialEq, Eq)]
pub struct VmDrive {
    pub drive_id: String,
    pub path_on_host: String,
    pub is_root_device: bool,
    pub is_read_only: bool,
}

pub struct VmDriveView {
    pub drive_id: Seq<char>,
    pub path_on_host: Seq<char>,
    pub is_root_device: bool,
    pub is_read_only: bool,
}

impl View for VmDrive {
    type V = VmDriveView;

    open spec fn view(&self) -> VmDriveView {
        VmDriveView {
            drive_id: self.drive_id@,
            path_on_host: self.path_on_host@,
            is_root_device: self.is_root_device,
            is_read_only: self.is_read_only,
        }
    }
}

impl Clone for VmDrive {
    fn clone(&self) -> (out: Self)
        ensures
            out@ == self@,
    {
        VmDrive {
            drive_id: self.drive_id.clone(),
            path_on_host: self.path_on_host.clone(),
            is_root_device: self.is_root_device,
            is_read_only: self.is_read_only,
        }
    }
}

/// A network interface of the guest, backed by a tap device on the host.
#[derive(Debug, PartialEq, Eq)]
pub struct VmNetworkInterface {
    pub iface_id: String,
    pub guest_mac: String,
    pub host_dev_name: String,
}

pub struct VmNetworkInterfaceView {
    pub iface_id: Seq<char>,
    pub guest_mac: Seq<char>,
    pub host_dev_name: Seq<char>,
}

impl View for VmNetworkInterface {
    type V = VmNetworkInterfaceView;

    open spec fn view(&self) -> VmNetworkInterfaceView {
        VmNetworkInterfaceView {
            iface_id: self.iface_id@,
            guest_mac: self.guest_mac@,
            host_dev_name: self.host_dev_name@,
        }
    }
}

impl Clone for VmNetworkInterface {
    fn clone(&self) -> (out: Self)
        ensures
            out@ == self@,
    {
        VmNetworkInterface {
            iface_id: self.iface_id.clone(),
            guest_mac: self.guest_mac.clone(),
            host_dev_name: self.host_dev_name.clone(),
        }
    }
}

/// How much the hypervisor logs.
#[derive(Clone, Copy, Debug, PartialEq, Eq, Structural)]
pub enum LogLevel {
    Error,
    Warning,
    Info,
    Debug,
}

impl LogLevel {
    /// The level as the hypervisor reads it.
    pub open spec fn wire_text(self) -> Seq<char> {
        match self {
            LogLevel::Error => "Error"@,
            LogLevel::Warning => "Warning"@,
            LogLevel::Info => "Info"@,
            LogLevel::Debug => "Debug"@,
        }
    }

    /// The level as the hypervisor reads it.
    pub fn wire_name(&self) -> (out: &'static str)
        ensures
            out@ == self.wire_text(),
    {
        match self {
            LogLevel::Error => "Error",
            LogLevel::Warning => "Warning",
            LogLevel::Info => "Info",
            LogLevel::Debug => "Debug",
        }
    }
}

/// Where and how the hypervisor logs.
#[derive(Debug, PartialEq, Eq)]
pub struct VmLogger {
    pub log_path: String,
    pub level: LogLevel,
    pub show_level: bool,
    pub show_log_origin: bool,
}

pub struct VmLoggerView {
    pub log_path: Seq<char>,
    pub level: LogLevel,
    pub show_level: bool,
    pub show_log_origin: bool,
}

impl View for VmLogger {
    type V = VmLoggerView;

    open spec fn view(&self) -> VmLoggerView {
        VmLoggerView {
            log_path: self.log_path@,
            level: self.level,
            show_level: self.show_level,
            show_log_origin: self.show_log_origin,
        }
    }
}

impl Clone for VmLogger {
    fn clone(&self) -> (out: Self)
        ensures
            out@ == self@,
    {
        VmLogger {
            log_path: self.log_path.clone(),
            level: self.level,
            show_level: self.show_level,
            show_log_origin: self.show_log_origin,
        }
    }
}

/// The kinds of snapshot the hypervisor can write.
#[derive(Clone, Copy, Debug, PartialEq, Eq, Structural)]
pub enum SnapshotType {
    Full,
}

impl SnapshotType {
    /// The kind as the hypervisor reads it.
    pub open spec fn wire_text(self) -> Seq<char> {
        "Full"@
    }

    /// The kind as the hypervisor reads it.
    pub fn wire_name(&self) -> (out: &'static str)
        ensures
            out@ == self.wire_text(),
    {
        "Full"
    }
}

/// A request to write the VM's state and its memory to two files.
#[derive(Debug, PartialEq, Eq)]
pub struct VmSnapshotRequest {
    pub snapshot_type: SnapshotType,
    pub snapshot_path: String,
    pub mem_file_path: String,
    pub version: String,
}

pub struct VmSnapshotRequestView {
    pub snapshot_type: SnapshotType,
    pub snapshot_path: Seq<char>,
    pub mem_file_path: Seq<char>,
    pub version: Seq<char>,
}

impl View for VmSnapshotRequest {
    type V = VmSnapshotRequestView;

    open spec fn view(&self) -> VmSnapshotRequestView {
        VmSnapshotRequestView {
            snapshot_type: self.snapshot_type,
            snapshot_path: self.snapshot_path@,
            mem_file_path: self.mem_file_path@,
            version: self.version@,
        }
    }
}

impl Clone for VmSnapshotRequest {
    fn clone(&self) -> (out: Self)
        ensures
            out@ == self@,
    {
        VmSnapshotRequest {
            snapshot_type: self.snapshot_type,
            snapshot_path: self.snapshot_path.clone(),
            mem_file_path: self.mem_file_path.clone(),
            version: self.version.clone(),
        }
    }
}

/// Who serves the guest's memory when a snapshot is loaded: the hypervisor
/// from the memory file, or the engine through a userfault file descriptor.
#[derive(Clone, Copy, Debug, PartialEq, Eq, Structural)]
pub enum BackendType {
    File,
    Uffd,
}

impl BackendType {
    /// The backend as the hypervisor reads it.
    pub open spec fn wire_text(self) -> Seq<char> {
        match self {
            BackendType::File => "File"@,
            BackendType::Uffd => "Uffd"@,
        }
    }

    /// The backend as the hypervisor reads it.
    pub fn wire_name(&self) -> (out: &'static str)
        ensures
            out@ == self.wire_text(),
    {
        match self {
            BackendType::File => "File",
            BackendType::Uffd => "Uffd",
        }
    }
}

/// Where the guest's memory comes from when a snapshot is loaded.
#[derive(Debug, PartialEq, Eq)]
pub struct MemoryBackend {
    pub backend_path: String,
    pub backend_type: BackendType,
}

pub struct MemoryBackendView {
    pub backend_path: Seq<char>,
    pub backend_type: BackendType,
}

impl View for MemoryBackend {
    type V = MemoryBackendView;

    open spec fn view(&self) -> MemoryBackendView {
        MemoryBackendView { backend_path: self.backend_path@, backend_type: self.backend_type }
    }
}

impl Clone for MemoryBackend {
    fn clone(&self) -> (out: Self)
        ensures
            out@ == self@,
    {
        MemoryBackend {
            backend_path: self.backend_path.clone(),
            backend_type: self.backend_type,
        }
    }
}

/// A request to restore a VM from a snapshot.
#[derive(Debug, PartialEq, Eq)]
pub struct LoadSnapshotRequest {
    pub snapshot_path: String,
    pub mem_backend: MemoryBackend,
    pub enable_diff_snapshots: bool,
    pub resume_vm: bool,
}

pub struct LoadSnapshotRequestView {
    pub snapshot_path: Seq<char>,
    pub mem_backend: MemoryBackendView,
    pub enable_diff_snapshots: bool,
    pub resume_vm: bool,
}

impl View for LoadSnapshotRequest {
    type V = LoadSnapshotRequestView;

    open spec fn view(&self) -> LoadSnapshotRequestView {
        LoadSnapshotRequestView {
            snapshot_path: self.snapshot_path@,
            mem_backend: self.mem_backend@,
            enable_diff_snapshots: self.enable_diff_snapshots,
            resume_vm: self.resume_vm,
        }
    }
}

impl Clone for LoadSnapshotRequest {
    fn clone(&self) -> (out: Self)
        ensures
            out@ == self@,
    {
        LoadSnapshotRequest {
            snapshot_path: self.snapshot_path.clone(),
            mem_backend: self.mem_backend.clone(),
            enable_diff_snapshots: self.enable_diff_snapshots,
            resume_vm: self.resume_vm,
        }
    }
}

} // verus!
