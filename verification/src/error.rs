//! The ways an engine operation can fail.

use crate::text::{decimal, decimal_text};
use vstd::prelude::*;
use vstd::string::*;

verus! {

/// Why an operation did not succeed.
#[derive(Debug, PartialEq, Eq)]
pub enum VmError {
    /// A host program could not be started.
    CommandSpawn,
    /// The hypervisor's socket did not appear in time.
    SocketNotReady,
    /// The hypervisor refused a request, or could not be reached: then
    /// `status` is 0 and `body` says why.
    HypervisorApi { endpoint: String, status: u16, body: String },
    /// A network interface was asked for before any boot source was set.
    BootSourceMissing,
    /// The identifier already belongs to a VM in the registry.
    IdInUse,
    /// The registry holds no VM with that identifier.
    VmNotFound,
    /// A network namespace could not be entered: the VM's, or on the way
    /// back the one the thread came from.
    NamespaceEnterFailed,
    /// An offset lies outside a memory mapping.
    MappingBounds,
    /// No userfault file descriptor could be opened.
    UffdSetup,
    /// A file operation on the VM's persisted state failed.
    SnapshotIO,
}

/// What a `VmError` stands for.
pub enum VmErrorView {
    CommandSpawn,
    SocketNotReady,
    HypervisorApi { endpoint: Seq<char>, status: u16, body: Seq<char> },
    BootSourceMissing,
    IdInUse,
    VmNotFound,
    NamespaceEnterFailed,
    MappingBounds,
    UffdSetup,
    SnapshotIO,
}

impl View for VmError {
    type V = VmErrorView;

    open spec fn view(&self) -> VmErrorView {
        match self {
            VmError::CommandSpawn => VmErrorView::CommandSpawn,
            VmError::SocketNotReady => VmErrorView::SocketNotReady,
            VmError::HypervisorApi { endpoint, status, body } => VmErrorView::HypervisorApi {
                endpoint: endpoint@,
                status: *status,
                body: body@,
            },
            VmError::BootSourceMissing => VmErrorView::BootSourceMissing,
            VmError::IdInUse => VmErrorView::IdInUse,
            VmError::VmNotFound => VmErrorView::VmNotFound,
            VmError::NamespaceEnterFailed => VmErrorView::NamespaceEnterFailed,
            VmError::MappingBounds => VmErrorView::MappingBounds,
            VmError::UffdSetup => VmErrorView::UffdSetup,
            VmError::SnapshotIO => VmErrorView::SnapshotIO,
        }
    }
}

impl VmErrorView {
    /// The error in words.
    pub open spec fn text(self) -> Seq<char> {
        match self {
            VmErrorView::CommandSpawn => "A host program could not be started"@,
            VmErrorView::SocketNotReady => "Firecracker socket did not appear within 500ms"@,
            VmErrorView::HypervisorApi { endpoint, status, body } => "Hypervisor answered "@
                + endpoint + " with status "@ + decimal_text(status as nat) + ": "@ + body,
            VmErrorView::BootSourceMissing => "Boot source must be set before adding a network interface"@,
            VmErrorView::IdInUse => "VM id is in use"@,
            VmErrorView::VmNotFound => "No VM with that id present"@,
            VmErrorView::NamespaceEnterFailed => "Network namespace could not be entered"@,
            VmErrorView::MappingBounds => "Offset lies outside the memory mapping"@,
            VmErrorView::UffdSetup => "Userfault file descriptor could not be opened"@,
            VmErrorView::SnapshotIO => "File operation on the VM's data failed"@,
        }
    }
}

impl VmError {
    /// The error in words.
    pub fn describe(&self) -> (out: String)
        ensures
            out@ == self@.text(),
    {
        match self {
            VmError::CommandSpawn => String::from_str("A host program could not be started"),
            VmError::SocketNotReady => String::from_str(
                "Firecracker socket did not appear within 500ms",
            ),
            VmError::HypervisorApi { endpoint, status, body } => {
                let number = decimal(*status as u64);
                let mut out = String::from_str("Hypervisor answered ");
                out.append(endpoint.as_str());
                out.append(" with status ");
                out.append(number.as_str());
                out.append(": ");
                out.append(body.as_str());
                out
            },
            VmError::BootSourceMissing => String::from_str(
                "Boot source must be set before adding a network interface",
            ),
            VmError::IdInUse => String::from_str("VM id is in use"),
            VmError::VmNotFound => String::from_str("No VM with that id present"),
            VmError::NamespaceEnterFailed => String::from_str(
                "Network namespace could not be entered",
            ),
            VmError::MappingBounds => String::from_str("Offset lies outside the memory mapping"),
            VmError::UffdSetup => String::from_str(
                "Userfault file descriptor could not be opened",
            ),
            VmError::SnapshotIO => String::from_str("File operation on the VM's data failed"),
        }
    }
}

} // verus!
