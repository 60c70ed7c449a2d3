//! The steps an engine operation asks for, and what a driver reports of each.

use crate::api::{refusal, ApiRequest, ApiRequestView, ApiResponse, ApiResponseView};
use crate::cmd::{CommandLine, CommandLineView};
use crate::error::{VmError, VmErrorView};
use crate::id::VmId;
use vstd::prelude::*;
use vstd::string::*;

verus! {

/// One thing to do on the host.
#[derive(Debug, PartialEq, Eq)]
pub enum Step {
    /// Make `path` an existing, empty directory: remove it first if it is
    /// there.
    ResetDirectory { path: String },
    /// Create the empty file `path`.
    CreateFile { path: String },
    /// Copy the file `from` to `to`.
    CopyFile { from: String, to: String },
    /// Run a host program and wait for it; its exit status does not matter.
    Run { command: CommandLine },
    /// Start the hypervisor of the VM `vm_id` as a child process.
    Spawn { vm_id: VmId, command: CommandLine },
    /// Terminate the hypervisor child of the VM `vm_id` and wait for it.
    Terminate { vm_id: VmId },
    /// Wait.
    Sleep { millis: u64 },
    /// Send a request to the hypervisor.
    Call { request: ApiRequest },
    /// Open a userfault file descriptor with these flags, hand it to the
    /// hypervisor as ancillary data on its socket `socket_path`, and from then
    /// on answer its events from the memory file `memory_file`, until the
    /// guest's memory is unmapped or removed.
    OpenUffd {
        memory_file: String,
        socket_path: String,
        close_on_exec: bool,
        non_blocking: bool,
        user_mode_only: bool,
    },
    /// Move the current thread into the network namespace `name`, unless it
    /// is there already. The thread stays with the caller until it has left
    /// the namespace again.
    EnterNamespace { name: String },
    /// Move the current thread back into the namespace it was in before it
    /// entered another.
    LeaveNamespace,
}

pub enum StepView {
    ResetDirectory { path: Seq<char> },
    CreateFile { path: Seq<char> },
    CopyFile { from: Seq<char>, to: Seq<char> },
    Run { command: CommandLineView },
    Spawn { vm_id: VmId, command: CommandLineView },
    Terminate { vm_id: VmId },
    Sleep { millis: u64 },
    Call { request: ApiRequestView },
    OpenUffd {
        memory_file: Seq<char>,
        socket_path: Seq<char>,
        close_on_exec: bool,
        non_blocking: bool,
        user_mode_only: bool,
    },
    EnterNamespace { name: Seq<char> },
    LeaveNamespace,
}

impl View for Step {
    type V = StepView;

    open spec fn view(&self) -> StepView {
        match self {
            Step::ResetDirectory { path } => StepView::ResetDirectory { path: path@ },
            Step::CreateFile { path } => StepView::CreateFile { path: path@ },
            Step::CopyFile { from, to } => StepView::CopyFile { from: from@, to: to@ },
            Step::Run { command } => StepView::Run { command: command@ },
            Step::Spawn { vm_id, command } => StepView::Spawn {
                vm_id: *vm_id,
                command: command@,
            },
            Step::Terminate { vm_id } => StepView::Terminate { vm_id: *vm_id },
            Step::Sleep { millis } => StepView::Sleep { millis: *millis },
            Step::Call { request } => StepView::Call { request: request@ },
            Step::OpenUffd {
                memory_file,
                socket_path,
                close_on_exec,
                non_blocking,
                user_mode_only,
            } => {
                StepView::OpenUffd {
                    memory_file: memory_file@,
                    socket_path: socket_path@,
                    close_on_exec: *close_on_exec,
                    non_blocking: *non_blocking,
                    user_mode_only: *user_mode_only,
                }
            },
            Step::EnterNamespace { name } => StepView::EnterNamespace { name: name@ },
            Step::LeaveNamespace => StepView::LeaveNamespace,
        }
    }
}

/// How a step went.
#[derive(Debug, PartialEq, Eq)]
pub enum Outcome {
    /// The step was carried out.
    Done,
    /// The hypervisor answered.
    Response(ApiResponse),
    /// The step could not be carried out: the program could not be started,
    /// the hypervisor could not be reached, the file operation failed.
    Failed { reason: String },
}

pub enum OutcomeView {
    Done,
    Response(ApiResponseView),
    Failed { reason: Seq<char> },
}

impl View for Outcome {
    type V = OutcomeView;

    open spec fn view(&self) -> OutcomeView {
        match self {
            Outcome::Done => OutcomeView::Done,
            Outcome::Response(response) => OutcomeView::Response(response@),
            Outcome::Failed { reason } => OutcomeView::Failed { reason: reason@ },
        }
    }
}

/// The error that a step which could not be carried out stands for. Waiting
/// and terminating the child never fail an operation.
pub open spec fn breakdown(step: StepView, reason: Seq<char>) -> Option<VmErrorView> {
    match step {
        StepView::ResetDirectory { .. } => Some(VmErrorView::SnapshotIO),
        StepView::CreateFile { .. } => Some(VmErrorView::SnapshotIO),
        StepView::CopyFile { .. } => Some(VmErrorView::SnapshotIO),
        StepView::Run { .. } => Some(VmErrorView::CommandSpawn),
        StepView::Spawn { .. } => Some(VmErrorView::CommandSpawn),
        StepView::Terminate { .. } => None,
        StepView::Sleep { .. } => None,
        StepView::Call { request } => Some(
            VmErrorView::HypervisorApi { endpoint: request.path, status: 0, body: reason },
        ),
        StepView::OpenUffd { .. } => Some(VmErrorView::UffdSetup),
        StepView::EnterNamespace { .. } => Some(VmErrorView::NamespaceEnterFailed),
        StepView::LeaveNamespace => Some(VmErrorView::NamespaceEnterFailed),
    }
}

/// The error, if any, that `outcome` means for `step`. A step that was
/// carried out is no error, and an answer counts only for a request.
pub open spec fn failure(step: StepView, outcome: OutcomeView) -> Option<VmErrorView> {
    match outcome {
        OutcomeView::Done => None,
        OutcomeView::Failed { reason } => breakdown(step, reason),
        OutcomeView::Response(response) => match step {
            StepView::Call { request } => refusal(request.path, response),
            _ => None,
        },
    }
}

impl Step {
    /// Judges how this step went.
    pub fn judge(&self, outcome: &Outcome) -> (out: Option<VmError>)
        ensures
            match failure(self@, outcome@) {
                Some(error) => out matches Some(e) && e@ == error,
                None => out is None,
            },
    {
        match outcome {
            Outcome::Done => None,
            Outcome::Failed { reason } => match self {
                Step::ResetDirectory { .. } => Some(VmError::SnapshotIO),
                Step::CreateFile { .. } => Some(VmError::SnapshotIO),
                Step::CopyFile { .. } => Some(VmError::SnapshotIO),
                Step::Run { .. } => Some(VmError::CommandSpawn),
                Step::Spawn { .. } => Some(VmError::CommandSpawn),
                Step::Terminate { .. } => None,
                Step::Sleep { .. } => None,
                Step::Call { request } => Some(
                    VmError::HypervisorApi {
                        endpoint: request.path.clone(),
                        status: 0,
                        body: reason.clone(),
                    },
                ),
                Step::OpenUffd { .. } => Some(VmError::UffdSetup),
                Step::EnterNamespace { .. } => Some(VmError::NamespaceEnterFailed),
                Step::LeaveNamespace => Some(VmError::NamespaceEnterFailed),
            },
            Outcome::Response(response) => match self {
                Step::Call { request } => match response.check(request.path.as_str()) {
                    Ok(_) => None,
                    Err(error) => Some(error),
                },
                _ => None,
            },
        }
    }
}

} // verus!
