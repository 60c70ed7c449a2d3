//! What the control plane asks of the fleet: the configuration every VM is
//! created from, the chains of engine operations that create, restore and
//! snapshot a VM, and the calls to the agent inside a guest.

use crate::api::{
    boot_source_request, drive_request, instance_start_request, snapshot_create_request,
    state_request, RunState,
};
use crate::error::{VmError, VmErrorView};
use crate::step::{failure, Outcome, OutcomeView, Step, StepView};
use crate::text::{concat2, same_text, views};
use crate::transition::{Progress, Transition};
use crate::vm::models::{
    LoadSnapshotRequest, LoadSnapshotRequestView, SnapshotType, VmBootSource, VmBootSourceView,
    VmDrive, VmDriveView, VmSnapshotRequest, VmSnapshotRequestView,
};
use crate::vm::{
    call, load_plan, logger_plan, network_plan, planned, with_boot_source, with_guest_address,
    with_network, VirtualMachine, VmNotStarted, VmStarted, VmStateView,
};
use vstd::prelude::*;
use vstd::string::*;

verus! {

/// The address of the guest inside its namespace.
pub const GUEST_ADDRESS: &'static str = "172.16.0.2";

/// The address of the tap device, which the guest uses as its gateway.
pub const BRIDGE_IP: &'static str = "172.16.0.1";

/// The port the agent inside the guest listens on.
pub const GUEST_PORT: u16 = 3000;

/// What every VM of the fleet is created from.
#[derive(Debug, PartialEq, Eq)]
pub struct VmConfig {
    pub host_network_interface: String,
    pub firecracker_path: String,
    pub kernel_image_path: String,
    pub boot_args: String,
    pub root_fs_path: String,
}

pub struct VmConfigView {
    pub host_network_interface: Seq<char>,
    pub firecracker_path: Seq<char>,
    pub kernel_image_path: Seq<char>,
    pub boot_args: Seq<char>,
    pub root_fs_path: Seq<char>,
}

impl View for VmConfig {
    type V = VmConfigView;

    open spec fn view(&self) -> VmConfigView {
        VmConfigView {
            host_network_interface: self.host_network_interface@,
            firecracker_path: self.firecracker_path@,
            kernel_image_path: self.kernel_image_path@,
            boot_args: self.boot_args@,
            root_fs_path: self.root_fs_path@,
        }
    }
}

/// The boot source that `config` asks for.
pub open spec fn boot_source_of(config: VmConfigView) -> VmBootSourceView {
    VmBootSourceView { kernel_image_path: config.kernel_image_path, boot_args: config.boot_args }
}

/// The VM's own copy of the root file system.
pub open spec fn rootfs_path(state: VmStateView) -> Seq<char> {
    state.data_directory + "/rootfs"@
}

/// The drive that the VM's copy of the root file system is attached as.
pub open spec fn rootfs_drive(state: VmStateView) -> VmDriveView {
    VmDriveView {
        drive_id: "rootfs"@,
        path_on_host: rootfs_path(state),
        is_root_device: true,
        is_read_only: false,
    }
}

/// The record of the VM `state` once it has been created from `config`.
pub open spec fn provisioned(state: VmStateView, config: VmConfigView) -> VmStateView {
    with_boot_source(
        with_network(state),
        with_guest_address(boot_source_of(config), "172.16.0.2"@, "172.16.0.1"@),
    )
}

/// What leads from a VM whose hypervisor listens to a VM whose guest runs:
/// the log is configured, the boot source is set, the guest gets its network
/// interface, the root file system is copied into the VM's directory and
/// attached as the root drive, and the guest is booted.
pub open spec fn provision_plan(state: VmStateView, config: VmConfigView) -> Seq<StepView> {
    let source = boot_source_of(config);
    let socket = state.socket_path();
    logger_plan(state) + call(boot_source_request(socket, source)) + network_plan(
        with_boot_source(state, source),
        source,
        config.host_network_interface,
        "172.16.0.2"@,
        "172.16.0.1"@,
    ) + seq![StepView::CopyFile { from: config.root_fs_path, to: rootfs_path(state) }] + call(
        drive_request(socket, rootfs_drive(state)),
    ) + call(instance_start_request(socket))
}

/// Chains the operations that lead from a VM whose hypervisor listens to a
/// VM whose guest runs.
pub fn provision(vm: VirtualMachine<VmNotStarted>, config: &VmConfig) -> (out: Transition<
    VirtualMachine<VmStarted>,
>)
    ensures
        planned(out, provision_plan(vm@, config@), provisioned(vm@, config@)),
{
    let source = VmBootSource {
        kernel_image_path: config.kernel_image_path.clone(),
        boot_args: config.boot_args.clone(),
    };
    let ghost state = vm@;
    let ghost plan = provision_plan(vm@, config@);
    let (mut steps, vm, _) = vm.with_logger().into_parts();
    let (mut more, vm, _) = vm.setup_boot_source(source).into_parts();
    steps.append(&mut more);
    let pending = vm.add_network_interface(
        config.host_network_interface.as_str(),
        "172.16.0.2",
        "172.16.0.1",
    );
    let operation = match pending {
        Progress::Pending(operation) => operation,
        _ => vstd::pervasive::unreached(),
    };
    let (mut more, vm, _) = operation.into_parts();
    steps.append(&mut more);
    let rootfs = concat2(vm.vm_state().data_directory.as_str(), "/rootfs");
    steps.push(Step::CopyFile { from: config.root_fs_path.clone(), to: rootfs.clone() });
    let drive = VmDrive {
        drive_id: String::from_str("rootfs"),
        path_on_host: rootfs,
        is_root_device: true,
        is_read_only: false,
    };
    let (mut more, vm, _) = vm.with_drive(drive).into_parts();
    steps.append(&mut more);
    let (mut more, vm, cleanup) = vm.start().into_parts();
    steps.append(&mut more);
    assert(views(steps@) =~= plan);
    Transition::new(steps, vm, cleanup)
}

/// What leads from a VM whose hypervisor listens to a VM whose guest runs
/// again as it was when the snapshot was written: the log is configured, the
/// snapshot is loaded, and the guest is resumed.
pub open spec fn restore_plan(
    state: VmStateView,
    config: VmConfigView,
    request: LoadSnapshotRequestView,
) -> Seq<StepView> {
    logger_plan(state) + load_plan(state, config.host_network_interface, request) + call(
        state_request(state.socket_path(), RunState::Resumed),
    )
}

/// Chains the operations that restore a VM from a snapshot and let it run.
pub fn restore(
    vm: VirtualMachine<VmNotStarted>,
    config: &VmConfig,
    load_snapshot_request: LoadSnapshotRequest,
) -> (out: Transition<VirtualMachine<VmStarted>>)
    ensures
        planned(out, restore_plan(vm@, config@, load_snapshot_request@), with_network(vm@)),
{
    let ghost plan = restore_plan(vm@, config@, load_snapshot_request@);
    let (mut steps, vm, _) = vm.with_logger().into_parts();
    let (mut more, vm, _) = vm.load_snapshot(
        config.host_network_interface.as_str(),
        load_snapshot_request,
    ).into_parts();
    steps.append(&mut more);
    let (mut more, vm, cleanup) = vm.resume_vm().into_parts();
    steps.append(&mut more);
    assert(views(steps@) =~= plan);
    Transition::new(steps, vm, cleanup)
}

/// The snapshot that is written of the VM `state`: a full one, into the
/// files `snapshot_path` and `mem_file` of the VM's directory.
pub open spec fn snapshot_request_of(state: VmStateView) -> VmSnapshotRequestView {
    VmSnapshotRequestView {
        snapshot_type: SnapshotType::Full,
        snapshot_path: state.data_directory + "/snapshot_path"@,
        mem_file_path: state.data_directory + "/mem_file"@,
        version: "1.1.0"@,
    }
}

/// What writing a snapshot of a running VM takes: the guest is halted, the
/// snapshot is written, and the guest runs again.
pub open spec fn snapshot_plan(state: VmStateView) -> Seq<StepView> {
    let socket = state.socket_path();
    call(state_request(socket, RunState::Paused)) + call(
        snapshot_create_request(socket, snapshot_request_of(state)),
    ) + call(state_request(socket, RunState::Resumed))
}

/// Chains the operations that write a snapshot of a running VM and let it
/// run again.
pub fn snapshot_cycle(vm: VirtualMachine<VmStarted>) -> (out: Transition<
    VirtualMachine<VmStarted>,
>)
    ensures
        planned(out, snapshot_plan(vm@), vm@),
{
    let ghost plan = snapshot_plan(vm@);
    let directory = vm.vm_state().data_directory.clone();
    let request = VmSnapshotRequest {
        snapshot_type: SnapshotType::Full,
        snapshot_path: concat2(directory.as_str(), "/snapshot_path"),
        mem_file_path: concat2(directory.as_str(), "/mem_file"),
        version: String::from_str("1.1.0"),
    };
    let (mut steps, vm, _) = vm.pause_vm().into_parts();
    let (mut more, vm, _) = vm.snapshot_vm(&request).into_parts();
    steps.append(&mut more);
    let (mut more, vm, cleanup) = vm.resume_vm().into_parts();
    steps.append(&mut more);
    assert(views(steps@) =~= plan);
    Transition::new(steps, vm, cleanup)
}

/// What the agent inside a guest can be asked.
#[derive(Clone, Copy, Debug, PartialEq, Eq, Structural)]
pub enum GuestAction {
    Ping,
    Shutdown,
    GetDmesg,
}

/// What the control plane can ask about one VM.
#[derive(Clone, Copy, Debug, PartialEq, Eq, Structural)]
pub enum ControlAction {
    /// A call to the agent inside the guest.
    Guest(GuestAction),
    /// A snapshot of the VM.
    Snapshot,
}

/// The action that the control plane names `text`.
pub open spec fn action_named(text: Seq<char>) -> Option<ControlAction> {
    if text == "ping"@ {
        Some(ControlAction::Guest(GuestAction::Ping))
    } else if text == "shutdown"@ {
        Some(ControlAction::Guest(GuestAction::Shutdown))
    } else if text == "get-dmesg"@ {
        Some(ControlAction::Guest(GuestAction::GetDmesg))
    } else if text == "snapshot"@ {
        Some(ControlAction::Snapshot)
    } else {
        None
    }
}

/// Reads the name of an action.
pub fn parse_action(text: &str) -> (out: Option<ControlAction>)
    ensures
        out == action_named(text@),
{
    if same_text(text, "ping") {
        Some(ControlAction::Guest(GuestAction::Ping))
    } else if same_text(text, "shutdown") {
        Some(ControlAction::Guest(GuestAction::Shutdown))
    } else if same_text(text, "get-dmesg") {
        Some(ControlAction::Guest(GuestAction::GetDmesg))
    } else if same_text(text, "snapshot") {
        Some(ControlAction::Snapshot)
    } else {
        None
    }
}

/// A call to the agent inside a guest: the namespace to enter, the address
/// to connect to inside it, and what to ask. The thread that enters the
/// namespace makes the call and leaves the namespace again, however the
/// call ends: `after` says what to do at each stage.
#[derive(Debug, PartialEq, Eq)]
pub struct GuestCall {
    pub namespace: String,
    pub address: String,
    pub port: u16,
    pub action: GuestAction,
}

pub struct GuestCallView {
    pub namespace: Seq<char>,
    pub address: Seq<char>,
    pub port: u16,
    pub action: GuestAction,
}

impl View for GuestCall {
    type V = GuestCallView;

    open spec fn view(&self) -> GuestCallView {
        GuestCallView {
            namespace: self.namespace@,
            address: self.address@,
            port: self.port,
            action: self.action,
        }
    }
}

/// Where a call to the agent inside a guest stands.
#[derive(Clone, Copy, Debug, PartialEq, Eq, Structural)]
pub enum GuestStage {
    /// The guest's namespace is being entered.
    Entering,
    /// The namespace is entered, and the agent is being asked.
    Asking,
    /// The agent has been asked, and the namespace is being left. `answered`
    /// says whether the agent answered.
    Leaving { answered: bool },
}

/// How a call to the agent inside a guest ended.
#[derive(Debug, PartialEq, Eq)]
pub enum GuestEnd {
    /// The agent answered, and the thread is back where it came from.
    Answered,
    /// The agent did not answer. What went wrong with the call is the
    /// error, whatever became of leaving the namespace.
    Unanswered,
    /// The namespace could not be entered, or could not be left after the
    /// agent had answered.
    Failed(VmError),
}

pub enum GuestEndView {
    Answered,
    Unanswered,
    Failed(VmErrorView),
}

impl View for GuestEnd {
    type V = GuestEndView;

    open spec fn view(&self) -> GuestEndView {
        match self {
            GuestEnd::Answered => GuestEndView::Answered,
            GuestEnd::Unanswered => GuestEndView::Unanswered,
            GuestEnd::Failed(error) => GuestEndView::Failed(error@),
        }
    }
}

/// What comes next in a call to the agent inside a guest.
#[derive(Debug, PartialEq, Eq)]
pub enum GuestNext {
    /// The call goes on with this stage.
    Go(GuestStage),
    /// The call is over.
    Finish(GuestEnd),
}

pub enum GuestNextView {
    Go(GuestStage),
    Finish(GuestEndView),
}

impl View for GuestNext {
    type V = GuestNextView;

    open spec fn view(&self) -> GuestNextView {
        match self {
            GuestNext::Go(stage) => GuestNextView::Go(*stage),
            GuestNext::Finish(end) => GuestNextView::Finish(end@),
        }
    }
}

/// What follows the stage `stage` of a call into the namespace `namespace`,
/// when `went` is how the stage went. A namespace that cannot be entered ends
/// the call at once. Once it is entered the agent is asked, and whatever
/// comes of that, the namespace is left before the call ends.
pub open spec fn guest_next(
    namespace: Seq<char>,
    stage: GuestStage,
    went: OutcomeView,
) -> GuestNextView {
    match stage {
        GuestStage::Entering => match failure(StepView::EnterNamespace { name: namespace }, went) {
            Some(error) => GuestNextView::Finish(GuestEndView::Failed(error)),
            None => GuestNextView::Go(GuestStage::Asking),
        },
        GuestStage::Asking => GuestNextView::Go(GuestStage::Leaving { answered: !(went is Failed) }),
        GuestStage::Leaving { answered } => if !answered {
            GuestNextView::Finish(GuestEndView::Unanswered)
        } else {
            match failure(StepView::LeaveNamespace, went) {
                Some(error) => GuestNextView::Finish(GuestEndView::Failed(error)),
                None => GuestNextView::Finish(GuestEndView::Answered),
            }
        },
    }
}

/// A namespace that was entered is left on every path: asking is always
/// followed by leaving, and a call ends without leaving only where the
/// namespace was never entered. The one error of entering and of leaving is
/// `NamespaceEnterFailed`.
pub proof fn lemma_entered_namespace_is_left(namespace: Seq<char>, went: OutcomeView)
    ensures
        guest_next(namespace, GuestStage::Asking, went) matches GuestNextView::Go(stage)
            && stage is Leaving,
        guest_next(namespace, GuestStage::Entering, went) == if went is Failed {
            GuestNextView::Finish(GuestEndView::Failed(VmErrorView::NamespaceEnterFailed))
        } else {
            GuestNextView::Go(GuestStage::Asking)
        },
        guest_next(namespace, GuestStage::Leaving { answered: true }, went) == if went is Failed {
            GuestNextView::Finish(GuestEndView::Failed(VmErrorView::NamespaceEnterFailed))
        } else {
            GuestNextView::Finish(GuestEndView::Answered)
        },
        guest_next(namespace, GuestStage::Leaving { answered: false }, went)
            == GuestNextView::Finish(GuestEndView::Unanswered),
{
}

impl GuestCall {
    /// The step to carry out before the call.
    pub fn enter(&self) -> (out: Step)
        ensures
            out@ == (StepView::EnterNamespace { name: self@.namespace }),
    {
        Step::EnterNamespace { name: self.namespace.clone() }
    }

    /// The step to carry out after the call, however it ended.
    pub fn leave(&self) -> (out: Step)
        ensures
            out@ == StepView::LeaveNamespace,
    {
        Step::LeaveNamespace
    }

    /// Takes note of how the stage `stage` of this call went and says what
    /// comes next. The call begins with `Entering`. `went` is the outcome of
    /// the step `enter` for `Entering`, that of asking the agent for `Asking`,
    /// and that of the step `leave` for `Leaving`.
    pub fn after(&self, stage: GuestStage, went: &Outcome) -> (out: GuestNext)
        ensures
            out@ == guest_next(self@.namespace, stage, went@),
    {
        match stage {
            GuestStage::Entering => match self.enter().judge(went) {
                Some(error) => GuestNext::Finish(GuestEnd::Failed(error)),
                None => GuestNext::Go(GuestStage::Asking),
            },
            GuestStage::Asking => match went {
                Outcome::Failed { .. } => GuestNext::Go(GuestStage::Leaving { answered: false }),
                _ => GuestNext::Go(GuestStage::Leaving { answered: true }),
            },
            GuestStage::Leaving { answered } => if !answered {
                GuestNext::Finish(GuestEnd::Unanswered)
            } else {
                match self.leave().judge(went) {
                    Some(error) => GuestNext::Finish(GuestEnd::Failed(error)),
                    None => GuestNext::Finish(GuestEnd::Answered),
                }
            },
        }
    }
}

} // verus!
