//! The VM lifecycle engine: the record of one VM, the handle whose type says
//! which state the VM is in, and the operations that lead from one state to
//! the next.

pub mod memory;
pub mod models;

use crate::api::{
    boot_source_request, drive_request, instance_start_request, logger_request,
    network_interface_request, snapshot_create_request, snapshot_load_request, state_request,
    ApiRequest, ApiRequestView, HttpMethod, RequestBodyView, RunState,
};
use crate::cmd::{
    command_line, push_text, resolved, CommandLineView, CommandNamespace, NamespaceView,
};
use crate::error::{VmError, VmErrorView};
use crate::id::VmId;
use crate::net::{
    push_tap_setup, run_in, run_step, tap_release, tap_setup, VmNetwork, VmNetworkView,
};
use crate::step::{Step, StepView};
use crate::text::{concat2, texts, views};
use crate::transition::{Progress, Transition};
use crate::vm::models::{
    BackendType, LoadSnapshotRequest, LoadSnapshotRequestView, LogLevel, VmBootSource,
    VmBootSourceView, VmDrive, VmDriveView, VmLogger, VmLoggerView, VmNetworkInterface,
    VmNetworkInterfaceView, VmSnapshotRequest,
};
use std::marker::PhantomData;
use vstd::prelude::*;
use vstd::string::*;

verus! {

/// The name of the guest's network interface.
pub const GUEST_INTERFACE: &'static str = "eth0";

/// How long the hypervisor's socket is waited for, in milliseconds.
pub const SOCKET_TIMEOUT_MILLIS: u64 = 500;

/// How long to wait between two looks for the hypervisor's socket, in
/// milliseconds.
pub const SOCKET_POLL_MILLIS: u64 = 10;

/// How long a new tap device is given to settle, in milliseconds.
pub const TAP_SETTLE_MILLIS: u64 = 100;

/// The state of a VM whose hypervisor runs and has not booted the guest.
#[derive(Debug)]
pub struct VmNotStarted;

/// The state of a VM whose guest runs.
#[derive(Debug)]
pub struct VmStarted;

/// The state of a VM whose guest is halted and can be resumed.
#[derive(Debug)]
pub struct VmPaused;

/// The states a VM handle can be in.
pub trait FirecrackerState {

}

impl FirecrackerState for VmNotStarted {

}

impl FirecrackerState for VmStarted {

}

impl FirecrackerState for VmPaused {

}

/// The record of one VM.
#[derive(Debug, PartialEq, Eq)]
pub struct VmState {
    pub vm_id: VmId,
    pub data_directory: String,
    pub network_namespace: CommandNamespace,
    pub boot_source: Option<VmBootSource>,
    pub vm_network: Option<VmNetwork>,
}

pub struct VmStateView {
    pub vm_id: VmId,
    pub data_directory: Seq<char>,
    pub network_namespace: NamespaceView,
    pub boot_source: Option<VmBootSourceView>,
    pub vm_network: Option<VmNetworkView>,
}

impl View for VmState {
    type V = VmStateView;

    open spec fn view(&self) -> VmStateView {
        VmStateView {
            vm_id: self.vm_id,
            data_directory: self.data_directory@,
            network_namespace: self.network_namespace@,
            boot_source: match self.boot_source {
                Some(source) => Some(source@),
                None => None,
            },
            vm_network: match self.vm_network {
                Some(network) => Some(network@),
                None => None,
            },
        }
    }
}

impl VmStateView {
    /// The path of the hypervisor's socket.
    pub open spec fn socket_path(self) -> Seq<char> {
        self.data_directory + "/firecracker.socket"@
    }

    /// The path of the hypervisor's log file.
    pub open spec fn logger_path(self) -> Seq<char> {
        self.data_directory + "/firecracker.log"@
    }

    /// The record is that of a VM the engine has created: its directory is
    /// `/tmp/vm/<id>`, its namespace `fc-<id>`, and its tap device, if it has
    /// one, `fc-tap<id>`.
    pub open spec fn wf(self) -> bool {
        &&& self.data_directory == self.vm_id.directory_text()
        &&& self.network_namespace == NamespaceView::Named(self.vm_id.namespace_text())
        &&& self.vm_network matches Some(network) ==> network.tap_device_name
            == self.vm_id.tap_text()
    }

    /// What releasing the VM's network namespace takes: a named one is
    /// deleted, and everything in it goes with it.
    pub open spec fn namespace_release(self) -> Seq<StepView> {
        match self.network_namespace {
            NamespaceView::Named(name) => seq![
                run_in(NamespaceView::Global, "ip"@, seq!["netns"@, "del"@, name]),
            ],
            NamespaceView::Global => Seq::empty(),
        }
    }

    /// What releasing the VM's tap device takes.
    pub open spec fn network_release(self) -> Seq<StepView> {
        match self.vm_network {
            Some(network) => tap_release(self.network_namespace, network.tap_device_name),
            None => Seq::empty(),
        }
    }

    /// What giving the VM up takes, in this order: the hypervisor is
    /// terminated, the tap device is released, the namespace is released. The
    /// data directory stays.
    pub open spec fn teardown(self) -> Seq<StepView> {
        seq![StepView::Terminate { vm_id: self.vm_id }] + self.network_release()
            + self.namespace_release()
    }
}

impl VmState {
    /// The path of the hypervisor's socket.
    pub fn firecracker_socket_path(&self) -> (out: String)
        ensures
            out@ == self@.socket_path(),
    {
        concat2(self.data_directory.as_str(), "/firecracker.socket")
    }

    /// The path of the hypervisor's log file.
    pub fn firecracker_logger_path(&self) -> (out: String)
        ensures
            out@ == self@.logger_path(),
    {
        concat2(self.data_directory.as_str(), "/firecracker.log")
    }

    /// The network namespace the VM lives in.
    pub fn network_namespace(&self) -> (out: &CommandNamespace)
        ensures
            out@ == self@.network_namespace,
    {
        &self.network_namespace
    }

    /// The steps that give the VM up.
    pub fn teardown(&self) -> (out: Vec<Step>)
        ensures
            views(out@) == self@.teardown(),
    {
        let mut steps: Vec<Step> = Vec::new();
        steps.push(Step::Terminate { vm_id: self.vm_id });
        assert(views(steps@) =~= seq![StepView::Terminate { vm_id: self.vm_id }]);
        match &self.vm_network {
            Some(network) => {
                network.push_release(&mut steps, &self.network_namespace);
            },
            None => {},
        }
        assert(views(steps@) =~= seq![StepView::Terminate { vm_id: self.vm_id }]
            + self@.network_release());
        let ghost before = views(steps@);
        match &self.network_namespace {
            CommandNamespace::Named(name) => {
                steps.push(namespace_step("del", name.as_str()));
            },
            CommandNamespace::Global => {},
        }
        assert(views(steps@) =~= before + self@.namespace_release());
        steps
    }
}

/// The record of a VM that has just been created for `vm_id`.
pub open spec fn fresh_state(vm_id: VmId) -> VmStateView {
    VmStateView {
        vm_id,
        data_directory: vm_id.directory_text(),
        network_namespace: NamespaceView::Named(vm_id.namespace_text()),
        boot_source: None,
        vm_network: None,
    }
}

/// The record `state` with the boot source `source`.
pub open spec fn with_boot_source(state: VmStateView, source: VmBootSourceView) -> VmStateView {
    VmStateView { boot_source: Some(source), ..state }
}

/// The record `state` with the VM's tap device.
pub open spec fn with_network(state: VmStateView) -> VmStateView {
    VmStateView {
        vm_network: Some(VmNetworkView { tap_device_name: state.vm_id.tap_text() }),
        ..state
    }
}

/// The step that has `ip netns` add or delete the namespace `name`; `verb`
/// says which.
fn namespace_step(verb: &str, name: &str) -> (out: Step)
    ensures
        out@ == run_in(NamespaceView::Global, "ip"@, seq!["netns"@, verb@, name@]),
{
    let mut args: Vec<String> = Vec::new();
    push_text(&mut args, "netns");
    push_text(&mut args, verb);
    push_text(&mut args, name);
    assert(texts(args@) =~= seq!["netns"@, verb@, name@]);
    run_step(&CommandNamespace::Global, "ip", &args)
}

/// The command that starts the hypervisor `firecracker_path` for the VM
/// `state`, inside the VM's namespace, with `--api-sock` and its socket as
/// the two arguments.
pub open spec fn hypervisor_command(firecracker_path: Seq<char>, state: VmStateView) -> StepView {
    StepView::Spawn {
        vm_id: state.vm_id,
        command: resolved(
            state.network_namespace,
            firecracker_path,
            seq!["--api-sock"@, state.socket_path()],
        ),
    }
}

/// What creating the VM `vm_id` takes: its data directory is made new and
/// empty, its network namespace is created, and the hypervisor is started
/// inside it.
pub open spec fn launch_plan(firecracker_path: Seq<char>, vm_id: VmId) -> Seq<StepView> {
    seq![
        StepView::ResetDirectory { path: vm_id.directory_text() },
        run_in(NamespaceView::Global, "ip"@, seq!["netns"@, "add"@, vm_id.namespace_text()]),
        hypervisor_command(firecracker_path, fresh_state(vm_id)),
    ]
}

/// What configuring the hypervisor's log takes: the log file is created
/// empty, then the hypervisor is told to log to it at level `Debug`, showing
/// the level and the origin of each line.
pub open spec fn logger_plan(state: VmStateView) -> Seq<StepView> {
    seq![
        StepView::CreateFile { path: state.logger_path() },
        StepView::Call {
            request: logger_request(
                state.socket_path(),
                VmLoggerView {
                    log_path: state.logger_path(),
                    level: LogLevel::Debug,
                    show_level: true,
                    show_log_origin: true,
                },
            ),
        },
    ]
}

/// The one step that sends `request` to the hypervisor.
pub open spec fn call(request: ApiRequestView) -> Seq<StepView> {
    seq![StepView::Call { request }]
}

/// The boot source `source` with the guest's address, its interface and its
/// gateway appended to the kernel's command line.
pub open spec fn with_guest_address(
    source: VmBootSourceView,
    ip_address: Seq<char>,
    gateway_ip: Seq<char>,
) -> VmBootSourceView {
    VmBootSourceView {
        kernel_image_path: source.kernel_image_path,
        boot_args: source.boot_args + " IP_ADDRESS::"@ + ip_address + " IFACE::eth0 GATEWAY::"@
            + gateway_ip,
    }
}

/// The network interface of the guest of `vm_id`.
pub open spec fn guest_interface(vm_id: VmId) -> VmNetworkInterfaceView {
    VmNetworkInterfaceView {
        iface_id: "eth0"@,
        guest_mac: vm_id.mac_text(),
        host_dev_name: vm_id.tap_text(),
    }
}

/// What giving the VM `state`, whose boot source is `source`, a network
/// interface takes: the tap device is set up in the VM's namespace and given
/// time to settle, the interface is registered with the hypervisor, and the
/// boot source is set again with the guest's address on the command line.
pub open spec fn network_plan(
    state: VmStateView,
    source: VmBootSourceView,
    host_iface: Seq<char>,
    ip_address: Seq<char>,
    gateway_ip: Seq<char>,
) -> Seq<StepView> {
    tap_setup(state.network_namespace, state.vm_id.tap_text(), host_iface) + seq![
        StepView::Sleep { millis: TAP_SETTLE_MILLIS },
        StepView::Call {
            request: network_interface_request(
                state.socket_path(),
                guest_interface(state.vm_id),
            ),
        },
        StepView::Call {
            request: boot_source_request(
                state.socket_path(),
                with_guest_address(source, ip_address, gateway_ip),
            ),
        },
    ]
}

/// The request `request` as the engine sends it: never resuming the VM.
pub open spec fn without_resume(request: LoadSnapshotRequestView) -> LoadSnapshotRequestView {
    LoadSnapshotRequestView { resume_vm: false, ..request }
}

/// The step that opens the userfault file descriptor for `request`, if the
/// guest's memory is to be served that way: from the memory file that the
/// request names, to the hypervisor at `socket`.
pub open spec fn uffd_plan(socket: Seq<char>, request: LoadSnapshotRequestView) -> Seq<StepView> {
    if request.mem_backend.backend_type == BackendType::Uffd {
        seq![
            StepView::OpenUffd {
                memory_file: request.mem_backend.backend_path,
                socket_path: socket,
                close_on_exec: true,
                non_blocking: true,
                user_mode_only: true,
            },
        ]
    } else {
        Seq::empty()
    }
}

/// What restoring the VM `state` from a snapshot takes: the tap device is
/// set up, the userfault file descriptor is opened if the request asks for
/// it, and the hypervisor is told to load the snapshot without resuming.
pub open spec fn load_plan(
    state: VmStateView,
    host_iface: Seq<char>,
    request: LoadSnapshotRequestView,
) -> Seq<StepView> {
    tap_setup(state.network_namespace, state.vm_id.tap_text(), host_iface) + uffd_plan(
        state.socket_path(),
        request,
    ) + call(snapshot_load_request(state.socket_path(), without_resume(request)))
}

/// A VM. `T` is the state it is in, and decides what can be done with it.
#[derive(Debug)]
pub struct VirtualMachine<T: FirecrackerState> {
    vm_state: VmState,
    marker: PhantomData<T>,
}

impl<T: FirecrackerState> View for VirtualMachine<T> {
    type V = VmStateView;

    closed spec fn view(&self) -> VmStateView {
        self.vm_state@
    }
}

/// `operation` has the steps of `plan` before it and leads to a VM with the
/// record `goal`, which is that of a VM the engine has created; should the
/// operation fail, that VM is given up.
pub open spec fn planned<T: FirecrackerState>(
    operation: Transition<VirtualMachine<T>>,
    plan: Seq<StepView>,
    goal: VmStateView,
) -> bool {
    &&& operation.plan() == plan
    &&& operation.at() == 0
    &&& operation.goal()@ == goal
    &&& goal.wf()
    &&& operation.undo() == goal.teardown()
}

impl<T: FirecrackerState> VirtualMachine<T> {
    #[verifier::type_invariant]
    spec fn created_by_engine(&self) -> bool {
        self.vm_state@.wf()
    }

    /// The VM's record.
    pub fn vm_state(&self) -> (out: &VmState)
        ensures
            out@ == self@,
            self@.wf(),
    {
        proof {
            use_type_invariant(self);
        }
        &self.vm_state
    }

    /// The VM's identifier.
    pub fn get_vm_id(&self) -> (out: VmId)
        ensures
            out == self@.vm_id,
    {
        self.vm_state.vm_id
    }

    /// Gives the VM up. The steps are to be attempted one after the other,
    /// each whatever became of the one before.
    pub fn teardown(self) -> (out: Vec<Step>)
        ensures
            views(out@) == self@.teardown(),
    {
        self.vm_state.teardown()
    }

    /// The operation that sends `request` and leads to a VM with the record
    /// `vm_state`, in whatever state `U` is.
    fn after_call<U: FirecrackerState>(vm_state: VmState, request: ApiRequest) -> (out: Transition<
        VirtualMachine<U>,
    >)
        requires
            vm_state@.wf(),
        ensures
            planned(out, call(request@), vm_state@),
    {
        let mut steps: Vec<Step> = Vec::new();
        steps.push(Step::Call { request });
        assert(views(steps@) =~= call(request@));
        let cleanup = vm_state.teardown();
        Transition::new(steps, VirtualMachine { vm_state, marker: PhantomData }, cleanup)
    }
}

/// Giving up a VM that the engine has created takes two steps: the
/// hypervisor is terminated, then `ip netns del fc-<id>` deletes the VM's
/// namespace, and the tap device with it.
pub proof fn lemma_teardown_deletes_namespace(state: VmStateView)
    requires
        state.wf(),
    ensures
        state.teardown() == seq![
            StepView::Terminate { vm_id: state.vm_id },
            StepView::Run {
                command: CommandLineView {
                    program: "ip"@,
                    args: seq!["netns"@, "del"@, state.vm_id.namespace_text()],
                },
            },
        ],
{
    assert(state.teardown() =~= seq![
        StepView::Terminate { vm_id: state.vm_id },
        run_in(
            NamespaceView::Global,
            "ip"@,
            seq!["netns"@, "del"@, state.vm_id.namespace_text()],
        ),
    ]);
}

/// The hypervisor of a new VM is started as `ip netns exec fc-<id>
/// <hypervisor> --api-sock /tmp/vm/<id>/firecracker.socket`, with the
/// hypervisor's path as one argument whatever it holds.
pub proof fn lemma_hypervisor_command(firecracker_path: Seq<char>, vm_id: VmId)
    ensures
        hypervisor_command(firecracker_path, fresh_state(vm_id)) == (StepView::Spawn {
            vm_id,
            command: CommandLineView {
                program: "ip"@,
                args: seq![
                    "netns"@,
                    "exec"@,
                    vm_id.namespace_text(),
                    firecracker_path,
                    "--api-sock"@,
                    fresh_state(vm_id).socket_path(),
                ],
            },
        }),
{
    let args = seq!["--api-sock"@, fresh_state(vm_id).socket_path()];
    assert(seq!["netns"@, "exec"@, vm_id.namespace_text(), firecracker_path] + args =~= seq![
        "netns"@,
        "exec"@,
        vm_id.namespace_text(),
        firecracker_path,
        "--api-sock"@,
        fresh_state(vm_id).socket_path(),
    ]);
}

/// Whatever the request says, loading a snapshot sends one request to the
/// hypervisor, the last step of the operation, and that request asks not to
/// resume the VM.
pub proof fn lemma_load_never_resumes(
    state: VmStateView,
    host_iface: Seq<char>,
    request: LoadSnapshotRequestView,
)
    ensures
        load_plan(state, host_iface, request).len() > 0,
        load_plan(state, host_iface, request).last() == (StepView::Call {
            request: snapshot_load_request(state.socket_path(), without_resume(request)),
        }),
        !without_resume(request).resume_vm,
        forall|i: int|
            0 <= i < load_plan(state, host_iface, request).len() - 1 ==> !(#[trigger] load_plan(
                state,
                host_iface,
                request,
            )[i] is Call),
{
}

/// Halting a running VM, letting it run and halting it again leaves it
/// halted with the record it had when it was first halted, and the second
/// halt asks the hypervisor for what the first did.
pub proof fn lemma_pause_resume_pause(
    vm: VmStateView,
    first: Transition<VirtualMachine<VmPaused>>,
    back: Transition<VirtualMachine<VmStarted>>,
    again: Transition<VirtualMachine<VmPaused>>,
)
    requires
        planned(first, call(state_request(vm.socket_path(), RunState::Paused)), vm),
        planned(
            back,
            call(state_request(first.goal()@.socket_path(), RunState::Resumed)),
            first.goal()@,
        ),
        planned(
            again,
            call(state_request(back.goal()@.socket_path(), RunState::Paused)),
            back.goal()@,
        ),
    ensures
        again.goal()@ == first.goal()@,
        again.goal()@ == vm,
        again.plan() == first.plan(),
{
}

/// Attaching a drive under an id that a drive was attached under before is
/// no error on the engine's side: the operation is planned as the first was,
/// with a request to the same path that carries the new drive, and the VM's
/// record stays as it is.
pub proof fn lemma_drive_is_replaced(
    vm: VmStateView,
    drive: VmDriveView,
    replacement: VmDriveView,
    first: Transition<VirtualMachine<VmNotStarted>>,
    second: Transition<VirtualMachine<VmNotStarted>>,
)
    requires
        drive.drive_id == replacement.drive_id,
        planned(first, call(drive_request(vm.socket_path(), drive)), vm),
        planned(
            second,
            call(drive_request(first.goal()@.socket_path(), replacement)),
            first.goal()@,
        ),
    ensures
        second.goal()@ == vm,
        second.plan().len() == 1,
        second.plan()[0] matches StepView::Call { request } && request.method == HttpMethod::Put
            && request.path == "/drives/"@ + drive.drive_id && request.body
            == RequestBodyView::Drive(replacement),
{
}

/// A VM whose hypervisor has been started and whose socket is waited for.
#[derive(Debug)]
pub struct SocketWait {
    vm_state: VmState,
    waited_millis: u64,
}

impl View for SocketWait {
    type V = VmStateView;

    closed spec fn view(&self) -> VmStateView {
        self.vm_state@
    }
}

/// What a look for the hypervisor's socket leads to.
#[derive(Debug)]
pub enum Polled {
    /// The socket is there: the VM can be configured.
    Ready(VirtualMachine<VmNotStarted>),
    /// The socket is not there yet: look again after `sleep_millis`.
    Retry { wait: SocketWait, sleep_millis: u64 },
    /// The socket did not appear in time. The VM is lost: the steps of
    /// `cleanup` release it.
    TimedOut { error: VmError, cleanup: Vec<Step> },
}

/// What a look for the socket means, `waited` milliseconds after the first.
#[derive(Clone, Copy, Debug, PartialEq, Eq, Structural)]
pub enum Verdict {
    Ready,
    Retry,
    TimedOut,
}

/// The socket is waited for until it is there. A look that does not find it
/// is followed by another, `SOCKET_POLL_MILLIS` later, as long as that one
/// comes before `SOCKET_TIMEOUT_MILLIS` have passed since the first.
pub open spec fn verdict(waited: int, exists: bool) -> Verdict {
    if exists {
        Verdict::Ready
    } else if waited + SOCKET_POLL_MILLIS < SOCKET_TIMEOUT_MILLIS {
        Verdict::Retry
    } else {
        Verdict::TimedOut
    }
}

/// The wait for the socket is bounded: of looks that find nothing, the first
/// 49 are each followed by another, and the 50th, 490 milliseconds after the
/// first, ends the wait.
pub proof fn lemma_socket_wait_is_bounded(looks_before: nat)
    ensures
        looks_before < 49 ==> verdict(looks_before * SOCKET_POLL_MILLIS, false) is Retry,
        looks_before >= 49 ==> verdict(looks_before * SOCKET_POLL_MILLIS, false) is TimedOut,
        verdict(looks_before * SOCKET_POLL_MILLIS, true) is Ready,
{
}

impl SocketWait {
    #[verifier::type_invariant]
    spec fn within_limits(&self) -> bool {
        &&& self.vm_state@.wf()
        &&& self.waited_millis < SOCKET_TIMEOUT_MILLIS
    }

    /// The milliseconds since the first look.
    pub closed spec fn waited(&self) -> int {
        self.waited_millis as int
    }

    /// The path at which the socket is looked for.
    pub fn socket_path(&self) -> (out: String)
        ensures
            out@ == self@.socket_path(),
    {
        self.vm_state.firecracker_socket_path()
    }

    /// The milliseconds since the first look.
    pub fn waited_millis(&self) -> (out: u64)
        ensures
            out == self.waited(),
            0 <= self.waited() < SOCKET_TIMEOUT_MILLIS,
    {
        proof {
            use_type_invariant(self);
        }
        self.waited_millis
    }

    /// Takes note of a look for the socket: `exists` says whether it is
    /// there.
    pub fn poll(self, exists: bool) -> (out: Polled)
        ensures
            self@.wf(),
            match verdict(self.waited(), exists) {
                Verdict::Ready => out matches Polled::Ready(vm) && vm@ == self@,
                Verdict::Retry => out matches Polled::Retry { wait, sleep_millis } && wait@
                    == self@ && wait.waited() == self.waited() + SOCKET_POLL_MILLIS
                    && sleep_millis == SOCKET_POLL_MILLIS,
                Verdict::TimedOut => out matches Polled::TimedOut { error, cleanup } && error@
                    == VmErrorView::SocketNotReady && views(cleanup@) == self@.teardown(),
            },
    {
        proof {
            use_type_invariant(&self);
        }
        let SocketWait { vm_state, waited_millis } = self;
        if exists {
            Polled::Ready(VirtualMachine { vm_state, marker: PhantomData })
        } else if waited_millis + SOCKET_POLL_MILLIS < SOCKET_TIMEOUT_MILLIS {
            Polled::Retry {
                wait: SocketWait {
                    vm_state,
                    waited_millis: waited_millis + SOCKET_POLL_MILLIS,
                },
                sleep_millis: SOCKET_POLL_MILLIS,
            }
        } else {
            Polled::TimedOut { error: VmError::SocketNotReady, cleanup: vm_state.teardown() }
        }
    }
}

impl VirtualMachine<VmNotStarted> {
    /// Creates the VM `vm_id` with the hypervisor `firecracker_path`. Once
    /// the steps have succeeded the hypervisor's socket is waited for. Should
    /// they fail, the VM's namespace is deleted.
    pub fn new(firecracker_path: &str, vm_id: VmId) -> (out: Transition<SocketWait>)
        ensures
            out.plan() == launch_plan(firecracker_path@, vm_id),
            out.at() == 0,
            out.goal()@ == fresh_state(vm_id),
            out.goal().waited() == 0,
            out.undo() == fresh_state(vm_id).namespace_release(),
    {
        let data_directory = vm_id.data_directory();
        let name = vm_id.namespace_name();
        let add = namespace_step("add", name.as_str());
        let delete = namespace_step("del", name.as_str());
        let vm_state = VmState {
            vm_id,
            data_directory: data_directory.clone(),
            network_namespace: CommandNamespace::Named(name),
            boot_source: None,
            vm_network: None,
        };
        assert(vm_state@ == fresh_state(vm_id));
        let socket = vm_state.firecracker_socket_path();
        let mut arguments: Vec<String> = Vec::new();
        push_text(&mut arguments, "--api-sock");
        push_text(&mut arguments, socket.as_str());
        assert(texts(arguments@) =~= seq!["--api-sock"@, socket@]);
        let mut steps: Vec<Step> = Vec::new();
        steps.push(Step::ResetDirectory { path: data_directory });
        steps.push(add);
        steps.push(
            Step::Spawn {
                vm_id,
                command: command_line(&vm_state.network_namespace, firecracker_path, &arguments),
            },
        );
        assert(views(steps@) =~= launch_plan(firecracker_path@, vm_id));
        let mut cleanup: Vec<Step> = Vec::new();
        cleanup.push(delete);
        assert(views(cleanup@) =~= fresh_state(vm_id).namespace_release());
        Transition::new(steps, SocketWait { vm_state, waited_millis: 0 }, cleanup)
    }
}

impl VirtualMachine<VmNotStarted> {
    /// Configures the hypervisor's log.
    pub fn with_logger(self) -> (out: Transition<Self>)
        ensures
            planned(out, logger_plan(self@), self@),
    {
        proof {
            use_type_invariant(&self);
        }
        let socket = self.vm_state.firecracker_socket_path();
        let log_path = self.vm_state.firecracker_logger_path();
        let logger = VmLogger {
            log_path: log_path.clone(),
            level: LogLevel::Debug,
            show_level: true,
            show_log_origin: true,
        };
        let mut steps: Vec<Step> = Vec::new();
        steps.push(Step::CreateFile { path: log_path });
        steps.push(Step::Call { request: ApiRequest::logger(socket.as_str(), logger) });
        assert(views(steps@) =~= logger_plan(self@));
        let cleanup = self.vm_state.teardown();
        Transition::new(steps, self, cleanup)
    }

    /// Sets the kernel to boot and its command line, and keeps them in the
    /// VM's record.
    pub fn setup_boot_source(self, boot_source: VmBootSource) -> (out: Transition<Self>)
        ensures
            planned(
                out,
                call(boot_source_request(self@.socket_path(), boot_source@)),
                with_boot_source(self@, boot_source@),
            ),
    {
        proof {
            use_type_invariant(&self);
        }
        let socket = self.vm_state.firecracker_socket_path();
        let request = ApiRequest::boot_source(socket.as_str(), boot_source.clone());
        let VirtualMachine { vm_state, marker } = self;
        let next = VmState {
            vm_id: vm_state.vm_id,
            data_directory: vm_state.data_directory,
            network_namespace: vm_state.network_namespace,
            boot_source: Some(boot_source),
            vm_network: vm_state.vm_network,
        };
        Self::after_call(next, request)
    }

    /// Attaches `drive`, or replaces the drive that has its id.
    pub fn with_drive(self, drive: VmDrive) -> (out: Transition<Self>)
        ensures
            planned(out, call(drive_request(self@.socket_path(), drive@)), self@),
    {
        proof {
            use_type_invariant(&self);
        }
        let socket = self.vm_state.firecracker_socket_path();
        let request = ApiRequest::drive(socket.as_str(), drive);
        Self::after_call(self.vm_state, request)
    }

    /// Restores the VM from a snapshot. Whatever `load_snapshot_request`
    /// says, the hypervisor is asked not to resume the VM: it is paused
    /// afterwards.
    pub fn load_snapshot(
        self,
        host_network_interface: &str,
        load_snapshot_request: LoadSnapshotRequest,
    ) -> (out: Transition<VirtualMachine<VmPaused>>)
        ensures
            planned(
                out,
                load_plan(self@, host_network_interface@, load_snapshot_request@),
                with_network(self@),
            ),
    {
        proof {
            use_type_invariant(&self);
        }
        let socket = self.vm_state.firecracker_socket_path();
        let tap = self.vm_state.vm_id.tap_name();
        let mut steps: Vec<Step> = Vec::new();
        push_tap_setup(
            &mut steps,
            &self.vm_state.network_namespace,
            tap.as_str(),
            host_network_interface,
        );
        let ghost after_tap = views(steps@);
        match load_snapshot_request.mem_backend.backend_type {
            BackendType::Uffd => {
                steps.push(
                    Step::OpenUffd {
                        memory_file: load_snapshot_request.mem_backend.backend_path.clone(),
                        socket_path: socket.clone(),
                        close_on_exec: true,
                        non_blocking: true,
                        user_mode_only: true,
                    },
                );
            },
            BackendType::File => {},
        }
        assert(views(steps@) =~= after_tap + uffd_plan(self@.socket_path(), load_snapshot_request@));
        let request = ApiRequest::snapshot_load(
            socket.as_str(),
            LoadSnapshotRequest {
                snapshot_path: load_snapshot_request.snapshot_path,
                mem_backend: load_snapshot_request.mem_backend,
                enable_diff_snapshots: load_snapshot_request.enable_diff_snapshots,
                resume_vm: false,
            },
        );
        steps.push(Step::Call { request });
        assert(views(steps@) =~= load_plan(
            self@,
            host_network_interface@,
            load_snapshot_request@,
        ));
        let VirtualMachine { vm_state, marker } = self;
        let next = VmState {
            vm_id: vm_state.vm_id,
            data_directory: vm_state.data_directory,
            network_namespace: vm_state.network_namespace,
            boot_source: vm_state.boot_source,
            vm_network: Some(VmNetwork { tap_device_name: tap }),
        };
        let cleanup = next.teardown();
        Transition::new(steps, VirtualMachine { vm_state: next, marker: PhantomData }, cleanup)
    }

    /// Gives the guest a network interface with the address `ip_address` and
    /// the gateway `gateway_ip`. The VM must have a boot source: without one
    /// nothing is done and the VM is given up, with `BootSourceMissing`.
    pub fn add_network_interface(
        self,
        host_network_interface: &str,
        ip_address: &str,
        gateway_ip: &str,
    ) -> (out: Progress<Self>)
        ensures
            match self@.boot_source {
                Some(source) => out matches Progress::Pending(operation) && planned(
                    operation,
                    network_plan(self@, source, host_network_interface@, ip_address@, gateway_ip@),
                    with_boot_source(
                        with_network(self@),
                        with_guest_address(source, ip_address@, gateway_ip@),
                    ),
                ),
                None => out matches Progress::Failed { error, cleanup } && error@
                    == VmErrorView::BootSourceMissing && views(cleanup@) == self@.teardown(),
            },
    {
        proof {
            use_type_invariant(&self);
        }
        let socket = self.vm_state.firecracker_socket_path();
        let VirtualMachine { vm_state, marker } = self;
        let boot_source = match vm_state.boot_source {
            Some(boot_source) => boot_source,
            None => {
                let state = VmState {
                    vm_id: vm_state.vm_id,
                    data_directory: vm_state.data_directory,
                    network_namespace: vm_state.network_namespace,
                    boot_source: None,
                    vm_network: vm_state.vm_network,
                };
                return Progress::Failed {
                    error: VmError::BootSourceMissing,
                    cleanup: state.teardown(),
                };
            },
        };
        let tap = vm_state.vm_id.tap_name();
        let mut steps: Vec<Step> = Vec::new();
        push_tap_setup(&mut steps, &vm_state.network_namespace, tap.as_str(), host_network_interface);
        steps.push(Step::Sleep { millis: TAP_SETTLE_MILLIS });
        let interface = VmNetworkInterface {
            iface_id: String::from_str("eth0"),
            guest_mac: vm_state.vm_id.guest_mac(),
            host_dev_name: tap.clone(),
        };
        steps.push(
            Step::Call { request: ApiRequest::network_interface(socket.as_str(), interface) },
        );
        let mut boot_args = boot_source.boot_args;
        boot_args.append(" IP_ADDRESS::");
        boot_args.append(ip_address);
        boot_args.append(" IFACE::eth0 GATEWAY::");
        boot_args.append(gateway_ip);
        let addressed = VmBootSource {
            kernel_image_path: boot_source.kernel_image_path,
            boot_args,
        };
        steps.push(
            Step::Call { request: ApiRequest::boot_source(socket.as_str(), addressed.clone()) },
        );
        assert(views(steps@) =~= network_plan(
            self@,
            self@.boot_source->0,
            host_network_interface@,
            ip_address@,
            gateway_ip@,
        ));
        let next = VmState {
            vm_id: vm_state.vm_id,
            data_directory: vm_state.data_directory,
            network_namespace: vm_state.network_namespace,
            boot_source: Some(addressed),
            vm_network: Some(VmNetwork { tap_device_name: tap }),
        };
        let cleanup = next.teardown();
        Progress::Pending(
            Transition::new(steps, VirtualMachine { vm_state: next, marker: PhantomData }, cleanup),
        )
    }

    /// Boots the guest.
    pub fn start(self) -> (out: Transition<VirtualMachine<VmStarted>>)
        ensures
            planned(out, call(instance_start_request(self@.socket_path())), self@),
    {
        proof {
            use_type_invariant(&self);
        }
        let socket = self.vm_state.firecracker_socket_path();
        let request = ApiRequest::instance_start(socket.as_str());
        Self::after_call(self.vm_state, request)
    }
}

impl VirtualMachine<VmStarted> {
    /// Halts the guest.
    pub fn pause_vm(self) -> (out: Transition<VirtualMachine<VmPaused>>)
        ensures
            planned(out, call(state_request(self@.socket_path(), RunState::Paused)), self@),
    {
        proof {
            use_type_invariant(&self);
        }
        let socket = self.vm_state.firecracker_socket_path();
        let request = ApiRequest::state(socket.as_str(), RunState::Paused);
        Self::after_call(self.vm_state, request)
    }
}

impl VirtualMachine<VmPaused> {
    /// Writes a snapshot of the halted guest. Paths and version are handed
    /// to the hypervisor as they are.
    pub fn snapshot_vm(self, snapshot_request: &VmSnapshotRequest) -> (out: Transition<Self>)
        ensures
            planned(
                out,
                call(snapshot_create_request(self@.socket_path(), snapshot_request@)),
                self@,
            ),
    {
        proof {
            use_type_invariant(&self);
        }
        let socket = self.vm_state.firecracker_socket_path();
        let request = ApiRequest::snapshot_create(socket.as_str(), snapshot_request.clone());
        Self::after_call(self.vm_state, request)
    }

    /// Lets the halted guest run again.
    pub fn resume_vm(self) -> (out: Transition<VirtualMachine<VmStarted>>)
        ensures
            planned(out, call(state_request(self@.socket_path(), RunState::Resumed)), self@),
    {
        proof {
            use_type_invariant(&self);
        }
        let socket = self.vm_state.firecracker_socket_path();
        let request = ApiRequest::state(socket.as_str(), RunState::Resumed);
        Self::after_call(self.vm_state, request)
    }
}

} // verus!
