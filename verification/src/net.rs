//! Network plumbing: the tap device of a VM, an optional bridge, and the
//! host-wide packet filter rules. Each is set up by host commands and
//! released by others.

use crate::cmd::{command_line, push_text, resolved, CommandNamespace, NamespaceView};
use crate::id::VmId;
use crate::step::{Step, StepView};
use crate::text::{texts, views};
use crate::transition::Transition;
use vstd::prelude::*;
use vstd::string::*;

verus! {

/// The step that runs `program` in `namespace` with the arguments `args`.
pub open spec fn run_in(
    namespace: NamespaceView,
    program: Seq<char>,
    args: Seq<Seq<char>>,
) -> StepView {
    StepView::Run { command: resolved(namespace, program, args) }
}

/// The step that runs `program` in `namespace` with the arguments `args`.
pub fn run_step(namespace: &CommandNamespace, program: &str, args: &Vec<String>) -> (out: Step)
    ensures
        out@ == run_in(namespace@, program@, texts(args@)),
{
    Step::Run { command: command_line(namespace, program, args) }
}

/// The commands that set up the tap device `tap` in `namespace`: create it,
/// give it the address that the guest uses as its gateway, let its traffic
/// be forwarded to `host_iface`, and bring it up.
pub open spec fn tap_setup(namespace: NamespaceView, tap: Seq<char>, host_iface: Seq<char>) -> Seq<
    StepView,
> {
    seq![
        run_in(namespace, "ip"@, seq!["tuntap"@, "add"@, tap, "mode"@, "tap"@]),
        run_in(namespace, "ip"@, seq!["addr"@, "add"@, "172.16.0.1/24"@, "dev"@, tap]),
        run_in(
            namespace,
            "iptables"@,
            seq!["-A"@, "FORWARD"@, "-i"@, tap, "-o"@, host_iface, "-j"@, "ACCEPT"@],
        ),
        run_in(namespace, "ip"@, seq!["link"@, "set"@, tap, "up"@]),
    ]
}

/// What releasing the tap device `tap` of a VM whose namespace is
/// `namespace` takes. In a named namespace nothing: the device goes with the
/// namespace. In the host's namespace the device is removed.
pub open spec fn tap_release(namespace: NamespaceView, tap: Seq<char>) -> Seq<StepView> {
    match namespace {
        NamespaceView::Named(_) => Seq::empty(),
        NamespaceView::Global => seq![
            run_in(namespace, "ip"@, seq!["tuntap"@, "del"@, tap, "mode"@, "tap"@]),
        ],
    }
}

/// Appends the commands that set up the tap device `tap` to `steps`.
pub fn push_tap_setup(
    steps: &mut Vec<Step>,
    namespace: &CommandNamespace,
    tap: &str,
    host_iface: &str,
)
    ensures
        views(final(steps)@) == views(old(steps)@) + tap_setup(namespace@, tap@, host_iface@),
{
    let mut create: Vec<String> = Vec::new();
    push_text(&mut create, "tuntap");
    push_text(&mut create, "add");
    push_text(&mut create, tap);
    push_text(&mut create, "mode");
    push_text(&mut create, "tap");
    assert(texts(create@) =~= seq!["tuntap"@, "add"@, tap@, "mode"@, "tap"@]);
    let mut address: Vec<String> = Vec::new();
    push_text(&mut address, "addr");
    push_text(&mut address, "add");
    push_text(&mut address, "172.16.0.1/24");
    push_text(&mut address, "dev");
    push_text(&mut address, tap);
    assert(texts(address@) =~= seq!["addr"@, "add"@, "172.16.0.1/24"@, "dev"@, tap@]);
    let mut forward: Vec<String> = Vec::new();
    push_text(&mut forward, "-A");
    push_text(&mut forward, "FORWARD");
    push_text(&mut forward, "-i");
    push_text(&mut forward, tap);
    push_text(&mut forward, "-o");
    push_text(&mut forward, host_iface);
    push_text(&mut forward, "-j");
    push_text(&mut forward, "ACCEPT");
    assert(texts(forward@) =~= seq![
        "-A"@,
        "FORWARD"@,
        "-i"@,
        tap@,
        "-o"@,
        host_iface@,
        "-j"@,
        "ACCEPT"@,
    ]);
    let mut up: Vec<String> = Vec::new();
    push_text(&mut up, "link");
    push_text(&mut up, "set");
    push_text(&mut up, tap);
    push_text(&mut up, "up");
    assert(texts(up@) =~= seq!["link"@, "set"@, tap@, "up"@]);
    steps.push(run_step(namespace, "ip", &create));
    steps.push(run_step(namespace, "ip", &address));
    steps.push(run_step(namespace, "iptables", &forward));
    steps.push(run_step(namespace, "ip", &up));
    assert(views(steps@) =~= views(old(steps)@) + tap_setup(namespace@, tap@, host_iface@));
}

/// Appends the steps that release the tap device `tap` to `steps`.
pub fn push_tap_release(steps: &mut Vec<Step>, namespace: &CommandNamespace, tap: &str)
    ensures
        views(final(steps)@) == views(old(steps)@) + tap_release(namespace@, tap@),
{
    match namespace {
        CommandNamespace::Named(_) => {
            assert(views(steps@) =~= views(old(steps)@) + tap_release(namespace@, tap@));
        },
        CommandNamespace::Global => {
            let mut delete: Vec<String> = Vec::new();
            push_text(&mut delete, "tuntap");
            push_text(&mut delete, "del");
            push_text(&mut delete, tap);
            push_text(&mut delete, "mode");
            push_text(&mut delete, "tap");
            assert(texts(delete@) =~= seq!["tuntap"@, "del"@, tap@, "mode"@, "tap"@]);
            steps.push(run_step(namespace, "ip", &delete));
            assert(views(steps@) =~= views(old(steps)@) + tap_release(namespace@, tap@));
        },
    }
}

/// The tap device of one VM.
#[derive(Debug, PartialEq, Eq)]
pub struct VmNetwork {
    pub tap_device_name: String,
}

pub struct VmNetworkView {
    pub tap_device_name: Seq<char>,
}

impl View for VmNetwork {
    type V = VmNetworkView;

    open spec fn view(&self) -> VmNetworkView {
        VmNetworkView { tap_device_name: self.tap_device_name@ }
    }
}

impl Clone for VmNetwork {
    fn clone(&self) -> (out: Self)
        ensures
            out@ == self@,
    {
        VmNetwork { tap_device_name: self.tap_device_name.clone() }
    }
}

impl VmNetwork {
    /// Sets up the tap device `fc-tap<id>` of the VM `vm_id` in `namespace`,
    /// with its traffic forwarded to `host_network_interface`. Should a
    /// command fail to start, the device is released as far as this is not
    /// left to the namespace.
    pub fn create(
        vm_id: &VmId,
        host_network_interface: &str,
        namespace: &CommandNamespace,
    ) -> (out: Transition<VmNetwork>)
        ensures
            out.plan() == tap_setup(namespace@, vm_id.tap_text(), host_network_interface@),
            out.at() == 0,
            out.goal()@ == (VmNetworkView { tap_device_name: vm_id.tap_text() }),
            out.undo() == tap_release(namespace@, vm_id.tap_text()),
    {
        let tap_device_name = vm_id.tap_name();
        let mut steps: Vec<Step> = Vec::new();
        push_tap_setup(&mut steps, namespace, tap_device_name.as_str(), host_network_interface);
        let mut cleanup: Vec<Step> = Vec::new();
        push_tap_release(&mut cleanup, namespace, tap_device_name.as_str());
        assert(views(steps@) =~= tap_setup(
            namespace@,
            vm_id.tap_text(),
            host_network_interface@,
        ));
        assert(views(cleanup@) =~= tap_release(namespace@, vm_id.tap_text()));
        Transition::new(steps, VmNetwork { tap_device_name }, cleanup)
    }

    /// Appends the steps that release the tap device to `steps`.
    pub fn push_release(&self, steps: &mut Vec<Step>, namespace: &CommandNamespace)
        ensures
            views(final(steps)@) == views(old(steps)@) + tap_release(
                namespace@,
                self.tap_device_name@,
            ),
    {
        push_tap_release(steps, namespace, self.tap_device_name.as_str());
    }
}

/// The two host-wide rules: accept the return traffic of connections that
/// the VMs opened, and hide the VMs behind the address of `host_iface`.
pub open spec fn guard_setup(host_iface: Seq<char>) -> Seq<StepView> {
    seq![
        run_in(
            NamespaceView::Global,
            "iptables"@,
            seq![
                "-A"@,
                "FORWARD"@,
                "-m"@,
                "conntrack"@,
                "--ctstate"@,
                "RELATED,ESTABLISHED"@,
                "-j"@,
                "ACCEPT"@,
            ],
        ),
        run_in(
            NamespaceView::Global,
            "iptables"@,
            seq![
                "-t"@,
                "nat"@,
                "-A"@,
                "POSTROUTING"@,
                "-o"@,
                host_iface,
                "-j"@,
                "MASQUERADE"@,
            ],
        ),
    ]
}

/// The command that empties the host's filter table.
pub open spec fn guard_release() -> Seq<StepView> {
    seq![run_in(NamespaceView::Global, "iptables"@, seq!["-F"@])]
}

/// The steps that empty the host's filter table.
fn flush_steps() -> (out: Vec<Step>)
    ensures
        views(out@) == guard_release(),
{
    let mut flush: Vec<String> = Vec::new();
    push_text(&mut flush, "-F");
    assert(texts(flush@) =~= seq!["-F"@]);
    let mut steps: Vec<Step> = Vec::new();
    steps.push(run_step(&CommandNamespace::Global, "iptables", &flush));
    assert(views(steps@) =~= guard_release());
    steps
}

/// Stands for the two host-wide packet filter rules. It is acquired once,
/// before any VM is started, and released after the last VM is gone.
#[derive(Debug)]
pub struct IpTablesGuard;

impl IpTablesGuard {
    /// Installs the two host-wide rules for `host_iface`. Should a rule
    /// fail to be installed, the filter table is emptied as when the guard is
    /// given up.
    pub fn new(host_iface: &str) -> (out: Transition<IpTablesGuard>)
        ensures
            out.plan() == guard_setup(host_iface@),
            out.at() == 0,
            out.undo() == guard_release(),
    {
        let mut conntrack: Vec<String> = Vec::new();
        push_text(&mut conntrack, "-A");
        push_text(&mut conntrack, "FORWARD");
        push_text(&mut conntrack, "-m");
        push_text(&mut conntrack, "conntrack");
        push_text(&mut conntrack, "--ctstate");
        push_text(&mut conntrack, "RELATED,ESTABLISHED");
        push_text(&mut conntrack, "-j");
        push_text(&mut conntrack, "ACCEPT");
        assert(texts(conntrack@) =~= seq![
            "-A"@,
            "FORWARD"@,
            "-m"@,
            "conntrack"@,
            "--ctstate"@,
            "RELATED,ESTABLISHED"@,
            "-j"@,
            "ACCEPT"@,
        ]);
        let mut masquerade: Vec<String> = Vec::new();
        push_text(&mut masquerade, "-t");
        push_text(&mut masquerade, "nat");
        push_text(&mut masquerade, "-A");
        push_text(&mut masquerade, "POSTROUTING");
        push_text(&mut masquerade, "-o");
        push_text(&mut masquerade, host_iface);
        push_text(&mut masquerade, "-j");
        push_text(&mut masquerade, "MASQUERADE");
        assert(texts(masquerade@) =~= seq![
            "-t"@,
            "nat"@,
            "-A"@,
            "POSTROUTING"@,
            "-o"@,
            host_iface@,
            "-j"@,
            "MASQUERADE"@,
        ]);
        let mut steps: Vec<Step> = Vec::new();
        steps.push(run_step(&CommandNamespace::Global, "iptables", &conntrack));
        steps.push(run_step(&CommandNamespace::Global, "iptables", &masquerade));
        assert(views(steps@) =~= guard_setup(host_iface@));
        Transition::new(steps, IpTablesGuard, flush_steps())
    }

    /// Gives the guard up: the host's filter table is emptied.
    pub fn release(self) -> (out: Vec<Step>)
        ensures
            views(out@) == guard_release(),
    {
        flush_steps()
    }
}

/// The commands that set up the bridge `name` with the address `cidr`.
pub open spec fn bridge_setup(name: Seq<char>, cidr: Seq<char>) -> Seq<StepView> {
    seq![
        run_in(
            NamespaceView::Global,
            "ip"@,
            seq!["link"@, "add"@, "name"@, name, "type"@, "bridge"@],
        ),
        run_in(NamespaceView::Global, "ip"@, seq!["addr"@, "add"@, cidr, "dev"@, name]),
        run_in(NamespaceView::Global, "ip"@, seq!["link"@, "set"@, name, "up"@]),
    ]
}

/// The command that removes the bridge `name`.
pub open spec fn bridge_release(name: Seq<char>) -> Seq<StepView> {
    seq![run_in(NamespaceView::Global, "ip"@, seq!["link"@, "del"@, name])]
}

/// The command that makes the tap device `tap` a port of the bridge `name`.
pub open spec fn bridge_attach(name: Seq<char>, tap: Seq<char>) -> StepView {
    run_in(NamespaceView::Global, "ip"@, seq!["link"@, "set"@, "dev"@, tap, "master"@, name])
}

/// The steps that remove the bridge `name`.
fn bridge_removal(name: &str) -> (out: Vec<Step>)
    ensures
        views(out@) == bridge_release(name@),
{
    let mut delete: Vec<String> = Vec::new();
    push_text(&mut delete, "link");
    push_text(&mut delete, "del");
    push_text(&mut delete, name);
    assert(texts(delete@) =~= seq!["link"@, "del"@, name@]);
    let mut steps: Vec<Step> = Vec::new();
    steps.push(run_step(&CommandNamespace::Global, "ip", &delete));
    assert(views(steps@) =~= bridge_release(name@));
    steps
}

/// A bridge on the host that tap devices can be attached to, in place of
/// giving each of them an address.
#[derive(Debug, PartialEq, Eq)]
pub struct BridgeNetwork {
    pub bridge_name: String,
    pub ip_address: String,
}

pub struct BridgeNetworkView {
    pub bridge_name: Seq<char>,
    pub ip_address: Seq<char>,
}

impl View for BridgeNetwork {
    type V = BridgeNetworkView;

    open spec fn view(&self) -> BridgeNetworkView {
        BridgeNetworkView { bridge_name: self.bridge_name@, ip_address: self.ip_address@ }
    }
}

impl BridgeNetwork {
    /// Sets up the bridge `bridge_name` with the address `cidr`. Should a
    /// command fail to start, the bridge is removed.
    pub fn new(bridge_name: &str, cidr: &str) -> (out: Transition<BridgeNetwork>)
        ensures
            out.plan() == bridge_setup(bridge_name@, cidr@),
            out.at() == 0,
            out.goal()@ == (BridgeNetworkView { bridge_name: bridge_name@, ip_address: cidr@ }),
            out.undo() == bridge_release(bridge_name@),
    {
        let mut add: Vec<String> = Vec::new();
        push_text(&mut add, "link");
        push_text(&mut add, "add");
        push_text(&mut add, "name");
        push_text(&mut add, bridge_name);
        push_text(&mut add, "type");
        push_text(&mut add, "bridge");
        assert(texts(add@) =~= seq!["link"@, "add"@, "name"@, bridge_name@, "type"@, "bridge"@]);
        let mut address: Vec<String> = Vec::new();
        push_text(&mut address, "addr");
        push_text(&mut address, "add");
        push_text(&mut address, cidr);
        push_text(&mut address, "dev");
        push_text(&mut address, bridge_name);
        assert(texts(address@) =~= seq!["addr"@, "add"@, cidr@, "dev"@, bridge_name@]);
        let mut up: Vec<String> = Vec::new();
        push_text(&mut up, "link");
        push_text(&mut up, "set");
        push_text(&mut up, bridge_name);
        push_text(&mut up, "up");
        assert(texts(up@) =~= seq!["link"@, "set"@, bridge_name@, "up"@]);
        let mut steps: Vec<Step> = Vec::new();
        steps.push(run_step(&CommandNamespace::Global, "ip", &add));
        steps.push(run_step(&CommandNamespace::Global, "ip", &address));
        steps.push(run_step(&CommandNamespace::Global, "ip", &up));
        assert(views(steps@) =~= bridge_setup(bridge_name@, cidr@));
        Transition::new(
            steps,
            BridgeNetwork {
                bridge_name: String::from_str(bridge_name),
                ip_address: String::from_str(cidr),
            },
            bridge_removal(bridge_name),
        )
    }

    /// The step that makes the tap device `tap` a port of this bridge.
    pub fn attach(&self, tap: &str) -> (out: Step)
        ensures
            out@ == bridge_attach(self.bridge_name@, tap@),
    {
        let mut args: Vec<String> = Vec::new();
        push_text(&mut args, "link");
        push_text(&mut args, "set");
        push_text(&mut args, "dev");
        push_text(&mut args, tap);
        push_text(&mut args, "master");
        push_text(&mut args, self.bridge_name.as_str());
        assert(texts(args@) =~= seq![
            "link"@,
            "set"@,
            "dev"@,
            tap@,
            "master"@,
            self.bridge_name@,
        ]);
        run_step(&CommandNamespace::Global, "ip", &args)
    }

    /// Gives the bridge up: it is removed from the host.
    pub fn release(self) -> (out: Vec<Step>)
        ensures
            views(out@) == bridge_release(self.bridge_name@),
    {
        bridge_removal(self.bridge_name.as_str())
    }
}

} // verus!
