use matchbox::api::{ApiRequest, RunState};
use matchbox::cmd::CommandLine;
use matchbox::error::VmError;
use matchbox::fleet::{
    parse_action, provision, restore, snapshot_cycle, ControlAction, GuestAction, GuestCall,
    GuestEnd, GuestNext, GuestStage, VmConfig, BRIDGE_IP, GUEST_ADDRESS, GUEST_PORT,
};
use matchbox::id::VmId;
use matchbox::net::IpTablesGuard;
use matchbox::registry::Registry;
use matchbox::step::{Outcome, Step};
use matchbox::transition::{Progress, Transition};
use matchbox::vm::models::{
    BackendType, LoadSnapshotRequest, MemoryBackend, SnapshotType, VmBootSource, VmDrive,
    VmSnapshotRequest,
};
use matchbox::vm::{Polled, VirtualMachine, VmNotStarted, VmStarted};

fn config() -> VmConfig {
    VmConfig {
        host_network_interface: "ens33".to_string(),
        firecracker_path: "/usr/bin/firecracker".to_string(),
        kernel_image_path: "/tmp/vmlinux.bin".to_string(),
        boot_args: "console=ttyS0 reboot=k panic=1 pci=off".to_string(),
        root_fs_path: "/tmp/rootfs.ext4".to_string(),
    }
}

fn run(program: &str, args: &[&str]) -> Step {
    Step::Run {
        command: CommandLine {
            program: program.to_string(),
            args: args.iter().map(|s| s.to_string()).collect(),
        },
    }
}

fn complete<S>(operation: Transition<S>) -> S {
    let mut operation = operation;
    loop {
        match operation.advance(&Outcome::Done) {
            Progress::Pending(next) => operation = next,
            Progress::Complete(target) => return target,
            Progress::Failed { error, .. } => panic!("failed: {error:?}"),
        }
    }
}

fn listening(id: u128) -> VirtualMachine<VmNotStarted> {
    let wait = complete(VirtualMachine::new("/usr/bin/firecracker", VmId::from_u128(id)));
    match wait.poll(true) {
        Polled::Ready(vm) => vm,
        other => panic!("unexpected {other:?}"),
    }
}

fn running(id: u128) -> VirtualMachine<VmStarted> {
    complete(provision(listening(id), &config()))
}

fn sorted(mut ids: Vec<VmId>) -> Vec<u128> {
    ids.sort_by_key(|id| id.value);
    ids.into_iter().map(|id| id.value).collect()
}

#[test]
fn guest_constants() {
    assert_eq!(GUEST_ADDRESS, "172.16.0.2");
    assert_eq!(BRIDGE_IP, "172.16.0.1");
    assert_eq!(GUEST_PORT, 3000);
}

#[test]
fn actions_are_read_by_name() {
    assert_eq!(parse_action("ping"), Some(ControlAction::Guest(GuestAction::Ping)));
    assert_eq!(parse_action("shutdown"), Some(ControlAction::Guest(GuestAction::Shutdown)));
    assert_eq!(parse_action("get-dmesg"), Some(ControlAction::Guest(GuestAction::GetDmesg)));
    assert_eq!(parse_action("snapshot"), Some(ControlAction::Snapshot));
    for other in ["", "Ping", "ping ", "get_dmesg", "reboot"] {
        assert_eq!(parse_action(other), None, "{other:?}");
    }
}

#[test]
fn create_and_start_issues_every_step_in_order() {
    let text = "00000000-0000-0000-0000-00000000000a";
    let socket = format!("/tmp/vm/{text}/firecracker.socket");
    let operation = provision(listening(0xa), &config());
    let steps = operation.steps();
    assert_eq!(steps.len(), 13);
    assert_eq!(steps[0], Step::CreateFile { path: format!("/tmp/vm/{text}/firecracker.log") });
    assert!(matches!(&steps[1], Step::Call { request } if request.path == "/logger"));
    let source = VmBootSource {
        kernel_image_path: "/tmp/vmlinux.bin".to_string(),
        boot_args: "console=ttyS0 reboot=k panic=1 pci=off".to_string(),
    };
    assert_eq!(steps[2], Step::Call { request: ApiRequest::boot_source(&socket, source) });
    for step in &steps[3..7] {
        assert!(matches!(step, Step::Run { command } if command.program == "ip" && command.args[2] == format!("fc-{text}")));
    }
    assert_eq!(steps[7], Step::Sleep { millis: 100 });
    assert!(matches!(&steps[8], Step::Call { request } if request.path == "/network-interfaces/eth0"));
    let addressed = VmBootSource {
        kernel_image_path: "/tmp/vmlinux.bin".to_string(),
        boot_args: "console=ttyS0 reboot=k panic=1 pci=off IP_ADDRESS::172.16.0.2 IFACE::eth0 GATEWAY::172.16.0.1"
            .to_string(),
    };
    assert_eq!(steps[9], Step::Call { request: ApiRequest::boot_source(&socket, addressed.clone()) });
    assert_eq!(
        steps[10],
        Step::CopyFile { from: "/tmp/rootfs.ext4".to_string(), to: format!("/tmp/vm/{text}/rootfs") }
    );
    assert_eq!(
        steps[11],
        Step::Call {
            request: ApiRequest::drive(
                &socket,
                VmDrive {
                    drive_id: "rootfs".to_string(),
                    path_on_host: format!("/tmp/vm/{text}/rootfs"),
                    is_root_device: true,
                    is_read_only: false,
                },
            ),
        }
    );
    assert_eq!(steps[12], Step::Call { request: ApiRequest::instance_start(&socket) });
    let vm = complete(operation);
    assert_eq!(vm.vm_state().boot_source, Some(addressed));
    assert_eq!(vm.vm_state().vm_network.as_ref().map(|n| n.tap_device_name.clone()), Some(format!("fc-tap{text}")));
}

#[test]
fn create_copies_the_root_file_system_before_attaching_it() {
    let text = "00000000-0000-0000-0000-00000000000a";
    let operation = provision(listening(0xa), &config());
    let position = operation
        .steps()
        .iter()
        .position(|step| matches!(step, Step::CopyFile { .. }))
        .expect("a copy step");
    assert_eq!(
        operation.steps()[position],
        Step::CopyFile { from: "/tmp/rootfs.ext4".to_string(), to: format!("/tmp/vm/{text}/rootfs") }
    );
    assert!(matches!(&operation.steps()[position + 1], Step::Call { request } if request.path == "/drives/rootfs"));
}

#[test]
fn restore_configures_the_log_loads_and_resumes() {
    let text = "00000000-0000-0000-0000-00000000000b";
    let socket = format!("/tmp/vm/{text}/firecracker.socket");
    let request = LoadSnapshotRequest {
        snapshot_path: "/tmp/vm/B/snapshot_path".to_string(),
        mem_backend: MemoryBackend { backend_path: "/tmp/vm/B/mem_file".to_string(), backend_type: BackendType::File },
        enable_diff_snapshots: false,
        resume_vm: true,
    };
    let operation = restore(listening(0xb), &config(), request.clone());
    let steps = operation.steps();
    assert_eq!(steps.len(), 8);
    assert_eq!(steps[0], Step::CreateFile { path: format!("/tmp/vm/{text}/firecracker.log") });
    assert!(matches!(&steps[1], Step::Call { request } if request.path == "/logger"));
    assert!(steps[2..6].iter().all(|step| matches!(step, Step::Run { .. })));
    let sent = LoadSnapshotRequest { resume_vm: false, ..request };
    assert_eq!(steps[6], Step::Call { request: ApiRequest::snapshot_load(&socket, sent) });
    assert_eq!(steps[7], Step::Call { request: ApiRequest::state(&socket, RunState::Resumed) });
    let vm: VirtualMachine<VmStarted> = complete(operation);
    assert_eq!(vm.get_vm_id(), VmId::from_u128(0xb));
    assert!(vm.vm_state().vm_network.is_some());
}

#[test]
fn restore_with_uffd_opens_the_descriptor() {
    let request = LoadSnapshotRequest {
        snapshot_path: "/tmp/vm/B/snapshot_path".to_string(),
        mem_backend: MemoryBackend { backend_path: "/tmp/vm/B/mem_file".to_string(), backend_type: BackendType::Uffd },
        enable_diff_snapshots: false,
        resume_vm: false,
    };
    let operation = restore(listening(0xb), &config(), request);
    assert_eq!(operation.steps().len(), 9);
    assert_eq!(
        operation.steps()[6],
        Step::OpenUffd {
            memory_file: "/tmp/vm/B/mem_file".to_string(),
            socket_path: "/tmp/vm/00000000-0000-0000-0000-00000000000b/firecracker.socket".to_string(),
            close_on_exec: true,
            non_blocking: true,
            user_mode_only: true,
        }
    );
}

#[test]
fn snapshot_pauses_writes_and_resumes() {
    let text = "00000000-0000-0000-0000-00000000000c";
    let socket = format!("/tmp/vm/{text}/firecracker.socket");
    let vm = running(0xc);
    let record = format!("{:?}", vm.vm_state());
    let operation = snapshot_cycle(vm);
    let request = VmSnapshotRequest {
        snapshot_type: SnapshotType::Full,
        snapshot_path: format!("/tmp/vm/{text}/snapshot_path"),
        mem_file_path: format!("/tmp/vm/{text}/mem_file"),
        version: "1.1.0".to_string(),
    };
    let expected = vec![
        Step::Call { request: ApiRequest::state(&socket, RunState::Paused) },
        Step::Call { request: ApiRequest::snapshot_create(&socket, request) },
        Step::Call { request: ApiRequest::state(&socket, RunState::Resumed) },
    ];
    assert_eq!(operation.steps(), &expected);
    assert_eq!(format!("{:?}", complete(operation).vm_state()), record);
}

#[test]
fn registry_lists_exactly_what_it_keeps() {
    let mut registry = Registry::new();
    assert!(registry.list().is_empty());
    for id in [3u128, 1, 2] {
        registry.insert(running(id)).unwrap();
    }
    assert_eq!(sorted(registry.list()), vec![1, 2, 3]);
    for id in registry.list() {
        assert!(registry.contains(id));
        assert!(registry.get(id).is_ok());
    }
    registry.remove(VmId::from_u128(2)).unwrap();
    assert_eq!(sorted(registry.list()), vec![1, 3]);
    assert!(!registry.contains(VmId::from_u128(2)));
}

#[test]
fn registry_keeps_each_vm_under_its_own_id() {
    let mut registry = Registry::new();
    registry.insert(running(7)).unwrap();
    let vm = registry.get(VmId::from_u128(7)).unwrap();
    assert_eq!(vm.get_vm_id(), VmId::from_u128(7));
    assert_eq!(vm.vm_state().network_namespace().to_text(), "fc-00000000-0000-0000-0000-000000000007");
    assert_eq!(
        vm.vm_state().vm_network.as_ref().unwrap().tap_device_name,
        "fc-tap00000000-0000-0000-0000-000000000007"
    );
}

#[test]
fn an_id_in_the_registry_is_refused_before_anything_is_done() {
    let mut registry = Registry::new();
    registry.insert(running(7)).unwrap();
    assert_eq!(registry.check_free(VmId::from_u128(7)), Err(VmError::IdInUse));
    assert_eq!(registry.check_free(VmId::from_u128(8)), Ok(()));
    match registry.create("/usr/bin/firecracker", VmId::from_u128(7)) {
        Err(error) => assert_eq!(error, VmError::IdInUse),
        Ok(operation) => panic!("unexpected {operation:?}"),
    }
    let operation = registry.create("/usr/bin/firecracker", VmId::from_u128(8)).unwrap();
    assert!(matches!(operation.current(), Step::ResetDirectory { .. }));
    assert_eq!(operation.steps().len(), 3);
}

#[test]
fn inserting_under_an_id_in_use_hands_the_vm_back() {
    let mut registry = Registry::new();
    registry.insert(running(7)).unwrap();
    let rejected = registry.insert(running(7)).unwrap_err();
    assert_eq!(rejected.error, VmError::IdInUse);
    assert_eq!(rejected.vm.get_vm_id(), VmId::from_u128(7));
    assert_eq!(sorted(registry.list()), vec![7]);
}

#[test]
fn a_missing_vm_is_vm_not_found() {
    let mut registry = Registry::new();
    registry.insert(running(1)).unwrap();
    let missing = VmId::from_u128(2);
    assert_eq!(registry.get(missing).unwrap_err(), VmError::VmNotFound);
    assert_eq!(registry.remove(missing).unwrap_err(), VmError::VmNotFound);
    assert_eq!(registry.execute(missing, GuestAction::Ping).unwrap_err(), VmError::VmNotFound);
    assert_eq!(registry.snapshot(missing).unwrap_err(), VmError::VmNotFound);
    assert_eq!(sorted(registry.list()), vec![1]);
}

#[test]
fn execute_names_the_namespace_and_the_agent() {
    let mut registry = Registry::new();
    registry.insert(running(0xa)).unwrap();
    for action in [GuestAction::Ping, GuestAction::Shutdown, GuestAction::GetDmesg] {
        assert_eq!(
            registry.execute(VmId::from_u128(0xa), action),
            Ok(GuestCall {
                namespace: "fc-00000000-0000-0000-0000-00000000000a".to_string(),
                address: "172.16.0.2".to_string(),
                port: 3000,
                action,
            })
        );
    }
}

#[test]
fn a_vm_is_out_of_the_registry_while_its_snapshot_is_written() {
    let id = VmId::from_u128(0xc);
    let mut registry = Registry::new();
    registry.insert(running(0xc)).unwrap();
    let operation = registry.snapshot(id).unwrap();
    assert_eq!(operation.steps().len(), 3);
    assert!(!registry.contains(id));
    assert_eq!(registry.execute(id, GuestAction::Ping).unwrap_err(), VmError::VmNotFound);
    let vm = complete(operation);
    registry.insert(vm).unwrap();
    assert!(registry.contains(id));
    assert!(registry.execute(id, GuestAction::Ping).is_ok());
}

#[test]
fn a_snapshot_that_fails_gives_the_vm_up() {
    let id = VmId::from_u128(0xc);
    let mut registry = Registry::new();
    registry.insert(running(0xc)).unwrap();
    let operation = registry.snapshot(id).unwrap();
    let operation = match operation.advance(&Outcome::Done) {
        Progress::Pending(next) => next,
        other => panic!("unexpected {other:?}"),
    };
    match operation.advance(&Outcome::Failed { reason: "broken pipe".to_string() }) {
        Progress::Failed { error, cleanup } => {
            assert_eq!(
                error,
                VmError::HypervisorApi {
                    endpoint: "/snapshot/create".to_string(),
                    status: 0,
                    body: "broken pipe".to_string(),
                }
            );
            assert_eq!(
                cleanup,
                vec![
                    Step::Terminate { vm_id: id },
                    run("ip", &["netns", "del", "fc-00000000-0000-0000-0000-00000000000c"]),
                ]
            );
        }
        other => panic!("unexpected {other:?}"),
    }
    assert!(!registry.contains(id));
}

#[test]
fn fresh_id_is_not_in_the_registry() {
    let mut registry = Registry::new();
    registry.insert(running(1)).unwrap();
    let id = registry.fresh_id(8).expect("a free identifier");
    assert!(!registry.contains(id));
    assert_eq!((id.value >> 76) & 0xf, 4);
    assert_eq!((id.value >> 62) & 0x3, 2);
    assert_eq!(registry.fresh_id(0), None);
}

#[test]
fn fresh_id_needs_one_draw_where_no_kept_id_can_be_drawn() {
    let mut registry = Registry::new();
    for _ in 0..32 {
        assert!(registry.fresh_id(1).is_some());
    }
    for id in [0u128, 1, u128::MAX, 0xa1a2a3a4b1b2c1c2d1d2d3d4d5d6d7d8] {
        registry.insert(running(id)).unwrap();
    }
    for _ in 0..32 {
        let id = registry.fresh_id(1).expect("the first draw is free");
        assert!(!registry.contains(id));
    }
    assert_eq!(registry.fresh_id(0), None);
}

#[test]
fn fresh_ids_can_be_kept_one_after_the_other() {
    let mut registry = Registry::new();
    for count in 1..=8usize {
        let id = registry.fresh_id(4).expect("a free identifier");
        registry.insert(running(id.as_u128())).unwrap();
        assert_eq!(registry.list().len(), count);
    }
}

#[test]
fn shutdown_gives_every_vm_up_and_flushes_last() {
    let mut registry = Registry::new();
    for id in [1u128, 2, 3] {
        registry.insert(running(id)).unwrap();
    }
    let guard = complete(IpTablesGuard::new("ens33"));
    let steps = registry.shutdown(guard);
    assert_eq!(steps.len(), 7);
    assert_eq!(steps[6], run("iptables", &["-F"]));
    let mut deleted = Vec::new();
    for pair in steps[..6].chunks(2) {
        let vm_id = match &pair[0] {
            Step::Terminate { vm_id } => *vm_id,
            other => panic!("unexpected {other:?}"),
        };
        match &pair[1] {
            Step::Run { command } => {
                assert_eq!(command.program, "ip");
                assert_eq!(&command.args[..2], &["netns".to_string(), "del".to_string()]);
                assert_eq!(command.args[2], vm_id.namespace_name());
                deleted.push(command.args[2].clone());
            }
            other => panic!("unexpected {other:?}"),
        }
    }
    deleted.sort();
    assert_eq!(
        deleted,
        vec![
            "fc-00000000-0000-0000-0000-000000000001",
            "fc-00000000-0000-0000-0000-000000000002",
            "fc-00000000-0000-0000-0000-000000000003",
        ]
    );
}

#[test]
fn shutdown_of_an_empty_fleet_only_flushes() {
    let guard = complete(IpTablesGuard::new("ens33"));
    assert_eq!(Registry::new().shutdown(guard), vec![run("iptables", &["-F"])]);
}

#[test]
fn a_guest_call_is_framed_by_entering_and_leaving_the_namespace() {
    let call = GuestCall {
        namespace: "fc-1".to_string(),
        address: "172.16.0.2".to_string(),
        port: 3000,
        action: GuestAction::Ping,
    };
    assert_eq!(call.enter(), Step::EnterNamespace { name: "fc-1".to_string() });
    assert_eq!(call.leave(), Step::LeaveNamespace);
}

#[test]
fn a_vm_is_found_by_the_text_of_its_id() {
    let mut registry = Registry::new();
    for id in [1u128, 0xa1a2a3a4b1b2c1c2d1d2d3d4d5d6d7d8] {
        registry.insert(running(id)).unwrap();
    }
    assert_eq!(
        registry.find("a1a2a3a4-b1b2-c1c2-d1d2-d3d4d5d6d7d8"),
        Ok(VmId::from_u128(0xa1a2a3a4b1b2c1c2d1d2d3d4d5d6d7d8))
    );
    assert_eq!(registry.find("00000000-0000-0000-0000-000000000001"), Ok(VmId::from_u128(1)));
    for other in [
        "",
        "A1A2A3A4-B1B2-C1C2-D1D2-D3D4D5D6D7D8",
        "a1a2a3a4b1b2c1c2d1d2d3d4d5d6d7d8",
        "00000000-0000-0000-0000-000000000002",
        " 00000000-0000-0000-0000-000000000001",
    ] {
        assert_eq!(registry.find(other), Err(VmError::VmNotFound), "{other:?}");
    }
    assert_eq!(Registry::new().find("00000000-0000-0000-0000-000000000001"), Err(VmError::VmNotFound));
}

fn ping() -> GuestCall {
    GuestCall {
        namespace: "fc-1".to_string(),
        address: "172.16.0.2".to_string(),
        port: 3000,
        action: GuestAction::Ping,
    }
}

fn failed() -> Outcome {
    Outcome::Failed { reason: "eperm".to_string() }
}

#[test]
fn a_guest_call_that_goes_well_enters_asks_and_leaves() {
    let call = ping();
    assert_eq!(call.after(GuestStage::Entering, &Outcome::Done), GuestNext::Go(GuestStage::Asking));
    assert_eq!(
        call.after(GuestStage::Asking, &Outcome::Done),
        GuestNext::Go(GuestStage::Leaving { answered: true })
    );
    assert_eq!(
        call.after(GuestStage::Leaving { answered: true }, &Outcome::Done),
        GuestNext::Finish(GuestEnd::Answered)
    );
}

#[test]
fn a_namespace_that_cannot_be_entered_ends_the_call_at_once() {
    assert_eq!(
        ping().after(GuestStage::Entering, &failed()),
        GuestNext::Finish(GuestEnd::Failed(VmError::NamespaceEnterFailed))
    );
}

#[test]
fn the_namespace_is_left_when_the_agent_does_not_answer() {
    let call = ping();
    assert_eq!(
        call.after(GuestStage::Asking, &failed()),
        GuestNext::Go(GuestStage::Leaving { answered: false })
    );
    for went in [Outcome::Done, failed()] {
        assert_eq!(
            call.after(GuestStage::Leaving { answered: false }, &went),
            GuestNext::Finish(GuestEnd::Unanswered)
        );
    }
}

#[test]
fn a_namespace_that_cannot_be_left_after_an_answer_is_namespace_enter_failed() {
    assert_eq!(
        ping().after(GuestStage::Leaving { answered: true }, &failed()),
        GuestNext::Finish(GuestEnd::Failed(VmError::NamespaceEnterFailed))
    );
}

#[test]
fn every_guest_call_that_entered_passes_through_leaving() {
    let call = ping();
    for entered in [Outcome::Done, failed()] {
        for asked in [Outcome::Done, failed()] {
            for left in [Outcome::Done, failed()] {
                let mut stage = GuestStage::Entering;
                let mut did_enter = false;
                let mut did_leave = false;
                let end = loop {
                    let went = match stage {
                        GuestStage::Entering => &entered,
                        GuestStage::Asking => {
                            did_enter = true;
                            &asked
                        }
                        GuestStage::Leaving { .. } => {
                            did_leave = true;
                            &left
                        }
                    };
                    match call.after(stage, went) {
                        GuestNext::Go(next) => stage = next,
                        GuestNext::Finish(end) => break end,
                    }
                };
                assert_eq!(did_enter, did_leave);
                assert_eq!(did_enter, entered == Outcome::Done);
                assert_eq!(end == GuestEnd::Answered, [&entered, &asked, &left].iter().all(|o| **o == Outcome::Done));
            }
        }
    }
}
