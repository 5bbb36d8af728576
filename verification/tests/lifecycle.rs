use smolvm::create::{next_create_step, CreateProgress, CreateStep};
use smolvm::error::Error;
use smolvm::fork::{
    clone_disks, control_line, control_reply, disk_mark, next_fork_step, rejuvenate_clone,
    FoundDisk, ForkProgress, ForkStep,
};
use smolvm::lifecycle::{
    find_init_fault, launch_features, next_delete_step, next_start_step, next_stop_step,
    shell_command, DeleteProgress, DeleteStep, Removal, StartProgress, StartStep, StopProgress,
    StopStep,
};
use smolvm::model::Model;
use smolvm::records::{
    clone_ports, clone_record, dependent_clones, mark_exited, mark_running, mark_stopped,
};
use smolvm::requests::{
    DeleteMachine, ExecResult, ForkMachine, MachineStatus, StartMachine, StopMachine,
};
use smolvm::types::{ImageInfo, Job, PortMapping, RecordState, VmRecord};

fn record(name: &str) -> VmRecord {
    VmRecord::new(name.to_string(), 2, 1024, vec![], vec![], false, 5)
}

fn found(record: &VmRecord) -> Option<Result<Option<VmRecord>, Error>> {
    Some(Ok(Some(record.dup())))
}

fn start_progress() -> StartProgress {
    StartProgress {
        record: None,
        state: None,
        recovered: false,
        reloaded: None,
        manager: None,
        ssh_socket: None,
        prepared: None,
        launched: None,
        connected: None,
        secrets: None,
        pulled: None,
        init: vec![],
        init_saved: false,
        workload: None,
        marked: None,
        status: None,
        running_state: None,
    }
}

fn output(exit_code: i32, stdout: &str, stderr: &str) -> ExecResult {
    ExecResult {
        exit_code,
        stdout: stdout.as_bytes().to_vec(),
        stderr: stderr.as_bytes().to_vec(),
    }
}

#[test]
fn running_machine_is_left_alone_by_start() {
    let request = StartMachine::new("vm".to_string());
    let mut progress = start_progress();
    assert_eq!(next_start_step(&request, &progress), StartStep::LoadRecord);
    progress.record = found(&record("vm"));
    assert_eq!(next_start_step(&request, &progress), StartStep::ProbeState);
    progress.state = Some(RecordState::Running);
    assert_eq!(next_start_step(&request, &progress), StartStep::ProbeRunning);
    progress.running_state = Some(RecordState::Running);
    match next_start_step(&request, &progress) {
        StartStep::Finish(Ok(status)) => {
            assert_eq!(status.name, "vm");
            assert_eq!(status.state, RecordState::Running);
        }
        other => panic!("unexpected {:?}", other),
    }
}

#[test]
fn start_of_missing_machine_fails() {
    let request = StartMachine::new("vm".to_string());
    let mut progress = start_progress();
    progress.record = Some(Ok(None));
    assert_eq!(
        next_start_step(&request, &progress),
        StartStep::Finish(Err(Error::VmNotFound { name: "vm".to_string() }))
    );
}

#[test]
fn first_start_runs_init_before_it_marks_the_machine() {
    let request = StartMachine::new("vm".to_string());
    let mut record = record("vm");
    record.init = vec!["echo one".to_string(), "echo two".to_string()];
    let mut progress = start_progress();
    progress.record = found(&record);
    progress.state = Some(RecordState::Created);
    assert!(matches!(next_start_step(&request, &progress), StartStep::OpenManager { .. }));
    progress.manager = Some(Ok(()));
    assert!(matches!(next_start_step(&request, &progress), StartStep::Prepare(_)));
    progress.prepared = Some(Ok(()));
    assert!(matches!(next_start_step(&request, &progress), StartStep::Launch(_)));
    progress.launched = Some(Ok(Some(42)));
    assert_eq!(next_start_step(&request, &progress), StartStep::Connect);
    progress.connected = Some(Ok(()));
    assert!(matches!(next_start_step(&request, &progress), StartStep::ReadSecrets(_)));
    progress.secrets = Some(Ok(vec![]));
    match next_start_step(&request, &progress) {
        StartStep::RunInit(Job::Guest(command)) => {
            assert_eq!(command.command.last().unwrap(), "echo one");
        }
        other => panic!("unexpected {:?}", other),
    }
    progress.init = vec![Ok(output(0, "", "")), Ok(output(3, " out \n", " bad \n"))];
    assert_eq!(
        next_start_step(&request, &progress),
        StartStep::Finish(Err(Error::Agent {
            operation: "run init".to_string(),
            reason: "init[1] failed (exit 3): bad; stdout: out".to_string(),
        }))
    );
    progress.init = vec![Ok(output(0, "", "")), Ok(output(0, "", ""))];
    assert_eq!(next_start_step(&request, &progress), StartStep::SaveInitCompleted);
    progress.init_saved = true;
    assert_eq!(next_start_step(&request, &progress), StartStep::MarkRunning(Some(42)));
    progress.marked = Some(Ok(false));
    assert!(matches!(
        next_start_step(&request, &progress),
        StartStep::Finish(Err(Error::VmNotFound { .. }))
    ));
}

#[test]
fn start_with_image_pulls_and_launches_the_workload_last() {
    let request = StartMachine::new("vm".to_string());
    let mut record = record("vm");
    record.image = Some("alpine".to_string());
    record.cmd = vec!["serve".to_string()];
    let mut progress = start_progress();
    progress.record = found(&record);
    progress.state = Some(RecordState::Stopped);
    progress.manager = Some(Ok(()));
    progress.prepared = Some(Ok(()));
    progress.launched = Some(Ok(None));
    progress.connected = Some(Ok(()));
    progress.secrets = Some(Ok(vec![]));
    match next_start_step(&request, &progress) {
        StartStep::Pull { image, options } => {
            assert_eq!(image, "alpine");
            assert!(options.use_registry_config);
        }
        other => panic!("unexpected {:?}", other),
    }
    progress.pulled = Some(Err(Error::Other { message: "offline".to_string() }));
    assert_eq!(
        next_start_step(&request, &progress),
        StartStep::Finish(Err(Error::Other { message: "offline".to_string() }))
    );
    progress.pulled = Some(Ok(image_info()));
    assert_eq!(next_start_step(&request, &progress), StartStep::SaveInitCompleted);
    progress.init_saved = true;
    match next_start_step(&request, &progress) {
        StartStep::LaunchWorkload(config) => {
            assert_eq!(config.image, "alpine");
            assert_eq!(config.command, vec!["serve"]);
        }
        other => panic!("unexpected {:?}", other),
    }
}

fn image_info() -> ImageInfo {
    ImageInfo {
        reference: "alpine".to_string(),
        digest: "sha256:0".to_string(),
        size: 1,
        created: None,
        architecture: "arm64".to_string(),
        os: "linux".to_string(),
        layer_count: 1,
        layers: vec![],
        entrypoint: vec![],
        cmd: vec!["from-image".to_string()],
        env: vec![],
        workdir: None,
        user: None,
    }
}

fn connected(record: &VmRecord) -> StartProgress {
    let mut progress = start_progress();
    progress.record = found(record);
    progress.state = Some(RecordState::Stopped);
    progress.manager = Some(Ok(()));
    progress.prepared = Some(Ok(()));
    progress.launched = Some(Ok(Some(7)));
    progress.connected = Some(Ok(()));
    progress.secrets = Some(Ok(vec![]));
    progress
}

#[test]
fn start_without_a_command_of_its_own_runs_no_workload() {
    let request = StartMachine::new("vm".to_string());
    let mut record = record("vm");
    record.image = Some("alpine".to_string());
    let mut progress = connected(&record);
    progress.pulled = Some(Ok(image_info()));
    assert_eq!(next_start_step(&request, &progress), StartStep::SaveInitCompleted);
    progress.init_saved = true;
    assert_eq!(next_start_step(&request, &progress), StartStep::MarkRunning(Some(7)));
}

#[test]
fn init_commands_run_on_every_start() {
    let mut request = StartMachine::new("vm".to_string());
    let mut record = record("vm");
    record.init = vec!["echo again".to_string()];
    record.init_completed = true;
    let mut progress = connected(&record);
    match next_start_step(&request, &progress) {
        StartStep::RunInit(Job::Guest(command)) => {
            assert_eq!(command.command, vec!["/bin/sh", "-c", "echo again"]);
        }
        other => panic!("unexpected {:?}", other),
    }
    progress.init = vec![Ok(output(0, "", ""))];
    assert_eq!(next_start_step(&request, &progress), StartStep::MarkRunning(Some(7)));
    request.snapshot_dir = Some("/snap".to_string());
    progress.init = vec![];
    assert_eq!(next_start_step(&request, &progress), StartStep::MarkRunning(Some(7)));
}

#[test]
fn init_fault_reports_the_first_failure() {
    assert_eq!(find_init_fault(&vec![Ok(output(0, "", ""))]), None);
    let broken = Error::Other { message: "gone".to_string() };
    assert_eq!(
        find_init_fault(&vec![Ok(output(0, "", "")), Err(broken.dup()), Ok(output(1, "", ""))]),
        Some(broken)
    );
}

#[test]
fn launch_features_ask_for_the_ssh_socket() {
    let request = StartMachine::new("vm".to_string());
    let mut record = record("vm");
    assert_eq!(launch_features(&request, &record, &None).unwrap().ssh_agent_socket, None);
    record.ssh_agent = true;
    let features = launch_features(&request, &record, &Some("/tmp/agent".to_string())).unwrap();
    assert_eq!(features.ssh_agent_socket, Some("/tmp/agent".to_string()));
    assert!(launch_features(&request, &record, &None).is_err());
}

#[test]
fn shell_commands_pass_the_line_to_the_shell() {
    assert_eq!(shell_command("sh", "a && b"), vec!["sh", "-c", "a && b"]);
}

fn stop_progress() -> StopProgress {
    StopProgress {
        record: None,
        state: None,
        manager: None,
        stopped: None,
        recovered: false,
        detached: false,
        marked: None,
        status: None,
    }
}

#[test]
fn stop_stops_before_it_notes_the_stop() {
    let request = StopMachine::new("vm".to_string());
    let mut progress = stop_progress();
    progress.record = found(&record("vm"));
    progress.state = Some(RecordState::Running);
    assert_eq!(next_stop_step(&request, &progress), StopStep::OpenManager);
    progress.manager = Some(Ok(()));
    assert_eq!(next_stop_step(&request, &progress), StopStep::StopMachine);
    progress.stopped = Some(Ok(()));
    assert_eq!(next_stop_step(&request, &progress), StopStep::MarkStopped);
    progress.marked = Some(Ok(true));
    assert_eq!(next_stop_step(&request, &progress), StopStep::LoadStatus);
    let status =
        MachineStatus { name: "vm".to_string(), state: RecordState::Stopped, record: record("vm") };
    progress.status = Some(Ok(Some(status.dup())));
    assert_eq!(next_stop_step(&request, &progress), StopStep::Finish(Ok(status)));
}

#[test]
fn stop_of_a_packed_machine_detaches_its_layers() {
    let request = StopMachine::new("vm".to_string());
    let mut packed = record("vm");
    packed.source_smolmachine = Some("/p.smolmachine".to_string());
    let mut progress = stop_progress();
    progress.record = found(&packed);
    progress.state = Some(RecordState::Stopped);
    assert_eq!(next_stop_step(&request, &progress), StopStep::DetachLayers);
    progress.detached = true;
    assert_eq!(next_stop_step(&request, &progress), StopStep::MarkStopped);
}

fn delete_progress() -> DeleteProgress {
    DeleteProgress {
        record: None,
        clones: None,
        state: None,
        second_state: None,
        stopped: None,
        removed: None,
        detached: false,
        data: None,
    }
}

#[test]
fn delete_refuses_a_fork_base_unless_told() {
    let mut request = DeleteMachine::new("vm".to_string());
    let mut progress = delete_progress();
    progress.record = found(&record("vm"));
    assert_eq!(next_delete_step(&request, &progress), DeleteStep::ListClones);
    progress.clones = Some(Ok(vec!["a".to_string(), "b".to_string()]));
    assert_eq!(
        next_delete_step(&request, &progress),
        DeleteStep::Finish(Err(Error::Agent {
            operation: "delete".to_string(),
            reason: "machine 'vm' is the fork base for 2 clone(s) (a, b)".to_string(),
        }))
    );
    request.break_dependent_clones = true;
    assert_eq!(next_delete_step(&request, &progress), DeleteStep::ProbeState);
}

#[test]
fn delete_stops_a_running_machine_first() {
    let request = DeleteMachine::new("vm".to_string());
    let mut progress = delete_progress();
    progress.record = found(&record("vm"));
    progress.clones = Some(Ok(vec![]));
    progress.state = Some(RecordState::Running);
    assert_eq!(
        next_delete_step(&request, &progress),
        DeleteStep::Stop(StopMachine { name: "vm".to_string() })
    );
    progress.stopped = Some(Ok(()));
    assert_eq!(next_delete_step(&request, &progress), DeleteStep::RemoveRecord);
    progress.removed = Some(Ok(()));
    assert_eq!(next_delete_step(&request, &progress), DeleteStep::DetachLayers);
    progress.detached = true;
    assert_eq!(next_delete_step(&request, &progress), DeleteStep::RemoveData);
    progress.data = Some(Removal::Removed);
    assert_eq!(next_delete_step(&request, &progress), DeleteStep::Finish(Ok(())));
    progress.data = Some(Removal::Missing);
    assert_eq!(next_delete_step(&request, &progress), DeleteStep::Finish(Ok(())));
    progress.data =
        Some(Removal::Failed { path: "/d".to_string(), reason: "busy".to_string() });
    assert_eq!(
        next_delete_step(&request, &progress),
        DeleteStep::Finish(Err(Error::Storage {
            operation: "delete machine data".to_string(),
            reason: "/d: busy".to_string(),
        }))
    );
}

#[test]
fn delete_keeps_data_if_told() {
    let mut request = DeleteMachine::new("vm".to_string());
    request.keep_data = true;
    let mut progress = delete_progress();
    progress.record = found(&record("vm"));
    progress.clones = Some(Ok(vec![]));
    progress.state = Some(RecordState::Stopped);
    progress.second_state = Some(RecordState::Stopped);
    progress.removed = Some(Ok(()));
    progress.detached = true;
    assert_eq!(next_delete_step(&request, &progress), DeleteStep::Finish(Ok(())));
}

#[test]
fn delete_looks_twice_at_a_machine_that_does_not_run() {
    let request = DeleteMachine::new("vm".to_string());
    let mut progress = delete_progress();
    progress.record = found(&record("vm"));
    progress.clones = Some(Ok(vec![]));
    progress.state = Some(RecordState::Stopped);
    assert_eq!(next_delete_step(&request, &progress), DeleteStep::ProbeAgain);
    progress.second_state = Some(RecordState::Unreachable);
    assert!(matches!(next_delete_step(&request, &progress), DeleteStep::Stop(_)));
    progress.second_state = Some(RecordState::Stopped);
    assert_eq!(next_delete_step(&request, &progress), DeleteStep::RemoveRecord);
}

fn create_progress() -> CreateProgress {
    CreateProgress {
        reserved: None,
        sidecar_exists: None,
        manager: None,
        cleared: None,
        footer: None,
        extracted: None,
        detached: false,
        committed: None,
        released: false,
        rolled_back: false,
    }
}

#[test]
fn create_refuses_a_taken_name() {
    let record = record("vm");
    let mut progress = create_progress();
    assert_eq!(next_create_step(&record, &progress), CreateStep::Reserve);
    progress.reserved = Some(Ok(false));
    assert!(matches!(next_create_step(&record, &progress), CreateStep::Finish(Err(_))));
}

#[test]
fn create_commits_the_record_or_undoes_everything() {
    let record = record("vm");
    let mut progress = create_progress();
    progress.reserved = Some(Ok(true));
    assert_eq!(next_create_step(&record, &progress), CreateStep::Commit(record.dup()));
    progress.committed = Some(Err(Error::Other { message: "disk full".to_string() }));
    let mut seen = vec![];
    for _ in 0..4 {
        let step = next_create_step(&record, &progress);
        match &step {
            CreateStep::Release => progress.released = true,
            CreateStep::RollBack => progress.rolled_back = true,
            CreateStep::Finish(result) => assert!(result.is_err()),
            other => panic!("unexpected {:?}", other),
        }
        let done = matches!(step, CreateStep::Finish(_));
        seen.push(step);
        if done {
            break;
        }
    }
    assert!(matches!(seen.last().unwrap(), CreateStep::Finish(Err(_))));
    assert!(seen.len() > 1);
}

#[test]
fn create_from_packed_machine_prepares_its_layers() {
    let mut record = record("vm");
    record.source_smolmachine = Some("/p.smolmachine".to_string());
    let mut progress = create_progress();
    progress.reserved = Some(Ok(true));
    assert_eq!(
        next_create_step(&record, &progress),
        CreateStep::CheckSidecar("/p.smolmachine".to_string())
    );
    progress.sidecar_exists = Some(true);
    assert!(matches!(next_create_step(&record, &progress), CreateStep::OpenManager { .. }));
    progress.manager = Some(Ok(()));
    assert_eq!(next_create_step(&record, &progress), CreateStep::ClearCache);
}

fn fork_progress() -> ForkProgress {
    ForkProgress {
        name: None,
        taken: None,
        golden: None,
        socket_status: None,
        snapshot: None,
        free_ports: None,
        inserted: None,
        forked: None,
        disks: None,
        started: None,
        rejuvenated: false,
        record_removed: false,
        dir_removed: false,
        status: None,
    }
}

#[test]
fn fork_refuses_a_taken_name() {
    let request = ForkMachine::new("g".to_string(), "c".to_string());
    let mut progress = fork_progress();
    assert_eq!(next_fork_step(&request, &progress), ForkStep::CheckName);
    progress.name = Some(Ok(()));
    assert_eq!(next_fork_step(&request, &progress), ForkStep::CheckTaken);
    progress.taken = Some(Ok(true));
    assert!(matches!(next_fork_step(&request, &progress), ForkStep::Finish(Err(_))));
}

#[test]
fn fork_with_unusable_name_fails() {
    let request = ForkMachine::new("g".to_string(), "bad name".to_string());
    let mut progress = fork_progress();
    progress.name = Some(Err("bad".to_string()));
    assert!(matches!(
        next_fork_step(&request, &progress),
        ForkStep::Finish(Err(Error::Config { .. }))
    ));
}

#[test]
fn clones_are_told_from_their_base() {
    let mut golden = record("g");
    golden.ports = vec![(8080, 80), (9090, 90)];
    let ports = clone_ports(&golden, &vec![], &vec![Some(40001), Some(40002)]);
    assert_eq!(ports, vec![(40001, 80), (40002, 90)]);
    let pinned = clone_ports(&golden, &vec![PortMapping { host: 1, guest: 2 }], &vec![]);
    assert_eq!(pinned, vec![(1, 2)]);
    let clone = clone_record(&golden, "g", "c", ports);
    assert_eq!(clone.name, "c");
    assert_eq!(clone.golden, Some("g".to_string()));
    assert_eq!(
        dependent_clones(
            &vec![("g".to_string(), golden), ("c".to_string(), clone), ("x".to_string(), record("x"))],
            "g"
        ),
        vec!["c"]
    );
}

#[test]
fn clone_is_given_a_new_identity() {
    let command = rejuvenate_clone("c1");
    assert!(command.command.iter().any(|word| word.contains("c1")));
}

#[test]
fn stop_undoes_start_in_the_record() {
    let before = record("vm");
    let mut after = record("vm");
    mark_running(&mut after, Some(9), Some(100));
    assert_eq!((after.state, after.pid), (RecordState::Running, Some(9)));
    mark_stopped(&mut after);
    let mut stopped = before.dup();
    mark_stopped(&mut stopped);
    assert_eq!(after, stopped);
    mark_exited(&mut after, Some(7));
    assert_eq!(after.last_exit_code, Some(7));
    assert_eq!(after.state, RecordState::Stopped);
}

#[test]
fn control_socket_answers_with_its_first_line() {
    assert_eq!(control_reply("OK ready\nmore\n"), "OK ready");
    assert_eq!(control_reply("OK\r\nmore"), "OK");
    assert_eq!(control_reply("OK\r"), "OK\r");
    assert_eq!(control_reply("\nlate"), "");
    assert_eq!(control_reply(""), "");
    assert_eq!(control_line("STATUS"), "STATUS\n");
}

#[test]
fn disks_of_a_clone_lie_over_those_that_exist() {
    let disks = vec![
        FoundDisk {
            name: "storage.raw".to_string(),
            image: Some("/data/g/storage.raw".to_string()),
            formatted: true,
        },
        FoundDisk { name: "overlay.raw".to_string(), image: None, formatted: false },
        FoundDisk {
            name: "plain".to_string(),
            image: Some("/data/g/plain".to_string()),
            formatted: true,
        },
    ];
    let plan = clone_disks(&disks);
    assert_eq!(
        plan.overlays,
        vec![
            ("storage.qcow2".to_string(), "/data/g/storage.raw".to_string()),
            ("plain.qcow2".to_string(), "/data/g/plain".to_string()),
        ]
    );
    assert_eq!(plan.marks, vec!["storage.formatted".to_string(), "plain.formatted".to_string()]);
    assert_eq!(disk_mark(".hidden"), ".hidden.formatted");
    assert_eq!(disk_mark("a.b.raw"), "a.b.formatted");
}
