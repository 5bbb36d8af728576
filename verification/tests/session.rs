use smolvm::error::Error;
use smolvm::model::Model;
use smolvm::monitor::{
    health_outcome, next_setup_step, HealthOutcome, MonitorEvent, MonitorInput, MonitorSetup, MonitorState,
    MonitorTask, SetupStep,
};
use smolvm::records::{persist_detached_run, register_ephemeral_run, DetachedRunRecord};
use smolvm::requests::{ExecResult, MachineRun, MachineRunResult, MonitorMachine};
use smolvm::session::{
    enrich_bare_run_error, next_session_step, CommandDefaults, SessionProgress, SessionStep,
};
use smolvm::types::{RestartPolicy, TimeSpan, VmRecord, VmResources};

fn resources() -> VmResources {
    VmResources {
        cpus: 4,
        memory_mib: 8192,
        network: false,
        network_backend: None,
        gpu: false,
        gpu_vram_mib: None,
        storage_gib: None,
        overlay_gib: None,
        allowed_cidrs: None,
    }
}

fn defaults() -> CommandDefaults {
    CommandDefaults { idle: vec!["sleep".to_string()], shell: "/bin/sh".to_string() }
}

fn progress() -> SessionProgress {
    SessionProgress {
        resources: None,
        backend: None,
        duplicates: None,
        taken: None,
        announced: false,
        manager: None,
        ssh_socket: None,
        launched: None,
        registered: false,
        connected: None,
        pulled: None,
        secrets: None,
        image_env: None,
        init: vec![],
        detached: None,
        saved: None,
        let_go: false,
        output: None,
        shown: false,
        deregistered: false,
        killed: false,
        cleaned: false,
        stopped: false,
    }
}

/// Runs a session on a host where everything works, and notes what was done.
fn drive(request: &MachineRun) -> (Vec<&'static str>, Result<MachineRunResult, Error>) {
    let mut progress = progress();
    let mut done = vec![];
    for _ in 0..60 {
        match next_session_step(request, &progress, &defaults()) {
            SessionStep::CheckResources(_) => progress.resources = Some(Ok(())),
            SessionStep::CheckBackend { .. } => progress.backend = Some(Ok(())),
            SessionStep::CheckDuplicates(_) => progress.duplicates = Some(Ok(())),
            SessionStep::CheckTaken => progress.taken = Some(Ok(false)),
            SessionStep::Announce(_) => progress.announced = true,
            SessionStep::OpenManager { .. } => progress.manager = Some(Ok(())),
            SessionStep::FindSshSocket => progress.ssh_socket = Some(None),
            SessionStep::Launch(_) => {
                done.push("launch");
                progress.launched = Some(Ok((true, Some(7))));
            }
            SessionStep::Register(_) => {
                done.push("register");
                progress.registered = true;
            }
            SessionStep::Connect { .. } => progress.connected = Some(Ok(())),
            SessionStep::Pull { .. } => panic!("no image to pull"),
            SessionStep::ReadSecrets(_) => progress.secrets = Some(Ok(vec![])),
            SessionStep::ParseImageEnv(_) => progress.image_env = Some(vec![]),
            SessionStep::RunInit(_) => {
                done.push("init");
                progress.init.push(Ok(ExecResult {
                    exit_code: 0,
                    stdout: vec![],
                    stderr: vec![],
                }));
            }
            SessionStep::RunDetached(_) => {
                done.push("run detached");
                progress.detached = Some(Ok(()));
            }
            SessionStep::Save(_) => {
                done.push("save");
                progress.saved = Some(Ok(()));
            }
            SessionStep::LetGo => progress.let_go = true,
            SessionStep::Run { .. } => {
                done.push("run");
                progress.output = Some(Ok(ExecResult {
                    exit_code: 3,
                    stdout: vec![104, 105],
                    stderr: vec![],
                }));
            }
            SessionStep::Show { .. } => progress.shown = true,
            SessionStep::Deregister => {
                done.push("deregister");
                progress.deregistered = true;
            }
            SessionStep::Kill => {
                done.push("kill");
                progress.killed = true;
            }
            SessionStep::CleanUp => {
                done.push("clean up");
                progress.cleaned = true;
            }
            SessionStep::Stop => {
                done.push("stop");
                progress.stopped = true;
            }
            SessionStep::Finish(result) => return (done, result),
        }
    }
    panic!("the session does not end");
}

#[test]
fn foreground_session_leaves_nothing_behind() {
    let mut request = MachineRun::new("eph".to_string(), resources());
    request.command = vec!["ls".to_string()];
    request.init = vec!["setup".to_string()];
    let (done, result) = drive(&request);
    assert_eq!(
        result,
        Ok(MachineRunResult::Foreground { exit_code: 3, stdout: vec![104, 105], stderr: vec![] })
    );
    let place = |name: &str| done.iter().position(|step| *step == name).unwrap();
    assert!(place("init") < place("run"));
    assert!(place("run") < place("deregister"));
    assert!(done.contains(&"kill") || done.contains(&"stop"));
}

#[test]
fn detached_session_is_saved_and_runs_on() {
    let mut request = MachineRun::new("bg".to_string(), resources());
    request.detached = true;
    let (done, result) = drive(&request);
    assert_eq!(
        result,
        Ok(MachineRunResult::Detached { name: "bg".to_string(), pid: Some(7) })
    );
    assert!(done.contains(&"save"));
    assert!(!done.contains(&"kill"));
    assert!(!done.contains(&"deregister"));
}

#[test]
fn session_with_a_taken_name_launches_nothing() {
    let mut request = MachineRun::new("bg".to_string(), resources());
    request.detached = true;
    let mut progress = progress();
    progress.resources = Some(Ok(()));
    progress.backend = Some(Ok(()));
    progress.duplicates = Some(Ok(()));
    progress.taken = Some(Ok(true));
    assert!(matches!(
        next_session_step(&request, &progress, &defaults()),
        SessionStep::Finish(Err(_))
    ));
    request.allow_existing_record = true;
    assert!(!matches!(
        next_session_step(&request, &progress, &defaults()),
        SessionStep::Finish(Err(_))
    ));
}

#[test]
fn missing_program_gets_a_hint() {
    let error = Error::Other { message: "x".to_string() };
    let plain = enrich_bare_run_error(error.dup(), "exit 1", "alpine");
    assert_eq!(plain, error);
    match enrich_bare_run_error(error.dup(), "os error 2", "alpine") {
        Error::Agent { operation, reason } => {
            assert_eq!(operation, "vm exec");
            assert!(reason.starts_with("os error 2\n\nNote: 'alpine' was not found in the VM."));
        }
        other => panic!("unexpected {:?}", other),
    }
    assert_eq!(enrich_bare_run_error(error.dup(), "os error 2", "/bin/x"), error);
}

#[test]
fn session_records_tell_how_the_machine_was_made() {
    let mut request = MachineRun::new("eph".to_string(), resources());
    request.image = Some("img".to_string());
    let ephemeral = register_ephemeral_run(&request, Some(5), 9);
    assert!(ephemeral.ephemeral);
    assert_eq!((ephemeral.pid, ephemeral.created_at), (Some(5), 9));
    let detached = DetachedRunRecord {
        pid: Some(6),
        image: Some("img".to_string()),
        entrypoint: vec![],
        cmd: vec!["serve".to_string()],
        env: vec![],
        workdir: None,
        user: None,
    };
    let kept = persist_detached_run(&request, detached, Some(3), 9);
    assert!(!kept.ephemeral);
    assert_eq!(kept.cmd, vec!["serve"]);
    assert_eq!((kept.pid, kept.pid_start_time), (Some(6), Some(3)));
}

fn watched(retries: u32) -> MonitorState {
    let mut request = MonitorMachine::new("vm".to_string());
    request.restart_policy = Some(RestartPolicy::Always);
    request.health_cmd = Some(vec!["check".to_string()]);
    request.health_retries = retries;
    let record = VmRecord::new("vm".to_string(), 1, 512, vec![], vec![], false, 5);
    let setup = MonitorSetup {
        record: Some(Ok(Some(record))),
        manager: Some(Ok(())),
        alive: Some(true),
        reported: false,
        started: None,
        reloaded: None,
    };
    match next_setup_step(&request, &setup) {
        SetupStep::Ready { state, event } => {
            assert!(matches!(event, MonitorEvent::Monitoring { .. }));
            state
        }
        other => panic!("unexpected {:?}", other),
    }
}

fn span(secs: u64) -> TimeSpan {
    TimeSpan { secs, nanos: 0 }
}

fn check(state: &mut MonitorState, outcome: HealthOutcome) -> Vec<MonitorEvent> {
    assert!(matches!(state.task, MonitorTask::Wait { secs: 5 }));
    assert!(state.advance(MonitorInput::Woke { stop: false, elapsed: span(5) }).is_empty());
    assert!(state.advance(MonitorInput::Opened { ok: true }).is_empty());
    assert!(state
        .advance(MonitorInput::Looked { alive: true, since_start: span(100) })
        .is_empty());
    assert!(matches!(state.task, MonitorTask::CheckHealth(_)));
    state.advance(MonitorInput::Health(outcome))
}

#[test]
fn unhealthy_machine_is_stopped_after_its_retries() {
    let mut state = watched(2);
    let failed = || HealthOutcome::Failed { exit_code: 1, stderr: b" bad \n".to_vec() };
    let events = check(&mut state, failed());
    assert_eq!(
        events,
        vec![MonitorEvent::HealthFailed {
            exit_code: 1,
            consecutive: 1,
            retries: 2,
            stderr: "bad".to_string(),
        }]
    );
    assert_eq!(check(&mut state, HealthOutcome::Passed), vec![MonitorEvent::HealthRecovered]);
    assert_eq!(state.consecutive, 0);
    check(&mut state, HealthOutcome::Unreachable);
    let events = check(&mut state, failed());
    assert!(events.contains(&MonitorEvent::UnhealthyStopping));
    assert!(matches!(state.task, MonitorTask::StopUnhealthy(_)));
}

#[test]
fn restarts_are_counted() {
    let mut state = watched(3);
    state.advance(MonitorInput::Woke { stop: false, elapsed: span(5) });
    state.advance(MonitorInput::Opened { ok: true });
    state.advance(MonitorInput::Looked { alive: false, since_start: span(1) });
    assert_eq!(state.task, MonitorTask::CollectExit);
    let events = state.advance(MonitorInput::Exited { exit_code: Some(9) });
    assert_eq!(events, vec![MonitorEvent::MachineExited { exit_code: Some(9) }]);
    assert_eq!(state.task, MonitorTask::SaveExit { exit_code: Some(9) });
    state.advance(MonitorInput::Done);
    assert!(matches!(state.task, MonitorTask::ChooseRestart { .. }));
    let events = state.advance(MonitorInput::RestartChoice { restart: true, backoff_secs: 4 });
    assert_eq!(events, vec![MonitorEvent::Restarting { attempt: 1, backoff_secs: 4 }]);
    assert_eq!(state.restart.restart_count, 1);
}

#[test]
fn monitor_that_is_told_to_stop_ends() {
    let mut state = watched(3);
    state.advance(MonitorInput::Woke { stop: true, elapsed: span(5) });
    assert_eq!(state.task, MonitorTask::SaveUserStopped);
    let events = state.advance(MonitorInput::Done);
    assert_eq!(events, vec![MonitorEvent::Stopped { name: "vm".to_string() }]);
    assert!(matches!(state.task, MonitorTask::Finished(_)));
}

#[test]
fn sleeping_host_resets_the_failures() {
    let mut state = watched(3);
    check(&mut state, HealthOutcome::Unreachable);
    let events = state.advance(MonitorInput::Woke { stop: false, elapsed: span(65) });
    assert_eq!(events, vec![MonitorEvent::SuspendDetected { sleep_secs: 60 }]);
    assert_eq!(state.consecutive, 0);
}

#[test]
fn monitor_starts_a_machine_that_does_not_run() {
    let request = MonitorMachine::new("vm".to_string());
    let mut setup = MonitorSetup {
        record: Some(Ok(None)),
        manager: None,
        alive: None,
        reported: false,
        started: None,
        reloaded: None,
    };
    assert_eq!(
        next_setup_step(&request, &setup),
        SetupStep::Failed(Error::VmNotFound { name: "vm".to_string() })
    );
    let record = VmRecord::new("vm".to_string(), 1, 512, vec![], vec![], false, 5);
    setup.record = Some(Ok(Some(record)));
    setup.manager = Some(Ok(()));
    setup.alive = Some(false);
    assert_eq!(
        next_setup_step(&request, &setup),
        SetupStep::Report(MonitorEvent::Starting { name: "vm".to_string() })
    );
    setup.reported = true;
    assert!(matches!(next_setup_step(&request, &setup), SetupStep::Start(_)));
}

#[test]
fn monitor_run_starts_with_monitoring_and_ends_with_stopped() {
    let request = MonitorMachine::new("vm".to_string());
    let record = VmRecord::new("vm".to_string(), 1, 512, vec![], vec![], false, 5);
    let setup = MonitorSetup {
        record: Some(Ok(Some(record))),
        manager: Some(Ok(())),
        alive: Some(true),
        reported: false,
        started: None,
        reloaded: None,
    };
    let SetupStep::Ready { mut state, event } = next_setup_step(&request, &setup) else {
        panic!("expected a monitor");
    };
    let mut events = vec![event];
    events.extend(state.advance(MonitorInput::Woke { stop: false, elapsed: span(5) }));
    events.extend(state.advance(MonitorInput::Opened { ok: true }));
    events.extend(state.advance(MonitorInput::Looked { alive: false, since_start: span(5) }));
    events.extend(state.advance(MonitorInput::Exited { exit_code: Some(1) }));
    events.extend(state.advance(MonitorInput::Done));
    events.extend(state.advance(MonitorInput::RestartChoice { restart: false, backoff_secs: 0 }));
    events.extend(state.advance(MonitorInput::Done));
    assert!(state.advance(MonitorInput::Done).is_empty());
    assert_eq!(events.len(), 4);
    assert!(matches!(events[0], MonitorEvent::Monitoring { .. }));
    assert!(matches!(events[1], MonitorEvent::MachineExited { exit_code: Some(1) }));
    assert!(matches!(events[2], MonitorEvent::NotRestarting { .. }));
    assert_eq!(events[3], MonitorEvent::Stopped { name: "vm".to_string() });
}

#[test]
fn health_commands_pass_with_exit_code_zero() {
    let result = |exit_code: i32| ExecResult { exit_code, stdout: vec![], stderr: b"bad".to_vec() };
    assert_eq!(health_outcome(result(0)), HealthOutcome::Passed);
    assert_eq!(
        health_outcome(result(3)),
        HealthOutcome::Failed { exit_code: 3, stderr: b"bad".to_vec() }
    );
}
