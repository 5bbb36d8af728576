use smolvm::api::{
    accept_delete, accept_download, accept_exec, accept_fork, accept_list_images, accept_monitor,
    accept_network_test, accept_prune, accept_pull, accept_resize, accept_run, accept_session,
    accept_start, accept_storage_status, accept_update, accept_upload, exec_response, guest_path,
    machine_entry_from_record, session_response, show_machine, show_machines,
    validate_request_secrets, ApiError, EnvVar, ExecRequest, ForkMachineRequest,
    MachineRunRequest, MonitorQuery, PruneImagesRequest, PullImageRequest, ResizeMachineRequest,
    ResourceSpec, RunRequest, StartMachineRequest, UpdateMachineRequest,
};
use smolvm::drain::{
    next_shutdown_step, select_drained, DrainCandidate, DrainTarget, ShutdownProgress,
    ShutdownStep,
};
use smolvm::error::Error;
use smolvm::http_create::{
    effective_registry, next_http_create_step, plan_registry_pull, registry_host,
    restart_policy_text, CreateMachineRequest, HttpCreateProgress, HttpCreateStep, PackedManifest,
    Reference, RestartSpec,
};
use smolvm::model::Model;
use smolvm::requests::{ExecResult, MachineRunResult, MachineStatus};
use smolvm::secrets::{env_ref, ResolutionScope, SecretMap};
use smolvm::service::LocalMachineService;
use smolvm::types::{
    HostMount, PortMapping, RecordState, ResourceDefaults, RestartPolicy, TimeSpan, VmRecord,
};
use smolvm::web::{cors_origins, normalize_metrics_path, TraceId};

fn text(value: &str) -> String {
    value.to_string()
}

fn record(name: &str) -> VmRecord {
    VmRecord::new(text(name), 2, 1024, vec![], vec![(1, 2)], true, 5)
}

fn defaults() -> ResourceDefaults {
    ResourceDefaults { cpus: 4, memory_mib: 8192, storage_gib: 20, overlay_gib: 10 }
}

fn secrets() -> SecretMap {
    let mut refs = SecretMap::new();
    refs.insert(text("TOKEN"), env_ref("HOST"));
    refs
}

fn exec_request(command: Vec<&str>) -> ExecRequest {
    ExecRequest {
        command: command.into_iter().map(text).collect(),
        env: vec![EnvVar { name: text("A"), value: text("1") }],
        secrets: SecretMap::new(),
        workdir: Some(text("/w")),
        timeout_secs: Some(30),
        stdin: Some(text("in")),
        background: true,
    }
}

#[test]
fn exec_requests_are_checked_and_taken_over() {
    let request = exec_request(vec!["ls"]);
    let exec = accept_exec(text("vm"), Some(text("t")), &request, false).unwrap();
    assert_eq!(exec.env, vec![(text("A"), text("1"))]);
    assert_eq!(exec.timeout, Some(TimeSpan { secs: 30, nanos: 0 }));
    assert_eq!(exec.stdin, Some(text("in")));
    assert!(exec.background && exec.start_if_needed);
    assert_eq!(exec.secret_scope, ResolutionScope::Untrusted);
    let streamed = accept_exec(text("vm"), None, &request, true).unwrap();
    assert_eq!(streamed.stdin, None);
    assert!(!streamed.background);
    assert_eq!(
        accept_exec(text("vm"), None, &exec_request(vec![]), false),
        Err(ApiError::BadRequest(text("command cannot be empty")))
    );
    let mut with_secrets = exec_request(vec!["ls"]);
    with_secrets.secrets = secrets();
    assert!(accept_exec(text("vm"), None, &with_secrets, false).is_err());
}

#[test]
fn secrets_of_requests_are_refused_with_their_reason() {
    assert_eq!(
        validate_request_secrets(&secrets()),
        Err(ApiError::BadRequest(text(
            "secret 'TOKEN': secret refs (from_env/from_file) are only resolved for the trusted local host user"
        )))
    );
    let mut refs = SecretMap::new();
    refs.insert(text("ü"), env_ref("K"));
    assert_eq!(
        validate_request_secrets(&refs),
        Err(ApiError::BadRequest(text(
            "secrets entry with 2-byte key rejected: env key must start with an ASCII letter or underscore"
        )))
    );
}

#[test]
fn run_requests_are_checked_and_taken_over() {
    let mut request = RunRequest {
        image: text("img"),
        command: vec![text("ls")],
        env: vec![],
        secrets: SecretMap::new(),
        workdir: None,
        timeout_secs: None,
    };
    let run = accept_run(text("vm"), None, &request).unwrap();
    assert_eq!((run.name.as_str(), run.image.as_str()), ("vm", "img"));
    assert!(run.start_if_needed);
    request.command = vec![];
    assert!(accept_run(text("vm"), None, &request).is_err());
}

#[test]
fn output_that_is_no_text_is_made_readable() {
    let response = exec_response(&ExecResult {
        exit_code: 2,
        stdout: vec![104, 255, 105],
        stderr: vec![],
    });
    assert_eq!(response.exit_code, 2);
    assert_eq!(response.stdout, "h\u{fffd}i");
    assert_eq!(response.stderr, "");
}

fn session_request() -> MachineRunRequest {
    MachineRunRequest {
        name: None,
        detached: false,
        allow_existing: false,
        image: Some(text("img")),
        command: vec![],
        entrypoint: vec![],
        cmd: vec![text("serve")],
        env: vec![],
        secrets: SecretMap::new(),
        workdir: None,
        user: None,
        ports: vec![PortMapping { host: 1, guest: 2 }],
        resources: ResourceSpec {
            cpus: Some(1),
            memory_mb: None,
            network: None,
            gpu: Some(true),
            storage_gb: None,
            overlay_gb: None,
            allowed_cidrs: None,
        },
        init: vec![],
        ssh_agent: false,
        dns_filter_hosts: None,
        oci_platform: None,
        proxy: None,
        no_proxy: None,
        timeout_secs: None,
    }
}

#[test]
fn session_requests_are_checked_and_taken_over() {
    let mut request = session_request();
    let run = accept_session(&request, text("gen"), Ok(vec![]), &defaults()).unwrap();
    assert_eq!(run.name, "gen");
    assert_eq!((run.resources.cpus, run.resources.memory_mib), (1, 8192));
    assert!(run.resources.gpu && !run.resources.network && !run.ssh_agent);
    assert_eq!(
        accept_session(&request, text("gen"), Err(text("bad mount")), &defaults()),
        Err(ApiError::BadRequest(text("bad mount")))
    );
    request.cmd = vec![];
    assert_eq!(
        accept_session(&request, text("gen"), Ok(vec![]), &defaults()),
        Err(ApiError::BadRequest(text("foreground run requires command, entrypoint, or cmd")))
    );
    request.detached = true;
    let run = accept_session(&request, text("gen"), Ok(vec![]), &defaults()).unwrap();
    assert_eq!(run.name, "default");
    request.ssh_agent = true;
    assert!(accept_session(&request, text("gen"), Ok(vec![]), &defaults()).is_err());
}

#[test]
fn session_answers_tell_how_the_session_ended() {
    let answer = session_response(
        "asked",
        &MachineRunResult::Foreground { exit_code: 1, stdout: vec![97], stderr: vec![98] },
    );
    assert_eq!((answer.name.as_str(), answer.exit_code), ("asked", Some(1)));
    assert_eq!((answer.stdout.as_str(), answer.stderr.as_str()), ("a", "b"));
    let answer = session_response(
        "asked",
        &MachineRunResult::Detached { name: text("bg"), pid: Some(4) },
    );
    assert_eq!((answer.name.as_str(), answer.pid, answer.exit_code), ("bg", Some(4), None));
}

#[test]
fn machines_are_shown_or_not_found() {
    assert_eq!(
        show_machine("vm", &None),
        Err(ApiError::NotFound(text("machine 'vm' not found")))
    );
    let status = MachineStatus { name: text("vm"), state: RecordState::Running, record: record("vm") };
    assert_eq!(show_machine("vm", &Some(status.dup())).unwrap().state, "running");
    assert_eq!(show_machines(&vec![status.dup(), status]).len(), 2);
}

#[test]
fn remembered_machine_takes_over_its_record() {
    let entry = machine_entry_from_record(&record("vm"), session_request().resources);
    assert_eq!(entry.ports, vec![PortMapping { host: 1, guest: 2 }]);
    assert!(entry.network);
    assert_eq!(entry.resources.cpus, Some(1));
}

#[test]
fn update_requests_are_taken_over() {
    let request = UpdateMachineRequest {
        add_ports: vec![],
        remove_ports: vec![],
        cpus: Some(3),
        mem: None,
        network: Some(false),
        gpu: None,
        storage_gb: None,
        overlay_gb: Some(9),
        env: vec![EnvVar { name: text("A"), value: text("1") }],
        remove_env: vec![text("B")],
        workdir: None,
        allowed_cidrs: None,
        dns_filter_hosts: None,
        ssh_agent: Some(true),
    };
    let mount = HostMount { source: text("/h"), target: text("/g"), read_only: false };
    let update = accept_update(text("vm"), &request, Ok(vec![mount]), Ok(vec![])).unwrap();
    assert!(update.disable_network && !update.enable_network);
    assert!(update.enable_ssh_agent && !update.disable_ssh_agent);
    assert!(!update.enable_gpu && !update.disable_gpu);
    assert_eq!((update.cpus, update.overlay_gb), (Some(3), Some(9)));
    assert_eq!(update.add_mounts.len(), 1);
    assert_eq!(
        accept_update(text("vm"), &request, Ok(vec![]), Err(text("bad"))),
        Err(ApiError::BadRequest(text("bad")))
    );
    let resize = ResizeMachineRequest { storage_gb: Some(30), overlay_gb: None };
    let update = accept_resize(text("vm"), &resize).unwrap();
    assert_eq!((update.storage_gb, update.overlay_gb, update.cpus), (Some(30), None, None));
}

#[test]
fn monitor_requests_are_taken_over() {
    let mut query = MonitorQuery {
        restart: None,
        health_cmd: Some(text("curl x")),
        health_timeout_secs: None,
        interval_secs: Some(9),
        health_retries: None,
    };
    let monitor = accept_monitor(text("vm"), &query, Err(text("unread"))).unwrap();
    assert_eq!(monitor.restart_policy, None);
    assert_eq!(monitor.health_cmd, Some(vec![text("sh"), text("-c"), text("curl x")]));
    assert_eq!((monitor.health_timeout.secs, monitor.interval.secs), (5, 9));
    assert_eq!(monitor.health_retries, 3);
    query.restart = Some(text("sometimes"));
    assert_eq!(
        accept_monitor(text("vm"), &query, Err(text("unknown policy"))),
        Err(ApiError::BadRequest(text("unknown policy")))
    );
    let monitor = accept_monitor(text("vm"), &query, Ok(RestartPolicy::Always)).unwrap();
    assert_eq!(monitor.restart_policy, Some(RestartPolicy::Always));
}

#[test]
fn other_requests_are_taken_over() {
    assert!(accept_network_test(text("vm"), text(""), true, None).is_err());
    assert!(accept_network_test(text("vm"), text("http://x"), true, None).unwrap().start_if_needed);
    let mut pull = PullImageRequest {
        image: text("img"),
        oci_platform: None,
        proxy: None,
        no_proxy: None,
    };
    assert!(accept_pull(text("vm"), &pull, None).unwrap().start_if_needed);
    pull.image = text("");
    assert!(accept_pull(text("vm"), &pull, None).is_err());
    assert!(accept_list_images(text("vm"), None).empty_when_stopped);
    assert!(accept_storage_status(text("vm"), None).start_if_needed);
    let prune = PruneImagesRequest { dry_run: true, all: false, stop_after_start: true };
    assert!(accept_prune(text("vm"), &prune, None).stop_after_start);
    let body = StartMachineRequest { forkable: true, proxy: Some(text("p")), no_proxy: None };
    assert!(accept_start(text("vm"), &Some(body)).forkable);
    assert!(!accept_start(text("vm"), &None).forkable);
    let fork = ForkMachineRequest { clone: text("c"), ports: vec![] };
    assert_eq!(accept_fork(text("g"), &fork).clone, "c");
    let delete = accept_delete(text("vm"), true);
    assert!(delete.break_dependent_clones && !delete.keep_data);
}

#[test]
fn guest_paths_are_absolute() {
    assert_eq!(guest_path("a/b"), "/a/b");
    assert_eq!(guest_path("///a"), "/a");
    assert_eq!(guest_path(&guest_path("a")), "/a");
    let (write, answer) = accept_upload(text("vm"), "/x", vec![1, 2, 3], None);
    assert_eq!((write.guest_path.as_str(), answer.size), ("/x", 3));
    assert_eq!(answer.path, "/x");
    assert_eq!(accept_download(text("vm"), "x", None).guest_path, "/x");
}

fn create_request() -> CreateMachineRequest {
    CreateMachineRequest {
        name: None,
        cpus: None,
        mem: Some(100),
        mounts: vec![],
        ports: vec![],
        network: false,
        gpu: false,
        storage_gb: None,
        overlay_gb: None,
        allowed_cidrs: None,
        restart: None,
        image: None,
        from: None,
        registry_ref: None,
        registry_identity_token: Some(text("token")),
        secrets: SecretMap::new(),
    }
}

fn create_progress() -> HttpCreateProgress {
    HttpCreateProgress {
        pulled: None,
        sidecar_exists: None,
        manifest: None,
        generated: text("gen"),
        policy: Err(text("not read")),
        mounts: Ok(vec![]),
    }
}

fn manifest() -> PackedManifest {
    PackedManifest {
        image: text("packed"),
        entrypoint: vec![text("/run")],
        cmd: vec![],
        env: vec![text("A=1")],
        workdir: Some(text("/w")),
        cpus: 6,
        mem: 12_288,
        network: true,
        gpu: false,
        secret_refs: SecretMap::new(),
    }
}

#[test]
fn create_takes_one_source_only() {
    let mut request = create_request();
    request.image = Some(text("img"));
    request.from = Some(text("/p"));
    assert_eq!(
        next_http_create_step(&request, &create_progress(), &defaults()),
        HttpCreateStep::Refuse(ApiError::BadRequest(text(
            "'registryRef', 'from', and 'image' are mutually exclusive"
        )))
    );
}

#[test]
fn create_from_a_registry_pulls_and_reads_the_packed_machine() {
    let mut request = create_request();
    request.registry_ref = Some(text("team/dev:v1"));
    let mut progress = create_progress();
    assert_eq!(
        next_http_create_step(&request, &progress, &defaults()),
        HttpCreateStep::Pull { reference: text("team/dev:v1"), token: Some(text("token")) }
    );
    progress.pulled = Some(Err(ApiError::Internal(text("offline"))));
    assert_eq!(
        next_http_create_step(&request, &progress, &defaults()),
        HttpCreateStep::Refuse(ApiError::Internal(text("offline")))
    );
    progress.pulled = Some(Ok(text("/cache/p")));
    assert_eq!(
        next_http_create_step(&request, &progress, &defaults()),
        HttpCreateStep::Look(text("/cache/p"))
    );
    progress.sidecar_exists = Some(false);
    assert_eq!(
        next_http_create_step(&request, &progress, &defaults()),
        HttpCreateStep::Refuse(ApiError::BadRequest(text("sidecar file not found: /cache/p")))
    );
    progress.sidecar_exists = Some(true);
    assert_eq!(
        next_http_create_step(&request, &progress, &defaults()),
        HttpCreateStep::ReadManifest(text("/cache/p"))
    );
    progress.manifest = Some(Err(text("bad magic")));
    assert_eq!(
        next_http_create_step(&request, &progress, &defaults()),
        HttpCreateStep::Refuse(ApiError::Internal(text("read .smolmachine: bad magic")))
    );
    progress.manifest = Some(Ok((manifest(), text("/full/p"))));
    match next_http_create_step(&request, &progress, &defaults()) {
        HttpCreateStep::Create(create) => {
            assert_eq!(create.name, "gen");
            assert_eq!((create.cpus, create.memory_mib), (6, 100));
            assert!(create.net);
            assert_eq!(create.source_smolmachine, Some(text("/full/p")));
            assert_eq!(create.restart_policy, Some(RestartPolicy::Never));
        }
        other => panic!("unexpected {:?}", other),
    }
    let mut packed = manifest();
    packed.secret_refs = secrets();
    progress.manifest = Some(Ok((packed, text("/full/p"))));
    assert!(matches!(
        next_http_create_step(&request, &progress, &defaults()),
        HttpCreateStep::Refuse(ApiError::BadRequest(_))
    ));
}

#[test]
fn create_reads_the_restart_policy_and_the_mounts() {
    let mut request = create_request();
    request.name = Some(text("vm"));
    request.restart = Some(RestartSpec { policy: None, max_retries: Some(4) });
    assert_eq!(restart_policy_text(request.restart.as_ref().unwrap()), "never");
    let mut progress = create_progress();
    assert_eq!(
        next_http_create_step(&request, &progress, &defaults()),
        HttpCreateStep::Refuse(ApiError::BadRequest(text("not read")))
    );
    progress.policy = Ok(RestartPolicy::OnFailure);
    match next_http_create_step(&request, &progress, &defaults()) {
        HttpCreateStep::Create(create) => {
            assert_eq!(create.restart_policy, Some(RestartPolicy::OnFailure));
            assert_eq!(create.restart_max_retries, Some(4));
            assert_eq!((create.cpus, create.memory_mib), (4, 100));
        }
        other => panic!("unexpected {:?}", other),
    }
    progress.mounts = Err(text("no such directory"));
    assert_eq!(
        next_http_create_step(&request, &progress, &defaults()),
        HttpCreateStep::Refuse(ApiError::BadRequest(text("no such directory")))
    );
}

#[test]
fn registry_pulls_choose_host_and_token() {
    let parsed = Reference {
        registry: text("docker.io"),
        repository: text("team/dev"),
        tag: None,
        digest: None,
    };
    assert_eq!(registry_host("docker.io"), "registry-1.docker.io");
    assert_eq!(registry_host("ghcr.io"), "ghcr.io");
    assert_eq!(effective_registry(&parsed, &Some(text("mirror"))), "mirror");
    let pull = plan_registry_pull(&parsed, &None, false, &None, &Some(text("saved")));
    assert_eq!(pull.base_url, "https://registry-1.docker.io");
    assert_eq!(pull.identity_token, Some(text("saved")));
    assert_eq!((pull.repository.as_str(), pull.reference.as_str()), ("team/dev", "latest"));
    let pull = plan_registry_pull(
        &parsed,
        &Some(text("localhost:5000")),
        true,
        &Some(text("asked")),
        &Some(text("saved")),
    );
    assert_eq!(pull.base_url, "http://localhost:5000");
    assert_eq!(pull.identity_token, Some(text("asked")));
}

#[test]
fn usable_origins_are_allowed_and_defaults_stand_in() {
    let default_origins = vec![
        "http://localhost:8080",
        "http://127.0.0.1:8080",
        "http://localhost:3000",
        "http://127.0.0.1:3000",
    ];
    assert_eq!(cors_origins(&vec![]), default_origins);
    assert_eq!(cors_origins(&vec![text("bad\n"), text("\u{7f}")]), default_origins);
    assert_eq!(
        cors_origins(&vec![text("https://a"), text("bad\u{0}"), text("https://ü\t")]),
        vec!["https://a", "https://ü\t"]
    );
}

#[test]
fn metrics_do_not_name_machines() {
    assert_eq!(normalize_metrics_path("/api/v1/machines/dev/exec"), "/api/v1/machines/:id/exec");
    assert_eq!(normalize_metrics_path("/api/v1/machines/prod"), "/api/v1/machines/:id");
    assert_eq!(normalize_metrics_path("/api/v1/machines/"), "/api/v1/machines/");
    assert_eq!(normalize_metrics_path("/api/v1/machines"), "/api/v1/machines");
    assert_eq!(normalize_metrics_path("/health"), "/health");
    let once = normalize_metrics_path("/api/v1/machines/dev/logs");
    assert_eq!(normalize_metrics_path(&once), once);
}

#[test]
fn trace_ids_are_padded() {
    assert_eq!(TraceId::of(0, 1).id, "0000000000000001");
    assert_eq!(TraceId::of(0xabc, 0xdeadbeef).id, "00000abcdeadbeef");
    assert_eq!(TraceId::of(0x1_2345_6789, 0).id, "12345678900000000");
}

#[test]
fn running_machines_are_drained() {
    let machine = |name: &str, state: RecordState, alive: bool| {
        let mut record = record(name);
        record.pid = Some(3);
        DrainCandidate { name: text(name), record, state, alive }
    };
    assert_eq!(
        select_drained(&vec![
            machine("a", RecordState::Running, true),
            machine("b", RecordState::Running, false),
            machine("c", RecordState::Stopped, true),
        ]),
        vec![DrainTarget { name: text("a"), pid: Some(3), pid_start_time: None }]
    );
}

#[test]
fn only_the_own_process_is_stopped() {
    let mut progress = ShutdownProgress {
        manager: None,
        connected: None,
        ours: None,
        signalled: false,
        alive: None,
        answers: None,
    };
    assert_eq!(next_shutdown_step(Some(9), &progress), ShutdownStep::FindManager);
    progress.manager = Some(true);
    assert_eq!(next_shutdown_step(Some(9), &progress), ShutdownStep::AskAgent);
    progress.connected = Some(false);
    assert_eq!(next_shutdown_step(Some(9), &progress), ShutdownStep::CheckIdentity(9));
    progress.ours = Some(false);
    assert_eq!(next_shutdown_step(Some(9), &progress), ShutdownStep::CheckAlive(9));
    progress.ours = Some(true);
    assert_eq!(next_shutdown_step(Some(9), &progress), ShutdownStep::StopProcess(9));
    progress.signalled = true;
    progress.alive = Some(true);
    assert_eq!(next_shutdown_step(Some(9), &progress), ShutdownStep::Done(false));
    assert_eq!(next_shutdown_step(None, &progress), ShutdownStep::PingAgent);
    progress.answers = Some(false);
    assert_eq!(next_shutdown_step(None, &progress), ShutdownStep::Done(true));
}

#[test]
fn service_is_made_over_a_store() {
    let service = LocalMachineService::with_db(7u8);
    assert_eq!(*service.db(), 7);
    assert!(LocalMachineService::new(Ok(7u8)).is_ok());
    let failed = Error::Other { message: text("locked") };
    match LocalMachineService::<u8>::new(Err(failed.dup())) {
        Err(error) => assert_eq!(error, failed),
        Ok(_) => panic!("the store was not opened"),
    }
}
