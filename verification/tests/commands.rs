use smolvm::cli::{
    copied_message, image_requests, images_json, network_notation_line, network_result_line,
    shorten_reference, show_report, show_storage, starts_for_query, CopyPlan, DeleteCmdStep,
    ExecEventPrinter, ImageRow, Shown, StartCmdProgress, StartCmdStep,
};
use smolvm::commands::{
    CpCmd, CreateCmd, CreateVmParams, DeleteCmd, ExecCmd, ForkCmd, LsCmd, MachineCmd, MonitorCmd,
    NetworkTestCmd, ProxyOpts, PruneCmd, RunCmd, ShellCmd, StartCmd, UpdateCmd,
};
use smolvm::create_cmd::{
    next_create_cmd_step, print_create_success, CreateCmdProgress, CreateCmdStep, CreateInputs,
};
use smolvm::error::Error;
use smolvm::guest::{client_for_operation, ClientProgress, ClientStep};
use smolvm::flags::ResolvedHost;
use smolvm::http_create::PackedManifest;
use smolvm::listing::{
    cleanup_orphaned_ephemeral_vms, list_vms, machine_status_json, resolve_vm_name, status_vm,
    status_vm_json, vm_label, FoundMachine, ListedMachine,
};
use smolvm::model::Model;
use smolvm::monitor::MonitorEvent;
use smolvm::operation::MachineOperation;
use smolvm::requests::{
    MachineRunPullProgress, MachineRunResult, MachineStatus, PruneImagesResult,
};
use smolvm::resize::{
    explain_resize_error, resize_vm, set_disk_sizes, ResizeProgress, ResizeStep,
};
use smolvm::run_cmd::{
    next_run_step, pull_prompt, run_outcome, PullRenderer, RunInputs, RunOutcome, RunProgress,
    RunStep,
};
use smolvm::secrets::{env_ref, SecretMap};
use smolvm::types::{
    ExecEvent, HostMount, PortMapping, RecordState, ResourceDefaults, RestartPolicy,
    StorageStatus, VmRecord,
};

fn text(value: &str) -> String {
    value.to_string()
}

fn texts(values: &[&str]) -> Vec<String> {
    values.iter().map(|value| value.to_string()).collect()
}

fn defaults() -> ResourceDefaults {
    ResourceDefaults { cpus: 4, memory_mib: 8192, storage_gib: 20, overlay_gib: 10 }
}

fn record(name: &str) -> VmRecord {
    VmRecord::new(text(name), 2, 1024, vec![], vec![], false, 0)
}

fn proxy() -> ProxyOpts {
    ProxyOpts { proxy: None, no_proxy: None }
}

fn run_cmd() -> RunCmd {
    RunCmd {
        image: None,
        from: None,
        name: None,
        command: vec![],
        detach: false,
        interactive: false,
        tty: false,
        timeout: None,
        workdir: None,
        env: vec![],
        oci_platform: None,
        volume: vec![],
        port: vec![],
        net: false,
        net_backend: None,
        allow_cidr: vec![],
        allow_host: vec![],
        outbound_localhost_only: false,
        gpu: false,
        gpu_vram_mib: None,
        cpus: 4,
        mem: 2048,
        storage: None,
        overlay: None,
        smolfile: None,
        ssh_agent: false,
        docker_config: false,
        secret_env: vec![],
        secret_file: vec![],
        proxy_opts: proxy(),
    }
}

fn params(name: &str) -> CreateVmParams {
    CreateVmParams {
        name: text(name),
        image: None,
        entrypoint: vec![],
        cmd: vec![],
        cpus: 4,
        mem: 2048,
        volume: vec![],
        port: vec![],
        net: false,
        network_backend: None,
        init: vec![],
        env: vec![],
        workdir: None,
        storage_gb: None,
        overlay_gb: None,
        allowed_cidrs: None,
        restart_policy: None,
        restart_max_retries: None,
        restart_max_backoff_secs: None,
        health_cmd: None,
        health_interval_secs: None,
        health_timeout_secs: None,
        health_retries: None,
        health_startup_grace_secs: None,
        ssh_agent: false,
        gpu: false,
        gpu_vram_mib: None,
        dns_filter_hosts: None,
        source_smolmachine: None,
        secret_refs: SecretMap::new(),
    }
}

fn run_progress() -> RunProgress {
    RunProgress {
        generated: text("gen"),
        existing: None,
        hosts: Some(vec![]),
        params: Some(Ok(params("gen"))),
        inputs: Some(RunInputs {
            mounts: Ok(vec![]),
            docker: None,
            ports: Ok(()),
            resources: Ok(()),
            network: Ok(()),
            env: vec![],
        }),
    }
}

fn failure(step: RunStep) -> (Vec<String>, Error) {
    match step {
        RunStep::Fail { notices, error } => (notices, error),
        other => panic!("unexpected {:?}", other),
    }
}

#[test]
fn run_without_a_command_is_refused() {
    let (notices, error) = failure(next_run_step(&run_cmd(), &run_progress(), &defaults()));
    assert!(notices.is_empty());
    assert_eq!(
        error,
        Error::Config {
            operation: text("machine run"),
            reason: text(
                "no command specified.\nUse: smolvm machine run -- <command>\nOr:  smolvm machine run -it"
            ),
        }
    );
}

#[test]
fn run_of_an_image_as_command_gets_a_suggestion() {
    let mut cmd = run_cmd();
    cmd.command = texts(&["ubuntu:22.04", "--", "bash", "-l"]);
    let (_, error) = failure(next_run_step(&cmd, &run_progress(), &defaults()));
    assert_eq!(
        error,
        Error::Config {
            operation: text("machine run"),
            reason: text(
                "'ubuntu:22.04' looks like a container image reference, not a command.\nTo run a container, use --image:\n  smolvm machine run --image ubuntu:22.04 -- bash -l"
            ),
        }
    );
    cmd.command = texts(&["ubuntu:22.04"]);
    let (_, error) = failure(next_run_step(&cmd, &run_progress(), &defaults()));
    assert!(matches!(error, Error::Config { reason, .. }
        if reason.ends_with("\n  smolvm machine run --image ubuntu:22.04")));
}

#[test]
fn run_under_a_chosen_name_needs_that_name_free() {
    let mut cmd = run_cmd();
    cmd.detach = true;
    cmd.tty = true;
    cmd.name = Some(text("dev"));
    let mut progress = run_progress();
    assert_eq!(next_run_step(&cmd, &progress, &defaults()), RunStep::LookUp(text("dev")));
    progress.existing = Some(Ok(true));
    let (_, error) = failure(next_run_step(&cmd, &progress, &defaults()));
    assert_eq!(
        error,
        Error::Config {
            operation: text("machine run -d --name"),
            reason: text(
                "a machine named 'dev' already exists. Use 'machine start --name dev' to start it, or 'machine delete dev -f' to remove it."
            ),
        }
    );
    progress.existing = Some(Ok(false));
    match next_run_step(&cmd, &progress, &defaults()) {
        RunStep::Run { notices, request } => {
            assert_eq!(
                notices,
                vec![
                    "warning: -i/-t flags are ignored in detached mode (-d)",
                    "Starting persistent machine..."
                ]
            );
            assert_eq!(request.name, "dev");
            assert!(!request.allow_existing_record && request.kill_on_sigint);
        }
        other => panic!("unexpected {:?}", other),
    }
}

#[test]
fn run_in_the_foreground_warns_that_a_name_is_ignored() {
    let mut cmd = run_cmd();
    cmd.command = texts(&["echo"]);
    cmd.name = Some(text("foo"));
    match next_run_step(&cmd, &run_progress(), &defaults()) {
        RunStep::Run { notices, request } => {
            assert_eq!(
                notices,
                vec![
                    "warning: --name is ignored in foreground mode (without -d)",
                    "Starting ephemeral machine (gen)..."
                ]
            );
            assert_eq!(request.name, "gen");
        }
        other => panic!("unexpected {:?}", other),
    }
}

#[test]
fn run_takes_its_settings_from_flags_and_file() {
    let mut cmd = run_cmd();
    cmd.command = texts(&["ls"]);
    cmd.allow_host = texts(&["a"]);
    cmd.docker_config = true;
    cmd.secret_env = texts(&["T=H"]);
    let mut progress = run_progress();
    progress.hosts = None;
    assert_eq!(
        next_run_step(&cmd, &progress, &defaults()),
        RunStep::ResolveHosts(texts(&["a"]))
    );
    progress.hosts =
        Some(vec![ResolvedHost { host: text("a"), cidrs: Ok(texts(&["1.1.1.1/32"])) }]);
    let mut from_file = params("gen");
    from_file.dns_filter_hosts = Some(texts(&["f"]));
    from_file.secret_refs.insert(text("T"), env_ref("OLD"));
    progress.params = None;
    match next_run_step(&cmd, &progress, &defaults()) {
        RunStep::BuildParams(request) => {
            assert!(request.net);
            assert_eq!(request.allow_cidrs, vec!["1.1.1.1/32"]);
            assert_eq!(request.name, "gen");
        }
        other => panic!("unexpected {:?}", other),
    }
    progress.params = Some(Ok(from_file));
    let inputs = progress.inputs.take();
    match next_run_step(&cmd, &progress, &defaults()) {
        RunStep::Check(check) => {
            assert_eq!(check.dns_filter_hosts, Some(texts(&["f", "a"])));
            assert!(check.docker_config);
        }
        other => panic!("unexpected {:?}", other),
    }
    progress.inputs = inputs;
    let mount = HostMount { source: text("/d"), target: text("/d"), read_only: true };
    progress.inputs.as_mut().unwrap().docker = Some(mount.dup());
    match next_run_step(&cmd, &progress, &defaults()) {
        RunStep::Run { notices, request } => {
            assert_eq!(notices, vec!["Starting ephemeral machine (gen)..."]);
            assert_eq!(request.mounts, vec![mount]);
            assert_eq!(request.secret_refs.get("T"), Some(env_ref("H")));
        }
        other => panic!("unexpected {:?}", other),
    }
    progress.inputs.as_mut().unwrap().ports = Err(text("port 1 twice"));
    let (_, error) = failure(next_run_step(&cmd, &progress, &defaults()));
    assert_eq!(
        error,
        Error::Config { operation: text("validate ports"), reason: text("port 1 twice") }
    );
}

#[test]
fn run_from_a_packed_machine_hands_it_on() {
    let mut cmd = run_cmd();
    cmd.from = Some(text("/p"));
    match next_run_step(&cmd, &run_progress(), &defaults()) {
        RunStep::Pack(run) => {
            assert_eq!(run.sidecar, Some(text("/p")));
            assert_eq!((run.cpus, run.mem), (None, Some(2048)));
        }
        other => panic!("unexpected {:?}", other),
    }
}

#[test]
fn pull_progress_is_drawn_when_it_changes() {
    let event = |current: usize, layer: &str| MachineRunPullProgress {
        image: text("img"),
        current,
        total: 100,
        layer: text(layer),
    };
    let mut renderer = PullRenderer::new();
    assert_eq!(renderer.pull_progress(&event(0, "l")), None);
    assert_eq!(
        renderer.pull_progress(&event(12, "l")),
        Some(text("\rPulling image img... [==>                 ] 12%"))
    );
    assert_eq!(renderer.pull_progress(&event(12, "l")), None);
    assert_eq!(renderer.pull_progress(&event(101, "l")), None);
    assert_eq!(
        renderer.pull_progress(&event(100, "l")),
        Some(text("\rPulling image img... [====================] 100%"))
    );
    assert_eq!(
        renderer.pull_progress(&event(100, "syncing")),
        Some(text("\rPulling image img... [====================] 100% — syncing..."))
    );
    assert_eq!(renderer.pull_progress(&event(100, "syncing")), None);
    assert_eq!(pull_prompt("img"), "Pulling image img...");
}

#[test]
fn run_ends_with_lines_or_a_code() {
    let code = MachineRunResult::Foreground { exit_code: 9, stdout: vec![], stderr: vec![] };
    assert_eq!(run_outcome(&code), RunOutcome::Exit(9));
    match run_outcome(&MachineRunResult::Detached { name: text("dev"), pid: None }) {
        RunOutcome::Print(lines) => {
            assert_eq!(lines[0], "Machine 'dev' running in background");
            assert_eq!(lines[4], "  smolvm machine stop --name dev");
        }
        other => panic!("unexpected {:?}", other),
    }
    match run_outcome(&MachineRunResult::Detached { name: text("default"), pid: None }) {
        RunOutcome::Print(lines) => assert_eq!(lines[0], "Machine running in background"),
        other => panic!("unexpected {:?}", other),
    }
}

fn create_cmd() -> CreateCmd {
    CreateCmd {
        name: Some(text("golden")),
        image: Some(text("alpine")),
        cpus: 4,
        mem: 8192,
        storage: None,
        overlay: None,
        volume: vec![],
        port: vec![],
        net: false,
        net_backend: None,
        allow_cidr: vec![],
        allow_host: vec![],
        outbound_localhost_only: false,
        gpu: true,
        gpu_vram_mib: None,
        init: vec![],
        env: texts(&["B=2"]),
        workdir: None,
        ssh_agent: false,
        secret_env: vec![],
        secret_file: vec![],
        smolfile: None,
        from: None,
        command: vec![],
    }
}

fn create_progress() -> CreateCmdProgress {
    CreateCmdProgress {
        generated: text("gen"),
        sidecar_exists: None,
        manifest: None,
        hosts: Some(vec![]),
        params: Some(Ok(params("golden"))),
        inputs: Some(CreateInputs { resources: Ok(()), network: Ok(()), ports: Ok(()) }),
        mounts: None,
        created: None,
    }
}

#[test]
fn create_from_flags_tests_before_it_creates() {
    let cmd = create_cmd();
    let mut progress = create_progress();
    progress.inputs = None;
    match next_create_cmd_step(&cmd, &progress, &defaults()) {
        CreateCmdStep::Check(check) => assert!(!check.resources.gpu),
        other => panic!("unexpected {:?}", other),
    }
    progress = create_progress();
    assert_eq!(
        next_create_cmd_step(&cmd, &progress, &defaults()),
        CreateCmdStep::ParseMounts(vec![])
    );
    progress.mounts = Some(Ok(vec![]));
    match next_create_cmd_step(&cmd, &progress, &defaults()) {
        CreateCmdStep::Create(request) => assert!(request.gpu),
        other => panic!("unexpected {:?}", other),
    }
    progress.created = Some(Ok(()));
    match next_create_cmd_step(&cmd, &progress, &defaults()) {
        CreateCmdStep::Done(Ok(lines)) => assert_eq!(lines[0], "Created machine: golden"),
        other => panic!("unexpected {:?}", other),
    }
    let refused = Error::Other { message: text("too big") };
    progress.inputs.as_mut().unwrap().resources = Err(refused.dup());
    assert_eq!(
        next_create_cmd_step(&cmd, &progress, &defaults()),
        CreateCmdStep::Done(Err(refused))
    );
}

#[test]
fn create_from_a_packed_machine_reads_its_manifest() {
    let mut cmd = create_cmd();
    cmd.from = Some(text("/p"));
    let mut progress = create_progress();
    assert_eq!(next_create_cmd_step(&cmd, &progress, &defaults()), CreateCmdStep::Look(text("/p")));
    progress.sidecar_exists = Some(false);
    assert_eq!(
        next_create_cmd_step(&cmd, &progress, &defaults()),
        CreateCmdStep::Done(Err(Error::Config {
            operation: text("create from .smolmachine"),
            reason: text("file not found: /p"),
        }))
    );
    progress.sidecar_exists = Some(true);
    let mut manifest = PackedManifest {
        image: text("packed"),
        entrypoint: vec![],
        cmd: texts(&["packed-cmd"]),
        env: texts(&["A=1"]),
        workdir: Some(text("/packed")),
        cpus: 6,
        mem: 12_288,
        network: true,
        gpu: false,
        secret_refs: SecretMap::new(),
    };
    progress.manifest = Some(Ok((manifest.dup(), text("/full/p"))));
    progress.mounts = Some(Ok(vec![]));
    match next_create_cmd_step(&cmd, &progress, &defaults()) {
        CreateCmdStep::Create(request) => {
            assert_eq!((request.cpus, request.memory_mib), (6, 12_288));
            assert_eq!(request.env, vec!["A=1", "B=2"]);
            assert!(request.net && request.gpu);
            assert_eq!(request.cmd, vec!["packed-cmd"]);
            assert_eq!(request.workdir, Some(text("/packed")));
            assert_eq!(request.allowed_cidrs, None);
            assert_eq!(request.source_smolmachine, Some(text("/full/p")));
        }
        other => panic!("unexpected {:?}", other),
    }
    manifest.secret_refs.insert(text("T"), env_ref("H"));
    progress.manifest = Some(Ok((manifest, text("/full/p"))));
    assert!(matches!(
        next_create_cmd_step(&cmd, &progress, &defaults()),
        CreateCmdStep::Done(Err(Error::Config { .. }))
    ));
    progress.manifest = Some(Err(text("bad magic")));
    assert_eq!(
        next_create_cmd_step(&cmd, &progress, &defaults()),
        CreateCmdStep::Done(Err(Error::Agent {
            operation: text("read .smolmachine"),
            reason: text("bad magic"),
        }))
    );
}

#[test]
fn create_from_a_packed_machine_heeds_every_flag() {
    let mut cmd = create_cmd();
    cmd.from = Some(text("/p"));
    cmd.command = texts(&["serve"]);
    cmd.workdir = Some(text("/srv"));
    cmd.gpu_vram_mib = Some(64);
    cmd.allow_cidr = texts(&["10.0.0.0/8"]);
    cmd.allow_host = texts(&["h"]);
    cmd.outbound_localhost_only = true;
    cmd.secret_env = texts(&["T=HOST_T"]);
    let mut progress = create_progress();
    progress.sidecar_exists = Some(true);
    let manifest = PackedManifest {
        image: text("packed"),
        entrypoint: texts(&["entry"]),
        cmd: texts(&["packed-cmd"]),
        env: vec![],
        workdir: Some(text("/packed")),
        cpus: 6,
        mem: 12_288,
        network: false,
        gpu: false,
        secret_refs: SecretMap::new(),
    };
    progress.manifest = Some(Ok((manifest, text("/full/p"))));
    progress.mounts = Some(Ok(vec![]));
    progress.hosts = None;
    assert_eq!(
        next_create_cmd_step(&cmd, &progress, &defaults()),
        CreateCmdStep::ResolveHosts(texts(&["h"]))
    );
    progress.hosts = Some(vec![ResolvedHost { host: text("h"), cidrs: Err(text("no such host")) }]);
    assert_eq!(
        next_create_cmd_step(&cmd, &progress, &defaults()),
        CreateCmdStep::Done(Err(Error::Config {
            operation: text("--allow-host"),
            reason: text("no such host"),
        }))
    );
    progress.hosts =
        Some(vec![ResolvedHost { host: text("h"), cidrs: Ok(texts(&["1.2.3.4/32"])) }]);
    match next_create_cmd_step(&cmd, &progress, &defaults()) {
        CreateCmdStep::Create(request) => {
            assert_eq!(request.entrypoint, vec!["entry"]);
            assert_eq!(request.cmd, vec!["serve"]);
            assert_eq!(request.workdir, Some(text("/srv")));
            assert!(request.net && request.gpu);
            assert_eq!(request.gpu_vram_mib, Some(64));
            assert_eq!(
                request.allowed_cidrs,
                Some(texts(&["10.0.0.0/8", "1.2.3.4/32", "127.0.0.0/8", "::1/128"]))
            );
            assert_eq!(request.dns_filter_hosts, Some(texts(&["h"])));
            assert_eq!(request.secret_refs.len(), 1);
            assert_eq!(request.secret_refs.entry(0).1.from_env, Some(text("HOST_T")));
        }
        other => panic!("unexpected {:?}", other),
    }
    cmd.secret_file = texts(&["T=/k"]);
    assert!(matches!(
        next_create_cmd_step(&cmd, &progress, &defaults()),
        CreateCmdStep::Done(Err(Error::Config { .. }))
    ));
}

#[test]
fn created_machine_is_described() {
    let mut made = params("vm");
    made.volume = texts(&["/a:/b"]);
    made.init = texts(&["x", "y"]);
    assert_eq!(
        print_create_success(&made),
        vec![
            "Created machine: vm",
            "  CPUs: 4, Memory: 2048 MiB",
            "  Mounts: 1",
            "  Init commands: 2",
            "\nUse 'smolvm machine start --name vm' to start the machine",
            "Then use 'smolvm machine exec --name vm -- <command>' to run commands",
        ]
    );
}

fn exec_cmd() -> ExecCmd {
    ExecCmd {
        command: texts(&["ls"]),
        name: None,
        workdir: None,
        env: vec![],
        secret_env: vec![],
        secret_file: vec![],
        timeout: None,
        interactive: false,
        tty: false,
        stream: false,
    }
}

#[test]
fn commands_belong_to_operations() {
    let mut exec = exec_cmd();
    assert_eq!(MachineCmd::Exec(exec.dup()).primary_operation(), MachineOperation::Exec);
    exec.tty = true;
    assert!(exec.is_interactive());
    assert_eq!(
        MachineCmd::Exec(exec.dup()).primary_operation(),
        MachineOperation::ExecInteractive
    );
    exec.stream = true;
    assert_eq!(MachineCmd::Exec(exec).primary_operation(), MachineOperation::ExecStream);
    let ls = MachineCmd::Ls(LsCmd { verbose: false, json: false });
    assert_eq!(ls.primary_operation(), MachineOperation::List);
    assert!(ls.cleans_up());
    assert!(!MachineCmd::Run(run_cmd()).cleans_up());
}

#[test]
fn shell_starts_a_stopped_machine() {
    let shell = ShellCmd { name: Some(text("dev")) };
    let request = shell.request(&Some(text("dev")));
    assert_eq!(request.name, "dev");
    assert_eq!(request.command, vec!["/bin/sh"]);
    assert!(request.tty && request.start_if_needed);
    let progress = ClientProgress {
        record: Some(Ok(Some(status("dev", RecordState::Stopped).record))),
        state: Some(RecordState::Stopped),
        started: None,
        reloaded: None,
        manager: None,
        found: None,
        connected: None,
    };
    assert!(matches!(
        client_for_operation("dev", request.start_if_needed, &progress),
        ClientStep::Start(_)
    ));
}

#[test]
fn exec_requests_are_made_from_flags() {
    let mut cmd = exec_cmd();
    cmd.secret_env = texts(&["T=H"]);
    let request = cmd.request(&None, vec![]).unwrap();
    assert_eq!(request.name, "default");
    assert_eq!(request.secret_refs.get("T"), Some(env_ref("H")));
    assert!(!request.start_if_needed);
    cmd.secret_env = texts(&["T"]);
    assert!(cmd.request(&None, vec![]).is_err());
}

#[test]
fn streamed_output_is_shown_and_the_code_kept() {
    let mut printer = ExecEventPrinter::new();
    assert_eq!(printer.handle(ExecEvent::Stdout(vec![1])), Shown::Stdout(vec![1]));
    assert_eq!(printer.handle(ExecEvent::Exit(4)), Shown::Nothing);
    assert_eq!(printer.exit_code, 4);
    assert_eq!(
        printer.handle(ExecEvent::Error(text("lost"))),
        Shown::Line(text("error: lost"))
    );
    assert_eq!(printer.exit_code, 1);
}

#[test]
fn start_creates_only_the_default_machine() {
    let mut cmd = StartCmd { name: None, forkable: true, proxy_opts: proxy() };
    let mut progress = StartCmdProgress { started: None, created: None, restarted: None };
    match cmd.next_step(&progress, &defaults()) {
        StartCmdStep::Start(request) => assert!(request.forkable),
        other => panic!("unexpected {:?}", other),
    }
    let missing = Error::VmNotFound { name: text("default") };
    progress.started = Some(Err(missing.dup()));
    match cmd.next_step(&progress, &defaults()) {
        StartCmdStep::Create(request) => assert_eq!(request.name, "default"),
        other => panic!("unexpected {:?}", other),
    }
    progress.created = Some(Ok(()));
    match cmd.next_step(&progress, &defaults()) {
        StartCmdStep::StartCreated(request) => assert!(!request.forkable),
        other => panic!("unexpected {:?}", other),
    }
    cmd.name = Some(text("dev"));
    assert_eq!(cmd.next_step(&progress, &defaults()), StartCmdStep::Done(Err(missing)));
}

#[test]
fn fork_command_refuses_nested_forks() {
    let mut cmd = ForkCmd {
        golden: text("g"),
        clone: text("c"),
        forkable: false,
        port: vec![PortMapping { host: 1, guest: 2 }],
    };
    assert_eq!(cmd.request().unwrap().ports.len(), 1);
    assert!(cmd.message("c").starts_with("Forked 'g' -> 'c'. Golden stays frozen"));
    cmd.forkable = true;
    assert!(matches!(cmd.request(), Err(Error::Agent { .. })));
}

#[test]
fn delete_asks_unless_forced() {
    let mut cmd = DeleteCmd { name: text("vm"), force: false };
    assert_eq!(
        cmd.next_step(&None),
        DeleteCmdStep::Ask(text("Delete machine 'vm'? [y/N] "))
    );
    assert_eq!(cmd.next_step(&Some(text("no\n"))), DeleteCmdStep::Abort(text("Aborted.")));
    assert_eq!(cmd.next_step(&Some(text(" Yes \n"))), DeleteCmdStep::Abort(text("Aborted.")));
    assert!(matches!(
        cmd.next_step(&Some(text(" yes \n"))),
        DeleteCmdStep::Delete(request) if !request.break_dependent_clones && request.keep_data
    ));
    cmd.force = true;
    assert!(matches!(
        cmd.next_step(&None),
        DeleteCmdStep::Delete(request) if request.break_dependent_clones
    ));
    assert_eq!(cmd.message(), "Deleted machine: vm");
}

#[test]
fn update_command_tells_what_changed() {
    let cmd = UpdateCmd {
        name: text("vm"),
        volume: vec![],
        remove_volume: vec![],
        port: vec![],
        remove_port: vec![],
        cpus: Some(2),
        mem: None,
        net: true,
        no_net: false,
        env: vec![],
        remove_env: vec![],
        workdir: None,
        gpu: false,
        no_gpu: true,
        storage: None,
        overlay: None,
    };
    let request = cmd.request(Ok(vec![]), Ok(vec![]), vec![]).unwrap();
    assert!(request.enable_network && request.disable_gpu && !request.disable_network);
    let refused = Error::Other { message: text("bad") };
    assert_eq!(cmd.request(Err(refused.dup()), Ok(vec![]), vec![]), Err(refused));
    assert_eq!(cmd.lines(&vec![]), vec!["No changes specified."]);
    assert_eq!(
        cmd.lines(&texts(&["cpus: 1 → 2"])),
        vec![
            "Updated machine 'vm':",
            "  cpus: 1 → 2",
            "\nStart with: smolvm machine start --name vm",
        ]
    );
}

#[test]
fn network_test_shows_its_result() {
    let cmd = NetworkTestCmd { name: None, url: text("http://x") };
    assert_eq!(cmd.announcement(), "Testing network from machine: http://x");
    assert!(cmd.request(&Some(text("dev"))).start_if_needed);
    let result = serde_json::Value::Array(vec![serde_json::Value::Bool(true)]);
    assert_eq!(network_result_line(&result), "Result: [\n  true\n]");
    assert_eq!(network_notation_line(&Err(text("no"))), "Result: ");
}

#[test]
fn image_storage_is_shown() {
    assert!(starts_for_query(RecordState::Stopped) && !starts_for_query(RecordState::Running));
    let (storage, images) = image_requests("vm");
    assert!(storage.start_if_needed && images.start_if_needed && !images.empty_when_stopped);
    let status = StorageStatus {
        ready: true,
        total_bytes: 9,
        used_bytes: 4,
        layer_count: 2,
        image_count: 1,
    };
    let shown = images_json(&status, vec![serde_json::Value::from(7u64)]).unwrap();
    let value: serde_json::Value = serde_json::from_str(&shown).unwrap();
    assert_eq!(value["storage"]["used_bytes"], 4);
    assert_eq!(value["images"][0], 7);
    let lines = show_storage(
        "9 B",
        "4 B",
        2,
        &vec![ImageRow { reference: text("alpine"), size: text("4 B"), layer_count: 2 }],
    );
    assert_eq!(lines[3], "  Layers: 2");
    assert_eq!(lines[7], "-".repeat(60));
    assert_eq!(lines[8], format!("{:<40} {:>10} {:>8}", "alpine", "4 B", 2));
    assert_eq!(lines[10], "Total: 1 images");
    assert_eq!(show_storage("1 B", "0 B", 0, &vec![])[5], "No cached images.");
}

#[test]
fn long_references_are_cut() {
    let at_limit = "a".repeat(38);
    assert_eq!(shorten_reference(&at_limit), at_limit);
    assert_eq!(shorten_reference(&"a".repeat(39)), format!("{}...", "a".repeat(35)));
    let wide = format!("{}é{}", "a".repeat(33), "b".repeat(10));
    assert_eq!(shorten_reference(&wide), format!("{}é...", "a".repeat(33)));
}

#[test]
fn prune_tells_what_it_freed() {
    let mut cmd = PruneCmd { name: text("vm"), dry_run: false, all: false };
    assert!(cmd.request().stop_after_start);
    let mut result = PruneImagesResult { freed_bytes: 0, removed_images: 0, dry_run: false };
    assert_eq!(cmd.message(&result, "0 B"), "No unreferenced layers to remove.");
    result.freed_bytes = 5;
    assert_eq!(cmd.message(&result, "5 B"), "Freed 5 B");
    cmd.dry_run = true;
    assert_eq!(cmd.message(&result, "5 B"), "Would free 5 B of unreferenced layers");
    cmd.all = true;
    result.removed_images = 2;
    assert_eq!(cmd.message(&result, "5 B"), "Would remove 2 images (5 B)");
    cmd.dry_run = false;
    assert_eq!(cmd.message(&result, "5 B"), "Removed 2 images, freed 5 B");
    result.removed_images = 0;
    result.freed_bytes = 0;
    assert_eq!(cmd.message(&result, "0 B"), "No cached images to remove.");
}

#[test]
fn copies_go_to_or_from_a_machine() {
    let plan = CpCmd { src: text("a.txt"), dst: text("vm:/w/a:b") }.plan().unwrap();
    match &plan {
        CopyPlan::Upload(upload) => {
            assert_eq!((upload.name.as_str(), upload.guest_path.as_str()), ("vm", "/w/a:b"));
            assert_eq!(upload.local_path, "a.txt");
        }
        other => panic!("unexpected {:?}", other),
    }
    assert_eq!(copied_message(&plan, 12), "Uploaded 12 bytes");
    let plan = CpCmd { src: text("vm:/x"), dst: text("other:/y") }.plan().unwrap();
    assert!(matches!(&plan, CopyPlan::Download(download) if download.local_path == "other:/y"));
    assert_eq!(copied_message(&plan, 0), "Downloaded 0 bytes");
    assert!(CpCmd { src: text("a"), dst: text("b") }.plan().is_err());
}

#[test]
fn monitor_command_makes_its_request() {
    let mut cmd = MonitorCmd {
        name: None,
        restart: None,
        health_cmd: Some(text("x")),
        health_timeout: 7,
        interval: 8,
        health_retries: 9,
    };
    let request = cmd.request(Err(text("unread"))).unwrap();
    assert_eq!(request.name, "default");
    assert_eq!((request.health_timeout.secs, request.interval.secs), (7, 8));
    cmd.restart = Some(text("odd"));
    assert_eq!(
        cmd.request(Err(text("unknown"))),
        Err(Error::Config { operation: text("--restart"), reason: text("unknown") })
    );
    assert_eq!(
        cmd.request(Ok(RestartPolicy::Never)).unwrap().restart_policy,
        Some(RestartPolicy::Never)
    );
}

#[test]
fn monitor_reports_are_shown() {
    assert_eq!(
        show_report(&MonitorEvent::Monitoring {
            name: text("vm"),
            policy: RestartPolicy::UnlessStopped,
            interval_secs: 5,
            health: None,
        }),
        vec!["Monitoring machine 'vm' (policy: unless-stopped, interval: 5s)"]
    );
    assert_eq!(
        show_report(&MonitorEvent::HealthError {
            consecutive: 1,
            retries: 3,
            error: text("timeout"),
        }),
        vec!["  health check error (1/3): timeout"]
    );
    assert_eq!(
        show_report(&MonitorEvent::MachineExited { exit_code: None }),
        vec!["  machine exited (exit code: unknown)"]
    );
    assert_eq!(
        show_report(&MonitorEvent::NotRestarting {
            policy: RestartPolicy::Never,
            count: 2,
            max_retries: 0,
        }),
        vec!["  not restarting (policy: never, count: 2/unlimited)"]
    );
    assert_eq!(
        show_report(&MonitorEvent::SuspendDetected { sleep_secs: 60 }),
        vec!["  detected suspend (~60s) — skipping health check for recovery"]
    );
}

fn status(name: &str, state: RecordState) -> MachineStatus {
    MachineStatus { name: text(name), state, record: record(name) }
}

#[test]
fn names_resolve_to_the_default_machine() {
    assert_eq!(vm_label(&None), "default");
    assert_eq!(resolve_vm_name(Some(text("a")), Ok(false)), Ok(Some(text("a"))));
    assert_eq!(resolve_vm_name(None, Ok(true)), Ok(Some(text("default"))));
    assert_eq!(resolve_vm_name(None, Ok(false)), Ok(None));
    let failed = Error::Other { message: text("locked") };
    assert_eq!(resolve_vm_name(None, Err(failed.dup())), Err(failed));
}

#[test]
fn status_is_one_line() {
    assert_eq!(
        status_vm(&None, &Some(status("default", RecordState::Running)), Ok(()), " (PID: 3)"),
        Ok(text("Machine 'default': running (PID: 3)"))
    );
    assert_eq!(
        status_vm(&Some(text("a")), &Some(status("a", RecordState::Failed)), Ok(()), ""),
        Ok(text("Machine 'a': failed"))
    );
    let broken = Error::agent("open", text("gone"));
    assert_eq!(
        status_vm(&None, &Some(status("default", RecordState::Running)), Err(broken.dup()), ""),
        Err(broken)
    );
    assert_eq!(status_vm(&None, &None, Ok(()), ""), Ok(text("Machine 'default': not running")));
    assert_eq!(
        status_vm(&Some(text("a")), &None, Ok(()), ""),
        Err(Error::VmNotFound { name: text("a") })
    );
}

#[test]
fn status_in_json_tells_the_settings() {
    let mut machine = status("vm", RecordState::Stopped);
    machine.record.health_cmd = Some(texts(&["sh", "-c", "curl x"]));
    machine.record.gpu_vram_mib = Some(256);
    machine.record.ephemeral = true;
    let value = machine_status_json(&machine);
    assert_eq!(value["name"], "vm");
    assert_eq!(value["health_cmd"], "curl x");
    assert_eq!(value["gpu"], false);
    assert_eq!(value["gpu_vram_mib"], 256);
    assert_eq!(value["ephemeral"], true);
    assert_eq!(value["pid"], serde_json::Value::Null);
    assert_eq!(value["entrypoint"], serde_json::Value::Array(vec![]));
    assert_eq!(value.as_object().unwrap().len(), 25);
    machine.record.health_cmd = Some(texts(&["curl", "x"]));
    assert_eq!(machine_status_json(&machine)["health_cmd"], "curl x");
    let shown = status_vm_json(&None, &Some(machine)).unwrap();
    assert!(shown.starts_with("{\n  \"cmd\": [],\n"));
    assert_eq!(
        status_vm_json(&None, &None),
        Err(Error::Config {
            operation: text("machine status"),
            reason: text("machine 'default' not found"),
        })
    );
}

#[test]
fn machines_are_listed() {
    assert_eq!(list_vms(&vec![], false, false, &defaults()), Ok(texts(&["No machines found"])));
    assert_eq!(list_vms(&vec![], false, true, &defaults()), Ok(texts(&["[]"])));
    let mut machine = status("vm", RecordState::Running);
    machine.record.ephemeral = true;
    machine.record.pid = Some(12);
    machine.record.mounts = vec![(text("/h"), text("/g"), true)];
    machine.record.ports = vec![(8080, 80)];
    machine.record.network = true;
    machine.record.gpu = Some(true);
    machine.record.init = texts(&["i"]);
    machine.record.env = vec![(text("K"), text("V"))];
    machine.record.workdir = Some(text("/w"));
    let listed = vec![ListedMachine { status: machine, label: text("vm") }];
    let lines = list_vms(&listed, true, false, &defaults()).unwrap();
    assert_eq!(
        lines[0],
        format!(
            "{:<20} {:<12} {:>5} {:>10} {:>7} {:>7} {:>8} {:>8}",
            "NAME", "STATE", "CPUS", "MEMORY", "MOUNTS", "PORTS", "STORAGE", "OVERLAY"
        )
    );
    assert_eq!(lines[1], "-".repeat(88));
    assert_eq!(
        lines[2],
        format!(
            "{:<20} {:<12} {:>5} {:>10} {:>7} {:>7} {:>8} {:>8}",
            "vm", "running (eph)", 2, "1024 MiB", 1, 1, "20 GiB", "10 GiB"
        )
    );
    assert_eq!(
        lines[3..],
        [
            "  PID: 12",
            "  Mount: /h -> /g (ro)",
            "  Port: 8080 -> 80",
            "  Network: enabled",
            "  GPU: enabled",
            "  Init: i",
            "  Env: K=V",
            "  Workdir: /w",
            "  Created: 1970-01-01T00:00:00Z",
            "",
        ]
    );
    assert_eq!(list_vms(&listed, false, false, &defaults()).unwrap().len(), 3);
    let json = list_vms(&listed, false, true, &defaults()).unwrap();
    assert!(json[0].starts_with("[\n  {\n    \"cmd\": [],"));
}

#[test]
fn times_of_creation_are_written_in_utc() {
    let mut machine = status("vm", RecordState::Stopped);
    machine.record.created_at = 1_518_568_087;
    let listed = vec![ListedMachine { status: machine, label: text("vm") }];
    let lines = list_vms(&listed, true, false, &defaults()).unwrap();
    assert!(lines.contains(&text("  Created: 2018-02-14T00:28:07Z")));
}

#[test]
fn only_orphans_are_cleaned_up() {
    let machine = |name: &str, ephemeral: bool, pid: Option<i32>, alive: bool| {
        let mut record = record(name);
        record.ephemeral = ephemeral;
        record.pid = pid;
        FoundMachine { name: text(name), record, alive }
    };
    assert_eq!(
        cleanup_orphaned_ephemeral_vms(&vec![
            machine("kept", false, None, false),
            machine("dead", true, Some(1), false),
            machine("live", true, Some(2), true),
            machine("lost", true, None, true),
        ]),
        vec!["dead", "lost"]
    );
}

fn resize_progress() -> ResizeProgress {
    ResizeProgress { loaded: None, manager: None, storage: None, overlay: None, saved: None }
}

#[test]
fn resize_only_enlarges() {
    let mut progress = resize_progress();
    let step = |storage: Option<u64>, overlay: Option<u64>, progress: &ResizeProgress| {
        resize_vm("vm", storage, overlay, progress, &defaults())
    };
    assert_eq!(step(Some(30), None, &progress), ResizeStep::Load);
    progress.loaded = Some(Ok(Some((record("vm"), RecordState::Stopped))));
    assert_eq!(
        step(Some(10), None, &progress),
        ResizeStep::Done(Err(Error::Config {
            operation: text("resize"),
            reason: text(
                "storage disk cannot be shrunk from 20 GiB to 10 GiB. Only expanding is supported to prevent data loss."
            ),
        }))
    );
    assert_eq!(step(Some(30), Some(10), &progress), ResizeStep::FindDisks);
    progress.manager = Some(Ok(()));
    assert_eq!(step(Some(30), Some(10), &progress), ResizeStep::ExpandStorage(30));
    progress.storage = Some(Ok(()));
    assert_eq!(step(Some(30), Some(10), &progress), ResizeStep::Save);
    progress.saved = Some(Ok(()));
    assert_eq!(
        step(Some(30), Some(10), &progress),
        ResizeStep::Done(Ok(texts(&[
            "Resized machine 'vm':",
            "  storage: 20 GiB → 30 GiB",
            "Filesystem will expand on next boot.",
        ])))
    );
    assert_eq!(
        step(Some(20), None, &progress),
        ResizeStep::Done(Ok(texts(&["No disk changes needed."])))
    );
    progress.storage = Some(Err(text("full")));
    assert!(matches!(
        step(Some(30), None, &progress),
        ResizeStep::Done(Err(Error::Storage { .. }))
    ));
}

#[test]
fn resize_of_a_running_machine_is_explained() {
    let mut progress = resize_progress();
    progress.loaded = Some(Ok(Some((record("vm"), RecordState::Running))));
    match resize_vm("vm", Some(30), None, &progress, &defaults()) {
        ResizeStep::Done(Err(error)) => {
            assert_eq!(
                error,
                Error::InvalidState { expected: text("stopped"), actual: text("Running") }
            );
            assert_eq!(
                explain_resize_error("vm", error),
                Error::Agent {
                    operation: text("resize"),
                    reason: text(
                        "VM 'vm' is running. Stop it first with: smolvm machine stop --name vm"
                    ),
                }
            );
        }
        other => panic!("unexpected {:?}", other),
    }
    let mut stored = record("vm");
    set_disk_sizes(&mut stored, None, Some(40));
    assert_eq!((stored.storage_gb, stored.overlay_gb), (None, Some(40)));
}
