use smolvm::records::CreateChecks;
use smolvm::requests::{CreateMachine, MachineRun};
use smolvm::session::{resolve_session_command, CommandDefaults};
use smolvm::types::{
    HostMount, ImageInfo, PortMapping, ResourceDefaults, VmResources,
};

const DEFAULT_SHELL_CMD: &str = "/bin/sh";
const DEFAULT_IDLE_CMD: [&str; 2] = ["sleep", "infinity"];

fn defaults() -> ResourceDefaults {
    ResourceDefaults { cpus: 4, memory_mib: 8192, storage_gib: 20, overlay_gib: 10 }
}

fn command_defaults() -> CommandDefaults {
    CommandDefaults {
        idle: DEFAULT_IDLE_CMD.iter().map(|value| value.to_string()).collect(),
        shell: DEFAULT_SHELL_CMD.to_string(),
    }
}

fn checks() -> CreateChecks {
    CreateChecks {
        name: Ok(()),
        duplicates: Ok(()),
        backend: Ok(()),
        vram: Ok(None),
        env: vec![],
        created_at: 1,
    }
}

fn run(name: &str) -> MachineRun {
    let resources = VmResources {
        cpus: 4,
        memory_mib: 8192,
        network: false,
        network_backend: None,
        gpu: false,
        gpu_vram_mib: None,
        storage_gib: None,
        overlay_gib: None,
        allowed_cidrs: None,
    };
    MachineRun::new(name.to_string(), resources)
}

fn sample_image_info(entrypoint: Vec<&str>, cmd: Vec<&str>) -> ImageInfo {
    ImageInfo {
        reference: "alpine:latest".to_string(),
        digest: "sha256:test".to_string(),
        size: 0,
        created: None,
        architecture: "x86_64".to_string(),
        os: "linux".to_string(),
        layer_count: 0,
        layers: Vec::new(),
        entrypoint: entrypoint.into_iter().map(str::to_string).collect(),
        cmd: cmd.into_iter().map(str::to_string).collect(),
        env: Vec::new(),
        workdir: None,
        user: None,
    }
}

#[test]
fn create_machine_builds_record() {
    let mut request = CreateMachine::new("dev".to_string(), &defaults());
    request.mounts.push(HostMount {
        source: "/host".to_string(),
        target: "/guest".to_string(),
        read_only: true,
    });
    request.ports.push(PortMapping { host: 2222, guest: 22 });
    let record = request.into_record(checks()).unwrap();
    assert_eq!(record.mounts, vec![("/host".into(), "/guest".into(), true)]);
    assert_eq!(record.ports, vec![(2222, 22)]);
}

#[test]
fn run_session_command_prefers_explicit_command() {
    let mut request = run("run-test");
    request.command = vec!["echo".into(), "hi".into()];
    request.entrypoint = vec!["ignored".into()];
    let image_info = sample_image_info(vec!["also-ignored"], vec![]);
    assert_eq!(
        resolve_session_command(&request, &Some(image_info), &command_defaults()),
        vec!["echo", "hi"]
    );
}

#[test]
fn run_session_command_uses_config_before_image_defaults() {
    let mut request = run("run-test");
    request.entrypoint = vec!["/app/start".into()];
    request.cmd = vec!["--dev".into()];
    let image_info = sample_image_info(vec!["ignored"], vec!["ignored"]);
    assert_eq!(
        resolve_session_command(&request, &Some(image_info), &command_defaults()),
        vec!["/app/start", "--dev"]
    );
}

#[test]
fn run_session_command_falls_back_to_image_metadata() {
    let request = run("run-test");
    let image_info = sample_image_info(vec!["/entry"], vec!["arg"]);
    assert_eq!(
        resolve_session_command(&request, &Some(image_info), &command_defaults()),
        vec!["/entry", "arg"]
    );
}

#[test]
fn run_session_command_uses_shell_or_idle_when_empty() {
    let foreground = run("fg");
    assert_eq!(
        resolve_session_command(&foreground, &None, &command_defaults()),
        vec![DEFAULT_SHELL_CMD]
    );

    let mut detached = run("bg");
    detached.detached = true;
    assert_eq!(
        resolve_session_command(&detached, &None, &command_defaults()),
        DEFAULT_IDLE_CMD
            .iter()
            .map(|value| value.to_string())
            .collect::<Vec<_>>()
    );
}
