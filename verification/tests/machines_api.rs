use smolvm::api::{
    accept_resize, error_to_http, machine_status_to_info, validate_command, validate_request_secrets, ApiError,
    MachineInfo, ResizeMachineRequest, MAX_REQ_SECRETS_PER_REQUEST, MAX_SECRET_KEY_LEN,
};
use smolvm::error::Error;
use smolvm::http_create::{
    registry_reference_tag_or_digest, resolve_create_resources, CreateMachineRequest, Reference,
};
use smolvm::requests::MachineStatus;
use smolvm::secrets::{env_ref, file_ref, SecretMap};
use smolvm::types::{RecordState, VmRecord};

const DEFAULT_MICROVM_CPU_COUNT: u8 = 4;
const DEFAULT_MICROVM_MEMORY_MIB: u32 = 8192;

fn record(
    name: &str,
    cpus: u8,
    mem: u32,
    mounts: Vec<(String, String, bool)>,
    ports: Vec<(u16, u16)>,
    network: bool,
) -> VmRecord {
    VmRecord::new(name.to_string(), cpus, mem, mounts, ports, network, 1_700_000_000)
}

fn info_from_record(name: &str, record: VmRecord, state: RecordState) -> MachineInfo {
    machine_status_to_info(&MachineStatus { name: name.to_string(), state, record })
}

#[test]
fn test_machine_status_to_info() {
    let record = record(
        "test-vm",
        2,
        1024,
        vec![
            ("/host/path".to_string(), "/guest/path".to_string(), false),
            ("/host/ro".to_string(), "/guest/ro".to_string(), true),
        ],
        vec![(8080, 80), (3000, 3000)],
        false,
    );
    let info = info_from_record("test-vm", record, RecordState::Created);
    assert_eq!(info.name, "test-vm");
    assert_eq!(info.state, "created");
    assert_eq!(info.cpus, 2);
    assert_eq!(info.mem, 1024);
    assert_eq!(info.mounts.len(), 2);
    assert_eq!(info.ports.len(), 2);
    assert!(!info.network);
    assert!(info.pid.is_none());
}

#[test]
fn test_machine_status_to_info_with_running_state() {
    let mut record = record("running-vm", 1, 512, vec![], vec![], false);
    record.state = RecordState::Running;
    record.pid = Some(12345);
    let info = info_from_record("running-vm", record, RecordState::Running);
    assert_eq!(info.name, "running-vm");
    assert_eq!(info.cpus, 1);
    assert_eq!(info.mem, 512);
    assert_eq!(info.mounts.len(), 0);
    assert_eq!(info.ports.len(), 0);
}

#[test]
fn test_machine_status_to_info_default_values() {
    let record = record("minimal-vm", 1, 512, vec![], vec![], false);
    let info = info_from_record("minimal-vm", record, RecordState::Created);
    assert_eq!(info.name, "minimal-vm");
    assert_eq!(info.state, "created");
    assert_eq!(info.cpus, 1);
    assert_eq!(info.mem, 512);
    assert_eq!(info.mounts.len(), 0);
    assert_eq!(info.ports.len(), 0);
    assert!(!info.network);
    assert!(info.pid.is_none());
    assert!(info.created_at > 0);
}

#[test]
fn test_machine_status_to_info_with_network() {
    let record = record("network-vm", 1, 512, vec![], vec![], true);
    let info = info_from_record("network-vm", record, RecordState::Created);
    assert_eq!(info.name, "network-vm");
    assert!(info.network);
}

#[test]
fn stopped_machine_shows_no_process() {
    let mut stopped = record("old-vm", 1, 512, vec![], vec![], false);
    stopped.pid = Some(77);
    let info = info_from_record("old-vm", stopped, RecordState::Stopped);
    assert_eq!(info.state, "stopped");
    assert_eq!(info.pid, None);
    let mut running = record("old-vm", 1, 512, vec![], vec![(81, 8081)], false);
    running.pid = Some(77);
    let info = info_from_record("old-vm", running, RecordState::Unreachable);
    assert_eq!(info.pid, Some(77));
    assert_eq!((info.ports[0].host, info.ports[0].guest), (81, 8081));
}

fn parse_reference(text: &str) -> Reference {
    let (rest, digest) = match text.split_once('@') {
        Some((rest, digest)) => (rest, Some(digest.to_string())),
        None => (text, None),
    };
    let (repository, tag) = match rest.split_once(':') {
        Some((repository, tag)) => (repository, Some(tag.to_string())),
        None => (rest, None),
    };
    Reference {
        registry: "registry.example".to_string(),
        repository: repository.to_string(),
        tag,
        digest,
    }
}

#[test]
fn registry_reference_uses_digest_before_tag_or_latest() {
    let digest = "sha256:abcdef0123456789abcdef0123456789abcdef0123456789abcdef0123456789";
    let digest_ref = parse_reference(&format!("python-dev@{digest}"));
    assert_eq!(registry_reference_tag_or_digest(&digest_ref), digest);
    let tagged_ref = parse_reference("python-dev:v1");
    assert_eq!(registry_reference_tag_or_digest(&tagged_ref), "v1");
    let latest_ref = parse_reference("python-dev");
    assert_eq!(registry_reference_tag_or_digest(&latest_ref), "latest");
}

fn minimal_create_request() -> CreateMachineRequest {
    CreateMachineRequest {
        name: Some("test-vm".to_string()),
        cpus: None,
        mem: None,
        mounts: vec![],
        ports: vec![],
        network: false,
        gpu: false,
        storage_gb: None,
        overlay_gb: None,
        allowed_cidrs: None,
        restart: None,
        image: None,
        from: None,
        registry_ref: None,
        registry_identity_token: None,
        secrets: SecretMap::new(),
    }
}

#[test]
fn create_resources_use_high_defaults_when_omitted() {
    let req = minimal_create_request();
    assert_eq!(
        resolve_create_resources(&req, DEFAULT_MICROVM_CPU_COUNT, DEFAULT_MICROVM_MEMORY_MIB),
        (DEFAULT_MICROVM_CPU_COUNT, DEFAULT_MICROVM_MEMORY_MIB)
    );
}

#[test]
fn create_resources_preserve_manifest_defaults_when_omitted() {
    let req = minimal_create_request();
    assert_eq!(resolve_create_resources(&req, 6, 12_288), (6, 12_288));
}

#[test]
fn create_resources_explicit_api_values_override_manifest_defaults() {
    let mut req = minimal_create_request();
    req.cpus = Some(2);
    req.mem = Some(2048);
    assert_eq!(resolve_create_resources(&req, 6, 12_288), (2, 2048));
}

#[test]
fn test_resize_validation_no_params_rejected() {
    let req = ResizeMachineRequest { storage_gb: None, overlay_gb: None };
    let result = accept_resize("test-vm".to_string(), &req);
    assert!(matches!(result.unwrap_err(), ApiError::BadRequest(_)));
}

#[test]
fn test_validate_command() {
    assert!(validate_command(&vec![]).is_err());
    assert!(validate_command(&vec!["echo".to_string()]).is_ok());
    assert!(validate_command(&vec!["echo".to_string(), "hello".to_string()]).is_ok());
}

#[test]
fn validate_request_secrets_accepts_empty_map() {
    let refs = SecretMap::new();
    assert!(validate_request_secrets(&refs).is_ok());
}

#[test]
fn validate_request_secrets_rejects_from_env() {
    let mut refs = SecretMap::new();
    refs.insert("X".to_string(), env_ref("HOST_VAR"));
    let err = validate_request_secrets(&refs).unwrap_err();
    match err {
        ApiError::BadRequest(msg) => {
            assert!(msg.contains("X"), "body must name the bad key: {}", msg);
            assert!(
                msg.contains("env") || msg.contains("trusted local host"),
                "body must explain rule: {}",
                msg
            );
        }
        other => panic!("expected BadRequest, got {:?}", other),
    }
}

#[test]
fn validate_request_secrets_rejects_from_file() {
    let mut refs = SecretMap::new();
    refs.insert("X".to_string(), file_ref("/absolute/path"));
    let err = validate_request_secrets(&refs).unwrap_err();
    assert!(matches!(err, ApiError::BadRequest(_)));
}

#[test]
fn validate_request_secrets_rejects_bad_keys() {
    let bad_keys = [
        "",
        "1FOO",
        "FOO BAR",
        "FOO=BAR",
        "FOO-BAR",
        "FOO.BAR",
        "FOO\0BAR",
        "FOO\nBAR",
        "ünicöde",
    ];
    for bad in bad_keys {
        let mut refs = SecretMap::new();
        refs.insert(bad.to_string(), env_ref("K"));
        let err = validate_request_secrets(&refs)
            .expect_err(&format!("key '{}' must be rejected", bad.escape_default()));
        assert!(
            matches!(err, ApiError::BadRequest(_)),
            "key '{}' should be 400, got {:?}",
            bad.escape_default(),
            err
        );
    }
}

#[test]
fn validate_request_secrets_rejects_oversized_keys() {
    let huge_key = "A".repeat(MAX_SECRET_KEY_LEN + 1);
    let mut refs = SecretMap::new();
    refs.insert(huge_key, env_ref("K"));
    let err = validate_request_secrets(&refs).unwrap_err();
    assert!(matches!(err, ApiError::BadRequest(_)));
}

#[test]
fn validate_request_secrets_enforces_size_cap() {
    let mut refs = SecretMap::new();
    for i in 0..=MAX_REQ_SECRETS_PER_REQUEST {
        refs.insert(format!("K{}", i), env_ref(&format!("K{}", i)));
    }
    let err = validate_request_secrets(&refs).unwrap_err();
    match err {
        ApiError::BadRequest(msg) => {
            assert!(msg.contains(&MAX_REQ_SECRETS_PER_REQUEST.to_string()));
        }
        other => panic!("expected BadRequest, got {:?}", other),
    }
}

#[test]
fn errors_have_their_status_codes() {
    let answer = |error: Error| error_to_http(&error, "why".to_string());
    let refused = answer(Error::config("create", "bad".to_string()));
    assert_eq!(refused, ApiError::BadRequest("why".to_string()));
    assert_eq!(refused.status_code(), 400);
    assert_eq!(refused.message(), "why");
    assert_eq!(answer(Error::vm_not_found("vm")).status_code(), 404);
    assert_eq!(answer(Error::invalid_state("stopped", "running")).status_code(), 409);
    assert_eq!(answer(Error::agent("run", "gone".to_string())).status_code(), 500);
    let taken = |end: &str| Error::config("create machine", format!("machine 'vm' already exists{}", end));
    assert_eq!(answer(taken(" or is being created")).status_code(), 409);
    assert_eq!(answer(taken(" or is no longer reserved")).status_code(), 409);
    assert_eq!(answer(Error::agent("fork", "machine 'c' already exists".to_string())).status_code(), 409);
    assert_eq!(answer(Error::storage("expand", "full".to_string())).status_code(), 500);
}
