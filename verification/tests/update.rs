use smolvm::api::{accept_resize, error_to_http, ApiError, ResizeMachineRequest};
use smolvm::env::{
    apply_env_override, check_secret_refs, merge_env_overrides, record_env_with_secrets,
    remove_variable, request_env, resolve_image_runtime_defaults,
};
use smolvm::error::Error;
use smolvm::model::Model;
use smolvm::requests::UpdateMachine;
use smolvm::secrets::{env_ref, file_ref, validate_ref, ResolutionScope, SecretMap};
use smolvm::types::{
    HostMount, ImageInfo, PortMapping, RecordState, ResourceDefaults, VmRecord,
};
use smolvm::update::apply_update;
use smolvm::update_flow::{
    next_update_step, proposed_port_list, proposed_resources, validate_ports, UpdateProgress,
    UpdateStep,
};

fn record(name: &str) -> VmRecord {
    VmRecord::new(name.to_string(), 2, 1024, vec![], vec![], false, 5)
}

fn defaults() -> ResourceDefaults {
    ResourceDefaults { cpus: 4, memory_mib: 8192, storage_gib: 20, overlay_gib: 10 }
}

fn pair(key: &str, value: &str) -> (String, String) {
    (key.to_string(), value.to_string())
}

fn progress() -> UpdateProgress {
    UpdateProgress {
        record: None,
        state: None,
        resources: None,
        duplicates: None,
        backend: None,
        vram: None,
        manager: None,
        storage: None,
        overlay: None,
        saved: None,
        changes: vec![],
        updated_state: None,
    }
}

#[test]
fn env_overrides_replace_and_append() {
    let mut env = vec![pair("A", "1"), pair("B", "2"), pair("A", "3")];
    apply_env_override(&mut env, "A".to_string(), "9".to_string());
    assert_eq!(env, vec![pair("B", "2"), pair("A", "9")]);
    assert!(remove_variable(&mut env, "B"));
    assert!(!remove_variable(&mut env, "B"));
    assert_eq!(
        merge_env_overrides(&vec![pair("A", "1"), pair("B", "2")], &vec![pair("A", "x")]),
        vec![pair("B", "2"), pair("A", "x")]
    );
}

#[test]
fn image_defaults_fill_in_what_is_not_given() {
    let info = ImageInfo {
        reference: "img".to_string(),
        digest: "d".to_string(),
        size: 1,
        created: None,
        architecture: "arm64".to_string(),
        os: "linux".to_string(),
        layer_count: 1,
        layers: vec![],
        entrypoint: vec![],
        cmd: vec![],
        env: vec!["PATH=/bin".to_string(), "broken".to_string()],
        workdir: Some("/srv".to_string()),
        user: Some("app".to_string()),
    };
    let resolved = resolve_image_runtime_defaults(
        &Some(info.dup()),
        &vec![Some(pair("PATH", "/bin")), None],
        &vec![pair("X", "1")],
        &None,
        &Some("root".to_string()),
    );
    assert_eq!(resolved.env, vec![pair("PATH", "/bin"), pair("X", "1")]);
    assert_eq!(resolved.workdir, Some("/srv".to_string()));
    assert_eq!(resolved.user, Some("root".to_string()));
    let plain = resolve_image_runtime_defaults(&None, &vec![], &vec![], &None, &None);
    assert_eq!(plain.workdir, None);
}

#[test]
fn untrusted_secrets_are_refused_and_trusted_ones_are_read() {
    let mut refs = SecretMap::new();
    refs.insert("TOKEN".to_string(), env_ref("HOST"));
    assert!(check_secret_refs("exec", &refs, ResolutionScope::Untrusted).is_err());
    assert!(check_secret_refs("exec", &refs, ResolutionScope::TrustedLocal).is_ok());
    let env = request_env(
        &vec![pair("A", "1")],
        &refs,
        ResolutionScope::TrustedLocal,
        Ok(vec![pair("TOKEN", "secret"), pair("A", "0")]),
    )
    .unwrap();
    assert_eq!(env, vec![pair("TOKEN", "secret"), pair("A", "1")]);
    let failed = Error::Other { message: "no var".to_string() };
    assert_eq!(
        request_env(&vec![], &refs, ResolutionScope::TrustedLocal, Err(failed.dup())),
        Err(failed)
    );
    let record = record("vm");
    assert_eq!(record_env_with_secrets(&record, Ok(vec![])), Ok(vec![]));
}

#[test]
fn secret_refs_name_one_source_within_their_scope() {
    assert!(validate_ref(&env_ref("A"), ResolutionScope::TrustedLocal).is_ok());
    assert!(validate_ref(&file_ref("/k"), ResolutionScope::TrustedLocal).is_ok());
    assert!(validate_ref(&file_ref("k"), ResolutionScope::TrustedLocal).is_err());
    assert!(validate_ref(&env_ref("A"), ResolutionScope::Untrusted).is_err());
    assert!(validate_ref(&file_ref("/k"), ResolutionScope::Untrusted).is_err());
    let mut both = env_ref("A");
    both.from_file = Some("/k".to_string());
    assert!(validate_ref(&both, ResolutionScope::TrustedLocal).is_err());
    let mut neither = env_ref("A");
    neither.from_env = None;
    assert!(validate_ref(&neither, ResolutionScope::RecordReplay).is_err());
}

#[test]
fn secret_map_keeps_keys_in_order() {
    let mut map = SecretMap::new();
    assert_eq!(map.insert("b".to_string(), env_ref("B")), None);
    assert_eq!(map.insert("a".to_string(), env_ref("A")), None);
    assert_eq!(map.insert("b".to_string(), env_ref("B2")), Some(env_ref("B")));
    assert_eq!(map.len(), 2);
    assert_eq!(map.entry(0).0, "a");
    assert_eq!(map.entry(1).1.from_env.as_deref(), Some("B2"));
    let mut other = SecretMap::new();
    other.insert("b".to_string(), env_ref("B2"));
    other.insert("a".to_string(), env_ref("A"));
    assert_eq!(map, other);
    let mut more = SecretMap::new();
    more.insert("a".to_string(), file_ref("/a"));
    more.insert("c".to_string(), env_ref("C"));
    map.extend(&more);
    assert_eq!(map.len(), 3);
    assert_eq!(map.get("a"), Some(file_ref("/a")));
    assert_eq!(map.get("b"), Some(env_ref("B2")));
    assert_eq!(map.get("z"), None);
}

#[test]
fn empty_update_changes_nothing() {
    let mut after = record("vm");
    let request = UpdateMachine::new("vm".to_string());
    let mut changes = vec![];
    apply_update(&mut after, &request, None, &mut changes);
    assert_eq!(after, record("vm"));
    assert!(changes.is_empty());
}

#[test]
fn update_changes_what_it_names() {
    let mut after = record("vm");
    after.ports = vec![(80, 80), (81, 81)];
    after.env = vec![pair("A", "1"), pair("B", "2")];
    let mut request = UpdateMachine::new("vm".to_string());
    request.cpus = Some(8);
    request.memory_mib = Some(2048);
    request.enable_network = true;
    request.remove_ports = vec![PortMapping { host: 80, guest: 80 }];
    request.add_ports = vec![PortMapping { host: 90, guest: 91 }];
    request.set_env = vec![pair("A", "9")];
    request.remove_env = vec!["B".to_string()];
    request.add_mounts = vec![HostMount {
        source: "/h".to_string(),
        target: "/g".to_string(),
        read_only: true,
    }];
    assert_eq!(proposed_resources(&after, &request).cpus, 8);
    assert_eq!(
        proposed_port_list(&after, &request),
        vec![PortMapping { host: 81, guest: 81 }, PortMapping { host: 90, guest: 91 }]
    );
    let mut changes = vec!["storage: 20 GiB → 30 GiB".to_string()];
    apply_update(&mut after, &request, None, &mut changes);
    assert_eq!(changes[0], "storage: 20 GiB → 30 GiB");
    assert!(changes.contains(&"cpus: 2 → 8".to_string()), "{:?}", changes);
    assert!(!changes.is_empty());
    assert_eq!((after.cpus, after.mem, after.network), (8, 2048, true));
    assert_eq!(after.ports, vec![(81, 81), (90, 91)]);
    assert_eq!(after.env, vec![pair("A", "9")]);
    assert_eq!(after.mounts, vec![("/h".to_string(), "/g".to_string(), true)]);
    assert_eq!((after.name.as_str(), after.created_at), ("vm", 5));
}

#[test]
fn ports_must_not_be_zero_or_repeat() {
    let good = vec![PortMapping { host: 1, guest: 2 }];
    assert!(validate_ports(&good, &Ok(())).is_ok());
    assert!(validate_ports(&good, &Err("port 1 twice".to_string())).is_err());
    assert!(validate_ports(&vec![PortMapping { host: 0, guest: 2 }], &Ok(())).is_err());
    assert!(validate_ports(&vec![PortMapping { host: 1, guest: 0 }], &Ok(())).is_err());
}

#[test]
fn test_resize_validation_shrink_storage_rejected() {
    let mut stored = VmRecord::new("test-vm".to_string(), 1, 512, vec![], vec![], false, 5);
    stored.storage_gb = Some(20);
    stored.overlay_gb = Some(5);
    let resize = ResizeMachineRequest { storage_gb: Some(10), overlay_gb: None };
    let request = accept_resize("test-vm".to_string(), &resize).unwrap();
    let mut progress = progress();
    progress.record = Some(Ok(Some(stored)));
    progress.state = Some(RecordState::Created);
    progress.resources = Some(Ok(()));
    progress.duplicates = Some(Ok(()));
    progress.backend = Some(Ok(()));
    progress.vram = Some(Ok(None));
    assert_eq!(
        next_update_step(&request, &progress, &defaults()),
        UpdateStep::Finish(Err(Error::Config {
            operation: "update".to_string(),
            reason: "storage cannot be smaller than current size (20 GiB)".to_string(),
        }))
    );
    let UpdateStep::Finish(Err(error)) = next_update_step(&request, &progress, &defaults()) else {
        panic!("expected an error");
    };
    assert!(matches!(
        error_to_http(&error, "too small".to_string()),
        ApiError::BadRequest(_)
    ));
}

#[test]
fn test_resize_not_found() {
    let resize = ResizeMachineRequest { storage_gb: Some(30), overlay_gb: None };
    let request = accept_resize("nonexistent".to_string(), &resize).unwrap();
    let mut progress = progress();
    assert_eq!(next_update_step(&request, &progress, &defaults()), UpdateStep::LoadRecord);
    progress.record = Some(Ok(None));
    assert_eq!(
        next_update_step(&request, &progress, &defaults()),
        UpdateStep::Finish(Err(Error::VmNotFound { name: "nonexistent".to_string() }))
    );
    let UpdateStep::Finish(Err(error)) = next_update_step(&request, &progress, &defaults()) else {
        panic!("expected an error");
    };
    assert!(matches!(error_to_http(&error, "gone".to_string()), ApiError::NotFound(_)));
}

#[test]
fn update_of_a_running_machine_is_refused() {
    let request = UpdateMachine::new("vm".to_string());
    let mut progress = progress();
    progress.record = Some(Ok(Some(record("vm"))));
    assert_eq!(next_update_step(&request, &progress, &defaults()), UpdateStep::ProbeState);
    progress.state = Some(RecordState::Running);
    assert!(matches!(
        next_update_step(&request, &progress, &defaults()),
        UpdateStep::Finish(Err(Error::InvalidState { .. }))
    ));
}

#[test]
fn switching_the_network_off_grants_nothing() {
    let mut stored = record("vm");
    stored.network = true;
    stored.dns_filter_hosts = Some(vec!["old.example".to_string()]);
    let mut request = UpdateMachine::new("vm".to_string());
    request.disable_network = true;
    request.allowed_cidrs = Some(vec!["10.0.0.0/8".to_string()]);
    request.dns_filter_hosts = Some(vec!["new.example".to_string()]);
    let checked = proposed_resources(&stored, &request);
    assert!(!checked.network && checked.allowed_cidrs.is_none());
    let mut changes = vec![];
    apply_update(&mut stored, &request, None, &mut changes);
    assert!(!stored.network);
    assert_eq!(stored.allowed_cidrs, None);
    assert_eq!(stored.dns_filter_hosts, None);
    assert_eq!(changes, vec!["network: disabled", "cleared dns_filter_hosts"]);
}

#[test]
fn values_of_variables_do_not_reach_the_notes() {
    let mut changes = vec!["before".to_string()];
    let mut stored = record("vm");
    let mut request = UpdateMachine::new("vm".to_string());
    request.set_env = vec![("TOKEN".to_string(), "hunter2".to_string())];
    apply_update(&mut stored, &request, None, &mut changes);
    assert_eq!(changes, vec!["before", "env: TOKEN=<redacted>"]);
}
