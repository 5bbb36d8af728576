//! HTTP API: creating a machine, from an image, a packed machine or a registry.

use crate::api::{
    request_secrets_checked, validate_request_secrets, ApiError, ApiErrorView,
};
use crate::env::{find_ref_fault, first_ref_fault};
use crate::model::Model;
use crate::requests::{CreateMachine, CreateMachineView};
use crate::secrets::{ResolutionScope, SecretMap, SecretMapView};
use crate::text::{cat2, cat5, own, same_text};
use crate::types::{
    no_restart, HostMount, HostMountView, PortMapping, ResourceDefaults, ResourceDefaultsView,
    RestartPolicy,
};
use vstd::prelude::*;

verus! {

/// Restart settings in a request.
#[derive(Debug, PartialEq, Eq)]
pub struct RestartSpec {
    pub policy: Option<String>,
    pub max_retries: Option<u32>,
}

/// Mathematical model of a [`RestartSpec`].
pub struct RestartSpecView {
    pub policy: Option<Seq<char>>,
    pub max_retries: Option<u32>,
}

impl Model for RestartSpec {
    type V = RestartSpecView;

    open spec fn model(&self) -> RestartSpecView {
        RestartSpecView {
            policy: self.policy.model(),
            max_retries: self.max_retries.model(),
        }
    }

    fn dup(&self) -> (copy: Self) {
        RestartSpec {
            policy: self.policy.dup(),
            max_retries: self.max_retries.dup(),
        }
    }
}

/// A mount in a request.
#[derive(Debug, PartialEq, Eq)]
pub struct MountSpec {
    pub source: String,
    pub target: String,
    pub readonly: bool,
}

/// Mathematical model of a [`MountSpec`].
pub struct MountSpecView {
    pub source: Seq<char>,
    pub target: Seq<char>,
    pub readonly: bool,
}

impl Model for MountSpec {
    type V = MountSpecView;

    open spec fn model(&self) -> MountSpecView {
        MountSpecView {
            source: self.source.model(),
            target: self.target.model(),
            readonly: self.readonly.model(),
        }
    }

    fn dup(&self) -> (copy: Self) {
        MountSpec {
            source: self.source.dup(),
            target: self.target.dup(),
            readonly: self.readonly.dup(),
        }
    }
}

/// A request for a new machine.
#[derive(Debug, PartialEq, Eq)]
pub struct CreateMachineRequest {
    pub name: Option<String>,
    pub cpus: Option<u8>,
    pub mem: Option<u32>,
    pub mounts: Vec<MountSpec>,
    pub ports: Vec<PortMapping>,
    pub network: bool,
    pub gpu: bool,
    pub storage_gb: Option<u64>,
    pub overlay_gb: Option<u64>,
    pub allowed_cidrs: Option<Vec<String>>,
    pub restart: Option<RestartSpec>,
    pub image: Option<String>,
    pub from: Option<String>,
    pub registry_ref: Option<String>,
    pub registry_identity_token: Option<String>,
    pub secrets: SecretMap,
}

/// Mathematical model of a [`CreateMachineRequest`].
pub struct CreateMachineRequestView {
    pub name: Option<Seq<char>>,
    pub cpus: Option<u8>,
    pub mem: Option<u32>,
    pub mounts: Seq<MountSpecView>,
    pub ports: Seq<PortMapping>,
    pub network: bool,
    pub gpu: bool,
    pub storage_gb: Option<u64>,
    pub overlay_gb: Option<u64>,
    pub allowed_cidrs: Option<Seq<Seq<char>>>,
    pub restart: Option<RestartSpecView>,
    pub image: Option<Seq<char>>,
    pub from: Option<Seq<char>>,
    pub registry_ref: Option<Seq<char>>,
    pub registry_identity_token: Option<Seq<char>>,
    pub secrets: SecretMapView,
}

impl Model for CreateMachineRequest {
    type V = CreateMachineRequestView;

    open spec fn model(&self) -> CreateMachineRequestView {
        CreateMachineRequestView {
            name: self.name.model(),
            cpus: self.cpus.model(),
            mem: self.mem.model(),
            mounts: self.mounts.model(),
            ports: self.ports.model(),
            network: self.network.model(),
            gpu: self.gpu.model(),
            storage_gb: self.storage_gb.model(),
            overlay_gb: self.overlay_gb.model(),
            allowed_cidrs: self.allowed_cidrs.model(),
            restart: self.restart.model(),
            image: self.image.model(),
            from: self.from.model(),
            registry_ref: self.registry_ref.model(),
            registry_identity_token: self.registry_identity_token.model(),
            secrets: self.secrets.model(),
        }
    }

    fn dup(&self) -> (copy: Self) {
        CreateMachineRequest {
            name: self.name.dup(),
            cpus: self.cpus.dup(),
            mem: self.mem.dup(),
            mounts: self.mounts.dup(),
            ports: self.ports.dup(),
            network: self.network.dup(),
            gpu: self.gpu.dup(),
            storage_gb: self.storage_gb.dup(),
            overlay_gb: self.overlay_gb.dup(),
            allowed_cidrs: self.allowed_cidrs.dup(),
            restart: self.restart.dup(),
            image: self.image.dup(),
            from: self.from.dup(),
            registry_ref: self.registry_ref.dup(),
            registry_identity_token: self.registry_identity_token.dup(),
            secrets: self.secrets.dup(),
        }
    }
}

/// The processors and memory of a new machine: what the request asks for, or
/// else the defaults.
pub open spec fn created_resources(
    request: CreateMachineRequestView,
    cpus: u8,
    mem: u32,
) -> (u8, u32) {
    (
        match request.cpus {
            Some(cpus) => cpus,
            None => cpus,
        },
        match request.mem {
            Some(mem) => mem,
            None => mem,
        },
    )
}

/// Tells the processors and memory of a new machine.
pub fn resolve_create_resources(
    request: &CreateMachineRequest,
    manifest_cpus: u8,
    manifest_mem: u32,
) -> (resources: (u8, u32))
    ensures
        resources == created_resources(request.model(), manifest_cpus, manifest_mem),
{
    (
        match request.cpus {
            Some(cpus) => cpus,
            None => manifest_cpus,
        },
        match request.mem {
            Some(mem) => mem,
            None => manifest_mem,
        },
    )
}

/// A parsed reference into a registry.
#[derive(Debug, PartialEq, Eq)]
pub struct Reference {
    pub registry: String,
    pub repository: String,
    pub tag: Option<String>,
    pub digest: Option<String>,
}

/// Mathematical model of a [`Reference`].
pub struct ReferenceView {
    pub registry: Seq<char>,
    pub repository: Seq<char>,
    pub tag: Option<Seq<char>>,
    pub digest: Option<Seq<char>>,
}

impl Model for Reference {
    type V = ReferenceView;

    open spec fn model(&self) -> ReferenceView {
        ReferenceView {
            registry: self.registry.model(),
            repository: self.repository.model(),
            tag: self.tag.model(),
            digest: self.digest.model(),
        }
    }

    fn dup(&self) -> (copy: Self) {
        Reference {
            registry: self.registry.dup(),
            repository: self.repository.dup(),
            tag: self.tag.dup(),
            digest: self.digest.dup(),
        }
    }
}

/// What a reference selects in its repository: its digest, or else its tag, or
/// else `latest`.
pub open spec fn selector(parsed: ReferenceView) -> Seq<char> {
    match parsed.digest {
        Some(digest) => digest,
        None => match parsed.tag {
            Some(tag) => tag,
            None => "latest"@,
        },
    }
}

/// Tells what a reference selects in its repository.
pub fn registry_reference_tag_or_digest(parsed: &Reference) -> (selected: &str)
    ensures
        selected@ == selector(parsed.model()),
{
    match &parsed.digest {
        Some(digest) => digest.as_str(),
        None => match &parsed.tag {
            Some(tag) => tag.as_str(),
            None => "latest",
        },
    }
}

/// The registry that is asked: a mirror of the one that the reference names, or
/// that one itself.
pub open spec fn asked_registry(parsed: ReferenceView, mirror: Option<Seq<char>>) -> Seq<char> {
    match mirror {
        Some(mirror) => mirror,
        None => parsed.registry,
    }
}

/// Tells the registry that is asked.
pub fn effective_registry(parsed: &Reference, mirror: &Option<String>) -> (registry: String)
    ensures
        registry@ == asked_registry(parsed.model(), mirror.model()),
{
    match mirror {
        Some(mirror) => mirror.dup(),
        None => parsed.registry.dup(),
    }
}

/// The host that serves a registry.
pub open spec fn host_of(registry: Seq<char>) -> Seq<char> {
    if registry == "docker.io"@ {
        "registry-1.docker.io"@
    } else {
        registry
    }
}

/// Tells the host that serves a registry.
pub fn registry_host(registry: &str) -> (host: String)
    ensures
        host@ == host_of(registry@),
{
    if same_text(registry, "docker.io") {
        own("registry-1.docker.io")
    } else {
        own(registry)
    }
}

/// How a packed machine is pulled from a registry.
#[derive(Debug, PartialEq, Eq)]
pub struct RegistryPull {
    pub base_url: String,
    pub identity_token: Option<String>,
    pub repository: String,
    pub reference: String,
}

/// Mathematical model of a [`RegistryPull`].
pub struct RegistryPullView {
    pub base_url: Seq<char>,
    pub identity_token: Option<Seq<char>>,
    pub repository: Seq<char>,
    pub reference: Seq<char>,
}

impl Model for RegistryPull {
    type V = RegistryPullView;

    open spec fn model(&self) -> RegistryPullView {
        RegistryPullView {
            base_url: self.base_url.model(),
            identity_token: self.identity_token.model(),
            repository: self.repository.model(),
            reference: self.reference.model(),
        }
    }

    fn dup(&self) -> (copy: Self) {
        RegistryPull {
            base_url: self.base_url.dup(),
            identity_token: self.identity_token.dup(),
            repository: self.repository.dup(),
            reference: self.reference.dup(),
        }
    }
}

/// How a packed machine is pulled: only a local registry is asked without
/// encryption, and the token of the request goes before that of the settings.
pub open spec fn pull_of(
    parsed: ReferenceView,
    mirror: Option<Seq<char>>,
    local: bool,
    request_token: Option<Seq<char>>,
    settings_token: Option<Seq<char>>,
) -> RegistryPullView {
    RegistryPullView {
        base_url: if local {
            "http://"@
        } else {
            "https://"@
        } + host_of(asked_registry(parsed, mirror)),
        identity_token: crate::model::first_some(request_token, settings_token),
        repository: parsed.repository,
        reference: selector(parsed),
    }
}

/// Plans the pull of a packed machine. `local` tells whether the host that
/// serves the registry is local, and `settings_token` is the token that the
/// settings hold for the registry that is asked.
pub fn plan_registry_pull(
    parsed: &Reference,
    mirror: &Option<String>,
    local: bool,
    request_token: &Option<String>,
    settings_token: &Option<String>,
) -> (pull: RegistryPull)
    ensures
        pull.model() == pull_of(
            parsed.model(),
            mirror.model(),
            local,
            request_token.model(),
            settings_token.model(),
        ),
{
    let registry: String = effective_registry(parsed, mirror);
    let host: String = registry_host(registry.as_str());
    let scheme: &str = if local {
        "http://"
    } else {
        "https://"
    };
    RegistryPull {
        base_url: cat2(scheme, host.as_str()),
        identity_token: crate::model::dup_first_some(request_token, settings_token),
        repository: parsed.repository.dup(),
        reference: own(registry_reference_tag_or_digest(parsed)),
    }
}

/// What a packed machine says of itself.
#[derive(Debug, PartialEq, Eq)]
pub struct PackedManifest {
    pub image: String,
    pub entrypoint: Vec<String>,
    pub cmd: Vec<String>,
    pub env: Vec<String>,
    pub workdir: Option<String>,
    pub cpus: u8,
    pub mem: u32,
    pub network: bool,
    pub gpu: bool,
    pub secret_refs: SecretMap,
}

/// Mathematical model of a [`PackedManifest`].
pub struct PackedManifestView {
    pub image: Seq<char>,
    pub entrypoint: Seq<Seq<char>>,
    pub cmd: Seq<Seq<char>>,
    pub env: Seq<Seq<char>>,
    pub workdir: Option<Seq<char>>,
    pub cpus: u8,
    pub mem: u32,
    pub network: bool,
    pub gpu: bool,
    pub secret_refs: SecretMapView,
}

impl Model for PackedManifest {
    type V = PackedManifestView;

    open spec fn model(&self) -> PackedManifestView {
        PackedManifestView {
            image: self.image.model(),
            entrypoint: self.entrypoint.model(),
            cmd: self.cmd.model(),
            env: self.env.model(),
            workdir: self.workdir.model(),
            cpus: self.cpus.model(),
            mem: self.mem.model(),
            network: self.network.model(),
            gpu: self.gpu.model(),
            secret_refs: self.secret_refs.model(),
        }
    }

    fn dup(&self) -> (copy: Self) {
        PackedManifest {
            image: self.image.dup(),
            entrypoint: self.entrypoint.dup(),
            cmd: self.cmd.dup(),
            env: self.env.dup(),
            workdir: self.workdir.dup(),
            cpus: self.cpus.dup(),
            mem: self.mem.dup(),
            network: self.network.dup(),
            gpu: self.gpu.dup(),
            secret_refs: self.secret_refs.dup(),
        }
    }
}

/// What is known while a request for a new machine is worked on.
#[derive(Debug, PartialEq, Eq)]
pub struct HttpCreateProgress {
    /// What the pull from a registry gave: the path of the packed machine.
    pub pulled: Option<Result<String, ApiError>>,
    /// Whether the packed machine is there.
    pub sidecar_exists: Option<bool>,
    /// What reading the packed machine gave: its manifest and its full path, or
    /// the text of an error.
    pub manifest: Option<Result<(PackedManifest, String), String>>,
    /// A name for a machine whose request names none.
    pub generated: String,
    /// What reading the restart policy of the request gave.
    pub policy: Result<RestartPolicy, String>,
    /// What reading the mounts of the request gave.
    pub mounts: Result<Vec<HostMount>, String>,
}

/// Mathematical model of a [`HttpCreateProgress`].
pub struct HttpCreateProgressView {
    pub pulled: Option<Result<Seq<char>, ApiErrorView>>,
    pub sidecar_exists: Option<bool>,
    pub manifest: Option<Result<(PackedManifestView, Seq<char>), Seq<char>>>,
    pub generated: Seq<char>,
    pub policy: Result<RestartPolicy, Seq<char>>,
    pub mounts: Result<Seq<HostMountView>, Seq<char>>,
}

impl Model for HttpCreateProgress {
    type V = HttpCreateProgressView;

    open spec fn model(&self) -> HttpCreateProgressView {
        HttpCreateProgressView {
            pulled: self.pulled.model(),
            sidecar_exists: self.sidecar_exists.model(),
            manifest: self.manifest.model(),
            generated: self.generated.model(),
            policy: self.policy.model(),
            mounts: self.mounts.model(),
        }
    }

    fn dup(&self) -> (copy: Self) {
        HttpCreateProgress {
            pulled: self.pulled.dup(),
            sidecar_exists: self.sidecar_exists.dup(),
            manifest: self.manifest.dup(),
            generated: self.generated.dup(),
            policy: self.policy.dup(),
            mounts: self.mounts.dup(),
        }
    }
}

/// What is done next for a request for a new machine.
#[derive(Debug, PartialEq, Eq)]
pub enum HttpCreateStep {
    /// The request has failed.
    Refuse(ApiError),
    /// Pull the packed machine.
    Pull { reference: String, token: Option<String> },
    /// See whether the packed machine is there.
    Look(String),
    /// Read the manifest of the packed machine.
    ReadManifest(String),
    /// Hand this to the machine service.
    Create(CreateMachine),
}

/// Mathematical model of a [`HttpCreateStep`].
pub enum HttpCreateStepView {
    Refuse(ApiErrorView),
    Pull { reference: Seq<char>, token: Option<Seq<char>> },
    Look(Seq<char>),
    ReadManifest(Seq<char>),
    Create(CreateMachineView),
}

impl Model for HttpCreateStep {
    type V = HttpCreateStepView;

    open spec fn model(&self) -> HttpCreateStepView {
        match self {
            HttpCreateStep::Refuse(value) => HttpCreateStepView::Refuse(value.model()),
            HttpCreateStep::Pull { reference, token } => HttpCreateStepView::Pull { reference: reference.model(), token: token.model() },
            HttpCreateStep::Look(value) => HttpCreateStepView::Look(value.model()),
            HttpCreateStep::ReadManifest(value) => HttpCreateStepView::ReadManifest(value.model()),
            HttpCreateStep::Create(value) => HttpCreateStepView::Create(value.model()),
        }
    }

    fn dup(&self) -> (copy: Self) {
        match self {
            HttpCreateStep::Refuse(value) => HttpCreateStep::Refuse(value.dup()),
            HttpCreateStep::Pull { reference, token } => HttpCreateStep::Pull { reference: reference.dup(), token: token.dup() },
            HttpCreateStep::Look(value) => HttpCreateStep::Look(value.dup()),
            HttpCreateStep::ReadManifest(value) => HttpCreateStep::ReadManifest(value.dup()),
            HttpCreateStep::Create(value) => HttpCreateStep::Create(value.dup()),
        }
    }
}

/// How many sources a request names.
pub open spec fn source_count(request: CreateMachineRequestView) -> nat {
    (if request.registry_ref is Some {
        1nat
    } else {
        0
    }) + (if request.from is Some {
        1nat
    } else {
        0
    }) + (if request.image is Some {
        1nat
    } else {
        0
    })
}

/// The policy text that is read for the restart settings of a request.
pub open spec fn policy_text(restart: RestartSpecView) -> Seq<char> {
    match restart.policy {
        Some(policy) => policy,
        None => "never"@,
    }
}

/// Tells which policy text is read for the restart settings of a request.
pub fn restart_policy_text(restart: &RestartSpec) -> (policy: String)
    ensures
        policy@ == policy_text(restart.model()),
{
    match &restart.policy {
        Some(policy) => policy.dup(),
        None => own("never"),
    }
}

/// The packed machine that a request names or that was pulled for it.
pub open spec fn sidecar_of(
    request: CreateMachineRequestView,
    progress: HttpCreateProgressView,
) -> Option<Seq<char>> {
    if request.registry_ref is Some {
        match progress.pulled {
            Some(Ok(path)) => Some(path),
            _ => None,
        }
    } else {
        request.from
    }
}

/// The service request of a request for a new machine. A request that is
/// accepted carries no secrets.
pub open spec fn creation_of(
    request: CreateMachineRequestView,
    progress: HttpCreateProgressView,
    packed: Option<(PackedManifestView, Seq<char>)>,
    defaults: ResourceDefaultsView,
) -> CreateMachineView {
    let resources = created_resources(
        request,
        match packed {
            Some(packed) => packed.0.cpus,
            None => defaults.cpus,
        },
        match packed {
            Some(packed) => packed.0.mem,
            None => defaults.memory_mib,
        },
    );
    CreateMachineView {
        name: match request.name {
            Some(name) => name,
            None => progress.generated,
        },
        image: match packed {
            Some(packed) => Some(packed.0.image),
            None => request.image,
        },
        entrypoint: match packed {
            Some(packed) => packed.0.entrypoint,
            None => Seq::empty(),
        },
        cmd: match packed {
            Some(packed) => packed.0.cmd,
            None => Seq::empty(),
        },
        cpus: resources.0,
        memory_mib: resources.1,
        mounts: progress.mounts->Ok_0,
        ports: request.ports,
        net: request.network || (packed is Some && (packed->0).0.network),
        network_backend: None,
        init: Seq::empty(),
        env: match packed {
            Some(packed) => packed.0.env,
            None => Seq::empty(),
        },
        workdir: match packed {
            Some(packed) => packed.0.workdir,
            None => None,
        },
        user: None,
        storage_gb: request.storage_gb,
        overlay_gb: request.overlay_gb,
        allowed_cidrs: request.allowed_cidrs,
        restart_policy: Some(
            if request.restart is Some {
                progress.policy->Ok_0
            } else {
                no_restart().policy
            },
        ),
        restart_max_retries: Some(
            match request.restart {
                Some(restart) => match restart.max_retries {
                    Some(retries) => retries,
                    None => 0u32,
                },
                None => no_restart().max_retries,
            },
        ),
        restart_max_backoff_secs: Some(no_restart().max_backoff_secs),
        health_cmd: None,
        health_interval_secs: None,
        health_timeout_secs: None,
        health_retries: None,
        health_startup_grace_secs: None,
        ssh_agent: false,
        gpu: request.gpu,
        gpu_vram_mib: None,
        dns_filter_hosts: None,
        source_smolmachine: match packed {
            Some(packed) => Some(packed.1),
            None => None,
        },
        secret_refs: Seq::empty(),
    }
}

/// What is done once the source of a new machine is known.
pub open spec fn creation_step(
    request: CreateMachineRequestView,
    progress: HttpCreateProgressView,
    packed: Option<(PackedManifestView, Seq<char>)>,
    defaults: ResourceDefaultsView,
) -> HttpCreateStepView {
    if request_secrets_checked(request.secrets) is Err {
        HttpCreateStepView::Refuse(request_secrets_checked(request.secrets)->Err_0)
    } else if request.restart is Some && progress.policy is Err {
        HttpCreateStepView::Refuse(ApiErrorView::BadRequest(progress.policy->Err_0))
    } else if progress.mounts is Err {
        HttpCreateStepView::Refuse(ApiErrorView::BadRequest(progress.mounts->Err_0))
    } else {
        HttpCreateStepView::Create(creation_of(request, progress, packed, defaults))
    }
}

/// What is done next for a request whose source is the packed machine at `path`.
pub open spec fn packed_step(
    request: CreateMachineRequestView,
    progress: HttpCreateProgressView,
    path: Seq<char>,
    defaults: ResourceDefaultsView,
) -> HttpCreateStepView {
    match progress.sidecar_exists {
        None => HttpCreateStepView::Look(path),
        Some(false) => HttpCreateStepView::Refuse(
            ApiErrorView::BadRequest("sidecar file not found: "@ + path),
        ),
        Some(true) => match progress.manifest {
            None => HttpCreateStepView::ReadManifest(path),
            Some(Err(reason)) => HttpCreateStepView::Refuse(
                ApiErrorView::Internal("read .smolmachine: "@ + reason),
            ),
            Some(Ok(packed)) => match first_ref_fault(
                packed.0.secret_refs,
                ResolutionScope::Untrusted,
            ) {
                Some(fault) => HttpCreateStepView::Refuse(
                    ApiErrorView::BadRequest(
                        "packed secret '"@ + fault.0 + "': "@ + fault.1
                            + " (packs may not carry secret refs)"@,
                    ),
                ),
                None => creation_step(request, progress, Some(packed), defaults),
            },
        },
    }
}

/// What is done next for a request for a new machine.
pub open spec fn http_create_step(
    request: CreateMachineRequestView,
    progress: HttpCreateProgressView,
    defaults: ResourceDefaultsView,
) -> HttpCreateStepView {
    if source_count(request) > 1 {
        HttpCreateStepView::Refuse(
            ApiErrorView::BadRequest("'registryRef', 'from', and 'image' are mutually exclusive"@),
        )
    } else if request.registry_ref is Some && progress.pulled is None {
        HttpCreateStepView::Pull {
            reference: request.registry_ref->0,
            token: request.registry_identity_token,
        }
    } else if request.registry_ref is Some && progress.pulled->0 is Err {
        HttpCreateStepView::Refuse(progress.pulled->0->Err_0)
    } else {
        match sidecar_of(request, progress) {
            Some(path) => packed_step(request, progress, path, defaults),
            None => creation_step(request, progress, None, defaults),
        }
    }
}

fn build_creation(
    request: &CreateMachineRequest,
    progress: &HttpCreateProgress,
    packed: Option<&(PackedManifest, String)>,
    defaults: &ResourceDefaults,
) -> (creation: CreateMachine)
    requires
        progress.mounts is Ok,
        request.restart is Some ==> progress.policy is Ok,
    ensures
        creation.model() == creation_of(
            request.model(),
            progress.model(),
            match packed {
                Some(packed) => Some(packed.model()),
                None => None,
            },
            defaults.model(),
        ),
{
    let name: String = match &request.name {
        Some(name) => name.dup(),
        None => progress.generated.dup(),
    };
    let mut creation: CreateMachine = CreateMachine::new(name, defaults);
    let mut cpus: u8 = defaults.cpus;
    let mut mem: u32 = defaults.memory_mib;
    creation.net = request.network;
    match packed {
        Some(packed) => {
            creation.image = Some(packed.0.image.dup());
            creation.source_smolmachine = Some(packed.1.dup());
            creation.entrypoint = packed.0.entrypoint.dup();
            creation.cmd = packed.0.cmd.dup();
            creation.env = packed.0.env.dup();
            creation.workdir = packed.0.workdir.dup();
            creation.net = request.network || packed.0.network;
            cpus = packed.0.cpus;
            mem = packed.0.mem;
        },
        None => {
            creation.image = request.image.dup();
        },
    }
    let resources: (u8, u32) = resolve_create_resources(request, cpus, mem);
    creation.cpus = resources.0;
    creation.memory_mib = resources.1;
    if let Ok(mounts) = &progress.mounts {
        creation.mounts = mounts.dup();
    }
    creation.ports = request.ports.dup();
    creation.storage_gb = request.storage_gb;
    creation.overlay_gb = request.overlay_gb;
    creation.allowed_cidrs = request.allowed_cidrs.dup();
    match &request.restart {
        Some(restart) => {
            if let Ok(policy) = &progress.policy {
                creation.restart_policy = Some(*policy);
            }
            creation.restart_max_retries = Some(
                match restart.max_retries {
                    Some(retries) => retries,
                    None => 0,
                },
            );
        },
        None => {
            creation.restart_policy = Some(RestartPolicy::Never);
            creation.restart_max_retries = Some(0);
        },
    }
    creation.restart_max_backoff_secs = Some(0);
    creation.gpu = request.gpu;
    creation
}

fn next_creation_step(
    request: &CreateMachineRequest,
    progress: &HttpCreateProgress,
    packed: Option<&(PackedManifest, String)>,
    defaults: &ResourceDefaults,
) -> (step: HttpCreateStep)
    ensures
        step.model() == creation_step(
            request.model(),
            progress.model(),
            match packed {
                Some(packed) => Some(packed.model()),
                None => None,
            },
            defaults.model(),
        ),
{
    if let Err(error) = validate_request_secrets(&request.secrets) {
        return HttpCreateStep::Refuse(error);
    }
    if request.restart.is_some() {
        if let Err(reason) = &progress.policy {
            return HttpCreateStep::Refuse(ApiError::BadRequest(reason.dup()));
        }
    }
    if let Err(reason) = &progress.mounts {
        return HttpCreateStep::Refuse(ApiError::BadRequest(reason.dup()));
    }
    HttpCreateStep::Create(build_creation(request, progress, packed, defaults))
}

fn next_packed_step(
    request: &CreateMachineRequest,
    progress: &HttpCreateProgress,
    path: &str,
    defaults: &ResourceDefaults,
) -> (step: HttpCreateStep)
    ensures
        step.model() == packed_step(request.model(), progress.model(), path@, defaults.model()),
{
    match progress.sidecar_exists {
        None => HttpCreateStep::Look(own(path)),
        Some(false) => HttpCreateStep::Refuse(
            ApiError::BadRequest(cat2("sidecar file not found: ", path)),
        ),
        Some(true) => match &progress.manifest {
            None => HttpCreateStep::ReadManifest(own(path)),
            Some(Err(reason)) => HttpCreateStep::Refuse(
                ApiError::Internal(cat2("read .smolmachine: ", reason.as_str())),
            ),
            Some(Ok(packed)) => match find_ref_fault(
                &packed.0.secret_refs,
                ResolutionScope::Untrusted,
            ) {
                Some(fault) => HttpCreateStep::Refuse(
                    ApiError::BadRequest(
                        cat5(
                            "packed secret '",
                            fault.0.as_str(),
                            "': ",
                            fault.1.as_str(),
                            " (packs may not carry secret refs)",
                        ),
                    ),
                ),
                None => next_creation_step(request, progress, Some(packed), defaults),
            },
        },
    }
}

/// Decides what is done next for a request for a new machine.
pub fn next_http_create_step(
    request: &CreateMachineRequest,
    progress: &HttpCreateProgress,
    defaults: &ResourceDefaults,
) -> (step: HttpCreateStep)
    ensures
        step.model() == http_create_step(request.model(), progress.model(), defaults.model()),
{
    let registry: bool = request.registry_ref.is_some();
    let file: bool = request.from.is_some();
    let image: bool = request.image.is_some();
    if (registry && file) || (registry && image) || (file && image) {
        return HttpCreateStep::Refuse(
            ApiError::BadRequest(own("'registryRef', 'from', and 'image' are mutually exclusive")),
        );
    }
    if let Some(reference) = &request.registry_ref {
        return match &progress.pulled {
            None => HttpCreateStep::Pull {
                reference: reference.dup(),
                token: request.registry_identity_token.dup(),
            },
            Some(Err(error)) => HttpCreateStep::Refuse(error.dup()),
            Some(Ok(path)) => next_packed_step(request, progress, path.as_str(), defaults),
        };
    }
    match &request.from {
        Some(path) => next_packed_step(request, progress, path.as_str(), defaults),
        None => next_creation_step(request, progress, None, defaults),
    }
}

/// Law: a machine is created over HTTP only from at most one source, and only
/// where neither the request nor the packed machine carries secrets.
pub proof fn law_http_create_is_checked(
    request: CreateMachineRequestView,
    progress: HttpCreateProgressView,
    defaults: ResourceDefaultsView,
)
    requires
        http_create_step(request, progress, defaults) is Create,
    ensures
        source_count(request) <= 1,
        request.secrets.len() == 0,
        sidecar_of(request, progress) is Some ==> progress.sidecar_exists == Some(true)
            && progress.manifest is Some && progress.manifest->0 is Ok
            && progress.manifest->0->Ok_0.0.secret_refs.len() == 0,
        request.registry_ref is Some ==> sidecar_of(request, progress) is Some,
{
    crate::api::law_http_secrets_are_refused(request.secrets);
}

/// Law: what a request asks for goes before what a packed machine says, and
/// what a packed machine says before the defaults.
pub proof fn law_request_overrides_manifest(
    request: CreateMachineRequestView,
    progress: HttpCreateProgressView,
    packed: Option<(PackedManifestView, Seq<char>)>,
    defaults: ResourceDefaultsView,
)
    ensures
        request.cpus is Some ==> creation_of(request, progress, packed, defaults).cpus
            == request.cpus->0,
        request.mem is Some ==> creation_of(request, progress, packed, defaults).memory_mib
            == request.mem->0,
        request.cpus is None && packed is Some ==> creation_of(
            request,
            progress,
            packed,
            defaults,
        ).cpus == (packed->0).0.cpus,
        request.mem is None && packed is Some ==> creation_of(
            request,
            progress,
            packed,
            defaults,
        ).memory_mib == (packed->0).0.mem,
        request.cpus is None && packed is None ==> creation_of(
            request,
            progress,
            packed,
            defaults,
        ).cpus == defaults.cpus,
        request.mem is None && packed is None ==> creation_of(
            request,
            progress,
            packed,
            defaults,
        ).memory_mib == defaults.memory_mib,
{
}

/// Law: a machine that is asked for over HTTP is created as it was asked for: under its name, or a
/// generated one; from its image, or as the packed machine says where it comes from one; with its
/// processors, memory, disks, mounts, ports and rules. It forwards no SSH agent and carries no
/// secrets. The network is on where the request or the packed machine turns it on.
pub proof fn law_http_creates_what_was_asked(
    request: CreateMachineRequestView,
    progress: HttpCreateProgressView,
    defaults: ResourceDefaultsView,
)
    ensures
        http_create_step(request, progress, defaults) matches HttpCreateStepView::Create(create)
            ==> {
            let from_pack = request.registry_ref is Some || request.from is Some;
            let manifest = (progress.manifest->0->Ok_0).0;
            &&& request.name is Some ==> create.name == request.name->0
            &&& request.name is None ==> create.name == progress.generated
            &&& from_pack ==> progress.manifest is Some && progress.manifest->0 is Ok
            &&& from_pack ==> create.image == Some(manifest.image) && create.entrypoint
                == manifest.entrypoint && create.cmd == manifest.cmd && create.env == manifest.env
                && create.workdir == manifest.workdir && create.source_smolmachine == Some(
                (progress.manifest->0->Ok_0).1,
            )
            &&& !from_pack ==> create.image == request.image && create.entrypoint.len() == 0
                && create.cmd.len() == 0 && create.env.len() == 0 && create.workdir is None
                && create.source_smolmachine is None
            &&& request.cpus is Some ==> create.cpus == request.cpus->0
            &&& request.cpus is None && from_pack ==> create.cpus == manifest.cpus
            &&& request.cpus is None && !from_pack ==> create.cpus == defaults.cpus
            &&& request.mem is Some ==> create.memory_mib == request.mem->0
            &&& request.mem is None && from_pack ==> create.memory_mib == manifest.mem
            &&& request.mem is None && !from_pack ==> create.memory_mib == defaults.memory_mib
            &&& create.net <==> request.network || (from_pack && manifest.network)
            &&& create.ports == request.ports && progress.mounts == Ok::<
                Seq<HostMountView>,
                Seq<char>,
            >(create.mounts)
            &&& create.storage_gb == request.storage_gb && create.overlay_gb == request.overlay_gb
                && create.allowed_cidrs == request.allowed_cidrs && create.gpu == request.gpu
            &&& request.restart is Some ==> progress.policy is Ok && create.restart_policy == Some(
                progress.policy->Ok_0,
            )
            &&& request.restart is None ==> create.restart_policy == Some(RestartPolicy::Never)
            &&& request.restart is Some && request.restart->0.max_retries is Some
                ==> create.restart_max_retries == request.restart->0.max_retries
            &&& !create.ssh_agent && create.secret_refs.len() == 0 && create.init.len() == 0
                && create.user is None && create.dns_filter_hosts is None && create.health_cmd
                is None
        },
{
}

/// Law: a packed machine is looked for and read where it was named or pulled to, and pulled by its
/// reference with the token of the request; everything is asked for once. A request is refused
/// where it names more than one source, where it or the packed machine carries secrets, where the
/// packed machine is missing or unreadable, or where its policy or its mounts are.
pub proof fn law_http_create_asks_once(
    request: CreateMachineRequestView,
    progress: HttpCreateProgressView,
    defaults: ResourceDefaultsView,
)
    ensures
        ({
            let step = http_create_step(request, progress, defaults);
            let several = (request.registry_ref is Some && request.from is Some) || (
            request.registry_ref is Some && request.image is Some) || (request.from is Some
                && request.image is Some);
            let path = if request.registry_ref is Some {
                progress.pulled->0->Ok_0
            } else {
                request.from->0
            };
            let from_pack = request.registry_ref is Some || request.from is Some;
            &&& several ==> (step matches HttpCreateStepView::Refuse(error) && error is BadRequest)
            &&& step matches HttpCreateStepView::Pull { reference, token } ==> request.registry_ref
                == Some(reference) && token == request.registry_identity_token && progress.pulled
                is None
            &&& step matches HttpCreateStepView::Look(asked) ==> from_pack && asked == path
                && progress.sidecar_exists is None
            &&& step matches HttpCreateStepView::ReadManifest(asked) ==> from_pack && asked == path
                && progress.manifest is None && progress.sidecar_exists == Some(true)
            &&& step matches HttpCreateStepView::Refuse(error) ==> {
                ||| several
                ||| progress.pulled == Some(Err::<Seq<char>, ApiErrorView>(error))
                ||| from_pack && progress.sidecar_exists == Some(false) && error is BadRequest
                ||| from_pack && progress.manifest is Some && progress.manifest->0 is Err && error
                    is Internal
                ||| from_pack && progress.manifest is Some && progress.manifest->0 is Ok && (
                progress.manifest->0->Ok_0).0.secret_refs.len() > 0 && error is BadRequest
                ||| request.secrets.len() > 0 && error is BadRequest
                ||| request.restart is Some && progress.policy is Err && error
                    == ApiErrorView::BadRequest(progress.policy->Err_0)
                ||| progress.mounts is Err && error == ApiErrorView::BadRequest(
                    progress.mounts->Err_0,
                )
            }
        }),
{
    crate::api::law_http_secrets_are_refused(request.secrets);
}

/// Law: a packed machine is pulled from the registry that its reference names, or its mirror, by its
/// digest, or else its tag, or else `latest`; without encryption only where the registry is local;
/// and with the token of the request, or else that of the settings.
pub proof fn law_pull_follows_the_reference(
    parsed: ReferenceView,
    mirror: Option<Seq<char>>,
    local: bool,
    request_token: Option<Seq<char>>,
    settings_token: Option<Seq<char>>,
)
    ensures
        ({
            let pull = pull_of(parsed, mirror, local, request_token, settings_token);
            let registry = if mirror is Some {
                mirror->0
            } else {
                parsed.registry
            };
            &&& pull.repository == parsed.repository
            &&& parsed.digest is Some ==> pull.reference == parsed.digest->0
            &&& parsed.digest is None && parsed.tag is Some ==> pull.reference == parsed.tag->0
            &&& parsed.digest is None && parsed.tag is None ==> pull.reference == "latest"@
            &&& request_token is Some ==> pull.identity_token == request_token
            &&& request_token is None ==> pull.identity_token == settings_token
            &&& local && registry != "docker.io"@ ==> pull.base_url == "http://"@ + registry
            &&& !local && registry != "docker.io"@ ==> pull.base_url == "https://"@ + registry
            &&& !local && registry == "docker.io"@ ==> pull.base_url == "https://"@
                + "registry-1.docker.io"@
        }),
{
}

/// Law: the restart policy of a request is the one it names, and to never restart where it names none.
pub proof fn law_policy_of_a_request(restart: RestartSpecView)
    ensures
        restart.policy is Some ==> policy_text(restart) == restart.policy->0,
        restart.policy is None ==> policy_text(restart) == "never"@,
{
}

} // verus!
