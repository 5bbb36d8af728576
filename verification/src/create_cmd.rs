//! Command line: creating a machine.

use crate::commands::{
    CreateCmd, CreateCmdView, CreateVmParams, CreateVmParamsView, ParamsRequest, ParamsRequestView,
};
use crate::env::{find_ref_fault, first_ref_fault};
use crate::error::{Error, ErrorView};
use crate::flags::{
    cli_secrets, egress_of, host_names, law_cli_secrets_are_kept, parse_cli_secret_refs, resolve_egress_flags, secret_flags, Egress,
    EgressView, ResolvedHost, ResolvedHostView,
};
use crate::http_create::{PackedManifest, PackedManifestView};
use crate::model::{dup_first_some, empty_list, extend_from, first_some, push_to, Model};
use crate::requests::{CreateMachine, CreateMachineView};
use crate::run_cmd::{merge_params, merged_params};
use crate::secrets::{entry_at, law_merged_entries, ResolutionScope, SecretMap};
use crate::text::{cat2, cat3, cat5, decimal, number, own};
use crate::types::{
    HostMount, HostMountView, PortMapping, ResourceDefaults, ResourceDefaultsView, VmResources,
    VmResourcesView,
};
use vstd::prelude::*;

verus! {

/// The service request of the settings of a new machine. `mounts` is what
/// reading its mounts gave.
pub open spec fn request_of_params(
    params: CreateVmParamsView,
    mounts: Result<Seq<HostMountView>, ErrorView>,
) -> Result<CreateMachineView, ErrorView> {
    match mounts {
        Err(error) => Err(error),
        Ok(mounts) => Ok(
            CreateMachineView {
                name: params.name,
                image: params.image,
                entrypoint: params.entrypoint,
                cmd: params.cmd,
                cpus: params.cpus,
                memory_mib: params.mem,
                mounts,
                ports: params.port,
                net: params.net,
                network_backend: params.network_backend,
                init: params.init,
                env: params.env,
                workdir: params.workdir,
                user: None,
                storage_gb: params.storage_gb,
                overlay_gb: params.overlay_gb,
                allowed_cidrs: params.allowed_cidrs,
                restart_policy: params.restart_policy,
                restart_max_retries: params.restart_max_retries,
                restart_max_backoff_secs: params.restart_max_backoff_secs,
                health_cmd: params.health_cmd,
                health_interval_secs: params.health_interval_secs,
                health_timeout_secs: params.health_timeout_secs,
                health_retries: params.health_retries,
                health_startup_grace_secs: params.health_startup_grace_secs,
                ssh_agent: params.ssh_agent,
                gpu: params.gpu,
                gpu_vram_mib: params.gpu_vram_mib,
                dns_filter_hosts: params.dns_filter_hosts,
                source_smolmachine: params.source_smolmachine,
                secret_refs: params.secret_refs,
            },
        ),
    }
}

/// Makes the service request of the settings of a new machine.
pub fn create_machine_request(
    params: &CreateVmParams,
    mounts: &Result<Vec<HostMount>, Error>,
    defaults: &ResourceDefaults,
) -> (request: Result<CreateMachine, Error>)
    ensures
        request.model() == request_of_params(params.model(), mounts.model()),
{
    let mounts: &Vec<HostMount> = match mounts {
        Err(error) => {
            return Err(error.dup());
        },
        Ok(mounts) => mounts,
    };
    let mut request: CreateMachine = CreateMachine::new(params.name.dup(), defaults);
    request.image = params.image.dup();
    request.entrypoint = params.entrypoint.dup();
    request.cmd = params.cmd.dup();
    request.cpus = params.cpus;
    request.memory_mib = params.mem;
    request.mounts = mounts.dup();
    request.ports = params.port.dup();
    request.net = params.net;
    request.network_backend = params.network_backend.dup();
    request.init = params.init.dup();
    request.env = params.env.dup();
    request.workdir = params.workdir.dup();
    request.storage_gb = params.storage_gb;
    request.overlay_gb = params.overlay_gb;
    request.allowed_cidrs = params.allowed_cidrs.dup();
    request.restart_policy = params.restart_policy;
    request.restart_max_retries = params.restart_max_retries;
    request.restart_max_backoff_secs = params.restart_max_backoff_secs;
    request.health_cmd = params.health_cmd.dup();
    request.health_interval_secs = params.health_interval_secs;
    request.health_timeout_secs = params.health_timeout_secs;
    request.health_retries = params.health_retries;
    request.health_startup_grace_secs = params.health_startup_grace_secs;
    request.ssh_agent = params.ssh_agent;
    request.gpu = params.gpu;
    request.gpu_vram_mib = params.gpu_vram_mib;
    request.dns_filter_hosts = params.dns_filter_hosts.dup();
    request.source_smolmachine = params.source_smolmachine.dup();
    request.secret_refs = params.secret_refs.dup();
    Ok(request)
}

/// A line that counts something, where there is something to count.
pub open spec fn count_line(label: Seq<char>, count: nat) -> Seq<Seq<char>> {
    if count == 0 {
        Seq::empty()
    } else {
        seq![label + decimal(count)]
    }
}

/// The lines that are shown for a new machine.
pub open spec fn created_lines(params: CreateVmParamsView) -> Seq<Seq<char>> {
    seq![
        "Created machine: "@ + params.name,
        "  CPUs: "@ + decimal(params.cpus as nat) + ", Memory: "@ + decimal(params.mem as nat)
            + " MiB"@,
    ] + count_line("  Mounts: "@, params.volume.len()) + count_line(
        "  Ports: "@,
        params.port.len(),
    ) + count_line("  Init commands: "@, params.init.len()) + seq![
        "\nUse 'smolvm machine start --name "@ + params.name + "' to start the machine"@,
        "Then use 'smolvm machine exec --name "@ + params.name + " -- <command>' to run commands"@,
    ]
}

fn push_count(lines: &mut Vec<String>, label: &str, count: usize)
    ensures
        final(lines).model() == old(lines).model() + count_line(label@, count as nat),
{
    let ghost before = lines.model();
    if count > 0 {
        push_to(lines, cat2(label, number(count as u64).as_str()));
        assert(lines.model() =~= before + count_line(label@, count as nat));
    } else {
        assert(lines.model() =~= before + count_line(label@, count as nat));
    }
}

/// Makes the lines that are shown for a new machine.
pub fn print_create_success(params: &CreateVmParams) -> (lines: Vec<String>)
    ensures
        lines.model() == created_lines(params.model()),
{
    let mut lines: Vec<String> = empty_list();
    push_to(&mut lines, cat2("Created machine: ", params.name.as_str()));
    push_to(
        &mut lines,
        cat5(
            "  CPUs: ",
            number(params.cpus as u64).as_str(),
            ", Memory: ",
            number(params.mem as u64).as_str(),
            " MiB",
        ),
    );
    let ghost first = lines.model();
    push_count(&mut lines, "  Mounts: ", params.volume.len());
    push_count(&mut lines, "  Ports: ", params.port.len());
    push_count(&mut lines, "  Init commands: ", params.init.len());
    push_to(
        &mut lines,
        cat3(
            "\nUse 'smolvm machine start --name ",
            params.name.as_str(),
            "' to start the machine",
        ),
    );
    push_to(
        &mut lines,
        cat3(
            "Then use 'smolvm machine exec --name ",
            params.name.as_str(),
            " -- <command>' to run commands",
        ),
    );
    assert(lines.model() =~= created_lines(params.model()));
    lines
}

/// What is tested before a machine is created.
#[derive(Debug, PartialEq, Eq)]
pub struct CreateCheck {
    pub resources: VmResources,
    pub dns_filter_hosts: Option<Vec<String>>,
    pub ports: Vec<PortMapping>,
}

/// Mathematical model of a [`CreateCheck`].
pub struct CreateCheckView {
    pub resources: VmResourcesView,
    pub dns_filter_hosts: Option<Seq<Seq<char>>>,
    pub ports: Seq<PortMapping>,
}

impl Model for CreateCheck {
    type V = CreateCheckView;

    open spec fn model(&self) -> CreateCheckView {
        CreateCheckView {
            resources: self.resources.model(),
            dns_filter_hosts: self.dns_filter_hosts.model(),
            ports: self.ports.model(),
        }
    }

    fn dup(&self) -> (copy: Self) {
        CreateCheck {
            resources: self.resources.dup(),
            dns_filter_hosts: self.dns_filter_hosts.dup(),
            ports: self.ports.dup(),
        }
    }
}

/// What the tests gave.
#[derive(Debug, PartialEq, Eq)]
pub struct CreateInputs {
    pub resources: Result<(), Error>,
    pub network: Result<(), Error>,
    pub ports: Result<(), String>,
}

/// Mathematical model of a [`CreateInputs`].
pub struct CreateInputsView {
    pub resources: Result<(), ErrorView>,
    pub network: Result<(), ErrorView>,
    pub ports: Result<(), Seq<char>>,
}

impl Model for CreateInputs {
    type V = CreateInputsView;

    open spec fn model(&self) -> CreateInputsView {
        CreateInputsView {
            resources: self.resources.model(),
            network: self.network.model(),
            ports: self.ports.model(),
        }
    }

    fn dup(&self) -> (copy: Self) {
        CreateInputs {
            resources: self.resources.dup(),
            network: self.network.dup(),
            ports: self.ports.dup(),
        }
    }
}

/// What is known while a machine is created.
#[derive(Debug, PartialEq, Eq)]
pub struct CreateCmdProgress {
    /// A name for a machine that is given none.
    pub generated: String,
    /// Whether the packed machine is there.
    pub sidecar_exists: Option<bool>,
    /// What reading the packed machine gave: its manifest and its full path, or
    /// the text of an error.
    pub manifest: Option<Result<(PackedManifest, String), String>>,
    /// The allowed hosts and their addresses.
    pub hosts: Option<Vec<ResolvedHost>>,
    /// The settings of the machine.
    pub params: Option<Result<CreateVmParams, Error>>,
    /// What the tests gave.
    pub inputs: Option<CreateInputs>,
    /// What reading the mounts gave.
    pub mounts: Option<Result<Vec<HostMount>, Error>>,
    /// What creating the machine gave.
    pub created: Option<Result<(), Error>>,
}

/// Mathematical model of a [`CreateCmdProgress`].
pub struct CreateCmdProgressView {
    pub generated: Seq<char>,
    pub sidecar_exists: Option<bool>,
    pub manifest: Option<Result<(PackedManifestView, Seq<char>), Seq<char>>>,
    pub hosts: Option<Seq<ResolvedHostView>>,
    pub params: Option<Result<CreateVmParamsView, ErrorView>>,
    pub inputs: Option<CreateInputsView>,
    pub mounts: Option<Result<Seq<HostMountView>, ErrorView>>,
    pub created: Option<Result<(), ErrorView>>,
}

impl Model for CreateCmdProgress {
    type V = CreateCmdProgressView;

    open spec fn model(&self) -> CreateCmdProgressView {
        CreateCmdProgressView {
            generated: self.generated.model(),
            sidecar_exists: self.sidecar_exists.model(),
            manifest: self.manifest.model(),
            hosts: self.hosts.model(),
            params: self.params.model(),
            inputs: self.inputs.model(),
            mounts: self.mounts.model(),
            created: self.created.model(),
        }
    }

    fn dup(&self) -> (copy: Self) {
        CreateCmdProgress {
            generated: self.generated.dup(),
            sidecar_exists: self.sidecar_exists.dup(),
            manifest: self.manifest.dup(),
            hosts: self.hosts.dup(),
            params: self.params.dup(),
            inputs: self.inputs.dup(),
            mounts: self.mounts.dup(),
            created: self.created.dup(),
        }
    }
}

/// What is done next to create a machine.
#[derive(Debug, PartialEq, Eq)]
pub enum CreateCmdStep {
    /// See whether the packed machine is there.
    Look(String),
    /// Read the manifest of the packed machine.
    ReadManifest(String),
    /// Find the addresses of these hosts.
    ResolveHosts(Vec<String>),
    /// Make the settings of the machine.
    BuildParams(ParamsRequest),
    /// Make the tests.
    Check(CreateCheck),
    /// Read these mounts.
    ParseMounts(Vec<String>),
    /// Hand this to the machine service.
    Create(CreateMachine),
    /// The command has ended: with these lines, or an error.
    Done(Result<Vec<String>, Error>),
}

/// Mathematical model of a [`CreateCmdStep`].
pub enum CreateCmdStepView {
    Look(Seq<char>),
    ReadManifest(Seq<char>),
    ResolveHosts(Seq<Seq<char>>),
    BuildParams(ParamsRequestView),
    Check(CreateCheckView),
    ParseMounts(Seq<Seq<char>>),
    Create(CreateMachineView),
    Done(Result<Seq<Seq<char>>, ErrorView>),
}

impl Model for CreateCmdStep {
    type V = CreateCmdStepView;

    open spec fn model(&self) -> CreateCmdStepView {
        match self {
            CreateCmdStep::Look(value) => CreateCmdStepView::Look(value.model()),
            CreateCmdStep::ReadManifest(value) => CreateCmdStepView::ReadManifest(value.model()),
            CreateCmdStep::ResolveHosts(value) => CreateCmdStepView::ResolveHosts(value.model()),
            CreateCmdStep::BuildParams(value) => CreateCmdStepView::BuildParams(value.model()),
            CreateCmdStep::Check(value) => CreateCmdStepView::Check(value.model()),
            CreateCmdStep::ParseMounts(value) => CreateCmdStepView::ParseMounts(value.model()),
            CreateCmdStep::Create(value) => CreateCmdStepView::Create(value.model()),
            CreateCmdStep::Done(value) => CreateCmdStepView::Done(value.model()),
        }
    }

    fn dup(&self) -> (copy: Self) {
        match self {
            CreateCmdStep::Look(value) => CreateCmdStep::Look(value.dup()),
            CreateCmdStep::ReadManifest(value) => CreateCmdStep::ReadManifest(value.dup()),
            CreateCmdStep::ResolveHosts(value) => CreateCmdStep::ResolveHosts(value.dup()),
            CreateCmdStep::BuildParams(value) => CreateCmdStep::BuildParams(value.dup()),
            CreateCmdStep::Check(value) => CreateCmdStep::Check(value.dup()),
            CreateCmdStep::ParseMounts(value) => CreateCmdStep::ParseMounts(value.dup()),
            CreateCmdStep::Create(value) => CreateCmdStep::Create(value.dup()),
            CreateCmdStep::Done(value) => CreateCmdStep::Done(value.dup()),
        }
    }
}

/// The step that ends the command with an error.
pub open spec fn create_failed(error: ErrorView) -> CreateCmdStepView {
    CreateCmdStepView::Done(Err(error))
}

/// What is done once the settings of the machine are settled.
pub open spec fn create_vm_step(
    params: CreateVmParamsView,
    progress: CreateCmdProgressView,
) -> CreateCmdStepView {
    match progress.mounts {
        None => CreateCmdStepView::ParseMounts(params.volume),
        Some(mounts) => match request_of_params(params, mounts) {
            Err(error) => create_failed(error),
            Ok(request) => match progress.created {
                None => CreateCmdStepView::Create(request),
                Some(Err(error)) => create_failed(error),
                Some(Ok(_)) => CreateCmdStepView::Done(Ok(created_lines(params))),
            },
        },
    }
}

/// The resources that are tested.
pub open spec fn tested_resources(params: CreateVmParamsView) -> VmResourcesView {
    VmResourcesView {
        cpus: params.cpus,
        memory_mib: params.mem,
        network: params.net,
        network_backend: params.network_backend,
        gpu: params.gpu,
        gpu_vram_mib: params.gpu_vram_mib,
        storage_gib: params.storage_gb,
        overlay_gib: params.overlay_gb,
        allowed_cidrs: params.allowed_cidrs,
    }
}

/// The settings of a machine with the flags that only turn something on.
pub open spec fn flagged_params(
    cmd: CreateCmdView,
    params: CreateVmParamsView,
) -> CreateVmParamsView {
    CreateVmParamsView {
        ssh_agent: cmd.ssh_agent || params.ssh_agent,
        gpu: cmd.gpu || params.gpu,
        gpu_vram_mib: first_some(cmd.gpu_vram_mib, params.gpu_vram_mib),
        ..params
    }
}

/// What is done once the settings were made.
pub open spec fn create_check_step(
    cmd: CreateCmdView,
    params: CreateVmParamsView,
    progress: CreateCmdProgressView,
) -> CreateCmdStepView {
    match progress.inputs {
        None => CreateCmdStepView::Check(
            CreateCheckView {
                resources: tested_resources(params),
                dns_filter_hosts: params.dns_filter_hosts,
                ports: params.port,
            },
        ),
        Some(inputs) => if inputs.resources is Err {
            create_failed(inputs.resources->Err_0)
        } else if inputs.network is Err {
            create_failed(inputs.network->Err_0)
        } else if inputs.ports is Err {
            create_failed(
                ErrorView::Config {
                    operation: "validate ports"@,
                    reason: inputs.ports->Err_0,
                },
            )
        } else {
            create_vm_step(flagged_params(cmd, params), progress)
        },
    }
}

/// The settings asked for by the flags.
pub open spec fn create_params_request(
    cmd: CreateCmdView,
    generated: Seq<char>,
    egress: EgressView,
) -> ParamsRequestView {
    ParamsRequestView {
        name: match cmd.name {
            Some(name) => name,
            None => generated,
        },
        image: cmd.image,
        entrypoint: None,
        command: cmd.command,
        cpus: cmd.cpus,
        mem: cmd.mem,
        volume: cmd.volume,
        port: cmd.port,
        net: egress.net,
        network_backend: cmd.net_backend,
        init: cmd.init,
        env: cmd.env,
        workdir: cmd.workdir,
        smolfile: cmd.smolfile,
        storage: cmd.storage,
        overlay: cmd.overlay,
        allow_cidrs: egress.cidrs,
    }
}

/// What is done to create a machine from flags and a file of settings.
pub open spec fn create_from_flags_step(
    cmd: CreateCmdView,
    progress: CreateCmdProgressView,
) -> CreateCmdStepView {
    match progress.hosts {
        None => CreateCmdStepView::ResolveHosts(cmd.allow_host),
        Some(hosts) => match egress_of(
            cmd.allow_cidr,
            hosts,
            cmd.outbound_localhost_only,
            cmd.net,
        ) {
            Err(error) => create_failed(error),
            Ok(egress) => match progress.params {
                None => CreateCmdStepView::BuildParams(
                    create_params_request(cmd, progress.generated, egress),
                ),
                Some(Err(error)) => create_failed(error),
                Some(Ok(params)) => match cli_secrets(
                    secret_flags(cmd.secret_env, cmd.secret_file),
                ) {
                    Err(error) => create_failed(error),
                    Ok(secrets) => create_check_step(
                        cmd,
                        merged_params(params, egress.dns_filter_hosts, secrets),
                        progress,
                    ),
                },
            },
        },
    }
}

/// The settings of a machine from a packed one: what the command line gives goes
/// first, processors and memory where they differ from the defaults.
pub open spec fn packed_params(
    cmd: CreateCmdView,
    generated: Seq<char>,
    manifest: PackedManifestView,
    path: Seq<char>,
    egress: EgressView,
    defaults: ResourceDefaultsView,
) -> CreateVmParamsView {
    CreateVmParamsView {
        name: match cmd.name {
            Some(name) => name,
            None => generated,
        },
        image: Some(manifest.image),
        entrypoint: manifest.entrypoint,
        cmd: if cmd.command.len() > 0 {
            cmd.command
        } else {
            manifest.cmd
        },
        cpus: if cmd.cpus != defaults.cpus {
            cmd.cpus
        } else {
            manifest.cpus
        },
        mem: if cmd.mem != defaults.memory_mib {
            cmd.mem
        } else {
            manifest.mem
        },
        volume: cmd.volume,
        port: cmd.port,
        net: egress.net || manifest.network,
        network_backend: cmd.net_backend,
        init: cmd.init,
        env: manifest.env + cmd.env,
        workdir: first_some(cmd.workdir, manifest.workdir),
        storage_gb: cmd.storage,
        overlay_gb: cmd.overlay,
        allowed_cidrs: if egress.cidrs.len() > 0 {
            Some(egress.cidrs)
        } else {
            None
        },
        restart_policy: None,
        restart_max_retries: None,
        restart_max_backoff_secs: None,
        health_cmd: None,
        health_interval_secs: None,
        health_timeout_secs: None,
        health_retries: None,
        health_startup_grace_secs: None,
        ssh_agent: cmd.ssh_agent,
        gpu: cmd.gpu || manifest.gpu,
        gpu_vram_mib: cmd.gpu_vram_mib,
        dns_filter_hosts: None,
        source_smolmachine: Some(path),
        secret_refs: manifest.secret_refs,
    }
}

/// What is done to create a machine from a packed one that was read and may be
/// used.
pub open spec fn create_packed_step(
    cmd: CreateCmdView,
    progress: CreateCmdProgressView,
    manifest: PackedManifestView,
    path: Seq<char>,
    defaults: ResourceDefaultsView,
) -> CreateCmdStepView {
    match progress.hosts {
        None => CreateCmdStepView::ResolveHosts(cmd.allow_host),
        Some(hosts) => match egress_of(
            cmd.allow_cidr,
            hosts,
            cmd.outbound_localhost_only,
            cmd.net,
        ) {
            Err(error) => create_failed(error),
            Ok(egress) => match cli_secrets(secret_flags(cmd.secret_env, cmd.secret_file)) {
                Err(error) => create_failed(error),
                Ok(secrets) => create_vm_step(
                    merged_params(
                        packed_params(cmd, progress.generated, manifest, path, egress, defaults),
                        egress.dns_filter_hosts,
                        secrets,
                    ),
                    progress,
                ),
            },
        },
    }
}

/// What is done to create a machine from the packed one at `path`.
pub open spec fn create_from_packed_step(
    cmd: CreateCmdView,
    progress: CreateCmdProgressView,
    path: Seq<char>,
    defaults: ResourceDefaultsView,
) -> CreateCmdStepView {
    match progress.sidecar_exists {
        None => CreateCmdStepView::Look(path),
        Some(false) => create_failed(
            ErrorView::Config {
                operation: "create from .smolmachine"@,
                reason: "file not found: "@ + path,
            },
        ),
        Some(true) => match progress.manifest {
            None => CreateCmdStepView::ReadManifest(path),
            Some(Err(reason)) => create_failed(
                ErrorView::Agent { operation: "read .smolmachine"@, reason },
            ),
            Some(Ok(packed)) => match first_ref_fault(
                packed.0.secret_refs,
                ResolutionScope::Untrusted,
            ) {
                Some(fault) => create_failed(
                    ErrorView::Config {
                        operation: "create from .smolmachine"@,
                        reason: "secret '"@ + fault.0 + "': "@ + fault.1
                            + " (packs may not carry secret refs)"@,
                    },
                ),
                None => create_packed_step(cmd, progress, packed.0, packed.1, defaults),
            },
        },
    }
}

/// What is done next to create a machine.
pub open spec fn create_cmd_step(
    cmd: CreateCmdView,
    progress: CreateCmdProgressView,
    defaults: ResourceDefaultsView,
) -> CreateCmdStepView {
    match cmd.from {
        Some(path) => create_from_packed_step(cmd, progress, path, defaults),
        None => create_from_flags_step(cmd, progress),
    }
}

fn fail_create(error: Error) -> (step: CreateCmdStep)
    ensures
        step.model() == create_failed(error.model()),
{
    CreateCmdStep::Done(Err(error))
}

fn next_create_vm_step(
    params: &CreateVmParams,
    progress: &CreateCmdProgress,
    defaults: &ResourceDefaults,
) -> (step: CreateCmdStep)
    ensures
        step.model() == create_vm_step(params.model(), progress.model()),
{
    let mounts: &Result<Vec<HostMount>, Error> = match &progress.mounts {
        None => {
            return CreateCmdStep::ParseMounts(params.volume.dup());
        },
        Some(mounts) => mounts,
    };
    let request: CreateMachine = match create_machine_request(params, mounts, defaults) {
        Err(error) => {
            return fail_create(error);
        },
        Ok(request) => request,
    };
    match &progress.created {
        None => CreateCmdStep::Create(request),
        Some(Err(error)) => fail_create(error.dup()),
        Some(Ok(_)) => CreateCmdStep::Done(Ok(print_create_success(params))),
    }
}

fn next_check_step(
    cmd: &CreateCmd,
    params: CreateVmParams,
    progress: &CreateCmdProgress,
    defaults: &ResourceDefaults,
) -> (step: CreateCmdStep)
    ensures
        step.model() == create_check_step(cmd.model(), params.model(), progress.model()),
{
    let inputs: &CreateInputs = match &progress.inputs {
        None => {
            return CreateCmdStep::Check(
                CreateCheck {
                    resources: VmResources {
                        cpus: params.cpus,
                        memory_mib: params.mem,
                        network: params.net,
                        network_backend: params.network_backend.dup(),
                        gpu: params.gpu,
                        gpu_vram_mib: params.gpu_vram_mib,
                        storage_gib: params.storage_gb,
                        overlay_gib: params.overlay_gb,
                        allowed_cidrs: params.allowed_cidrs.dup(),
                    },
                    dns_filter_hosts: params.dns_filter_hosts.dup(),
                    ports: params.port.dup(),
                },
            );
        },
        Some(inputs) => inputs,
    };
    if let Err(error) = &inputs.resources {
        return fail_create(error.dup());
    }
    if let Err(error) = &inputs.network {
        return fail_create(error.dup());
    }
    if let Err(reason) = &inputs.ports {
        return fail_create(Error::config("validate ports", reason.dup()));
    }
    let ghost before = params.model();
    let mut params: CreateVmParams = params;
    if cmd.ssh_agent {
        params.ssh_agent = true;
    }
    if cmd.gpu {
        params.gpu = true;
    }
    if let Some(vram) = cmd.gpu_vram_mib {
        params.gpu_vram_mib = Some(vram);
    }
    assert(params.model() == flagged_params(cmd.model(), before));
    next_create_vm_step(&params, progress, defaults)
}

fn ask_params(cmd: &CreateCmd, generated: &str, egress: &Egress) -> (request: ParamsRequest)
    ensures
        request.model() == create_params_request(cmd.model(), generated@, egress.model()),
{
    ParamsRequest {
        name: match &cmd.name {
            Some(name) => name.dup(),
            None => own(generated),
        },
        image: cmd.image.dup(),
        entrypoint: None,
        command: cmd.command.dup(),
        cpus: cmd.cpus,
        mem: cmd.mem,
        volume: cmd.volume.dup(),
        port: cmd.port.dup(),
        net: egress.net,
        network_backend: cmd.net_backend.dup(),
        init: cmd.init.dup(),
        env: cmd.env.dup(),
        workdir: cmd.workdir.dup(),
        smolfile: cmd.smolfile.dup(),
        storage: cmd.storage,
        overlay: cmd.overlay,
        allow_cidrs: egress.cidrs.dup(),
    }
}

fn next_flags_step(cmd: &CreateCmd, progress: &CreateCmdProgress, defaults: &ResourceDefaults) -> (step:
    CreateCmdStep)
    ensures
        step.model() == create_from_flags_step(cmd.model(), progress.model()),
{
    let hosts: &Vec<ResolvedHost> = match &progress.hosts {
        None => {
            return CreateCmdStep::ResolveHosts(cmd.allow_host.dup());
        },
        Some(hosts) => hosts,
    };
    let egress: Egress = match resolve_egress_flags(
        &cmd.allow_cidr,
        hosts,
        cmd.outbound_localhost_only,
        cmd.net,
    ) {
        Err(error) => {
            return fail_create(error);
        },
        Ok(egress) => egress,
    };
    let params: &CreateVmParams = match &progress.params {
        None => {
            return CreateCmdStep::BuildParams(
                ask_params(cmd, progress.generated.as_str(), &egress),
            );
        },
        Some(Err(error)) => {
            return fail_create(error.dup());
        },
        Some(Ok(params)) => params,
    };
    match parse_cli_secret_refs(&cmd.secret_env, &cmd.secret_file) {
        Err(error) => fail_create(error),
        Ok(secrets) => next_check_step(
            cmd,
            merge_params(params, &egress.dns_filter_hosts, &secrets),
            progress,
            defaults,
        ),
    }
}

fn params_of_packed(
    cmd: &CreateCmd,
    generated: &str,
    manifest: &PackedManifest,
    path: &str,
    egress: &Egress,
    defaults: &ResourceDefaults,
) -> (params: CreateVmParams)
    ensures
        params.model() == packed_params(
            cmd.model(),
            generated@,
            manifest.model(),
            path@,
            egress.model(),
            defaults.model(),
        ),
{
    let mut env: Vec<String> = manifest.env.dup();
    extend_from(&mut env, &cmd.env);
    CreateVmParams {
        name: match &cmd.name {
            Some(name) => name.dup(),
            None => own(generated),
        },
        image: Some(manifest.image.dup()),
        entrypoint: manifest.entrypoint.dup(),
        cmd: if cmd.command.len() > 0 {
            cmd.command.dup()
        } else {
            manifest.cmd.dup()
        },
        cpus: if cmd.cpus != defaults.cpus {
            cmd.cpus
        } else {
            manifest.cpus
        },
        mem: if cmd.mem != defaults.memory_mib {
            cmd.mem
        } else {
            manifest.mem
        },
        volume: cmd.volume.dup(),
        port: cmd.port.dup(),
        net: egress.net || manifest.network,
        network_backend: cmd.net_backend.dup(),
        init: cmd.init.dup(),
        env,
        workdir: dup_first_some(&cmd.workdir, &manifest.workdir),
        storage_gb: cmd.storage,
        overlay_gb: cmd.overlay,
        allowed_cidrs: if egress.cidrs.len() > 0 {
            Some(egress.cidrs.dup())
        } else {
            None
        },
        restart_policy: None,
        restart_max_retries: None,
        restart_max_backoff_secs: None,
        health_cmd: None,
        health_interval_secs: None,
        health_timeout_secs: None,
        health_retries: None,
        health_startup_grace_secs: None,
        ssh_agent: cmd.ssh_agent,
        gpu: cmd.gpu || manifest.gpu,
        gpu_vram_mib: cmd.gpu_vram_mib,
        dns_filter_hosts: None,
        source_smolmachine: Some(own(path)),
        secret_refs: manifest.secret_refs.dup(),
    }
}

fn next_accepted_step(
    cmd: &CreateCmd,
    progress: &CreateCmdProgress,
    manifest: &PackedManifest,
    path: &str,
    defaults: &ResourceDefaults,
) -> (step: CreateCmdStep)
    ensures
        step.model() == create_packed_step(
            cmd.model(),
            progress.model(),
            manifest.model(),
            path@,
            defaults.model(),
        ),
{
    let hosts: &Vec<ResolvedHost> = match &progress.hosts {
        None => {
            return CreateCmdStep::ResolveHosts(cmd.allow_host.dup());
        },
        Some(hosts) => hosts,
    };
    let egress: Egress = match resolve_egress_flags(
        &cmd.allow_cidr,
        hosts,
        cmd.outbound_localhost_only,
        cmd.net,
    ) {
        Err(error) => {
            return fail_create(error);
        },
        Ok(egress) => egress,
    };
    let secrets: SecretMap = match parse_cli_secret_refs(&cmd.secret_env, &cmd.secret_file) {
        Err(error) => {
            return fail_create(error);
        },
        Ok(secrets) => secrets,
    };
    let params: CreateVmParams = params_of_packed(
        cmd,
        progress.generated.as_str(),
        manifest,
        path,
        &egress,
        defaults,
    );
    let merged: CreateVmParams = merge_params(&params, &egress.dns_filter_hosts, &secrets);
    next_create_vm_step(&merged, progress, defaults)
}

fn next_packed_step(
    cmd: &CreateCmd,
    progress: &CreateCmdProgress,
    path: &str,
    defaults: &ResourceDefaults,
) -> (step: CreateCmdStep)
    ensures
        step.model() == create_from_packed_step(
            cmd.model(),
            progress.model(),
            path@,
            defaults.model(),
        ),
{
    match progress.sidecar_exists {
        None => {
            return CreateCmdStep::Look(own(path));
        },
        Some(false) => {
            return fail_create(
                Error::config("create from .smolmachine", cat2("file not found: ", path)),
            );
        },
        Some(true) => {},
    }
    match &progress.manifest {
        None => CreateCmdStep::ReadManifest(own(path)),
        Some(Err(reason)) => fail_create(Error::agent("read .smolmachine", reason.dup())),
        Some(Ok(packed)) => match find_ref_fault(
            &packed.0.secret_refs,
            ResolutionScope::Untrusted,
        ) {
            Some(fault) => fail_create(
                Error::config(
                    "create from .smolmachine",
                    cat5(
                        "secret '",
                        fault.0.as_str(),
                        "': ",
                        fault.1.as_str(),
                        " (packs may not carry secret refs)",
                    ),
                ),
            ),
            None => next_accepted_step(cmd, progress, &packed.0, packed.1.as_str(), defaults),
        },
    }
}

/// Decides what is done next to create a machine.
pub fn next_create_cmd_step(
    cmd: &CreateCmd,
    progress: &CreateCmdProgress,
    defaults: &ResourceDefaults,
) -> (step: CreateCmdStep)
    ensures
        step.model() == create_cmd_step(cmd.model(), progress.model(), defaults.model()),
{
    match &cmd.from {
        Some(path) => next_packed_step(cmd, progress, path.as_str(), defaults),
        None => next_flags_step(cmd, progress, defaults),
    }
}

/// Law: from the command line a machine is created from a packed one only where
/// the packed one carries no secrets, and from flags only where every test was
/// passed.
pub proof fn law_create_command_is_checked(
    cmd: CreateCmdView,
    progress: CreateCmdProgressView,
    defaults: ResourceDefaultsView,
)
    requires
        create_cmd_step(cmd, progress, defaults) is Create,
    ensures
        cmd.from is Some ==> progress.manifest is Some && progress.manifest->0 is Ok
            && progress.manifest->0->Ok_0.0.secret_refs.len() == 0,
        cmd.from is None ==> progress.inputs is Some && progress.inputs->0.resources is Ok
            && progress.inputs->0.network is Ok && progress.inputs->0.ports is Ok,
        progress.mounts is Some && progress.mounts->0 is Ok,
{
}

/// Law: with a packed machine, what the command line says of the workload, the
/// working directory, the graphics processor and the outbound network is what the
/// new machine gets, and `key` gives the secret that a secret flag gives it.
pub proof fn law_flags_override_the_packed_machine(
    cmd: CreateCmdView,
    progress: CreateCmdProgressView,
    defaults: ResourceDefaultsView,
    key: Seq<char>,
)
    requires
        cmd.from is Some,
        create_cmd_step(cmd, progress, defaults) is Create,
    ensures
        ({
            let request = create_cmd_step(cmd, progress, defaults)->Create_0;
            let egress = egress_of(
                cmd.allow_cidr,
                progress.hosts->0,
                cmd.outbound_localhost_only,
                cmd.net,
            );
            let secrets = cli_secrets(secret_flags(cmd.secret_env, cmd.secret_file));
            &&& cmd.command.len() > 0 ==> request.cmd == cmd.command
            &&& cmd.workdir is Some ==> request.workdir == cmd.workdir
            &&& cmd.gpu ==> request.gpu
            &&& request.gpu_vram_mib == cmd.gpu_vram_mib
            &&& progress.hosts is Some && egress is Ok && secrets is Ok
            &&& egress->Ok_0.net ==> request.net
            &&& egress->Ok_0.cidrs.len() > 0 ==> request.allowed_cidrs == Some(egress->Ok_0.cidrs)
            &&& request.dns_filter_hosts == egress->Ok_0.dns_filter_hosts
            &&& entry_at(secrets->Ok_0, key) is Some ==> entry_at(request.secret_refs, key)
                == entry_at(secrets->Ok_0, key)
        }),
{
    let manifest = progress.manifest->0->Ok_0.0;
    let flags = secret_flags(cmd.secret_env, cmd.secret_file);
    if flags.len() > 0 {
        law_cli_secrets_are_kept(flags, 0);
    }
    law_merged_entries(manifest.secret_refs, cli_secrets(flags)->Ok_0, key);
}

/// Law: the name of every host that the command line allows is kept with the new
/// machine, behind those of a file of settings.
pub proof fn law_allowed_hosts_are_kept(
    cmd: CreateCmdView,
    progress: CreateCmdProgressView,
    defaults: ResourceDefaultsView,
)
    requires
        create_cmd_step(cmd, progress, defaults) is Create,
        progress.hosts is Some,
        progress.hosts->0.len() > 0,
    ensures
        ({
            let kept = create_cmd_step(cmd, progress, defaults)->Create_0.dns_filter_hosts;
            kept is Some && host_names(progress.hosts->0).is_suffix_of(kept->0)
        }),
{
    let names = host_names(progress.hosts->0);
    let kept = create_cmd_step(cmd, progress, defaults)->Create_0.dns_filter_hosts->0;
    assert(kept.subrange(kept.len() - names.len(), kept.len() as int) =~= names);
}

/// Law: the request for a new machine holds every one of its settings, with the mounts that were
/// read; where they could not be read there is no request.
pub proof fn law_request_holds_the_settings(
    params: CreateVmParamsView,
    mounts: Result<Seq<HostMountView>, ErrorView>,
)
    ensures
        mounts is Err ==> request_of_params(params, mounts) is Err && request_of_params(
            params,
            mounts,
        )->Err_0 == mounts->Err_0,
        mounts is Ok ==> request_of_params(params, mounts) is Ok,
        request_of_params(params, mounts) matches Ok(request) ==> {
            &&& request.name == params.name && request.mounts == mounts->Ok_0
            &&& request.image == params.image && request.entrypoint == params.entrypoint
                && request.cmd == params.cmd && request.init == params.init && request.env
                == params.env && request.workdir == params.workdir
            &&& request.cpus == params.cpus && request.memory_mib == params.mem
                && request.storage_gb == params.storage_gb && request.overlay_gb
                == params.overlay_gb
            &&& request.ports == params.port && request.net == params.net
                && request.network_backend == params.network_backend && request.allowed_cidrs
                == params.allowed_cidrs && request.dns_filter_hosts == params.dns_filter_hosts
            &&& request.restart_policy == params.restart_policy && request.restart_max_retries
                == params.restart_max_retries && request.restart_max_backoff_secs
                == params.restart_max_backoff_secs
            &&& request.health_cmd == params.health_cmd && request.health_interval_secs
                == params.health_interval_secs && request.health_timeout_secs
                == params.health_timeout_secs && request.health_retries == params.health_retries
                && request.health_startup_grace_secs == params.health_startup_grace_secs
            &&& request.ssh_agent == params.ssh_agent && request.gpu == params.gpu
                && request.gpu_vram_mib == params.gpu_vram_mib && request.source_smolmachine
                == params.source_smolmachine && request.secret_refs == params.secret_refs
        },
{
}

/// Law: a machine that is created from flags is the one that its settings describe, but for what
/// the flags themselves turn on: the SSH agent, the graphics processor and its memory. The
/// settings are asked for with every flag.
pub proof fn law_create_from_flags(
    cmd: CreateCmdView,
    progress: CreateCmdProgressView,
    defaults: ResourceDefaultsView,
)
    requires
        cmd.from is None,
    ensures
        create_cmd_step(cmd, progress, defaults) matches CreateCmdStepView::ResolveHosts(hosts)
            ==> hosts == cmd.allow_host && progress.hosts is None,
        create_cmd_step(cmd, progress, defaults) matches CreateCmdStepView::BuildParams(asked) ==> {
            &&& progress.params is None
            &&& cmd.name is Some ==> asked.name == cmd.name->0
            &&& cmd.name is None ==> asked.name == progress.generated
            &&& asked.image == cmd.image && asked.entrypoint is None && asked.command
                == cmd.command
            &&& asked.cpus == cmd.cpus && asked.mem == cmd.mem && asked.storage == cmd.storage
                && asked.overlay == cmd.overlay
            &&& asked.volume == cmd.volume && asked.port == cmd.port && asked.network_backend
                == cmd.net_backend
            &&& asked.init == cmd.init && asked.env == cmd.env && asked.workdir == cmd.workdir
                && asked.smolfile == cmd.smolfile
            &&& cmd.net ==> asked.net
            &&& asked.allow_cidrs.len() >= cmd.allow_cidr.len() && forall|i: int|
                0 <= i < cmd.allow_cidr.len() ==> #[trigger] asked.allow_cidrs[i]
                    == cmd.allow_cidr[i]
            &&& cmd.allow_cidr.len() > 0 || cmd.outbound_localhost_only ==> asked.net
        },
        create_cmd_step(cmd, progress, defaults) matches CreateCmdStepView::Create(request) ==> {
            let params = progress.params->0->Ok_0;
            &&& progress.params is Some && progress.params->0 is Ok && progress.mounts is Some
                && progress.mounts->0 is Ok && progress.created is None
            &&& request.name == params.name && request.image == params.image && request.entrypoint
                == params.entrypoint && request.cmd == params.cmd && request.env == params.env
                && request.init == params.init && request.workdir == params.workdir
            &&& request.mounts == progress.mounts->0->Ok_0 && request.ports == params.port
                && request.net == params.net && request.allowed_cidrs == params.allowed_cidrs
            &&& request.cpus == params.cpus && request.memory_mib == params.mem
                && request.storage_gb == params.storage_gb && request.overlay_gb
                == params.overlay_gb
            &&& request.ssh_agent <==> cmd.ssh_agent || params.ssh_agent
            &&& request.gpu <==> cmd.gpu || params.gpu
            &&& cmd.gpu_vram_mib is Some ==> request.gpu_vram_mib == cmd.gpu_vram_mib
            &&& cmd.gpu_vram_mib is None ==> request.gpu_vram_mib == params.gpu_vram_mib
        },
{
}

/// Law: a machine from a packed one keeps what the packed one says where the command line says
/// nothing: its image, entrypoint, command, directory and network. The variables of the command
/// line come after its own, and processors and memory of the command line count where they
/// differ from the defaults. It names the packed machine that it comes from.
pub proof fn law_create_from_a_packed_machine(
    cmd: CreateCmdView,
    progress: CreateCmdProgressView,
    defaults: ResourceDefaultsView,
    path: Seq<char>,
)
    requires
        cmd.from == Some(path),
    ensures
        create_cmd_step(cmd, progress, defaults) matches CreateCmdStepView::Look(asked) ==> asked
            == path && progress.sidecar_exists is None,
        create_cmd_step(cmd, progress, defaults) matches CreateCmdStepView::ReadManifest(asked)
            ==> asked == path && progress.sidecar_exists == Some(true) && progress.manifest is None,
        create_cmd_step(cmd, progress, defaults) matches CreateCmdStepView::Create(request) ==> {
            let manifest = (progress.manifest->0->Ok_0).0;
            &&& progress.manifest is Some && progress.manifest->0 is Ok && progress.mounts is Some
                && progress.mounts->0 is Ok && progress.created is None
            &&& cmd.name is Some ==> request.name == cmd.name->0
            &&& cmd.name is None ==> request.name == progress.generated
            &&& request.image == Some(manifest.image) && request.entrypoint == manifest.entrypoint
            &&& cmd.command.len() == 0 ==> request.cmd == manifest.cmd
            &&& cmd.workdir is None ==> request.workdir == manifest.workdir
            &&& request.env == manifest.env + cmd.env && request.init == cmd.init
            &&& cmd.cpus != defaults.cpus ==> request.cpus == cmd.cpus
            &&& cmd.cpus == defaults.cpus ==> request.cpus == manifest.cpus
            &&& cmd.mem != defaults.memory_mib ==> request.memory_mib == cmd.mem
            &&& cmd.mem == defaults.memory_mib ==> request.memory_mib == manifest.mem
            &&& manifest.network || cmd.net ==> request.net
            &&& request.gpu <==> cmd.gpu || manifest.gpu
            &&& request.mounts == progress.mounts->0->Ok_0 && request.ports == cmd.port
                && request.storage_gb == cmd.storage && request.overlay_gb == cmd.overlay
                && request.ssh_agent == cmd.ssh_agent && request.network_backend == cmd.net_backend
            &&& request.source_smolmachine == Some((progress.manifest->0->Ok_0).1)
        },
{
}

/// Law: creating a machine from the command line tests exactly the resources, hosts and ports that
/// the machine would have, reads its mounts, and ends well only after it was created, with the
/// lines that name it.
pub proof fn law_create_command_ends_well(
    cmd: CreateCmdView,
    progress: CreateCmdProgressView,
    defaults: ResourceDefaultsView,
)
    ensures
        create_cmd_step(cmd, progress, defaults) matches CreateCmdStepView::Check(check) ==> {
            let params = progress.params->0->Ok_0;
            &&& cmd.from is None && progress.params is Some && progress.params->0 is Ok
                && progress.inputs is None
            &&& check.ports == params.port && check.resources.cpus == params.cpus
                && check.resources.memory_mib == params.mem && check.resources.network
                == params.net && check.resources.network_backend == params.network_backend
                && check.resources.gpu == params.gpu && check.resources.gpu_vram_mib
                == params.gpu_vram_mib && check.resources.storage_gib == params.storage_gb
                && check.resources.overlay_gib == params.overlay_gb
                && check.resources.allowed_cidrs == params.allowed_cidrs
        },
        create_cmd_step(cmd, progress, defaults) matches CreateCmdStepView::Done(Ok(lines))
            ==> progress.created is Some && progress.created->0 is Ok && lines.len() >= 4 && (
        "Created machine: "@).is_prefix_of(lines[0]),
        create_cmd_step(cmd, progress, defaults) is ParseMounts ==> progress.mounts is None,
{
    let start = "Created machine: "@;
    if let CreateCmdStepView::Done(Ok(lines)) = create_cmd_step(cmd, progress, defaults) {
        assert(lines[0].subrange(0, start.len() as int) =~= start);
    }
}

/// Law: a machine that is created from flags has the secrets of its flags and of its settings, those of
/// the flags before others of the same name, and looks up the hosts of its settings and then those of
/// its flags.
pub proof fn law_create_heeds_secrets_and_hosts(
    cmd: CreateCmdView,
    progress: CreateCmdProgressView,
    defaults: ResourceDefaultsView,
    key: Seq<char>,
)
    requires
        cmd.from is None,
        create_cmd_step(cmd, progress, defaults) is Create,
        crate::secrets::in_key_order(progress.params->0->Ok_0.secret_refs),
    ensures
        ({
            let request = create_cmd_step(cmd, progress, defaults)->Create_0;
            let params = progress.params->0->Ok_0;
            let given = cli_secrets(secret_flags(cmd.secret_env, cmd.secret_file));
            let hosts = progress.hosts->0;
            &&& given is Ok && progress.hosts is Some
            &&& entry_at(given->Ok_0, key) is Some ==> entry_at(request.secret_refs, key)
                == entry_at(given->Ok_0, key)
            &&& entry_at(given->Ok_0, key) is None ==> entry_at(request.secret_refs, key)
                == entry_at(params.secret_refs, key)
            &&& hosts.len() == 0 ==> request.dns_filter_hosts == params.dns_filter_hosts
            &&& hosts.len() > 0 ==> request.dns_filter_hosts is Some
            &&& hosts.len() > 0 && params.dns_filter_hosts is None ==> forall|i: int|
                0 <= i < hosts.len() ==> request.dns_filter_hosts->0[i] == (#[trigger] hosts[i]).host
            &&& hosts.len() > 0 && params.dns_filter_hosts is Some ==> forall|i: int|
                0 <= i < hosts.len() ==> request.dns_filter_hosts->0[params.dns_filter_hosts->0.len()
                    + i] == (#[trigger] hosts[i]).host
        }),
{
    let params = progress.params->0->Ok_0;
    let flags = secret_flags(cmd.secret_env, cmd.secret_file);
    if flags.len() > 0 {
        crate::flags::law_cli_secrets_are_kept(flags, 0);
    }
    law_merged_entries(params.secret_refs, cli_secrets(flags)->Ok_0, key);
}

/// Law: what is shown of a new machine names it, tells its processors and memory, and counts its mounts,
/// ports and init commands where it has any.
pub proof fn law_new_machine_is_shown(params: CreateVmParamsView)
    ensures
        ({
            let lines = created_lines(params);
            let mounts = if params.volume.len() > 0 {
                1int
            } else {
                0int
            };
            let ports = if params.port.len() > 0 {
                1int
            } else {
                0int
            };
            let inits = if params.init.len() > 0 {
                1int
            } else {
                0int
            };
            &&& lines.len() == 4 + mounts + ports + inits
            &&& params.name.is_suffix_of(lines[0])
            &&& lines[1] == "  CPUs: "@ + decimal(params.cpus as nat) + ", Memory: "@ + decimal(
                params.mem as nat,
            ) + " MiB"@
            &&& params.volume.len() > 0 ==> lines[2] == "  Mounts: "@ + decimal(params.volume.len())
            &&& params.port.len() > 0 ==> lines[2 + mounts] == "  Ports: "@ + decimal(
                params.port.len(),
            )
            &&& params.init.len() > 0 ==> lines[2 + mounts + ports] == "  Init commands: "@
                + decimal(params.init.len())
        }),
{
    let line = "Created machine: "@ + params.name;
    assert(line.subrange(line.len() - params.name.len(), line.len() as int) =~= params.name);
}

} // verus!
