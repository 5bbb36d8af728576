//! Command line: running a command in a machine that is started for it.

use crate::commands::{
    CreateVmParams, CreateVmParamsView, ParamsRequest, ParamsRequestView, RunCmd, RunCmdView,
};
use crate::error::{Error, ErrorView};
use crate::flags::{
    cli_secrets, egress_of, is_likely_image_ref, law_cli_secrets_are_kept, looks_like_image,
    parse_cli_secret_refs, ranges_of,
    resolve_egress_flags, secret_flags, Egress, EgressView, ResolvedHost, ResolvedHostView,
};
use crate::model::{dup_first_some, empty_list, extend_from, first_some, one_of, push_to, Model};
use crate::requests::{
    MachineRun, MachineRunPullProgress, MachineRunPullProgressView, MachineRunResult,
    MachineRunResultView, MachineRunView,
};
use crate::secrets::{
    entry_at, in_key_order, law_merged_entries, merged_entries, ResolutionScope, SecretMap,
    SecretMapView,
};
use crate::text::{cat2, cat3, cat4, cat7, decimal, join, joined, number, own, same_text};
use crate::types::{
    HostMount, HostMountView, NetworkBackend, NetworkBackendView, PortMapping, ResourceDefaults,
    ResourceDefaultsView, TimeSpan, VmResources, VmResourcesView,
};
use vstd::prelude::*;

verus! {

/// Runs a packed machine.
#[derive(Debug, PartialEq, Eq)]
pub struct PackRun {
    pub sidecar: Option<String>,
    pub command: Vec<String>,
    pub interactive: bool,
    pub tty: bool,
    pub timeout: Option<TimeSpan>,
    pub workdir: Option<String>,
    pub env: Vec<String>,
    pub volume: Vec<String>,
    pub port: Vec<PortMapping>,
    pub net: bool,
    pub net_backend: Option<NetworkBackend>,
    pub cpus: Option<u8>,
    pub mem: Option<u32>,
    pub storage: Option<u64>,
    pub overlay: Option<u64>,
    pub force_extract: bool,
    pub info: bool,
    pub debug: bool,
}

/// Mathematical model of a [`PackRun`].
pub struct PackRunView {
    pub sidecar: Option<Seq<char>>,
    pub command: Seq<Seq<char>>,
    pub interactive: bool,
    pub tty: bool,
    pub timeout: Option<TimeSpan>,
    pub workdir: Option<Seq<char>>,
    pub env: Seq<Seq<char>>,
    pub volume: Seq<Seq<char>>,
    pub port: Seq<PortMapping>,
    pub net: bool,
    pub net_backend: Option<NetworkBackendView>,
    pub cpus: Option<u8>,
    pub mem: Option<u32>,
    pub storage: Option<u64>,
    pub overlay: Option<u64>,
    pub force_extract: bool,
    pub info: bool,
    pub debug: bool,
}

impl Model for PackRun {
    type V = PackRunView;

    open spec fn model(&self) -> PackRunView {
        PackRunView {
            sidecar: self.sidecar.model(),
            command: self.command.model(),
            interactive: self.interactive.model(),
            tty: self.tty.model(),
            timeout: self.timeout.model(),
            workdir: self.workdir.model(),
            env: self.env.model(),
            volume: self.volume.model(),
            port: self.port.model(),
            net: self.net.model(),
            net_backend: self.net_backend.model(),
            cpus: self.cpus.model(),
            mem: self.mem.model(),
            storage: self.storage.model(),
            overlay: self.overlay.model(),
            force_extract: self.force_extract.model(),
            info: self.info.model(),
            debug: self.debug.model(),
        }
    }

    fn dup(&self) -> (copy: Self) {
        PackRun {
            sidecar: self.sidecar.dup(),
            command: self.command.dup(),
            interactive: self.interactive.dup(),
            tty: self.tty.dup(),
            timeout: self.timeout.dup(),
            workdir: self.workdir.dup(),
            env: self.env.dup(),
            volume: self.volume.dup(),
            port: self.port.dup(),
            net: self.net.dup(),
            net_backend: self.net_backend.dup(),
            cpus: self.cpus.dup(),
            mem: self.mem.dup(),
            storage: self.storage.dup(),
            overlay: self.overlay.dup(),
            force_extract: self.force_extract.dup(),
            info: self.info.dup(),
            debug: self.debug.dup(),
        }
    }
}

/// How a packed machine is run: processors and memory are asked for only where
/// they differ from the defaults.
pub open spec fn pack_run_of(cmd: RunCmdView, defaults: ResourceDefaultsView) -> PackRunView {
    PackRunView {
        sidecar: cmd.from,
        command: cmd.command,
        interactive: cmd.interactive,
        tty: cmd.tty,
        timeout: cmd.timeout,
        workdir: cmd.workdir,
        env: cmd.env,
        volume: cmd.volume,
        port: cmd.port,
        net: cmd.net,
        net_backend: cmd.net_backend,
        cpus: if cmd.cpus != defaults.cpus {
            Some(cmd.cpus)
        } else {
            None
        },
        mem: if cmd.mem != defaults.memory_mib {
            Some(cmd.mem)
        } else {
            None
        },
        storage: cmd.storage,
        overlay: cmd.overlay,
        force_extract: false,
        info: false,
        debug: false,
    }
}

/// Makes the request to run a packed machine.
pub fn make_pack_run(cmd: &RunCmd, defaults: &ResourceDefaults) -> (run: PackRun)
    ensures
        run.model() == pack_run_of(cmd.model(), defaults.model()),
{
    PackRun {
        sidecar: cmd.from.dup(),
        command: cmd.command.dup(),
        interactive: cmd.interactive,
        tty: cmd.tty,
        timeout: cmd.timeout,
        workdir: cmd.workdir.dup(),
        env: cmd.env.dup(),
        volume: cmd.volume.dup(),
        port: cmd.port.dup(),
        net: cmd.net,
        net_backend: cmd.net_backend.dup(),
        cpus: if cmd.cpus != defaults.cpus {
            Some(cmd.cpus)
        } else {
            None
        },
        mem: if cmd.mem != defaults.memory_mib {
            Some(cmd.mem)
        } else {
            None
        },
        storage: cmd.storage,
        overlay: cmd.overlay,
        force_extract: false,
        info: false,
        debug: false,
    }
}

/// What is tested before a machine is started for a command.
#[derive(Debug, PartialEq, Eq)]
pub struct RunCheck {
    pub volume: Vec<String>,
    pub docker_config: bool,
    pub ports: Vec<PortMapping>,
    pub resources: VmResources,
    pub dns_filter_hosts: Option<Vec<String>>,
    pub env: Vec<String>,
}

/// Mathematical model of a [`RunCheck`].
pub struct RunCheckView {
    pub volume: Seq<Seq<char>>,
    pub docker_config: bool,
    pub ports: Seq<PortMapping>,
    pub resources: VmResourcesView,
    pub dns_filter_hosts: Option<Seq<Seq<char>>>,
    pub env: Seq<Seq<char>>,
}

impl Model for RunCheck {
    type V = RunCheckView;

    open spec fn model(&self) -> RunCheckView {
        RunCheckView {
            volume: self.volume.model(),
            docker_config: self.docker_config.model(),
            ports: self.ports.model(),
            resources: self.resources.model(),
            dns_filter_hosts: self.dns_filter_hosts.model(),
            env: self.env.model(),
        }
    }

    fn dup(&self) -> (copy: Self) {
        RunCheck {
            volume: self.volume.dup(),
            docker_config: self.docker_config.dup(),
            ports: self.ports.dup(),
            resources: self.resources.dup(),
            dns_filter_hosts: self.dns_filter_hosts.dup(),
            env: self.env.dup(),
        }
    }
}

/// What the tests gave.
#[derive(Debug, PartialEq, Eq)]
pub struct RunInputs {
    pub mounts: Result<Vec<HostMount>, Error>,
    /// The mount of the host's registry settings.
    pub docker: Option<HostMount>,
    pub ports: Result<(), String>,
    pub resources: Result<(), Error>,
    pub network: Result<(), Error>,
    pub env: Vec<(String, String)>,
}

/// Mathematical model of a [`RunInputs`].
pub struct RunInputsView {
    pub mounts: Result<Seq<HostMountView>, ErrorView>,
    pub docker: Option<HostMountView>,
    pub ports: Result<(), Seq<char>>,
    pub resources: Result<(), ErrorView>,
    pub network: Result<(), ErrorView>,
    pub env: Seq<(Seq<char>, Seq<char>)>,
}

impl Model for RunInputs {
    type V = RunInputsView;

    open spec fn model(&self) -> RunInputsView {
        RunInputsView {
            mounts: self.mounts.model(),
            docker: self.docker.model(),
            ports: self.ports.model(),
            resources: self.resources.model(),
            network: self.network.model(),
            env: self.env.model(),
        }
    }

    fn dup(&self) -> (copy: Self) {
        RunInputs {
            mounts: self.mounts.dup(),
            docker: self.docker.dup(),
            ports: self.ports.dup(),
            resources: self.resources.dup(),
            network: self.network.dup(),
            env: self.env.dup(),
        }
    }
}

/// What is known while a command is prepared.
#[derive(Debug, PartialEq, Eq)]
pub struct RunProgress {
    /// A name for a machine that has none.
    pub generated: String,
    /// Whether a machine of the wanted name exists.
    pub existing: Option<Result<bool, Error>>,
    /// The allowed hosts and their addresses.
    pub hosts: Option<Vec<ResolvedHost>>,
    /// The settings of the machine.
    pub params: Option<Result<CreateVmParams, Error>>,
    /// What the tests gave.
    pub inputs: Option<RunInputs>,
}

/// Mathematical model of a [`RunProgress`].
pub struct RunProgressView {
    pub generated: Seq<char>,
    pub existing: Option<Result<bool, ErrorView>>,
    pub hosts: Option<Seq<ResolvedHostView>>,
    pub params: Option<Result<CreateVmParamsView, ErrorView>>,
    pub inputs: Option<RunInputsView>,
}

impl Model for RunProgress {
    type V = RunProgressView;

    open spec fn model(&self) -> RunProgressView {
        RunProgressView {
            generated: self.generated.model(),
            existing: self.existing.model(),
            hosts: self.hosts.model(),
            params: self.params.model(),
            inputs: self.inputs.model(),
        }
    }

    fn dup(&self) -> (copy: Self) {
        RunProgress {
            generated: self.generated.dup(),
            existing: self.existing.dup(),
            hosts: self.hosts.dup(),
            params: self.params.dup(),
            inputs: self.inputs.dup(),
        }
    }
}

/// What is done next to run a command.
#[derive(Debug, PartialEq, Eq)]
pub enum RunStep {
    /// Run a packed machine.
    Pack(PackRun),
    /// See whether a machine of this name exists.
    LookUp(String),
    /// Find the addresses of these hosts.
    ResolveHosts(Vec<String>),
    /// Make the settings of the machine.
    BuildParams(ParamsRequest),
    /// Make the tests.
    Check(RunCheck),
    /// Show the notices and fail.
    Fail { notices: Vec<String>, error: Error },
    /// Show the notices and run.
    Run { notices: Vec<String>, request: MachineRun },
}

/// Mathematical model of a [`RunStep`].
pub enum RunStepView {
    Pack(PackRunView),
    LookUp(Seq<char>),
    ResolveHosts(Seq<Seq<char>>),
    BuildParams(ParamsRequestView),
    Check(RunCheckView),
    Fail { notices: Seq<Seq<char>>, error: ErrorView },
    Run { notices: Seq<Seq<char>>, request: MachineRunView },
}

impl Model for RunStep {
    type V = RunStepView;

    open spec fn model(&self) -> RunStepView {
        match self {
            RunStep::Pack(value) => RunStepView::Pack(value.model()),
            RunStep::LookUp(value) => RunStepView::LookUp(value.model()),
            RunStep::ResolveHosts(value) => RunStepView::ResolveHosts(value.model()),
            RunStep::BuildParams(value) => RunStepView::BuildParams(value.model()),
            RunStep::Check(value) => RunStepView::Check(value.model()),
            RunStep::Fail { notices, error } => RunStepView::Fail { notices: notices.model(), error: error.model() },
            RunStep::Run { notices, request } => RunStepView::Run { notices: notices.model(), request: request.model() },
        }
    }

    fn dup(&self) -> (copy: Self) {
        match self {
            RunStep::Pack(value) => RunStep::Pack(value.dup()),
            RunStep::LookUp(value) => RunStep::LookUp(value.dup()),
            RunStep::ResolveHosts(value) => RunStep::ResolveHosts(value.dup()),
            RunStep::BuildParams(value) => RunStep::BuildParams(value.dup()),
            RunStep::Check(value) => RunStep::Check(value.dup()),
            RunStep::Fail { notices, error } => RunStep::Fail { notices: notices.dup(), error: error.dup() },
            RunStep::Run { notices, request } => RunStep::Run { notices: notices.dup(), request: request.dup() },
        }
    }
}

/// The name of the machine.
pub open spec fn run_name(cmd: RunCmdView, generated: Seq<char>) -> Seq<char> {
    if cmd.detach {
        match cmd.name {
            Some(name) => name,
            None => "default"@,
        }
    } else {
        generated
    }
}

/// Whether the machine must be new: it stays, and its name was chosen.
pub open spec fn claims_name(cmd: RunCmdView) -> bool {
    cmd.detach && cmd.name is Some && cmd.name->0 != "default"@
}

/// The error for a name that is taken.
pub open spec fn taken(name: Seq<char>) -> ErrorView {
    ErrorView::Config {
        operation: "machine run -d --name"@,
        reason: "a machine named '"@ + name + "' already exists. Use 'machine start --name "@ + name
            + "' to start it, or 'machine delete "@ + name + " -f' to remove it."@,
    }
}

/// The hosts of a file of settings and those of the command line.
pub open spec fn merged_hosts(
    first: Option<Seq<Seq<char>>>,
    second: Option<Seq<Seq<char>>>,
) -> Option<Seq<Seq<char>>> {
    match first {
        None => second,
        Some(first) => match second {
            None => Some(first),
            Some(second) => Some(first + second),
        },
    }
}

/// The settings of a machine with the hosts and secrets of the command line.
pub open spec fn merged_params(
    params: CreateVmParamsView,
    hosts: Option<Seq<Seq<char>>>,
    secrets: SecretMapView,
) -> CreateVmParamsView {
    CreateVmParamsView {
        dns_filter_hosts: merged_hosts(params.dns_filter_hosts, hosts),
        secret_refs: merged_entries(params.secret_refs, secrets),
        ..params
    }
}

/// The settings asked for by the flags of a run.
pub open spec fn run_params_request(
    cmd: RunCmdView,
    generated: Seq<char>,
    egress: EgressView,
) -> ParamsRequestView {
    ParamsRequestView {
        name: run_name(cmd, generated),
        image: cmd.image,
        entrypoint: None,
        command: cmd.command,
        cpus: cmd.cpus,
        mem: cmd.mem,
        volume: cmd.volume,
        port: cmd.port,
        net: egress.net,
        network_backend: cmd.net_backend,
        init: Seq::empty(),
        env: cmd.env,
        workdir: cmd.workdir,
        smolfile: cmd.smolfile,
        storage: cmd.storage,
        overlay: cmd.overlay,
        allow_cidrs: egress.cidrs,
    }
}

/// The resources of the machine.
pub open spec fn run_resources(cmd: RunCmdView, params: CreateVmParamsView) -> VmResourcesView {
    VmResourcesView {
        cpus: params.cpus,
        memory_mib: params.mem,
        network: params.net,
        network_backend: params.network_backend,
        gpu: cmd.gpu || params.gpu,
        gpu_vram_mib: first_some(cmd.gpu_vram_mib, params.gpu_vram_mib),
        storage_gib: params.storage_gb,
        overlay_gib: params.overlay_gb,
        allowed_cidrs: params.allowed_cidrs,
    }
}

/// Whether nothing says what to run.
pub open spec fn lacks_command(cmd: RunCmdView, params: CreateVmParamsView) -> bool {
    !cmd.interactive && !cmd.tty && !cmd.detach && cmd.command.len() == 0
        && params.entrypoint.len() == 0 && params.cmd.len() == 0
}

/// The error where nothing says what to run.
pub open spec fn no_command() -> ErrorView {
    ErrorView::Config {
        operation: "machine run"@,
        reason:
            "no command specified.\nUse: smolvm machine run -- <command>\nOr:  smolvm machine run -it"@,
    }
}

/// Whether the first word of the command was likely meant as an image.
pub open spec fn meant_image(cmd: RunCmdView, params: CreateVmParamsView) -> bool {
    cmd.image is None && params.image is None && cmd.command.len() > 0 && looks_like_image(
        cmd.command[0],
    )
}

/// The words after the first, but for the separators.
pub open spec fn words_after(command: Seq<Seq<char>>) -> Seq<Seq<char>> {
    command.skip(1).filter(|word: Seq<char>| word != "--"@)
}

/// The command line that was likely meant.
pub open spec fn suggestion(command: Seq<Seq<char>>) -> Seq<char> {
    if words_after(command).len() == 0 {
        "smolvm machine run --image "@ + command[0]
    } else {
        "smolvm machine run --image "@ + command[0] + " -- "@ + joined(words_after(command), " "@)
    }
}

/// The error where the first word of the command was likely meant as an image.
pub open spec fn image_as_command(command: Seq<Seq<char>>) -> ErrorView {
    ErrorView::Config {
        operation: "machine run"@,
        reason: "'"@ + command[0]
            + "' looks like a container image reference, not a command.\nTo run a container, use --image:\n  "@
            + suggestion(command),
    }
}

/// What is said of flags that have no effect.
pub open spec fn ignored_flags(cmd: RunCmdView) -> Seq<Seq<char>> {
    if cmd.detach && (cmd.interactive || cmd.tty) {
        seq!["warning: -i/-t flags are ignored in detached mode (-d)"@]
    } else if !cmd.detach && cmd.name is Some {
        seq!["warning: --name is ignored in foreground mode (without -d)"@]
    } else {
        Seq::empty()
    }
}

/// What is said when the machine is started.
pub open spec fn starting_notice(cmd: RunCmdView, generated: Seq<char>) -> Seq<char> {
    if cmd.detach {
        "Starting persistent machine..."@
    } else {
        "Starting ephemeral machine ("@ + run_name(cmd, generated) + ")..."@
    }
}

/// The mounts of the machine.
pub open spec fn run_mounts(cmd: RunCmdView, inputs: RunInputsView) -> Seq<HostMountView> {
    if cmd.docker_config && inputs.docker is Some {
        inputs.mounts->Ok_0.push(inputs.docker->0)
    } else {
        inputs.mounts->Ok_0
    }
}

/// The service request of a run.
pub open spec fn run_request(
    cmd: RunCmdView,
    generated: Seq<char>,
    params: CreateVmParamsView,
    inputs: RunInputsView,
) -> MachineRunView {
    MachineRunView {
        name: run_name(cmd, generated),
        detached: cmd.detach,
        allow_existing_record: cmd.detach && !claims_name(cmd),
        image: first_some(cmd.image, params.image),
        command: cmd.command,
        entrypoint: params.entrypoint,
        cmd: params.cmd,
        env: inputs.env,
        secret_refs: params.secret_refs,
        secret_scope: ResolutionScope::TrustedLocal,
        workdir: params.workdir,
        user: None,
        mounts: run_mounts(cmd, inputs),
        ports: params.port,
        resources: run_resources(cmd, params),
        init: params.init,
        ssh_agent: cmd.ssh_agent || params.ssh_agent,
        dns_filter_hosts: params.dns_filter_hosts,
        oci_platform: cmd.oci_platform,
        proxy: cmd.proxy_opts.proxy,
        no_proxy: cmd.proxy_opts.no_proxy,
        timeout: cmd.timeout,
        interactive: cmd.interactive,
        tty: cmd.tty,
        kill_on_sigint: true,
    }
}

/// What is done once the tests were made.
pub open spec fn run_decision(
    cmd: RunCmdView,
    generated: Seq<char>,
    params: CreateVmParamsView,
    inputs: RunInputsView,
) -> RunStepView {
    let notices = ignored_flags(cmd);
    if inputs.mounts is Err {
        RunStepView::Fail { notices: Seq::empty(), error: inputs.mounts->Err_0 }
    } else if inputs.ports is Err {
        RunStepView::Fail {
            notices: Seq::empty(),
            error: ErrorView::Config {
                operation: "validate ports"@,
                reason: inputs.ports->Err_0,
            },
        }
    } else if lacks_command(cmd, params) {
        RunStepView::Fail { notices, error: no_command() }
    } else if meant_image(cmd, params) {
        RunStepView::Fail { notices, error: image_as_command(cmd.command) }
    } else if inputs.resources is Err {
        RunStepView::Fail { notices, error: inputs.resources->Err_0 }
    } else if inputs.network is Err {
        RunStepView::Fail { notices, error: inputs.network->Err_0 }
    } else {
        RunStepView::Run {
            notices: notices.push(starting_notice(cmd, generated)),
            request: run_request(cmd, generated, params, inputs),
        }
    }
}

/// The tests that are made.
pub open spec fn run_check(cmd: RunCmdView, params: CreateVmParamsView) -> RunCheckView {
    RunCheckView {
        volume: params.volume,
        docker_config: cmd.docker_config,
        ports: params.port,
        resources: run_resources(cmd, params),
        dns_filter_hosts: params.dns_filter_hosts,
        env: params.env,
    }
}

/// The step that ends a run with an error.
pub open spec fn run_failed(error: ErrorView) -> RunStepView {
    RunStepView::Fail { notices: Seq::empty(), error }
}

/// What is done once the outbound rules are known.
pub open spec fn run_params_step(
    cmd: RunCmdView,
    progress: RunProgressView,
    egress: EgressView,
) -> RunStepView {
    match progress.params {
        None => RunStepView::BuildParams(run_params_request(cmd, progress.generated, egress)),
        Some(Err(error)) => run_failed(error),
        Some(Ok(params)) => match cli_secrets(secret_flags(cmd.secret_env, cmd.secret_file)) {
            Err(error) => run_failed(error),
            Ok(secrets) => {
                let params = merged_params(params, egress.dns_filter_hosts, secrets);
                match progress.inputs {
                    None => RunStepView::Check(run_check(cmd, params)),
                    Some(inputs) => run_decision(cmd, progress.generated, params, inputs),
                }
            },
        },
    }
}

/// What is done next to run a command.
pub open spec fn run_step(
    cmd: RunCmdView,
    progress: RunProgressView,
    defaults: ResourceDefaultsView,
) -> RunStepView {
    if cmd.from is Some {
        RunStepView::Pack(pack_run_of(cmd, defaults))
    } else if claims_name(cmd) && progress.existing is None {
        RunStepView::LookUp(run_name(cmd, progress.generated))
    } else if claims_name(cmd) && progress.existing->0 is Err {
        run_failed(progress.existing->0->Err_0)
    } else if claims_name(cmd) && progress.existing->0->Ok_0 {
        run_failed(taken(run_name(cmd, progress.generated)))
    } else {
        match progress.hosts {
            None => RunStepView::ResolveHosts(cmd.allow_host),
            Some(hosts) => match egress_of(
                cmd.allow_cidr,
                hosts,
                cmd.outbound_localhost_only,
                cmd.net,
            ) {
                Err(error) => run_failed(error),
                Ok(egress) => run_params_step(cmd, progress, egress),
            },
        }
    }
}

fn name_of_run(cmd: &RunCmd, generated: &str) -> (name: String)
    ensures
        name@ == run_name(cmd.model(), generated@),
{
    if cmd.detach {
        match &cmd.name {
            Some(name) => name.dup(),
            None => own("default"),
        }
    } else {
        own(generated)
    }
}

fn is_claimed(cmd: &RunCmd) -> (claimed: bool)
    ensures
        claimed == claims_name(cmd.model()),
{
    match &cmd.name {
        Some(name) => cmd.detach && !same_text(name.as_str(), "default"),
        None => false,
    }
}

fn fail_run(error: Error) -> (step: RunStep)
    ensures
        step.model() == run_failed(error.model()),
{
    RunStep::Fail { notices: empty_list(), error }
}

fn taken_error(name: &str) -> (error: Error)
    ensures
        error.model() == taken(name@),
{
    Error::config(
        "machine run -d --name",
        cat7(
            "a machine named '",
            name,
            "' already exists. Use 'machine start --name ",
            name,
            "' to start it, or 'machine delete ",
            name,
            " -f' to remove it.",
        ),
    )
}

/// Adds the hosts of the command line to those of a file of settings.
pub fn merge_hosts(first: &Option<Vec<String>>, second: &Option<Vec<String>>) -> (merged: Option<
    Vec<String>,
>)
    ensures
        merged.model() == merged_hosts(first.model(), second.model()),
{
    match first {
        None => second.dup(),
        Some(first) => match second {
            None => Some(first.dup()),
            Some(second) => {
                let mut all: Vec<String> = first.dup();
                extend_from(&mut all, second);
                Some(all)
            },
        },
    }
}

/// Adds the hosts and secrets of the command line to the settings of a machine.
pub fn merge_params(
    params: &CreateVmParams,
    hosts: &Option<Vec<String>>,
    secrets: &SecretMap,
) -> (merged: CreateVmParams)
    ensures
        merged.model() == merged_params(params.model(), hosts.model(), secrets.model()),
{
    let mut merged: CreateVmParams = params.dup();
    merged.dns_filter_hosts = merge_hosts(&params.dns_filter_hosts, hosts);
    let mut refs: SecretMap = params.secret_refs.dup();
    refs.extend(secrets);
    merged.secret_refs = refs;
    merged
}

fn ask_params(cmd: &RunCmd, generated: &str, egress: &Egress) -> (request: ParamsRequest)
    ensures
        request.model() == run_params_request(cmd.model(), generated@, egress.model()),
{
    ParamsRequest {
        name: name_of_run(cmd, generated),
        image: cmd.image.dup(),
        entrypoint: None,
        command: cmd.command.dup(),
        cpus: cmd.cpus,
        mem: cmd.mem,
        volume: cmd.volume.dup(),
        port: cmd.port.dup(),
        net: egress.net,
        network_backend: cmd.net_backend.dup(),
        init: empty_list(),
        env: cmd.env.dup(),
        workdir: cmd.workdir.dup(),
        smolfile: cmd.smolfile.dup(),
        storage: cmd.storage,
        overlay: cmd.overlay,
        allow_cidrs: egress.cidrs.dup(),
    }
}

fn resources_of_run(cmd: &RunCmd, params: &CreateVmParams) -> (resources: VmResources)
    ensures
        resources.model() == run_resources(cmd.model(), params.model()),
{
    VmResources {
        cpus: params.cpus,
        memory_mib: params.mem,
        network: params.net,
        network_backend: params.network_backend.dup(),
        gpu: cmd.gpu || params.gpu,
        gpu_vram_mib: dup_first_some(&cmd.gpu_vram_mib, &params.gpu_vram_mib),
        storage_gib: params.storage_gb,
        overlay_gib: params.overlay_gb,
        allowed_cidrs: params.allowed_cidrs.dup(),
    }
}

fn rest_of_words(command: &Vec<String>) -> (words: Vec<String>)
    requires
        command@.len() > 0,
    ensures
        words.model() == words_after(command.model()),
{
    let ghost rest = command.model().skip(1);
    let mut words: Vec<String> = empty_list();
    let mut i: usize = 1;
    assert(words.model() =~= rest.take(0).filter(|word: Seq<char>| word != "--"@)) by {
        reveal(Seq::filter);
    }
    while i < command.len()
        invariant
            1 <= i <= command.len(),
            rest == command.model().skip(1),
            words.model() == rest.take(i - 1).filter(|word: Seq<char>| word != "--"@),
        decreases command.len() - i,
    {
        assert(rest.take(i as int).drop_last() =~= rest.take(i - 1));
        assert(rest.take(i as int).last() == command[i as int]@);
        reveal(Seq::filter);
        if !same_text(command[i].as_str(), "--") {
            push_to(&mut words, command[i].dup());
        }
        i += 1;
    }
    assert(rest.take(rest.len() as int) =~= rest);
    words
}

fn image_error(command: &Vec<String>) -> (error: Error)
    requires
        command@.len() > 0,
    ensures
        error.model() == image_as_command(command.model()),
{
    let words: Vec<String> = rest_of_words(command);
    let first: &str = command[0].as_str();
    assert(first@ == command.model()[0]);
    let meant: String = if words.is_empty() {
        cat2("smolvm machine run --image ", first)
    } else {
        cat4("smolvm machine run --image ", first, " -- ", join(&words, " ").as_str())
    };
    Error::config(
        "machine run",
        cat4(
            "'",
            first,
            "' looks like a container image reference, not a command.\nTo run a container, use --image:\n  ",
            meant.as_str(),
        ),
    )
}

fn notices_of(cmd: &RunCmd) -> (notices: Vec<String>)
    ensures
        notices.model() == ignored_flags(cmd.model()),
{
    if cmd.detach && (cmd.interactive || cmd.tty) {
        one_of(own("warning: -i/-t flags are ignored in detached mode (-d)"))
    } else if !cmd.detach && cmd.name.is_some() {
        one_of(own("warning: --name is ignored in foreground mode (without -d)"))
    } else {
        empty_list()
    }
}

fn build_run(
    cmd: &RunCmd,
    generated: &str,
    params: &CreateVmParams,
    mounts: &Vec<HostMount>,
    inputs: &RunInputs,
) -> (request: MachineRun)
    requires
        inputs.mounts is Ok,
        mounts.model() == inputs.mounts->Ok_0.model(),
    ensures
        request.model() == run_request(cmd.model(), generated@, params.model(), inputs.model()),
{
    let mut all: Vec<HostMount> = mounts.dup();
    if cmd.docker_config {
        if let Some(docker) = &inputs.docker {
            push_to(&mut all, docker.dup());
        }
    }
    let mut request: MachineRun = MachineRun::new(
        name_of_run(cmd, generated),
        resources_of_run(cmd, params),
    );
    request.detached = cmd.detach;
    request.allow_existing_record = cmd.detach && !is_claimed(cmd);
    request.image = dup_first_some(&cmd.image, &params.image);
    request.command = cmd.command.dup();
    request.entrypoint = params.entrypoint.dup();
    request.cmd = params.cmd.dup();
    request.env = inputs.env.dup();
    request.secret_refs = params.secret_refs.dup();
    request.workdir = params.workdir.dup();
    request.mounts = all;
    request.ports = params.port.dup();
    request.init = params.init.dup();
    request.ssh_agent = cmd.ssh_agent || params.ssh_agent;
    request.dns_filter_hosts = params.dns_filter_hosts.dup();
    request.oci_platform = cmd.oci_platform.dup();
    request.proxy = cmd.proxy_opts.proxy.dup();
    request.no_proxy = cmd.proxy_opts.no_proxy.dup();
    request.timeout = cmd.timeout;
    request.interactive = cmd.interactive;
    request.tty = cmd.tty;
    request.kill_on_sigint = true;
    request
}

fn decide_run(cmd: &RunCmd, generated: &str, params: &CreateVmParams, inputs: &RunInputs) -> (step:
    RunStep)
    ensures
        step.model() == run_decision(cmd.model(), generated@, params.model(), inputs.model()),
{
    let mounts: &Vec<HostMount> = match &inputs.mounts {
        Err(error) => {
            return fail_run(error.dup());
        },
        Ok(mounts) => mounts,
    };
    if let Err(reason) = &inputs.ports {
        return fail_run(Error::config("validate ports", reason.dup()));
    }
    let mut notices: Vec<String> = notices_of(cmd);
    if !cmd.interactive && !cmd.tty && !cmd.detach && cmd.command.is_empty()
        && params.entrypoint.is_empty() && params.cmd.is_empty() {
        return RunStep::Fail {
            notices,
            error: Error::config(
                "machine run",
                own(
                    "no command specified.\nUse: smolvm machine run -- <command>\nOr:  smolvm machine run -it",
                ),
            ),
        };
    }
    if cmd.image.is_none() && params.image.is_none() && !cmd.command.is_empty() {
        assert(cmd.command[0]@ == cmd.command.model()[0]);
        if is_likely_image_ref(cmd.command[0].as_str()) {
            return RunStep::Fail { notices, error: image_error(&cmd.command) };
        }
    }
    if let Err(error) = &inputs.resources {
        return RunStep::Fail { notices, error: error.dup() };
    }
    if let Err(error) = &inputs.network {
        return RunStep::Fail { notices, error: error.dup() };
    }
    let starting: String = if cmd.detach {
        own("Starting persistent machine...")
    } else {
        cat3(
            "Starting ephemeral machine (",
            name_of_run(cmd, generated).as_str(),
            ")...",
        )
    };
    push_to(&mut notices, starting);
    RunStep::Run { notices, request: build_run(cmd, generated, params, mounts, inputs) }
}

fn next_params_step(cmd: &RunCmd, progress: &RunProgress, egress: &Egress) -> (step: RunStep)
    ensures
        step.model() == run_params_step(cmd.model(), progress.model(), egress.model()),
{
    let generated: &str = progress.generated.as_str();
    let params: &CreateVmParams = match &progress.params {
        None => {
            return RunStep::BuildParams(ask_params(cmd, generated, egress));
        },
        Some(Err(error)) => {
            return fail_run(error.dup());
        },
        Some(Ok(params)) => params,
    };
    let secrets: SecretMap = match parse_cli_secret_refs(&cmd.secret_env, &cmd.secret_file) {
        Err(error) => {
            return fail_run(error);
        },
        Ok(secrets) => secrets,
    };
    let params: CreateVmParams = merge_params(params, &egress.dns_filter_hosts, &secrets);
    match &progress.inputs {
        None => RunStep::Check(
            RunCheck {
                volume: params.volume.dup(),
                docker_config: cmd.docker_config,
                ports: params.port.dup(),
                resources: resources_of_run(cmd, &params),
                dns_filter_hosts: params.dns_filter_hosts.dup(),
                env: params.env.dup(),
            },
        ),
        Some(inputs) => decide_run(cmd, generated, &params, inputs),
    }
}

/// Decides what is done next to run a command.
pub fn next_run_step(cmd: &RunCmd, progress: &RunProgress, defaults: &ResourceDefaults) -> (step:
    RunStep)
    ensures
        step.model() == run_step(cmd.model(), progress.model(), defaults.model()),
{
    if cmd.from.is_some() {
        return RunStep::Pack(make_pack_run(cmd, defaults));
    }
    if is_claimed(cmd) {
        let name: String = name_of_run(cmd, progress.generated.as_str());
        match &progress.existing {
            None => {
                return RunStep::LookUp(name);
            },
            Some(Err(error)) => {
                return fail_run(error.dup());
            },
            Some(Ok(true)) => {
                return fail_run(taken_error(name.as_str()));
            },
            Some(Ok(false)) => {},
        }
    }
    let hosts: &Vec<ResolvedHost> = match &progress.hosts {
        None => {
            return RunStep::ResolveHosts(cmd.allow_host.dup());
        },
        Some(hosts) => hosts,
    };
    match resolve_egress_flags(&cmd.allow_cidr, hosts, cmd.outbound_localhost_only, cmd.net) {
        Err(error) => fail_run(error),
        Ok(egress) => next_params_step(cmd, progress, &egress),
    }
}

/// Law: a machine is started for a command only where something says what to
/// run and the first word is not likely an image, and a machine that stays under
/// a chosen name only where that name is free.
pub proof fn law_run_is_checked(
    cmd: RunCmdView,
    progress: RunProgressView,
    defaults: ResourceDefaultsView,
)
    requires
        run_step(cmd, progress, defaults) is Run,
    ensures
        claims_name(cmd) ==> progress.existing == Some(Ok::<bool, ErrorView>(false)),
        claims_name(cmd) <==> cmd.detach && !run_step(
            cmd,
            progress,
            defaults,
        )->request.allow_existing_record,
        progress.params is Some && progress.params->0 is Ok,
        !lacks_command(cmd, progress.params->0->Ok_0),
        !meant_image(cmd, progress.params->0->Ok_0),
        progress.inputs is Some && progress.inputs->0.mounts is Ok && progress.inputs->0.ports is Ok
            && progress.inputs->0.resources is Ok && progress.inputs->0.network is Ok,
{
}

/// What is shown before an image is pulled.
pub fn pull_prompt(image: &str) -> (prompt: String)
    ensures
        prompt@ == "Pulling image "@ + image@ + "..."@,
{
    cat3("Pulling image ", image, "...")
}

/// The bar that shows how much of an image was pulled.
pub open spec fn progress_bar(filled: nat) -> Seq<char> {
    Seq::new(
        20,
        |i: int|
            if i < filled {
                '='
            } else if i == filled {
                '>'
            } else {
                ' '
            },
    )
}

fn make_bar(filled: usize) -> (bar: String)
    ensures
        bar@ == progress_bar(filled as nat),
{
    let mut bar: String = String::new();
    let mut i: usize = 0;
    assert(bar@ =~= progress_bar(filled as nat).take(0));
    while i < 20
        invariant
            i <= 20,
            bar@ == progress_bar(filled as nat).take(i as int),
        decreases 20 - i,
    {
        let c: char = if i < filled {
            '='
        } else if i == filled {
            '>'
        } else {
            ' '
        };
        bar.push(c);
        assert(progress_bar(filled as nat).take(i + 1) =~= progress_bar(filled as nat).take(
            i as int,
        ).push(progress_bar(filled as nat)[i as int]));
        i += 1;
    }
    assert(progress_bar(filled as nat).take(20) =~= progress_bar(filled as nat));
    bar
}

/// What was shown of the progress of an image pull.
#[derive(Debug, PartialEq, Eq)]
pub struct PullRenderer {
    pub last_percent: u8,
    pub syncing: bool,
}

/// Mathematical model of a [`PullRenderer`].
pub struct PullRendererView {
    pub last_percent: u8,
    pub syncing: bool,
}

impl Model for PullRenderer {
    type V = PullRendererView;

    open spec fn model(&self) -> PullRendererView {
        PullRendererView {
            last_percent: self.last_percent.model(),
            syncing: self.syncing.model(),
        }
    }

    fn dup(&self) -> (copy: Self) {
        PullRenderer {
            last_percent: self.last_percent.dup(),
            syncing: self.syncing.dup(),
        }
    }
}

/// The part of a count that is shown as a percentage: its lower eight bits.
pub open spec fn percent_of(current: usize) -> u8 {
    (current % 256) as u8
}

/// What was shown of a pull after an event.
pub open spec fn renderer_after(
    renderer: PullRendererView,
    event: MachineRunPullProgressView,
) -> PullRendererView {
    if event.layer == "syncing"@ {
        PullRendererView { syncing: true, ..renderer }
    } else if percent_of(event.current) <= 100 {
        PullRendererView { last_percent: percent_of(event.current), ..renderer }
    } else {
        renderer
    }
}

/// What is shown for an event of a pull: nothing where nothing changed.
pub open spec fn rendered(
    renderer: PullRendererView,
    event: MachineRunPullProgressView,
) -> Option<Seq<char>> {
    let percent = percent_of(event.current);
    if event.layer == "syncing"@ {
        if renderer.syncing {
            None
        } else {
            Some(
                "\rPulling image "@ + event.image
                    + "... [====================] 100% — syncing..."@,
            )
        }
    } else if percent != renderer.last_percent && percent <= 100 {
        Some(
            "\rPulling image "@ + event.image + "... ["@ + progress_bar((percent / 5) as nat)
                + "] "@ + decimal(percent as nat) + "%"@,
        )
    } else {
        None
    }
}

impl PullRenderer {
    /// Nothing was shown yet.
    pub fn new() -> (renderer: PullRenderer)
        ensures
            renderer.model() == (PullRendererView { last_percent: 0, syncing: false }),
    {
        PullRenderer { last_percent: 0, syncing: false }
    }

    /// Tells what is shown for an event.
    pub fn pull_progress(&mut self, event: &MachineRunPullProgress) -> (shown: Option<String>)
        ensures
            final(self).model() == renderer_after(old(self).model(), event.model()),
            shown.model() == rendered(old(self).model(), event.model()),
    {
        if same_text(event.layer.as_str(), "syncing") {
            if self.syncing {
                return None;
            }
            self.syncing = true;
            return Some(
                cat3(
                    "\rPulling image ",
                    event.image.as_str(),
                    "... [====================] 100% — syncing...",
                ),
            );
        }
        let low: usize = event.current % 256;
        let percent: u8 = low as u8;
        if percent != self.last_percent && percent <= 100 {
            let bar: String = make_bar((percent / 5) as usize);
            self.last_percent = percent;
            return Some(
                cat7(
                    "\rPulling image ",
                    event.image.as_str(),
                    "... [",
                    bar.as_str(),
                    "] ",
                    number(percent as u64).as_str(),
                    "%",
                ),
            );
        }
        None
    }
}

/// What follows a run.
#[derive(Debug, PartialEq, Eq)]
pub enum RunOutcome {
    /// Show these lines.
    Print(Vec<String>),
    /// End with this code.
    Exit(i32),
}

/// Mathematical model of a [`RunOutcome`].
pub enum RunOutcomeView {
    Print(Seq<Seq<char>>),
    Exit(i32),
}

impl Model for RunOutcome {
    type V = RunOutcomeView;

    open spec fn model(&self) -> RunOutcomeView {
        match self {
            RunOutcome::Print(value) => RunOutcomeView::Print(value.model()),
            RunOutcome::Exit(value) => RunOutcomeView::Exit(value.model()),
        }
    }

    fn dup(&self) -> (copy: Self) {
        match self {
            RunOutcome::Print(value) => RunOutcome::Print(value.dup()),
            RunOutcome::Exit(value) => RunOutcome::Exit(value.dup()),
        }
    }
}

/// The lines that are shown for a machine that runs on.
pub open spec fn detached_lines(name: Seq<char>) -> Seq<Seq<char>> {
    if name == "default"@ {
        seq![
            "Machine running in background"@,
            "\nTo interact:"@,
            "  smolvm machine exec -- <command>"@,
            "\nTo stop:"@,
            "  smolvm machine stop"@,
        ]
    } else {
        seq![
            "Machine '"@ + name + "' running in background"@,
            "\nTo interact:"@,
            "  smolvm machine exec --name "@ + name + " -- <command>"@,
            "\nTo stop:"@,
            "  smolvm machine stop --name "@ + name,
        ]
    }
}

/// What follows a run with this result.
pub open spec fn outcome_of(result: MachineRunResultView) -> RunOutcomeView {
    match result {
        MachineRunResultView::Detached { name, .. } => RunOutcomeView::Print(detached_lines(name)),
        MachineRunResultView::Foreground { exit_code, .. } => RunOutcomeView::Exit(exit_code),
    }
}

/// Tells what follows a run.
pub fn run_outcome(result: &MachineRunResult) -> (outcome: RunOutcome)
    ensures
        outcome.model() == outcome_of(result.model()),
{
    match result {
        MachineRunResult::Foreground { exit_code, .. } => RunOutcome::Exit(*exit_code),
        MachineRunResult::Detached { name, .. } => {
            let mut lines: Vec<String> = empty_list();
            if same_text(name.as_str(), "default") {
                push_to(&mut lines, own("Machine running in background"));
                push_to(&mut lines, own("\nTo interact:"));
                push_to(&mut lines, own("  smolvm machine exec -- <command>"));
                push_to(&mut lines, own("\nTo stop:"));
                push_to(&mut lines, own("  smolvm machine stop"));
            } else {
                push_to(&mut lines, cat3("Machine '", name.as_str(), "' running in background"));
                push_to(&mut lines, own("\nTo interact:"));
                push_to(
                    &mut lines,
                    cat3("  smolvm machine exec --name ", name.as_str(), " -- <command>"),
                );
                push_to(&mut lines, own("\nTo stop:"));
                push_to(&mut lines, cat2("  smolvm machine stop --name ", name.as_str()));
            }
            assert(lines.model() =~= detached_lines(name@));
            RunOutcome::Print(lines)
        },
    }
}

/// Law: a run does what its command line says. It runs the command of the line, in the image of the
/// line or else of the settings, with the entrypoint, cmd, directory, ports, init commands and
/// secrets of the settings; with the terminal, time limit, platform and proxies of the line; with
/// the variables and mounts that were read; and it stays where that was asked for, under its name
/// or else as the default machine. One that does not stay has a name that was made for it.
pub proof fn law_run_request_holds_the_command_line(
    cmd: RunCmdView,
    progress: RunProgressView,
    defaults: ResourceDefaultsView,
)
    ensures
        run_step(cmd, progress, defaults) matches RunStepView::Run { notices, request } ==> {
            let params = progress.params->0->Ok_0;
            let inputs = progress.inputs->0;
            &&& request.command == cmd.command
            &&& cmd.image is Some ==> request.image == cmd.image
            &&& cmd.image is None ==> request.image == params.image
            &&& request.entrypoint == params.entrypoint && request.cmd == params.cmd
                && request.workdir == params.workdir && request.ports == params.port
                && request.init == params.init && request.user is None
            &&& request.env == inputs.env
            &&& request.detached == cmd.detach
            &&& cmd.detach && cmd.name is Some ==> request.name == cmd.name->0
            &&& cmd.detach && cmd.name is None ==> request.name == "default"@
            &&& !cmd.detach ==> request.name == progress.generated
            &&& request.allow_existing_record <==> cmd.detach && (cmd.name is None || cmd.name->0
                == "default"@)
            &&& request.interactive == cmd.interactive && request.tty == cmd.tty
                && request.timeout == cmd.timeout && request.oci_platform == cmd.oci_platform
                && request.proxy == cmd.proxy_opts.proxy && request.no_proxy
                == cmd.proxy_opts.no_proxy && request.kill_on_sigint
            &&& request.secret_scope == ResolutionScope::TrustedLocal
            &&& request.ssh_agent <==> cmd.ssh_agent || params.ssh_agent
            &&& inputs.mounts is Ok
            &&& !cmd.docker_config || inputs.docker is None ==> request.mounts == inputs.mounts->Ok_0
            &&& cmd.docker_config && inputs.docker is Some ==> request.mounts
                == inputs.mounts->Ok_0.push(inputs.docker->0)
            &&& request.resources.cpus == params.cpus && request.resources.memory_mib == params.mem
                && request.resources.network == params.net && request.resources.network_backend
                == params.network_backend && request.resources.storage_gib == params.storage_gb
                && request.resources.overlay_gib == params.overlay_gb
                && request.resources.allowed_cidrs == params.allowed_cidrs
            &&& request.resources.gpu <==> cmd.gpu || params.gpu
            &&& cmd.gpu_vram_mib is Some ==> request.resources.gpu_vram_mib == cmd.gpu_vram_mib
            &&& cmd.gpu_vram_mib is None ==> request.resources.gpu_vram_mib
                == params.gpu_vram_mib
            &&& notices.len() > 0
        },
{
}

/// Law: the secrets and hosts of the command line reach the run: what a secret flag gives a key goes
/// before what the settings give it, and the allowed hosts come after those of the settings.
pub proof fn law_run_heeds_secrets_and_hosts(
    cmd: RunCmdView,
    progress: RunProgressView,
    defaults: ResourceDefaultsView,
    key: Seq<char>,
)
    requires
        run_step(cmd, progress, defaults) is Run,
        in_key_order(progress.params->0->Ok_0.secret_refs),
    ensures
        ({
            let request = run_step(cmd, progress, defaults)->request;
            let params = progress.params->0->Ok_0;
            let given = cli_secrets(secret_flags(cmd.secret_env, cmd.secret_file));
            let hosts = progress.hosts->0;
            &&& given is Ok && progress.hosts is Some
            &&& entry_at(given->Ok_0, key) is Some ==> entry_at(request.secret_refs, key)
                == entry_at(given->Ok_0, key)
            &&& entry_at(given->Ok_0, key) is None ==> entry_at(request.secret_refs, key)
                == entry_at(params.secret_refs, key)
            &&& hosts.len() == 0 ==> request.dns_filter_hosts == params.dns_filter_hosts
            &&& hosts.len() > 0 ==> request.dns_filter_hosts is Some
            &&& hosts.len() > 0 && params.dns_filter_hosts is None ==> forall|i: int|
                0 <= i < hosts.len() ==> request.dns_filter_hosts->0[i] == (#[trigger] hosts[i]).host
            &&& hosts.len() > 0 && params.dns_filter_hosts is Some ==> forall|i: int|
                0 <= i < hosts.len() ==> request.dns_filter_hosts->0[params.dns_filter_hosts->0.len()
                    + i] == (#[trigger] hosts[i]).host
        }),
{
    let params = progress.params->0->Ok_0;
    let flags = secret_flags(cmd.secret_env, cmd.secret_file);
    if flags.len() > 0 {
        law_cli_secrets_are_kept(flags, 0);
    }
    law_merged_entries(params.secret_refs, cli_secrets(flags)->Ok_0, key);
}

/// Law: a run asks for everything once: whether a chosen name is taken, the addresses of the allowed
/// hosts, the settings with every flag of the line, and the tests of what would be run. A packed
/// machine is run as the line says.
pub proof fn law_run_asks_for_what_was_given(
    cmd: RunCmdView,
    progress: RunProgressView,
    defaults: ResourceDefaultsView,
)
    ensures
        ({
            let step = run_step(cmd, progress, defaults);
            &&& step is Pack <==> cmd.from is Some
            &&& step matches RunStepView::Pack(run) ==> run.sidecar == cmd.from && run.command
                == cmd.command && run.interactive == cmd.interactive && run.tty == cmd.tty
                && run.timeout == cmd.timeout && run.workdir == cmd.workdir && run.env == cmd.env
                && run.volume == cmd.volume && run.port == cmd.port && run.net == cmd.net
                && run.net_backend == cmd.net_backend && run.storage == cmd.storage && run.overlay
                == cmd.overlay && (cmd.cpus != defaults.cpus ==> run.cpus == Some(cmd.cpus)) && (
            cmd.cpus == defaults.cpus ==> run.cpus is None) && (cmd.mem != defaults.memory_mib
                ==> run.mem == Some(cmd.mem)) && (cmd.mem == defaults.memory_mib ==> run.mem
                is None)
            &&& step matches RunStepView::LookUp(name) ==> cmd.detach && cmd.name == Some(name)
                && progress.existing is None
            &&& step matches RunStepView::ResolveHosts(hosts) ==> hosts == cmd.allow_host
                && progress.hosts is None
            &&& step matches RunStepView::BuildParams(asked) ==> progress.params is None
                && asked.image == cmd.image && asked.command == cmd.command && asked.cpus
                == cmd.cpus && asked.mem == cmd.mem && asked.volume == cmd.volume && asked.port
                == cmd.port && asked.env == cmd.env && asked.workdir == cmd.workdir
                && asked.smolfile == cmd.smolfile && asked.storage == cmd.storage && asked.overlay
                == cmd.overlay && asked.network_backend == cmd.net_backend && (cmd.net
                ==> asked.net) && (cmd.detach && cmd.name is Some ==> asked.name == cmd.name->0)
                && (!cmd.detach ==> asked.name == progress.generated)
            &&& step matches RunStepView::Check(check) ==> {
                let params = progress.params->0->Ok_0;
                &&& progress.inputs is None && progress.params is Some && progress.params->0 is Ok
                &&& check.volume == params.volume && check.ports == params.port && check.env
                    == params.env && check.docker_config == cmd.docker_config
                    && check.resources.cpus == params.cpus && check.resources.memory_mib
                    == params.mem && check.resources.network == params.net
                    && check.resources.storage_gib == params.storage_gb
                    && check.resources.overlay_gib == params.overlay_gb
                    && check.resources.allowed_cidrs == params.allowed_cidrs
            }
        }),
{
}

/// Law: a run fails where a chosen name is taken, where nothing says what to run, where the first
/// word is an image rather than a program, or with an error that it was given.
pub proof fn law_failed_run_tells_why(
    cmd: RunCmdView,
    progress: RunProgressView,
    defaults: ResourceDefaultsView,
)
    ensures
        run_step(cmd, progress, defaults) matches RunStepView::Fail { error, .. } ==> {
            let params = progress.params->0->Ok_0;
            let inputs = progress.inputs->0;
            ||| progress.existing == Some(Err::<bool, ErrorView>(error))
            ||| progress.existing == Some(Ok::<bool, ErrorView>(true)) && cmd.detach && error
                is Config
            ||| progress.params == Some(Err::<CreateVmParamsView, ErrorView>(error))
            ||| cli_secrets(secret_flags(cmd.secret_env, cmd.secret_file)) == Err::<
                SecretMapView,
                ErrorView,
            >(error)
            ||| ranges_of(progress.hosts->0) is Err && error is Config
            ||| progress.inputs is Some && (inputs.mounts == Err::<Seq<HostMountView>, ErrorView>(
                error,
            ) || inputs.resources == Err::<(), ErrorView>(error) || inputs.network == Err::<
                (),
                ErrorView,
            >(error) || (inputs.ports is Err && error is Config))
            ||| error is Config && cmd.command.len() == 0 && !cmd.detach && !cmd.interactive
                && !cmd.tty && params.entrypoint.len() == 0 && params.cmd.len() == 0
            ||| error is Config && cmd.command.len() > 0 && cmd.image is None && params.image is None
                && looks_like_image(cmd.command[0])
        },
{
}

/// Law: a run ends with the exit code of its command; one that stays in the background tells how to
/// reach and stop the machine, by its name where it is not the default one.
pub proof fn law_run_ends_with_the_exit_code(result: MachineRunResultView)
    ensures
        result matches MachineRunResultView::Foreground { exit_code, .. } ==> outcome_of(result)
            == RunOutcomeView::Exit(exit_code),
        result matches MachineRunResultView::Detached { name, .. } ==> (
        outcome_of(result) matches RunOutcomeView::Print(lines) && lines.len() == 5 && (name
            == "default"@ ==> lines[4] == "  smolvm machine stop"@) && (name != "default"@
            ==> lines[4] == "  smolvm machine stop --name "@ + name && lines[2]
            == "  smolvm machine exec --name "@ + name + " -- <command>"@)),
{
}

/// Law: the bar of a pull has twenty places, one for each five percent: those that are done, the next
/// one and those that are left.
pub proof fn law_progress_bar_shows_the_percentage(percent: nat, i: int)
    requires
        0 <= i < 20,
    ensures
        progress_bar(percent / 5).len() == 20,
        5 * (i + 1) <= percent ==> progress_bar(percent / 5)[i] == '=',
        5 * i <= percent < 5 * (i + 1) ==> progress_bar(percent / 5)[i] == '>',
        percent < 5 * i ==> progress_bar(percent / 5)[i] == ' ',
{
}

/// Law: a percentage is shown when it changes, with its bar and its image, and not again; what is no
/// percentage is not shown, and that layers are put together is shown once.
pub proof fn law_pull_is_shown_as_it_changes(
    renderer: PullRendererView,
    event: MachineRunPullProgressView,
)
    requires
        event.current <= 255,
    ensures
        rendered(renderer_after(renderer, event), event) is None,
        event.layer == "syncing"@ ==> renderer_after(renderer, event).syncing && renderer_after(
            renderer,
            event,
        ).last_percent == renderer.last_percent && (rendered(renderer, event) is Some
            <==> !renderer.syncing),
        event.layer != "syncing"@ ==> renderer_after(renderer, event).syncing == renderer.syncing
            && (rendered(renderer, event) is Some <==> event.current <= 100 && event.current
            != renderer.last_percent),
        event.layer != "syncing"@ && event.current <= 100 ==> renderer_after(
            renderer,
            event,
        ).last_percent == event.current,
        event.layer != "syncing"@ && event.current > 100 ==> renderer_after(renderer, event)
            == renderer,
        rendered(renderer, event) matches Some(line) ==> crate::text::has_part(line, event.image),
        event.layer != "syncing"@ && rendered(renderer, event) is Some ==> crate::text::has_part(
            rendered(renderer, event)->0,
            progress_bar(event.current as nat / 5) + "] "@ + decimal(event.current as nat),
        ),
{
    if let Some(line) = rendered(renderer, event) {
        let at = ("\rPulling image "@).len() as int;
        assert(line.subrange(at, at + event.image.len()) =~= event.image);
        assert(crate::text::stands_at(line, event.image, at));
        if event.layer != "syncing"@ {
            let part = progress_bar(event.current as nat / 5) + "] "@ + decimal(
                event.current as nat,
            );
            let then = at + event.image.len() + ("... ["@).len();
            assert(line.subrange(then, then + part.len()) =~= part);
            assert(crate::text::stands_at(line, part, then));
        }
    }
}

} // verus!
