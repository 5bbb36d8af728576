//! Run sessions: a machine that is started for one command.

use crate::env::{
    check_secret_refs, environment_of_request, image_variables, law_overrides_win,
    law_secrets_are_checked_one_by_one, overridden, refs_checked, request_env,
    resolve_image_runtime_defaults, runtime_defaults, value_of, EnvView,
};
use crate::error::{Error, ErrorView};
use crate::lifecycle::{
    find_init_fault, init_fault, law_init_fault_is_the_first, shell_command, shell_words,
    LaunchFeatures, LaunchFeaturesView,
};
use crate::model::{empty_list, extend_from, one_of, Model};
use crate::records::{DetachedRunRecord, DetachedRunRecordView};
use crate::requests::{
    ExecResult, ExecResultView, MachineRun, MachineRunResult, MachineRunResultView,
    MachineRunStarting, MachineRunStartingView, MachineRunView,
};
use crate::secrets::{ref_fault, SecretMap, SecretMapView};
use crate::text::{cat3, cat4, contains_text, has_part, own, same_text, starts_with};
use crate::types::{
    bindings_of, host_mounts_to_runconfig_bindings, mount_entries, GuestCommand, GuestCommandView,
    ImageInfo, ImageInfoView, Job, JobView, PortMapping, RunConfig, RunConfigView, VmResources,
    VmResourcesView,
};
use crate::update_flow::{ports_checked, validate_ports};
use vstd::prelude::*;

verus! {

/// Commands of a session that names none.
#[derive(Debug, PartialEq, Eq)]
pub struct CommandDefaults {
    /// What a detached machine runs.
    pub idle: Vec<String>,
    /// What a foreground machine runs.
    pub shell: String,
}

/// Mathematical model of a [`CommandDefaults`].
pub struct CommandDefaultsView {
    pub idle: Seq<Seq<char>>,
    pub shell: Seq<char>,
}

impl Model for CommandDefaults {
    type V = CommandDefaultsView;

    open spec fn model(&self) -> CommandDefaultsView {
        CommandDefaultsView {
            idle: self.idle.model(),
            shell: self.shell.model(),
        }
    }

    fn dup(&self) -> (copy: Self) {
        CommandDefaults {
            idle: self.idle.dup(),
            shell: self.shell.dup(),
        }
    }
}

/// The command that stands in where nothing names one.
pub open spec fn fallback_command(
    request: MachineRunView,
    defaults: CommandDefaultsView,
) -> Seq<Seq<char>> {
    if request.detached {
        defaults.idle
    } else {
        seq![defaults.shell]
    }
}

/// The command of a session: the explicit one, or else that of its
/// configuration, or else that of its image, or else a stand-in.
pub open spec fn session_command(
    request: MachineRunView,
    image: Option<ImageInfoView>,
    defaults: CommandDefaultsView,
) -> Seq<Seq<char>> {
    if request.command.len() > 0 {
        request.command
    } else if request.entrypoint.len() > 0 || request.cmd.len() > 0 {
        request.entrypoint + request.cmd
    } else if image is Some && (image->0.entrypoint + image->0.cmd).len() > 0 {
        image->0.entrypoint + image->0.cmd
    } else {
        fallback_command(request, defaults)
    }
}

fn stand_in(request: &MachineRun, defaults: &CommandDefaults) -> (command: Vec<String>)
    ensures
        command.model() == fallback_command(request.model(), defaults.model()),
{
    if request.detached {
        defaults.idle.dup()
    } else {
        one_of(defaults.shell.dup())
    }
}

/// Resolves the command of a session.
pub fn resolve_session_command(
    request: &MachineRun,
    image_info: &Option<ImageInfo>,
    defaults: &CommandDefaults,
) -> (command: Vec<String>)
    ensures
        command.model() == session_command(request.model(), image_info.model(), defaults.model()),
{
    if request.command.len() > 0 {
        return request.command.dup();
    }
    if request.entrypoint.len() > 0 || request.cmd.len() > 0 {
        let mut command: Vec<String> = request.entrypoint.dup();
        extend_from(&mut command, &request.cmd);
        return command;
    }
    match image_info {
        None => stand_in(request, defaults),
        Some(info) => {
            let mut command: Vec<String> = info.entrypoint.dup();
            extend_from(&mut command, &info.cmd);
            assert(command.model().len() == command.len());
            if command.len() > 0 {
                command
            } else {
                stand_in(request, defaults)
            }
        },
    }
}

/// Law: an explicit command is run as it is, whatever configuration and image
/// say, and configuration comes before the image.
pub proof fn law_command_precedence(
    request: MachineRunView,
    image: Option<ImageInfoView>,
    other: Option<ImageInfoView>,
    defaults: CommandDefaultsView,
)
    ensures
        request.command.len() > 0 ==> session_command(request, image, defaults) == request.command,
        request.command.len() > 0 || request.entrypoint.len() > 0 || request.cmd.len() > 0
            ==> session_command(request, image, defaults) == session_command(
            request,
            other,
            defaults,
        ),
{
}

/// Whether a failed command looks like a program that the guest does not have.
pub open spec fn looks_missing(message: Seq<char>, program: Seq<char>) -> bool {
    program.len() > 0 && (has_part(message, "No such file or directory"@) || has_part(
        message,
        "os error 2"@,
    )) && !("/"@).is_prefix_of(program) && !("."@).is_prefix_of(program)
}

/// The error of a command that failed in the guest, with a hint where it names
/// a program that the guest does not have. `message` is the text of the error.
pub open spec fn bare_run_error(
    error: ErrorView,
    message: Seq<char>,
    program: Seq<char>,
) -> ErrorView {
    if looks_missing(message, program) {
        ErrorView::Agent {
            operation: "vm exec"@,
            reason: message + "\n\nNote: '"@ + program
                + "' was not found in the VM. If you meant to run a container image, set an image for the run request."@,
        }
    } else {
        error
    }
}

/// Adds a hint to the error of a command that failed in the guest.
pub fn enrich_bare_run_error(error: Error, message: &str, program: &str) -> (enriched: Error)
    ensures
        enriched.model() == bare_run_error(error.model(), message@, program@),
{
    if !program.is_empty() && (contains_text(message, "No such file or directory")
        || contains_text(message, "os error 2")) && !starts_with(program, "/") && !starts_with(
        program,
        ".",
    ) {
        Error::agent(
            "vm exec",
            cat4(
                message,
                "\n\nNote: '",
                program,
                "' was not found in the VM. If you meant to run a container image, set an image for the run request.",
            ),
        )
    } else {
        error
    }
}

/// Whether two lists of words are the same.
fn same_words(a: &Vec<String>, b: &Vec<String>) -> (same: bool)
    ensures
        same == (a.model() == b.model()),
{
    if a.len() != b.len() {
        assert(a.model().len() != b.model().len());
        return false;
    }
    let mut i: usize = 0;
    while i < a.len()
        invariant
            i <= a.len(),
            a.len() == b.len(),
            forall|j: int| 0 <= j < i ==> #[trigger] a.model()[j] == b.model()[j],
        decreases a.len() - i,
    {
        if !same_text(a[i].as_str(), b[i].as_str()) {
            assert(a.model()[i as int] != b.model()[i as int]);
            return false;
        }
        i += 1;
    }
    assert(a.model() =~= b.model());
    true
}

/// The job that runs one init command of a session.
pub open spec fn session_init_job(
    request: MachineRunView,
    image_info: Option<ImageInfoView>,
    parsed: Seq<Option<(Seq<char>, Seq<char>)>>,
    env: EnvView,
    line: Seq<char>,
) -> JobView {
    match request.image {
        Some(image) => {
            let defaults = runtime_defaults(
                image_info,
                parsed,
                env,
                request.workdir,
                request.user,
            );
            JobView::Container(
                RunConfigView {
                    image,
                    command: shell_words("sh"@, line),
                    env: defaults.env,
                    workdir: defaults.workdir,
                    user: defaults.user,
                    mounts: bindings_of(mount_entries(request.mounts)),
                    timeout: None,
                    tty: false,
                    persistent_overlay: Some(request.name),
                },
            )
        },
        None => JobView::Guest(
            GuestCommandView {
                command: shell_words("sh"@, line),
                env,
                workdir: request.workdir,
                timeout: None,
                stdin: None,
                tty: false,
            },
        ),
    }
}

fn make_session_init_job(
    request: &MachineRun,
    image_info: &Option<ImageInfo>,
    parsed: &Vec<Option<(String, String)>>,
    env: &Vec<(String, String)>,
    line: &str,
) -> (job: Job)
    ensures
        job.model() == session_init_job(
            request.model(),
            image_info.model(),
            parsed.model(),
            env.model(),
            line@,
        ),
{
    match &request.image {
        Some(image) => {
            let defaults = resolve_image_runtime_defaults(
                image_info,
                parsed,
                env,
                &request.workdir,
                &request.user,
            );
            Job::Container(
                RunConfig {
                    image: image.dup(),
                    command: shell_command("sh", line),
                    env: defaults.env,
                    workdir: defaults.workdir,
                    user: defaults.user,
                    mounts: host_mounts_to_runconfig_bindings(&request.mounts),
                    timeout: None,
                    tty: false,
                    persistent_overlay: Some(request.name.dup()),
                },
            )
        },
        None => Job::Guest(
            GuestCommand {
                command: shell_command("sh", line),
                env: env.dup(),
                workdir: request.workdir.dup(),
                timeout: None,
                stdin: None,
                tty: false,
            },
        ),
    }
}

/// What a run session has learnt so far.
#[derive(Debug, PartialEq, Eq)]
pub struct SessionProgress {
    /// What checking the resources gave.
    pub resources: Option<Result<(), Error>>,
    /// What checking the network backend gave.
    pub backend: Option<Result<(), Error>>,
    /// What looking for conflicting ports gave.
    pub duplicates: Option<Result<(), String>>,
    /// Whether there is a machine of this name already.
    pub taken: Option<Result<bool, Error>>,
    /// Whether the start was announced.
    pub announced: bool,
    /// What opening the machine's manager gave.
    pub manager: Option<Result<(), String>>,
    /// The socket of the host's SSH agent, once it was looked up.
    pub ssh_socket: Option<Option<String>>,
    /// Whether the machine was newly started, and its process.
    pub launched: Option<Result<(bool, Option<i32>), String>>,
    /// Whether the machine of a foreground session was recorded.
    pub registered: bool,
    /// What connecting to the agent gave.
    pub connected: Option<Result<(), Error>>,
    /// What pulling the image gave: an error comes with its text.
    pub pulled: Option<Result<ImageInfo, (Error, String)>>,
    /// What reading the secrets gave.
    pub secrets: Option<Result<Vec<(String, String)>, Error>>,
    /// The variables of the image, as the parser of `KEY=VALUE` gave them.
    pub image_env: Option<Vec<Option<(String, String)>>>,
    /// What each init command gave.
    pub init: Vec<Result<ExecResult, Error>>,
    /// What starting the command of a detached session gave.
    pub detached: Option<Result<(), Error>>,
    /// What storing the record of a detached session gave.
    pub saved: Option<Result<(), Error>>,
    /// Whether the machine of a detached session was let go.
    pub let_go: bool,
    /// What the command of a foreground session gave: an error comes with its
    /// text.
    pub output: Option<Result<ExecResult, (Error, String)>>,
    /// Whether the output was shown.
    pub shown: bool,
    /// Whether the record of a foreground session was removed.
    pub deregistered: bool,
    /// Whether the machine of a foreground session was killed.
    pub killed: bool,
    /// Whether the data of a foreground session was removed.
    pub cleaned: bool,
    /// Whether the machine of a failed detached session was stopped.
    pub stopped: bool,
}

/// Mathematical model of a [`SessionProgress`].
pub struct SessionProgressView {
    pub resources: Option<Result<(), ErrorView>>,
    pub backend: Option<Result<(), ErrorView>>,
    pub duplicates: Option<Result<(), Seq<char>>>,
    pub taken: Option<Result<bool, ErrorView>>,
    pub announced: bool,
    pub manager: Option<Result<(), Seq<char>>>,
    pub ssh_socket: Option<Option<Seq<char>>>,
    pub launched: Option<Result<(bool, Option<i32>), Seq<char>>>,
    pub registered: bool,
    pub connected: Option<Result<(), ErrorView>>,
    pub pulled: Option<Result<ImageInfoView, (ErrorView, Seq<char>)>>,
    pub secrets: Option<Result<Seq<(Seq<char>, Seq<char>)>, ErrorView>>,
    pub image_env: Option<Seq<Option<(Seq<char>, Seq<char>)>>>,
    pub init: Seq<Result<ExecResultView, ErrorView>>,
    pub detached: Option<Result<(), ErrorView>>,
    pub saved: Option<Result<(), ErrorView>>,
    pub let_go: bool,
    pub output: Option<Result<ExecResultView, (ErrorView, Seq<char>)>>,
    pub shown: bool,
    pub deregistered: bool,
    pub killed: bool,
    pub cleaned: bool,
    pub stopped: bool,
}

impl Model for SessionProgress {
    type V = SessionProgressView;

    open spec fn model(&self) -> SessionProgressView {
        SessionProgressView {
            resources: self.resources.model(),
            backend: self.backend.model(),
            duplicates: self.duplicates.model(),
            taken: self.taken.model(),
            announced: self.announced.model(),
            manager: self.manager.model(),
            ssh_socket: self.ssh_socket.model(),
            launched: self.launched.model(),
            registered: self.registered.model(),
            connected: self.connected.model(),
            pulled: self.pulled.model(),
            secrets: self.secrets.model(),
            image_env: self.image_env.model(),
            init: self.init.model(),
            detached: self.detached.model(),
            saved: self.saved.model(),
            let_go: self.let_go.model(),
            output: self.output.model(),
            shown: self.shown.model(),
            deregistered: self.deregistered.model(),
            killed: self.killed.model(),
            cleaned: self.cleaned.model(),
            stopped: self.stopped.model(),
        }
    }

    fn dup(&self) -> (copy: Self) {
        SessionProgress {
            resources: self.resources.dup(),
            backend: self.backend.dup(),
            duplicates: self.duplicates.dup(),
            taken: self.taken.dup(),
            announced: self.announced.dup(),
            manager: self.manager.dup(),
            ssh_socket: self.ssh_socket.dup(),
            launched: self.launched.dup(),
            registered: self.registered.dup(),
            connected: self.connected.dup(),
            pulled: self.pulled.dup(),
            secrets: self.secrets.dup(),
            image_env: self.image_env.dup(),
            init: self.init.dup(),
            detached: self.detached.dup(),
            saved: self.saved.dup(),
            let_go: self.let_go.dup(),
            output: self.output.dup(),
            shown: self.shown.dup(),
            deregistered: self.deregistered.dup(),
            killed: self.killed.dup(),
            cleaned: self.cleaned.dup(),
            stopped: self.stopped.dup(),
        }
    }
}

/// What a run session does next.
#[derive(Debug, PartialEq, Eq)]
pub enum SessionStep {
    /// Check these resources.
    CheckResources(VmResources),
    /// Check that the network backend can serve these settings.
    CheckBackend { resources: VmResources, dns_filter_hosts: Option<Vec<String>>, ports: usize },
    /// Look for conflicts among these ports.
    CheckDuplicates(Vec<PortMapping>),
    /// Look whether there is a machine of this name.
    CheckTaken,
    /// Announce the start.
    Announce(MachineRunStarting),
    /// Open the manager of the machine with these disk sizes.
    OpenManager { storage_gb: Option<u64>, overlay_gb: Option<u64> },
    /// Look up the socket of the host's SSH agent.
    FindSshSocket,
    /// Launch the machine with these features.
    Launch(LaunchFeatures),
    /// Record the machine of a foreground session with this process.
    Register(Option<i32>),
    /// Connect to the agent; if asked, arrange for an interrupt to kill it.
    Connect { guard: bool },
    /// Pull an image.
    Pull { image: String, platform: Option<String>, proxy: Option<String>, no_proxy: Option<String> },
    /// Read these secrets.
    ReadSecrets(SecretMap),
    /// Parse the variables of the image.
    ParseImageEnv(Vec<String>),
    /// Run an init command.
    RunInit(Job),
    /// Start a command and leave it running.
    RunDetached(Job),
    /// Store the record of a detached session.
    Save(DetachedRunRecord),
    /// Let go of the machine, and of the arrangement for an interrupt.
    LetGo,
    /// Run the command; if interactive, let go of the arrangement for an
    /// interrupt first.
    Run { job: Job, interactive: bool },
    /// Show what the command wrote.
    Show { stdout: Vec<u8>, stderr: Vec<u8> },
    /// Remove the record of a foreground session.
    Deregister,
    /// Kill the machine.
    Kill,
    /// Remove the data of the machine.
    CleanUp,
    /// Stop the machine.
    Stop,
    /// The session is over.
    Finish(Result<MachineRunResult, Error>),
}

/// Mathematical model of a [`SessionStep`].
pub enum SessionStepView {
    CheckResources(VmResourcesView),
    CheckBackend { resources: VmResourcesView, dns_filter_hosts: Option<Seq<Seq<char>>>, ports: usize },
    CheckDuplicates(Seq<PortMapping>),
    CheckTaken,
    Announce(MachineRunStartingView),
    OpenManager { storage_gb: Option<u64>, overlay_gb: Option<u64> },
    FindSshSocket,
    Launch(LaunchFeaturesView),
    Register(Option<i32>),
    Connect { guard: bool },
    Pull { image: Seq<char>, platform: Option<Seq<char>>, proxy: Option<Seq<char>>, no_proxy: Option<Seq<char>> },
    ReadSecrets(SecretMapView),
    ParseImageEnv(Seq<Seq<char>>),
    RunInit(JobView),
    RunDetached(JobView),
    Save(DetachedRunRecordView),
    LetGo,
    Run { job: JobView, interactive: bool },
    Show { stdout: Seq<u8>, stderr: Seq<u8> },
    Deregister,
    Kill,
    CleanUp,
    Stop,
    Finish(Result<MachineRunResultView, ErrorView>),
}

impl Model for SessionStep {
    type V = SessionStepView;

    open spec fn model(&self) -> SessionStepView {
        match self {
            SessionStep::CheckResources(value) => SessionStepView::CheckResources(value.model()),
            SessionStep::CheckBackend { resources, dns_filter_hosts, ports } => SessionStepView::CheckBackend { resources: resources.model(), dns_filter_hosts: dns_filter_hosts.model(), ports: ports.model() },
            SessionStep::CheckDuplicates(value) => SessionStepView::CheckDuplicates(value.model()),
            SessionStep::CheckTaken => SessionStepView::CheckTaken,
            SessionStep::Announce(value) => SessionStepView::Announce(value.model()),
            SessionStep::OpenManager { storage_gb, overlay_gb } => SessionStepView::OpenManager { storage_gb: storage_gb.model(), overlay_gb: overlay_gb.model() },
            SessionStep::FindSshSocket => SessionStepView::FindSshSocket,
            SessionStep::Launch(value) => SessionStepView::Launch(value.model()),
            SessionStep::Register(value) => SessionStepView::Register(value.model()),
            SessionStep::Connect { guard } => SessionStepView::Connect { guard: guard.model() },
            SessionStep::Pull { image, platform, proxy, no_proxy } => SessionStepView::Pull { image: image.model(), platform: platform.model(), proxy: proxy.model(), no_proxy: no_proxy.model() },
            SessionStep::ReadSecrets(value) => SessionStepView::ReadSecrets(value.model()),
            SessionStep::ParseImageEnv(value) => SessionStepView::ParseImageEnv(value.model()),
            SessionStep::RunInit(value) => SessionStepView::RunInit(value.model()),
            SessionStep::RunDetached(value) => SessionStepView::RunDetached(value.model()),
            SessionStep::Save(value) => SessionStepView::Save(value.model()),
            SessionStep::LetGo => SessionStepView::LetGo,
            SessionStep::Run { job, interactive } => SessionStepView::Run { job: job.model(), interactive: interactive.model() },
            SessionStep::Show { stdout, stderr } => SessionStepView::Show { stdout: stdout.model(), stderr: stderr.model() },
            SessionStep::Deregister => SessionStepView::Deregister,
            SessionStep::Kill => SessionStepView::Kill,
            SessionStep::CleanUp => SessionStepView::CleanUp,
            SessionStep::Stop => SessionStepView::Stop,
            SessionStep::Finish(value) => SessionStepView::Finish(value.model()),
        }
    }

    fn dup(&self) -> (copy: Self) {
        match self {
            SessionStep::CheckResources(value) => SessionStep::CheckResources(value.dup()),
            SessionStep::CheckBackend { resources, dns_filter_hosts, ports } => SessionStep::CheckBackend { resources: resources.dup(), dns_filter_hosts: dns_filter_hosts.dup(), ports: ports.dup() },
            SessionStep::CheckDuplicates(value) => SessionStep::CheckDuplicates(value.dup()),
            SessionStep::CheckTaken => SessionStep::CheckTaken,
            SessionStep::Announce(value) => SessionStep::Announce(value.dup()),
            SessionStep::OpenManager { storage_gb, overlay_gb } => SessionStep::OpenManager { storage_gb: storage_gb.dup(), overlay_gb: overlay_gb.dup() },
            SessionStep::FindSshSocket => SessionStep::FindSshSocket,
            SessionStep::Launch(value) => SessionStep::Launch(value.dup()),
            SessionStep::Register(value) => SessionStep::Register(value.dup()),
            SessionStep::Connect { guard } => SessionStep::Connect { guard: guard.dup() },
            SessionStep::Pull { image, platform, proxy, no_proxy } => SessionStep::Pull { image: image.dup(), platform: platform.dup(), proxy: proxy.dup(), no_proxy: no_proxy.dup() },
            SessionStep::ReadSecrets(value) => SessionStep::ReadSecrets(value.dup()),
            SessionStep::ParseImageEnv(value) => SessionStep::ParseImageEnv(value.dup()),
            SessionStep::RunInit(value) => SessionStep::RunInit(value.dup()),
            SessionStep::RunDetached(value) => SessionStep::RunDetached(value.dup()),
            SessionStep::Save(value) => SessionStep::Save(value.dup()),
            SessionStep::LetGo => SessionStep::LetGo,
            SessionStep::Run { job, interactive } => SessionStep::Run { job: job.dup(), interactive: interactive.dup() },
            SessionStep::Show { stdout, stderr } => SessionStep::Show { stdout: stdout.dup(), stderr: stderr.dup() },
            SessionStep::Deregister => SessionStep::Deregister,
            SessionStep::Kill => SessionStep::Kill,
            SessionStep::CleanUp => SessionStep::CleanUp,
            SessionStep::Stop => SessionStep::Stop,
            SessionStep::Finish(value) => SessionStep::Finish(value.dup()),
        }
    }
}

/// The job of a foreground session.
pub open spec fn foreground_job(
    request: MachineRunView,
    image_info: Option<ImageInfoView>,
    parsed: Seq<Option<(Seq<char>, Seq<char>)>>,
    env: EnvView,
    command: Seq<Seq<char>>,
) -> JobView {
    match request.image {
        Some(image) => {
            let defaults = runtime_defaults(
                image_info,
                parsed,
                env,
                request.workdir,
                request.user,
            );
            JobView::Container(
                RunConfigView {
                    image,
                    command,
                    env: defaults.env,
                    workdir: defaults.workdir,
                    user: defaults.user,
                    mounts: bindings_of(mount_entries(request.mounts)),
                    timeout: request.timeout,
                    tty: request.tty,
                    persistent_overlay: None,
                },
            )
        },
        None => JobView::Guest(
            GuestCommandView {
                command,
                env,
                workdir: request.workdir,
                timeout: request.timeout,
                stdin: None,
                tty: request.tty,
            },
        ),
    }
}

/// What a foreground session that is over gives.
pub open spec fn foreground_result(
    request: MachineRunView,
    command: Seq<Seq<char>>,
    output: Result<ExecResultView, (ErrorView, Seq<char>)>,
) -> Result<MachineRunResultView, ErrorView> {
    let interactive = request.interactive || request.tty;
    match output {
        Ok(output) => Ok(
            MachineRunResultView::Foreground {
                exit_code: output.exit_code,
                stdout: if interactive {
                    Seq::empty()
                } else {
                    output.stdout
                },
                stderr: if interactive {
                    Seq::empty()
                } else {
                    output.stderr
                },
            },
        ),
        Err(failure) => if request.image is None && !interactive {
            Err(
                bare_run_error(
                    failure.0,
                    failure.1,
                    if command.len() > 0 {
                        command[0]
                    } else {
                        ""@
                    },
                ),
            )
        } else {
            Err(failure.0)
        },
    }
}

/// The part of a foreground session that runs its command: the next step, or
/// how it ended.
pub open spec fn foreground_step(
    request: MachineRunView,
    progress: SessionProgressView,
    image_info: Option<ImageInfoView>,
    parsed: Seq<Option<(Seq<char>, Seq<char>)>>,
    env: EnvView,
    command: Seq<Seq<char>>,
) -> Result<SessionStepView, Result<MachineRunResultView, ErrorView>> {
    let interactive = request.interactive || request.tty;
    match progress.output {
        None => Ok(
            SessionStepView::Run {
                job: foreground_job(request, image_info, parsed, env, command),
                interactive,
            },
        ),
        Some(Ok(output)) => if !interactive && !progress.shown {
            Ok(SessionStepView::Show { stdout: output.stdout, stderr: output.stderr })
        } else {
            Err(foreground_result(request, command, Ok(output)))
        },
        Some(Err(failure)) => Err(foreground_result(request, command, Err(failure))),
    }
}

/// What a detached session with an image leaves running.
pub open spec fn detached_container(
    request: MachineRunView,
    image: Seq<char>,
    image_info: Option<ImageInfoView>,
    parsed: Seq<Option<(Seq<char>, Seq<char>)>>,
    env: EnvView,
    command: Seq<Seq<char>>,
) -> RunConfigView {
    let defaults = runtime_defaults(image_info, parsed, env, request.workdir, request.user);
    RunConfigView {
        image,
        command,
        env: defaults.env,
        workdir: defaults.workdir,
        user: defaults.user,
        mounts: bindings_of(mount_entries(request.mounts)),
        timeout: None,
        tty: false,
        persistent_overlay: Some(request.name),
    }
}

/// What is recorded of a detached session.
pub open spec fn detached_summary(
    request: MachineRunView,
    image_info: Option<ImageInfoView>,
    parsed: Seq<Option<(Seq<char>, Seq<char>)>>,
    env: EnvView,
    command: Seq<Seq<char>>,
    pid: Option<i32>,
) -> DetachedRunRecordView {
    match request.image {
        Some(image) => {
            let defaults = runtime_defaults(
                image_info,
                parsed,
                env,
                request.workdir,
                request.user,
            );
            DetachedRunRecordView {
                pid,
                image: Some(image),
                entrypoint: Seq::empty(),
                cmd: command,
                env: defaults.env,
                workdir: defaults.workdir,
                user: defaults.user,
            }
        },
        None => DetachedRunRecordView {
            pid,
            image: None,
            entrypoint: request.entrypoint,
            cmd: request.cmd,
            env: request.env,
            workdir: request.workdir,
            user: request.user,
        },
    }
}

/// Whether a detached session without an image runs nothing of its own.
pub open spec fn is_idle(command: Seq<Seq<char>>, defaults: CommandDefaultsView) -> bool {
    command.len() == 0 || command == defaults.idle
}

/// The part of a detached session that starts its command: the next step, or
/// how it ended.
pub open spec fn detached_step(
    request: MachineRunView,
    progress: SessionProgressView,
    image_info: Option<ImageInfoView>,
    parsed: Seq<Option<(Seq<char>, Seq<char>)>>,
    env: EnvView,
    command: Seq<Seq<char>>,
    pid: Option<i32>,
    defaults: CommandDefaultsView,
) -> Result<SessionStepView, Result<MachineRunResultView, ErrorView>> {
    let runs = request.image is Some || !is_idle(command, defaults);
    if runs && progress.detached is None {
        Ok(
            SessionStepView::RunDetached(
                match request.image {
                    Some(image) => JobView::Container(
                        detached_container(request, image, image_info, parsed, env, command),
                    ),
                    None => JobView::Guest(
                        GuestCommandView {
                            command,
                            env,
                            workdir: request.workdir,
                            timeout: None,
                            stdin: None,
                            tty: false,
                        },
                    ),
                },
            ),
        )
    } else if runs && progress.detached->0 is Err {
        Err(Err(progress.detached->0->Err_0))
    } else {
        match progress.saved {
            None => Ok(
                SessionStepView::Save(
                    detached_summary(request, image_info, parsed, env, command, pid),
                ),
            ),
            Some(Err(error)) => Err(Err(error)),
            Some(Ok(_)) => if !progress.let_go {
                Ok(SessionStepView::LetGo)
            } else {
                Err(Ok(MachineRunResultView::Detached { name: request.name, pid }))
            },
        }
    }
}

/// The error of a session whose image could not be pulled.
pub open spec fn pull_error(
    request: MachineRunView,
    image: Seq<char>,
    failure: (ErrorView, Seq<char>),
) -> ErrorView {
    if !request.resources.network {
        ErrorView::Agent {
            operation: "pull image"@,
            reason: failure.1
                + "\n\nHint: networking is disabled. Enable networking before pulling image '"@
                + image + "'."@,
        }
    } else {
        failure.0
    }
}

/// The part of a session that follows once secrets and image are at hand.
pub open spec fn session_command_step(
    request: MachineRunView,
    progress: SessionProgressView,
    fresh: bool,
    pid: Option<i32>,
    image_info: Option<ImageInfoView>,
    parsed: Seq<Option<(Seq<char>, Seq<char>)>>,
    env: EnvView,
    defaults: CommandDefaultsView,
) -> Result<SessionStepView, Result<MachineRunResultView, ErrorView>> {
    if fresh && init_fault(progress.init, 0) is Some {
        Err(Err(init_fault(progress.init, 0)->0))
    } else if fresh && progress.init.len() < request.init.len() {
        Ok(
            SessionStepView::RunInit(
                session_init_job(
                    request,
                    image_info,
                    parsed,
                    env,
                    request.init[progress.init.len() as int],
                ),
            ),
        )
    } else {
        let command = session_command(request, image_info, defaults);
        if request.detached {
            detached_step(
                request,
                progress,
                image_info,
                parsed,
                env,
                command,
                pid,
                defaults,
            )
        } else {
            foreground_step(request, progress, image_info, parsed, env, command)
        }
    }
}

/// The part of a session that follows once its machine runs: the next step, or
/// how it ended.
pub open spec fn session_started_step(
    request: MachineRunView,
    progress: SessionProgressView,
    fresh: bool,
    pid: Option<i32>,
    defaults: CommandDefaultsView,
) -> Result<SessionStepView, Result<MachineRunResultView, ErrorView>> {
    if request.image is Some && progress.pulled is None {
        Ok(
            SessionStepView::Pull {
                image: request.image->0,
                platform: request.oci_platform,
                proxy: request.proxy,
                no_proxy: request.no_proxy,
            },
        )
    } else if request.image is Some && progress.pulled->0 is Err {
        Err(Err(pull_error(request, request.image->0, progress.pulled->0->Err_0)))
    } else {
        let image_info = if request.image is Some {
            Some(progress.pulled->0->Ok_0)
        } else {
            None
        };
        match refs_checked("secrets"@, request.secret_refs, request.secret_scope) {
            Err(error) => Err(Err(error)),
            Ok(_) => match progress.secrets {
                None => Ok(SessionStepView::ReadSecrets(request.secret_refs)),
                Some(resolved) => match environment_of_request(
                    request.env,
                    request.secret_refs,
                    request.secret_scope,
                    resolved,
                ) {
                    Err(error) => Err(Err(error)),
                    Ok(env) => if image_info is Some && progress.image_env is None {
                        Ok(SessionStepView::ParseImageEnv(image_info->0.env))
                    } else {
                        session_command_step(
                            request,
                            progress,
                            fresh,
                            pid,
                            image_info,
                            if progress.image_env is Some {
                                progress.image_env->0
                            } else {
                                Seq::empty()
                            },
                            env,
                            defaults,
                        )
                    },
                },
            },
        }
    }
}

/// The end of a session: what is undone before it gives its result.
pub open spec fn session_end_step(
    request: MachineRunView,
    progress: SessionProgressView,
    fresh: bool,
    result: Result<MachineRunResultView, ErrorView>,
) -> SessionStepView {
    if !request.detached {
        if !progress.deregistered {
            SessionStepView::Deregister
        } else if !progress.killed {
            SessionStepView::Kill
        } else if !progress.cleaned {
            SessionStepView::CleanUp
        } else {
            SessionStepView::Finish(result)
        }
    } else if result is Err && fresh && !progress.stopped {
        SessionStepView::Stop
    } else {
        SessionStepView::Finish(result)
    }
}

/// The part of a session that launches its machine.
pub open spec fn session_launch_step(
    request: MachineRunView,
    progress: SessionProgressView,
    defaults: CommandDefaultsView,
) -> SessionStepView {
    if !progress.announced {
        SessionStepView::Announce(
            MachineRunStartingView { name: request.name, detached: request.detached },
        )
    } else if progress.manager is None {
        SessionStepView::OpenManager {
            storage_gb: request.resources.storage_gib,
            overlay_gb: request.resources.overlay_gib,
        }
    } else if progress.manager->0 is Err {
        SessionStepView::Finish(
            Err(
                ErrorView::Agent {
                    operation: "create agent manager"@,
                    reason: progress.manager->0->Err_0,
                },
            ),
        )
    } else if request.ssh_agent && progress.ssh_socket is None {
        SessionStepView::FindSshSocket
    } else if request.ssh_agent && progress.ssh_socket->0 is None {
        SessionStepView::Finish(
            Err(
                ErrorView::Config {
                    operation: "ssh-agent"@,
                    reason: "SSH_AUTH_SOCK is not set"@,
                },
            ),
        )
    } else {
        match progress.launched {
            None => SessionStepView::Launch(
                LaunchFeaturesView {
                    ssh_agent_socket: if request.ssh_agent {
                        progress.ssh_socket->0
                    } else {
                        None
                    },
                    dns_filter_hosts: request.dns_filter_hosts,
                    forkable: false,
                    snapshot_dir: None,
                    packed_from: None,
                },
            ),
            Some(Err(reason)) => SessionStepView::Finish(
                Err(ErrorView::Agent { operation: "start machine"@, reason }),
            ),
            Some(Ok(launched)) => if !request.detached && !progress.registered {
                SessionStepView::Register(launched.1)
            } else {
                match progress.connected {
                    None => SessionStepView::Connect { guard: request.kill_on_sigint },
                    Some(Err(error)) => SessionStepView::Finish(Err(error)),
                    Some(Ok(_)) => match session_started_step(
                        request,
                        progress,
                        launched.0,
                        launched.1,
                        defaults,
                    ) {
                        Ok(step) => step,
                        Err(result) => session_end_step(request, progress, launched.0, result),
                    },
                }
            },
        }
    }
}

/// What a run session does next.
pub open spec fn session_step(
    request: MachineRunView,
    progress: SessionProgressView,
    defaults: CommandDefaultsView,
) -> SessionStepView {
    if progress.resources is None {
        SessionStepView::CheckResources(request.resources)
    } else if progress.resources->0 is Err {
        SessionStepView::Finish(Err(progress.resources->0->Err_0))
    } else if progress.backend is None {
        SessionStepView::CheckBackend {
            resources: request.resources,
            dns_filter_hosts: request.dns_filter_hosts,
            ports: request.ports.len() as usize,
        }
    } else if progress.backend->0 is Err {
        SessionStepView::Finish(Err(progress.backend->0->Err_0))
    } else if progress.duplicates is None {
        SessionStepView::CheckDuplicates(request.ports)
    } else if ports_checked(request.ports, progress.duplicates->0) is Err {
        SessionStepView::Finish(Err(ports_checked(request.ports, progress.duplicates->0)->Err_0))
    } else if request.detached && !request.allow_existing_record {
        match progress.taken {
            None => SessionStepView::CheckTaken,
            Some(Err(error)) => SessionStepView::Finish(Err(error)),
            Some(Ok(true)) => SessionStepView::Finish(
                Err(
                    ErrorView::Config {
                        operation: "machine run"@,
                        reason: "machine '"@ + request.name + "' already exists"@,
                    },
                ),
            ),
            Some(Ok(false)) => session_launch_step(request, progress, defaults),
        }
    } else {
        session_launch_step(request, progress, defaults)
    }
}

fn decide_foreground(
    request: &MachineRun,
    progress: &SessionProgress,
    image_info: &Option<ImageInfo>,
    parsed: &Vec<Option<(String, String)>>,
    env: Vec<(String, String)>,
    command: Vec<String>,
) -> (step: Result<SessionStep, Result<MachineRunResult, Error>>)
    ensures
        step.model() == foreground_step(
            request.model(),
            progress.model(),
            image_info.model(),
            parsed.model(),
            env.model(),
            command.model(),
        ),
{
    let interactive: bool = request.interactive || request.tty;
    match &progress.output {
        None => {
            let job: Job = match &request.image {
                Some(image) => {
                    let defaults = resolve_image_runtime_defaults(
                        image_info,
                        parsed,
                        &env,
                        &request.workdir,
                        &request.user,
                    );
                    Job::Container(
                        RunConfig {
                            image: image.dup(),
                            command,
                            env: defaults.env,
                            workdir: defaults.workdir,
                            user: defaults.user,
                            mounts: host_mounts_to_runconfig_bindings(&request.mounts),
                            timeout: request.timeout,
                            tty: request.tty,
                            persistent_overlay: None,
                        },
                    )
                },
                None => Job::Guest(
                    GuestCommand {
                        command,
                        env,
                        workdir: request.workdir.dup(),
                        timeout: request.timeout,
                        stdin: None,
                        tty: request.tty,
                    },
                ),
            };
            Ok(SessionStep::Run { job, interactive })
        },
        Some(Ok(output)) => if !interactive && !progress.shown {
            Ok(SessionStep::Show { stdout: output.stdout.dup(), stderr: output.stderr.dup() })
        } else {
            Err(
                Ok(
                    MachineRunResult::Foreground {
                        exit_code: output.exit_code,
                        stdout: if interactive {
                            empty_list()
                        } else {
                            output.stdout.dup()
                        },
                        stderr: if interactive {
                            empty_list()
                        } else {
                            output.stderr.dup()
                        },
                    },
                ),
            )
        },
        Some(Err(failure)) => if request.image.is_none() && !interactive {
            let program: String = if command.len() > 0 {
                command[0].dup()
            } else {
                own("")
            };
            Err(
                Err(
                    enrich_bare_run_error(
                        failure.0.dup(),
                        failure.1.as_str(),
                        program.as_str(),
                    ),
                ),
            )
        } else {
            Err(Err(failure.0.dup()))
        },
    }
}

fn decide_detached(
    request: &MachineRun,
    progress: &SessionProgress,
    image_info: &Option<ImageInfo>,
    parsed: &Vec<Option<(String, String)>>,
    env: Vec<(String, String)>,
    command: Vec<String>,
    pid: Option<i32>,
    defaults: &CommandDefaults,
) -> (step: Result<SessionStep, Result<MachineRunResult, Error>>)
    ensures
        step.model() == detached_step(
            request.model(),
            progress.model(),
            image_info.model(),
            parsed.model(),
            env.model(),
            command.model(),
            pid,
            defaults.model(),
        ),
{
    let idle: bool = command.len() == 0 || same_words(&command, &defaults.idle);
    if request.image.is_some() || !idle {
        match &progress.detached {
            None => {
                let job: Job = match &request.image {
                    Some(image) => {
                        let runtime = resolve_image_runtime_defaults(
                            image_info,
                            parsed,
                            &env,
                            &request.workdir,
                            &request.user,
                        );
                        Job::Container(
                            RunConfig {
                                image: image.dup(),
                                command,
                                env: runtime.env,
                                workdir: runtime.workdir,
                                user: runtime.user,
                                mounts: host_mounts_to_runconfig_bindings(&request.mounts),
                                timeout: None,
                                tty: false,
                                persistent_overlay: Some(request.name.dup()),
                            },
                        )
                    },
                    None => Job::Guest(
                        GuestCommand {
                            command,
                            env,
                            workdir: request.workdir.dup(),
                            timeout: None,
                            stdin: None,
                            tty: false,
                        },
                    ),
                };
                return Ok(SessionStep::RunDetached(job));
            },
            Some(Err(error)) => {
                return Err(Err(error.dup()));
            },
            Some(Ok(_)) => {},
        }
    }
    match &progress.saved {
        None => {
            let summary: DetachedRunRecord = match &request.image {
                Some(image) => {
                    let runtime = resolve_image_runtime_defaults(
                        image_info,
                        parsed,
                        &env,
                        &request.workdir,
                        &request.user,
                    );
                    DetachedRunRecord {
                        pid,
                        image: Some(image.dup()),
                        entrypoint: empty_list(),
                        cmd: command,
                        env: runtime.env,
                        workdir: runtime.workdir,
                        user: runtime.user,
                    }
                },
                None => DetachedRunRecord {
                    pid,
                    image: None,
                    entrypoint: request.entrypoint.dup(),
                    cmd: request.cmd.dup(),
                    env: request.env.dup(),
                    workdir: request.workdir.dup(),
                    user: request.user.dup(),
                },
            };
            Ok(SessionStep::Save(summary))
        },
        Some(Err(error)) => Err(Err(error.dup())),
        Some(Ok(_)) => if !progress.let_go {
            Ok(SessionStep::LetGo)
        } else {
            Err(Ok(MachineRunResult::Detached { name: request.name.dup(), pid }))
        },
    }
}

fn decide_session_command(
    request: &MachineRun,
    progress: &SessionProgress,
    fresh: bool,
    pid: Option<i32>,
    image_info: &Option<ImageInfo>,
    parsed: &Vec<Option<(String, String)>>,
    env: Vec<(String, String)>,
    defaults: &CommandDefaults,
) -> (step: Result<SessionStep, Result<MachineRunResult, Error>>)
    ensures
        step.model() == session_command_step(
            request.model(),
            progress.model(),
            fresh,
            pid,
            image_info.model(),
            parsed.model(),
            env.model(),
            defaults.model(),
        ),
{
    if fresh {
        if let Some(error) = find_init_fault(&progress.init) {
            return Err(Err(error));
        }
        if progress.init.len() < request.init.len() {
            let line: &String = &request.init[progress.init.len()];
            return Ok(
                SessionStep::RunInit(
                    make_session_init_job(request, image_info, parsed, &env, line.as_str()),
                ),
            );
        }
    }
    let command: Vec<String> = resolve_session_command(request, image_info, defaults);
    if request.detached {
        decide_detached(request, progress, image_info, parsed, env, command, pid, defaults)
    } else {
        decide_foreground(request, progress, image_info, parsed, env, command)
    }
}

fn decide_session_started(
    request: &MachineRun,
    progress: &SessionProgress,
    fresh: bool,
    pid: Option<i32>,
    defaults: &CommandDefaults,
) -> (step: Result<SessionStep, Result<MachineRunResult, Error>>)
    ensures
        step.model() == session_started_step(
            request.model(),
            progress.model(),
            fresh,
            pid,
            defaults.model(),
        ),
{
    let mut image_info: Option<ImageInfo> = None;
    if let Some(image) = &request.image {
        match &progress.pulled {
            None => {
                return Ok(
                    SessionStep::Pull {
                        image: image.dup(),
                        platform: request.oci_platform.dup(),
                        proxy: request.proxy.dup(),
                        no_proxy: request.no_proxy.dup(),
                    },
                );
            },
            Some(Err(failure)) => {
                return if !request.resources.network {
                    Err(
                        Err(
                            Error::agent(
                                "pull image",
                                cat4(
                                    failure.1.as_str(),
                                    "\n\nHint: networking is disabled. Enable networking before pulling image '",
                                    image.as_str(),
                                    "'.",
                                ),
                            ),
                        ),
                    )
                } else {
                    Err(Err(failure.0.dup()))
                };
            },
            Some(Ok(info)) => {
                image_info = Some(info.dup());
            },
        }
    }
    if let Err(error) = check_secret_refs("secrets", &request.secret_refs, request.secret_scope) {
        return Err(Err(error));
    }
    let resolved = match &progress.secrets {
        None => {
            return Ok(SessionStep::ReadSecrets(request.secret_refs.dup()));
        },
        Some(resolved) => resolved.dup(),
    };
    let env: Vec<(String, String)> = match request_env(
        &request.env,
        &request.secret_refs,
        request.secret_scope,
        resolved,
    ) {
        Err(error) => {
            return Err(Err(error));
        },
        Ok(env) => env,
    };
    let mut parsed: Vec<Option<(String, String)>> = empty_list();
    match &progress.image_env {
        None => {
            if let Some(info) = &image_info {
                return Ok(SessionStep::ParseImageEnv(info.env.dup()));
            }
        },
        Some(image_env) => {
            parsed = image_env.dup();
        },
    }
    decide_session_command(request, progress, fresh, pid, &image_info, &parsed, env, defaults)
}

fn decide_session_end(
    request: &MachineRun,
    progress: &SessionProgress,
    fresh: bool,
    result: Result<MachineRunResult, Error>,
) -> (step: SessionStep)
    ensures
        step.model() == session_end_step(
            request.model(),
            progress.model(),
            fresh,
            result.model(),
        ),
{
    if !request.detached {
        if !progress.deregistered {
            SessionStep::Deregister
        } else if !progress.killed {
            SessionStep::Kill
        } else if !progress.cleaned {
            SessionStep::CleanUp
        } else {
            SessionStep::Finish(result)
        }
    } else if result.is_err() && fresh && !progress.stopped {
        SessionStep::Stop
    } else {
        SessionStep::Finish(result)
    }
}

fn decide_session_launch(
    request: &MachineRun,
    progress: &SessionProgress,
    defaults: &CommandDefaults,
) -> (step: SessionStep)
    ensures
        step.model() == session_launch_step(request.model(), progress.model(), defaults.model()),
{
    if !progress.announced {
        return SessionStep::Announce(
            MachineRunStarting { name: request.name.dup(), detached: request.detached },
        );
    }
    match &progress.manager {
        None => {
            return SessionStep::OpenManager {
                storage_gb: request.resources.storage_gib,
                overlay_gb: request.resources.overlay_gib,
            };
        },
        Some(Err(reason)) => {
            return SessionStep::Finish(Err(Error::agent("create agent manager", reason.dup())));
        },
        Some(Ok(_)) => {},
    }
    let mut ssh_agent_socket: Option<String> = None;
    if request.ssh_agent {
        match &progress.ssh_socket {
            None => {
                return SessionStep::FindSshSocket;
            },
            Some(None) => {
                return SessionStep::Finish(
                    Err(Error::config("ssh-agent", own("SSH_AUTH_SOCK is not set"))),
                );
            },
            Some(Some(socket)) => {
                ssh_agent_socket = Some(socket.dup());
            },
        }
    }
    let launched: (bool, Option<i32>) = match &progress.launched {
        None => {
            return SessionStep::Launch(
                LaunchFeatures {
                    ssh_agent_socket,
                    dns_filter_hosts: request.dns_filter_hosts.dup(),
                    forkable: false,
                    snapshot_dir: None,
                    packed_from: None,
                },
            );
        },
        Some(Err(reason)) => {
            return SessionStep::Finish(Err(Error::agent("start machine", reason.dup())));
        },
        Some(Ok(launched)) => (launched.0, launched.1),
    };
    if !request.detached && !progress.registered {
        return SessionStep::Register(launched.1);
    }
    match &progress.connected {
        None => SessionStep::Connect { guard: request.kill_on_sigint },
        Some(Err(error)) => SessionStep::Finish(Err(error.dup())),
        Some(Ok(_)) => match decide_session_started(
            request,
            progress,
            launched.0,
            launched.1,
            defaults,
        ) {
            Ok(step) => step,
            Err(result) => decide_session_end(request, progress, launched.0, result),
        },
    }
}

/// Decides what a run session does next.
pub fn next_session_step(
    request: &MachineRun,
    progress: &SessionProgress,
    defaults: &CommandDefaults,
) -> (step: SessionStep)
    ensures
        step.model() == session_step(request.model(), progress.model(), defaults.model()),
{
    match &progress.resources {
        None => {
            return SessionStep::CheckResources(request.resources.dup());
        },
        Some(Err(error)) => {
            return SessionStep::Finish(Err(error.dup()));
        },
        Some(Ok(_)) => {},
    }
    match &progress.backend {
        None => {
            return SessionStep::CheckBackend {
                resources: request.resources.dup(),
                dns_filter_hosts: request.dns_filter_hosts.dup(),
                ports: request.ports.len(),
            };
        },
        Some(Err(error)) => {
            return SessionStep::Finish(Err(error.dup()));
        },
        Some(Ok(_)) => {},
    }
    match &progress.duplicates {
        None => {
            return SessionStep::CheckDuplicates(request.ports.dup());
        },
        Some(duplicates) => {
            if let Err(error) = validate_ports(&request.ports, duplicates) {
                return SessionStep::Finish(Err(error));
            }
        },
    }
    if request.detached && !request.allow_existing_record {
        match &progress.taken {
            None => {
                return SessionStep::CheckTaken;
            },
            Some(Err(error)) => {
                return SessionStep::Finish(Err(error.dup()));
            },
            Some(Ok(taken)) => {
                if *taken {
                    return SessionStep::Finish(
                        Err(
                            Error::config(
                                "machine run",
                                cat3("machine '", request.name.as_str(), "' already exists"),
                            ),
                        ),
                    );
                }
            },
        }
    }
    decide_session_launch(request, progress, defaults)
}

/// Law: a foreground session whose machine was reached gives its result, as it
/// is, only after the machine was killed and its record and data are gone.
pub proof fn law_foreground_leaves_nothing(
    request: MachineRunView,
    progress: SessionProgressView,
    fresh: bool,
    result: Result<MachineRunResultView, ErrorView>,
)
    requires
        !request.detached,
    ensures
        session_end_step(request, progress, fresh, result) is Finish <==> progress.deregistered
            && progress.killed && progress.cleaned,
        session_end_step(request, progress, fresh, result) is Finish ==> session_end_step(
            request,
            progress,
            fresh,
            result,
        ) == SessionStepView::Finish(result),
{
}

/// Law: a detached session that fails stops the machine if it started it, and
/// leaves a machine alone that ran before.
pub proof fn law_failed_detached_session(
    request: MachineRunView,
    progress: SessionProgressView,
    fresh: bool,
    error: ErrorView,
)
    requires
        request.detached,
    ensures
        session_end_step(request, progress, fresh, Err(error)) == (if fresh && !progress.stopped {
            SessionStepView::Stop
        } else {
            SessionStepView::Finish(Err(error))
        }),
{
}

/// Law: the command of a session runs only after every init command of a newly
/// started machine has succeeded.
pub proof fn law_command_after_init(
    request: MachineRunView,
    progress: SessionProgressView,
    fresh: bool,
    pid: Option<i32>,
    image_info: Option<ImageInfoView>,
    parsed: Seq<Option<(Seq<char>, Seq<char>)>>,
    env: EnvView,
    defaults: CommandDefaultsView,
)
    requires
        fresh,
        session_command_step(
            request,
            progress,
            fresh,
            pid,
            image_info,
            parsed,
            env,
            defaults,
        ) matches Ok(step) && (step is Run || step is RunDetached),
    ensures
        init_fault(progress.init, 0) is None,
        progress.init.len() >= request.init.len(),
{
}

/// Law: a detached session that may not reuse a machine never launches one
/// whose name is taken.
pub proof fn law_taken_name_is_not_launched(
    request: MachineRunView,
    progress: SessionProgressView,
    defaults: CommandDefaultsView,
)
    requires
        request.detached,
        !request.allow_existing_record,
        session_step(request, progress, defaults) is Launch,
    ensures
        progress.taken == Some(Ok::<bool, ErrorView>(false)),
{
}

/// Law: a session runs the command that was asked for, in the foreground as in the
/// background, in an image as without one: the explicit command as it is; without one the
/// entrypoint and cmd of the request; without those the entrypoint and cmd of the image;
/// and without any of these the shell, or in the background the idle command.
pub proof fn law_session_runs_the_command(
    request: MachineRunView,
    progress: SessionProgressView,
    defaults: CommandDefaultsView,
    job: JobView,
)
    requires
        ({
            ||| session_step(request, progress, defaults) matches SessionStepView::Run {
                job: run,
                ..
            } && run == job
            ||| session_step(request, progress, defaults) == SessionStepView::RunDetached(job)
        }),
    ensures
        ({
            let command = match job {
                JobView::Container(config) => config.command,
                JobView::Guest(command) => command.command,
            };
            let own = request.entrypoint.len() > 0 || request.cmd.len() > 0;
            let info = progress.pulled->0->Ok_0;
            let of_image = request.image is Some && (info.entrypoint.len() > 0 || info.cmd.len()
                > 0);
            &&& job is Container <==> request.image is Some
            &&& job matches JobView::Container(config) ==> request.image == Some(config.image)
            &&& request.image is Some ==> progress.pulled is Some && progress.pulled->0 is Ok
            &&& request.command.len() > 0 ==> command == request.command
            &&& request.command.len() == 0 && own ==> command == request.entrypoint + request.cmd
            &&& request.command.len() == 0 && !own && of_image ==> command == info.entrypoint
                + info.cmd
            &&& request.command.len() == 0 && !own && !of_image && !request.detached ==> command
                == seq![defaults.shell]
            &&& request.command.len() == 0 && !own && !of_image && request.detached ==> command
                == defaults.idle
        }),
{
}

/// Law: the command of a session runs in the directory that the request names, as the user
/// that it names, and those of the image stand in where it names none; with every mount of
/// the request. In the foreground it has the time limit and the terminal of the request
/// and keeps no files; in the background it has neither and keeps its files under the name
/// of the machine.
pub proof fn law_session_settings_reach_the_command(
    request: MachineRunView,
    progress: SessionProgressView,
    defaults: CommandDefaultsView,
)
    ensures
        ({
            let step = session_step(request, progress, defaults);
            let info = progress.pulled->0->Ok_0;
            &&& step is Run ==> !request.detached
            &&& step is RunDetached ==> request.detached
            &&& step matches SessionStepView::Run { job, interactive } ==> {
                &&& interactive <==> request.interactive || request.tty
                &&& progress.output is None
                &&& job matches JobView::Container(config) ==> config.timeout == request.timeout
                    && config.tty == request.tty && config.persistent_overlay is None && (
                request.workdir is Some ==> config.workdir == request.workdir) && (request.workdir
                    is None ==> config.workdir == info.workdir) && (request.user is Some
                    ==> config.user == request.user) && (request.user is None ==> config.user
                    == info.user) && config.mounts.len() == request.mounts.len() && forall|i: int|
                    0 <= i < request.mounts.len() ==> #[trigger] config.mounts[i] == (
                        i as usize,
                        request.mounts[i].target,
                        request.mounts[i].read_only,
                    )
                &&& job matches JobView::Guest(command) ==> command.timeout == request.timeout
                    && command.tty == request.tty && command.workdir == request.workdir
                    && command.stdin is None
            }
            &&& step matches SessionStepView::RunDetached(job) ==> {
                &&& progress.detached is None
                &&& job matches JobView::Container(config) ==> config.timeout is None && !config.tty
                    && config.persistent_overlay == Some(request.name) && (request.workdir is Some
                    ==> config.workdir == request.workdir) && (request.workdir is None
                    ==> config.workdir == info.workdir) && (request.user is Some ==> config.user
                    == request.user) && (request.user is None ==> config.user == info.user)
                    && config.mounts.len() == request.mounts.len() && forall|i: int|
                    0 <= i < request.mounts.len() ==> #[trigger] config.mounts[i] == (
                        i as usize,
                        request.mounts[i].target,
                        request.mounts[i].read_only,
                    )
                &&& job matches JobView::Guest(command) ==> command.timeout is None && !command.tty
                    && command.workdir == request.workdir && command.stdin is None
            }
        }),
{
}

/// Law: the command of a session, and each of its init commands, sees a variable with the
/// value that the request gives it, or else that of a secret, or else that of the image.
pub proof fn law_session_environment(
    request: MachineRunView,
    progress: SessionProgressView,
    defaults: CommandDefaultsView,
    job: JobView,
    key: Seq<char>,
)
    requires
        ({
            ||| session_step(request, progress, defaults) matches SessionStepView::Run {
                job: run,
                ..
            } && run == job
            ||| session_step(request, progress, defaults) == SessionStepView::RunDetached(job)
            ||| session_step(request, progress, defaults) == SessionStepView::RunInit(job)
        }),
    ensures
        ({
            let env = match job {
                JobView::Container(config) => config.env,
                JobView::Guest(command) => command.env,
            };
            let secrets = progress.secrets->0->Ok_0;
            &&& progress.secrets is Some && progress.secrets->0 is Ok
            &&& value_of(request.env, key) is Some ==> value_of(env, key) == value_of(
                request.env,
                key,
            )
            &&& value_of(request.env, key) is None && value_of(secrets, key) is Some ==> value_of(
                env,
                key,
            ) == value_of(secrets, key)
            &&& value_of(request.env, key) is None && value_of(secrets, key) is None
                && request.image is None ==> value_of(env, key) is None
            &&& value_of(request.env, key) is None && value_of(secrets, key) is None
                && request.image is Some ==> value_of(env, key) == value_of(
                image_variables(progress.image_env->0),
                key,
            )
        }),
{
    let secrets = progress.secrets->0->Ok_0;
    law_overrides_win(secrets, request.env, key);
    let env = overridden(secrets, request.env);
    if request.image is Some {
        law_overrides_win(image_variables(progress.image_env->0), env, key);
    }
}

/// Law: the init commands of a session run on a machine that it started, the next one that
/// has not run each time, as a line for the shell, where the command itself will run, in the
/// directory, as the user and with the mounts of the request.
pub proof fn law_session_init_runs_the_next_line(
    request: MachineRunView,
    progress: SessionProgressView,
    defaults: CommandDefaultsView,
)
    ensures
        session_step(request, progress, defaults) matches SessionStepView::RunInit(job) ==> {
            let line = seq!["sh"@, "-c"@, request.init[progress.init.len() as int]];
            let info = progress.pulled->0->Ok_0;
            &&& progress.launched is Some && progress.launched->0 is Ok && (
            progress.launched->0->Ok_0).0
            &&& progress.init.len() < request.init.len()
            &&& forall|i: int|
                0 <= i < progress.init.len() ==> (#[trigger] progress.init[i]) is Ok
                    && progress.init[i]->Ok_0.exit_code == 0
            &&& job is Container <==> request.image is Some
            &&& job matches JobView::Container(config) ==> config.command == line && request.image
                == Some(config.image) && config.persistent_overlay == Some(request.name)
                && config.timeout is None && !config.tty && (request.workdir is Some
                ==> config.workdir == request.workdir) && (request.workdir is None
                ==> config.workdir == info.workdir) && (request.user is Some ==> config.user
                == request.user) && (request.user is None ==> config.user == info.user)
                && config.mounts.len() == request.mounts.len() && forall|i: int|
                0 <= i < request.mounts.len() ==> #[trigger] config.mounts[i] == (
                    i as usize,
                    request.mounts[i].target,
                    request.mounts[i].read_only,
                )
            &&& job matches JobView::Guest(command) ==> command.command == line && command.workdir
                == request.workdir && command.timeout is None && !command.tty && command.stdin
                is None
        },
        session_step(request, progress, defaults) is Run || session_step(
            request,
            progress,
            defaults,
        ) is RunDetached ==> progress.launched is Some && progress.launched->0 is Ok && ((
        progress.launched->0->Ok_0).0 ==> progress.init.len() >= request.init.len() && forall|
            i: int,
        |
            0 <= i < progress.init.len() ==> (#[trigger] progress.init[i]) is Ok
                && progress.init[i]->Ok_0.exit_code == 0),
{
    law_init_fault_is_the_first(progress.init, 0);
}

/// Law: what a session checks, launches, pulls and reads is what the request says: its
/// resources, its ports, its hosts, its image with its platform and proxies, its secrets.
/// The SSH agent is forwarded exactly where that was asked for, and only the machine of a
/// foreground session is recorded as such, with its process.
pub proof fn law_session_launches_what_was_asked(
    request: MachineRunView,
    progress: SessionProgressView,
    defaults: CommandDefaultsView,
)
    requires
        request.ports.len() <= usize::MAX,
    ensures
        ({
            let step = session_step(request, progress, defaults);
            &&& step matches SessionStepView::CheckResources(resources) ==> resources
                == request.resources && progress.resources is None
            &&& step matches SessionStepView::CheckBackend { resources, dns_filter_hosts, ports }
                ==> resources == request.resources && dns_filter_hosts == request.dns_filter_hosts
                && ports == request.ports.len() && progress.backend is None
            &&& step matches SessionStepView::CheckDuplicates(ports) ==> ports == request.ports
                && progress.duplicates is None
            &&& step is CheckTaken ==> request.detached && !request.allow_existing_record
                && progress.taken is None
            &&& step matches SessionStepView::Announce(starting) ==> starting.name == request.name
                && starting.detached == request.detached && !progress.announced
            &&& step matches SessionStepView::OpenManager { storage_gb, overlay_gb } ==> storage_gb
                == request.resources.storage_gib && overlay_gb == request.resources.overlay_gib
                && progress.manager is None
            &&& step is FindSshSocket ==> request.ssh_agent && progress.ssh_socket is None
            &&& step matches SessionStepView::Launch(features) ==> features.dns_filter_hosts
                == request.dns_filter_hosts && !features.forkable && features.snapshot_dir is None
                && features.packed_from is None && (request.ssh_agent ==> progress.ssh_socket
                == Some(features.ssh_agent_socket) && features.ssh_agent_socket is Some) && (
            !request.ssh_agent ==> features.ssh_agent_socket is None) && progress.launched is None
                && progress.resources is Some && progress.resources->0 is Ok && progress.backend
                is Some && progress.backend->0 is Ok && progress.duplicates is Some
                && progress.duplicates->0 is Ok
            &&& step matches SessionStepView::Register(pid) ==> !request.detached
                && !progress.registered && progress.launched is Some && progress.launched->0 is Ok
                && pid == (progress.launched->0->Ok_0).1
            &&& step matches SessionStepView::Connect { guard } ==> guard == request.kill_on_sigint
                && progress.connected is None && (request.detached || progress.registered)
            &&& step matches SessionStepView::Pull { image, platform, proxy, no_proxy }
                ==> request.image == Some(image) && platform == request.oci_platform && proxy
                == request.proxy && no_proxy == request.no_proxy && progress.pulled is None
            &&& step matches SessionStepView::ReadSecrets(refs) ==> refs == request.secret_refs
                && progress.secrets is None
            &&& step matches SessionStepView::ParseImageEnv(entries) ==> progress.pulled is Some
                && progress.pulled->0 is Ok && entries == progress.pulled->0->Ok_0.env
                && progress.image_env is None
        }),
{
}

/// Law: a detached session leaves a record of what runs: its process, its image, and in an
/// image the command that was started, with the directory and the user that it has; without
/// an image what the request says. A session that runs nothing of its own is recorded all
/// the same.
pub proof fn law_detached_session_is_recorded(
    request: MachineRunView,
    progress: SessionProgressView,
    defaults: CommandDefaultsView,
)
    ensures
        session_step(request, progress, defaults) matches SessionStepView::Save(record) ==> {
            let info = progress.pulled->0->Ok_0;
            let own = request.entrypoint.len() > 0 || request.cmd.len() > 0;
            &&& request.detached && progress.saved is None
            &&& progress.launched is Some && progress.launched->0 is Ok && record.pid == (
            progress.launched->0->Ok_0).1
            &&& record.image == request.image
            &&& request.image is Some ==> progress.detached is Some && progress.detached->0 is Ok
            &&& request.image is Some ==> record.entrypoint.len() == 0
            &&& request.image is Some && request.command.len() > 0 ==> record.cmd
                == request.command
            &&& request.image is Some && request.command.len() == 0 && own ==> record.cmd
                == request.entrypoint + request.cmd
            &&& request.image is Some && request.workdir is Some ==> record.workdir
                == request.workdir
            &&& request.image is Some && request.workdir is None ==> record.workdir == info.workdir
            &&& request.image is Some && request.user is Some ==> record.user == request.user
            &&& request.image is Some && request.user is None ==> record.user == info.user
            &&& request.image is None ==> record.entrypoint == request.entrypoint && record.cmd
                == request.cmd && record.env == request.env && record.workdir == request.workdir
                && record.user == request.user
            &&& request.image is None && request.command.len() > 0 && request.command
                != defaults.idle ==> progress.detached is Some && progress.detached->0 is Ok
        },
        session_step(request, progress, defaults) is LetGo ==> request.detached
            && !progress.let_go && progress.saved is Some && progress.saved->0 is Ok,
{
}

/// Law: a session that succeeds gives what its command gave. In the foreground that is its exit
/// code, and its output where it was not interactive, after the output was shown. In the
/// background it is the name of the machine and its process, after its record was stored and
/// the machine was let go.
pub proof fn law_session_gives_the_result(
    request: MachineRunView,
    progress: SessionProgressView,
    defaults: CommandDefaultsView,
)
    ensures
        session_step(request, progress, defaults) matches SessionStepView::Show { stdout, stderr }
            ==> progress.output is Some && progress.output->0 is Ok && stdout
            == progress.output->0->Ok_0.stdout && stderr == progress.output->0->Ok_0.stderr
            && !progress.shown && !request.interactive && !request.tty && !request.detached,
        session_step(request, progress, defaults) matches SessionStepView::Finish(Ok(result)) ==> {
            let interactive = request.interactive || request.tty;
            &&& result is Detached <==> request.detached
            &&& result matches MachineRunResultView::Detached { name, pid } ==> name == request.name
                && progress.launched is Some && progress.launched->0 is Ok && pid == (
            progress.launched->0->Ok_0).1 && progress.saved is Some && progress.saved->0 is Ok
                && progress.let_go && (request.image is Some ==> progress.detached is Some
                && progress.detached->0 is Ok)
            &&& result matches MachineRunResultView::Foreground { exit_code, stdout, stderr } ==> {
                &&& progress.output is Some && progress.output->0 is Ok
                &&& exit_code == progress.output->0->Ok_0.exit_code
                &&& !interactive ==> stdout == progress.output->0->Ok_0.stdout && stderr
                    == progress.output->0->Ok_0.stderr && progress.shown
                &&& interactive ==> stdout.len() == 0 && stderr.len() == 0
                &&& progress.deregistered && progress.killed && progress.cleaned
            }
        },
{
}

/// Law: whatever becomes of the command, a foreground session that reached its machine removes
/// its record, kills it and removes its data, once and in this order, before it ends; a
/// detached one that fails stops the machine where it started it.
pub proof fn law_session_cleans_up(
    request: MachineRunView,
    progress: SessionProgressView,
    defaults: CommandDefaultsView,
)
    ensures
        ({
            let step = session_step(request, progress, defaults);
            &&& step is Deregister ==> !request.detached && !progress.deregistered
            &&& step is Kill ==> !request.detached && progress.deregistered && !progress.killed
            &&& step is CleanUp ==> !request.detached && progress.killed && !progress.cleaned
            &&& step is Stop ==> request.detached && !progress.stopped && progress.launched is Some
                && progress.launched->0 is Ok && (progress.launched->0->Ok_0).0
            &&& step is Finish && !request.detached && progress.connected is Some
                && progress.connected->0 is Ok && progress.launched is Some && progress.launched->0
                is Ok && progress.registered && progress.resources is Some && progress.resources->0
                is Ok && progress.backend is Some && progress.backend->0 is Ok && progress.announced
                && progress.manager is Some && progress.manager->0 is Ok && (!request.ssh_agent || (
            progress.ssh_socket is Some && progress.ssh_socket->0 is Some)) && progress.duplicates
                is Some && progress.duplicates->0 is Ok && (forall|i: int|
                0 <= i < request.ports.len() ==> (#[trigger] request.ports[i]).host != 0
                    && request.ports[i].guest != 0) ==> progress.deregistered && progress.killed
                && progress.cleaned
        }),
{
}

/// Law: a session fails only with an error that it was given, or where its settings, its name,
/// its secrets or its image are the reason.
pub proof fn law_failed_session_tells_why(
    request: MachineRunView,
    progress: SessionProgressView,
    defaults: CommandDefaultsView,
    error: ErrorView,
)
    requires
        session_step(request, progress, defaults) == SessionStepView::Finish(Err(error)),
    ensures
        ({
            ||| progress.resources == Some(Err::<(), ErrorView>(error))
            ||| progress.backend == Some(Err::<(), ErrorView>(error))
            ||| progress.duplicates is Some && ports_checked(
                request.ports,
                progress.duplicates->0,
            ) == Err::<(), ErrorView>(error)
            ||| progress.taken == Some(Err::<bool, ErrorView>(error))
            ||| progress.taken == Some(Ok::<bool, ErrorView>(true)) && error is Config
            ||| progress.manager is Some && progress.manager->0 is Err && error == (
            ErrorView::Agent {
                operation: "create agent manager"@,
                reason: progress.manager->0->Err_0,
            })
            ||| progress.ssh_socket == Some(None::<Seq<char>>) && error is Config
            ||| progress.launched is Some && progress.launched->0 is Err && error == (
            ErrorView::Agent { operation: "start machine"@, reason: progress.launched->0->Err_0 })
            ||| progress.connected == Some(Err::<(), ErrorView>(error))
            ||| progress.pulled is Some && progress.pulled->0 is Err && (error == (
            progress.pulled->0->Err_0).0 || !request.resources.network)
            ||| progress.secrets == Some(Err::<EnvView, ErrorView>(error))
            ||| exists|i: int|
                0 <= i < request.secret_refs.len() && ref_fault(
                    (#[trigger] request.secret_refs[i]).1,
                    request.secret_scope,
                ) is Some
            ||| exists|i: int|
                0 <= i < progress.init.len() && ((#[trigger] progress.init[i]) is Err
                    || progress.init[i]->Ok_0.exit_code != 0) && init_fault(progress.init, 0)
                    == Some(error)
            ||| progress.detached == Some(Err::<(), ErrorView>(error))
            ||| progress.saved == Some(Err::<(), ErrorView>(error))
            ||| progress.output is Some && progress.output->0 is Err && (error == (
            progress.output->0->Err_0).0 || (request.image is None && error is Agent))
        }),
{
    law_init_fault_is_the_first(progress.init, 0);
    law_secrets_are_checked_one_by_one("secrets"@, request.secret_refs, request.secret_scope);
}

/// Law: a session gives a result only after everything that it needs was done: its resources were
/// accepted, its machine was launched and reached, its image was there, its secrets were read and the
/// init commands of a machine that was newly started succeeded.
pub proof fn law_session_ends_well_only_when_ready(
    request: MachineRunView,
    progress: SessionProgressView,
    defaults: CommandDefaultsView,
    result: MachineRunResultView,
)
    requires
        session_step(request, progress, defaults) == SessionStepView::Finish(Ok(result)),
    ensures
        progress.resources is Some && progress.resources->0 is Ok,
        progress.backend is Some && progress.backend->0 is Ok,
        progress.manager is Some && progress.manager->0 is Ok,
        progress.launched is Some && progress.launched->0 is Ok,
        progress.connected is Some && progress.connected->0 is Ok,
        progress.secrets is Some && progress.secrets->0 is Ok,
        request.image is Some ==> progress.pulled is Some && progress.pulled->0 is Ok,
        (progress.launched->0->Ok_0).0 ==> progress.init.len() >= request.init.len() && forall|i: int|
            0 <= i < progress.init.len() ==> (#[trigger] progress.init[i]) is Ok
                && progress.init[i]->Ok_0.exit_code == 0,
        request.detached && !request.allow_existing_record ==> progress.taken == Some(
            Ok::<bool, ErrorView>(false),
        ),
        request.ssh_agent ==> progress.ssh_socket is Some && progress.ssh_socket->0 is Some,
        !request.detached ==> progress.registered,
{
    law_init_fault_is_the_first(progress.init, 0);
}

/// Law: a hint is added to the error of a command that failed in the guest exactly where the error tells
/// of a missing file and the program was named without a path; the hint keeps the error's text and
/// names the program. Any other error stays as it is.
pub proof fn law_hint_for_a_missing_program(
    error: ErrorView,
    message: Seq<char>,
    program: Seq<char>,
)
    ensures
        ({
            let told = has_part(message, "No such file or directory"@) || has_part(
                message,
                "os error 2"@,
            );
            let bare = program.len() > 0 && program[0] != '/' && program[0] != '.';
            let shown = bare_run_error(error, message, program);
            &&& !(told && bare) ==> shown == error
            &&& told && bare ==> shown is Agent && message.is_prefix_of(shown->Agent_reason)
                && has_part(shown->Agent_reason.skip(message.len() as int), program)
        }),
{
    reveal_strlit("/");
    reveal_strlit(".");
    assert(("/"@).len() == 1 && ("/"@)[0] == '/');
    assert(("."@).len() == 1 && ("."@)[0] == '.');
    if program.len() > 0 {
        if program[0] == '/' {
            assert(program.take(1) =~= "/"@);
        }
        if program[0] == '.' {
            assert(program.take(1) =~= "."@);
        }
        if ("/"@).is_prefix_of(program) {
            assert(program.take(1)[0] == program[0]);
        }
        if ("."@).is_prefix_of(program) {
            assert(program.take(1)[0] == program[0]);
        }
    }
    if looks_missing(message, program) {
        let text = bare_run_error(error, message, program)->Agent_reason;
        let rest = text.skip(message.len() as int);
        let at = ("\n\nNote: '"@).len() as int;
        assert(text.take(message.len() as int) =~= message);
        assert(rest.subrange(at, at + program.len()) =~= program);
        assert(crate::text::stands_at(rest, program, at));
    }
}

} // verus!
