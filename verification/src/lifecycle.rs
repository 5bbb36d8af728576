//! Order of start, stop and delete: which step follows from what the
//! steps before it gave.

use crate::bytes::{lossy_text, text_of_bytes, trim, trimmed};
use crate::env::{environment_of_record, record_env_with_secrets, EnvView};
use crate::error::{Error, ErrorView};
use crate::model::{extend_from, one_of, push_to, Model};
use crate::records::{get_record, record_found};
use crate::requests::{
    DeleteMachine, DeleteMachineView, ExecResult, ExecResultView, MachineStatus, MachineStatusView,
    StartMachine, StartMachineView, StopMachine, StopMachineView,
};
use crate::secrets::{SecretMap, SecretMapView};
use crate::text::{cat3, cat5, cat7, decimal, join, joined, number, own, signed_decimal, signed_number};
use crate::types::{
    bindings_of, record_mounts_to_runconfig_bindings, GuestCommand, GuestCommandView, ImageInfo,
    ImageInfoView, Job, JobView, PullOptions, PullOptionsView, RecordState, RunConfig,
    RunConfigView, VmRecord, VmRecordView,
};
use vstd::prelude::*;

verus! {

/// Extra features that a machine is launched with.
#[derive(Debug, PartialEq, Eq)]
pub struct LaunchFeatures {
    /// Socket of the host's SSH agent to forward.
    pub ssh_agent_socket: Option<String>,
    /// Hosts that the guest may look up.
    pub dns_filter_hosts: Option<Vec<String>>,
    /// Whether a control socket is opened, so that the machine can be forked.
    pub forkable: bool,
    /// Directory of the snapshot to start from.
    pub snapshot_dir: Option<String>,
    /// Packed machine whose layers are mounted.
    pub packed_from: Option<String>,
}

/// Mathematical model of a [`LaunchFeatures`].
pub struct LaunchFeaturesView {
    pub ssh_agent_socket: Option<Seq<char>>,
    pub dns_filter_hosts: Option<Seq<Seq<char>>>,
    pub forkable: bool,
    pub snapshot_dir: Option<Seq<char>>,
    pub packed_from: Option<Seq<char>>,
}

impl Model for LaunchFeatures {
    type V = LaunchFeaturesView;

    open spec fn model(&self) -> LaunchFeaturesView {
        LaunchFeaturesView {
            ssh_agent_socket: self.ssh_agent_socket.model(),
            dns_filter_hosts: self.dns_filter_hosts.model(),
            forkable: self.forkable.model(),
            snapshot_dir: self.snapshot_dir.model(),
            packed_from: self.packed_from.model(),
        }
    }

    fn dup(&self) -> (copy: Self) {
        LaunchFeatures {
            ssh_agent_socket: self.ssh_agent_socket.dup(),
            dns_filter_hosts: self.dns_filter_hosts.dup(),
            forkable: self.forkable.dup(),
            snapshot_dir: self.snapshot_dir.dup(),
            packed_from: self.packed_from.dup(),
        }
    }
}

/// The features that a start asks for, or why it cannot have them. `ssh_socket`
/// is the socket of the host's SSH agent, if there is one.
pub open spec fn features_of(
    request: StartMachineView,
    record: VmRecordView,
    ssh_socket: Option<Seq<char>>,
) -> Result<LaunchFeaturesView, ErrorView> {
    if record.ssh_agent && ssh_socket is None {
        Err(ErrorView::Config { operation: "ssh-agent"@, reason: "SSH_AUTH_SOCK is not set"@ })
    } else {
        Ok(
            LaunchFeaturesView {
                ssh_agent_socket: if record.ssh_agent {
                    ssh_socket
                } else {
                    None
                },
                dns_filter_hosts: record.dns_filter_hosts,
                forkable: request.forkable,
                snapshot_dir: request.snapshot_dir,
                packed_from: record.source_smolmachine,
            },
        )
    }
}

/// Collects the features that a start asks for.
pub fn launch_features(
    request: &StartMachine,
    record: &VmRecord,
    ssh_socket: &Option<String>,
) -> (features: Result<LaunchFeatures, Error>)
    ensures
        features.model() == features_of(request.model(), record.model(), ssh_socket.model()),
{
    if record.ssh_agent && ssh_socket.is_none() {
        return Err(Error::config("ssh-agent", own("SSH_AUTH_SOCK is not set")));
    }
    Ok(
        LaunchFeatures {
            ssh_agent_socket: if record.ssh_agent {
                ssh_socket.dup()
            } else {
                None
            },
            dns_filter_hosts: record.dns_filter_hosts.dup(),
            forkable: request.forkable,
            snapshot_dir: request.snapshot_dir.dup(),
            packed_from: record.source_smolmachine.dup(),
        },
    )
}

/// A shell command line as a list of arguments.
pub open spec fn shell_words(shell: Seq<char>, line: Seq<char>) -> Seq<Seq<char>> {
    seq![shell, "-c"@, line]
}

/// Makes the arguments that run a command line in a shell.
pub fn shell_command(shell: &str, line: &str) -> (words: Vec<String>)
    ensures
        words.model() == shell_words(shell@, line@),
{
    let mut words: Vec<String> = one_of(own(shell));
    push_to(&mut words, own("-c"));
    push_to(&mut words, own(line));
    assert(words.model() =~= shell_words(shell@, line@));
    words
}

/// The job that runs one init command of a machine.
pub open spec fn init_job(
    name: Seq<char>,
    record: VmRecordView,
    env: EnvView,
    line: Seq<char>,
) -> JobView {
    match record.image {
        Some(image) => JobView::Container(
            RunConfigView {
                image,
                command: shell_words("/bin/sh"@, line),
                env,
                workdir: record.workdir,
                user: record.user,
                mounts: bindings_of(record.mounts),
                timeout: None,
                tty: false,
                persistent_overlay: Some(name),
            },
        ),
        None => JobView::Guest(
            GuestCommandView {
                command: shell_words("/bin/sh"@, line),
                env,
                workdir: record.workdir,
                timeout: None,
                stdin: None,
                tty: false,
            },
        ),
    }
}

/// Makes the job that runs one init command of a machine.
pub fn make_init_job(name: &str, record: &VmRecord, env: &Vec<(String, String)>, line: &str) -> (job:
    Job)
    ensures
        job.model() == init_job(name@, record.model(), env.model(), line@),
{
    match &record.image {
        Some(image) => Job::Container(
            RunConfig {
                image: image.dup(),
                command: shell_command("/bin/sh", line),
                env: env.dup(),
                workdir: record.workdir.dup(),
                user: record.user.dup(),
                mounts: record_mounts_to_runconfig_bindings(&record.mounts),
                timeout: None,
                tty: false,
                persistent_overlay: Some(own(name)),
            },
        ),
        None => Job::Guest(
            GuestCommand {
                command: shell_command("/bin/sh", line),
                env: env.dup(),
                workdir: record.workdir.dup(),
                timeout: None,
                stdin: None,
                tty: false,
            },
        ),
    }
}

/// The job that starts the workload of a machine with an image.
pub open spec fn workload_config(
    name: Seq<char>,
    record: VmRecordView,
    image: Seq<char>,
    env: EnvView,
) -> RunConfigView {
    RunConfigView {
        image,
        command: record.entrypoint + record.cmd,
        env,
        workdir: record.workdir,
        user: record.user,
        mounts: bindings_of(record.mounts),
        timeout: None,
        tty: false,
        persistent_overlay: Some(name),
    }
}

/// Makes the job that starts the workload of a machine with an image.
pub fn launch_workload(
    name: &str,
    record: &VmRecord,
    image: &str,
    env: Vec<(String, String)>,
) -> (config: RunConfig)
    ensures
        config.model() == workload_config(name@, record.model(), image@, env.model()),
{
    let mut command: Vec<String> = record.entrypoint.dup();
    extend_from(&mut command, &record.cmd);
    RunConfig {
        image: own(image),
        command,
        env,
        workdir: record.workdir.dup(),
        user: record.user.dup(),
        mounts: record_mounts_to_runconfig_bindings(&record.mounts),
        timeout: None,
        tty: false,
        persistent_overlay: Some(own(name)),
    }
}

/// The error of an init command that failed.
pub open spec fn init_error(index: nat, output: ExecResultView) -> ErrorView {
    ErrorView::Agent {
        operation: "run init"@,
        reason: "init["@ + decimal(index) + "] failed (exit "@ + signed_decimal(
            output.exit_code as int,
        ) + "): "@ + trimmed(lossy_text(output.stderr)) + "; stdout: "@ + trimmed(
            lossy_text(output.stdout),
        ),
    }
}

/// The error of the first init command that failed, of those from `from` on.
pub open spec fn init_fault(
    outputs: Seq<Result<ExecResultView, ErrorView>>,
    from: nat,
) -> Option<ErrorView>
    decreases outputs.len() - from,
{
    if from >= outputs.len() {
        None
    } else {
        match outputs[from as int] {
            Err(error) => Some(error),
            Ok(output) => if output.exit_code != 0 {
                Some(init_error(from, output))
            } else {
                init_fault(outputs, from + 1)
            },
        }
    }
}

/// Finds the first init command that failed.
pub fn find_init_fault(outputs: &Vec<Result<ExecResult, Error>>) -> (fault: Option<Error>)
    ensures
        fault.model() == init_fault(outputs.model(), 0),
{
    let mut i: usize = 0;
    while i < outputs.len()
        invariant
            i <= outputs.len(),
            init_fault(outputs.model(), i as nat) == init_fault(outputs.model(), 0),
        decreases outputs.len() - i,
    {
        assert(outputs.model()[i as int] == outputs[i as int].model());
        match &outputs[i] {
            Err(error) => {
                return Some(error.dup());
            },
            Ok(output) => {
                if output.exit_code != 0 {
                    assert(output.stderr.model() =~= output.stderr@);
                    assert(output.stdout.model() =~= output.stdout@);
                    let stderr: String = trim(text_of_bytes(&output.stderr).as_str());
                    let stdout: String = trim(text_of_bytes(&output.stdout).as_str());
                    let lead: String = cat5(
                        "init[",
                        number(i as u64).as_str(),
                        "] failed (exit ",
                        signed_number(output.exit_code).as_str(),
                        "): ",
                    );
                    let mut reason: String = lead;
                    reason.append(stderr.as_str());
                    reason.append("; stdout: ");
                    reason.append(stdout.as_str());
                    return Some(Error::agent("run init", reason));
                }
            },
        }
        i += 1;
    }
    None
}

/// How an image is pulled by a request with these proxy settings.
pub open spec fn pull_options(
    platform: Option<Seq<char>>,
    proxy: Option<Seq<char>>,
    no_proxy: Option<Seq<char>>,
) -> PullOptionsView {
    PullOptionsView { use_registry_config: true, oci_platform: platform, proxy, no_proxy }
}

/// What a start has learnt so far.
#[derive(Debug, PartialEq, Eq)]
pub struct StartProgress {
    /// What reading the record gave.
    pub record: Option<Result<Option<VmRecord>, Error>>,
    /// The state that the machine was found in.
    pub state: Option<RecordState>,
    /// Whether an unreachable machine was cleaned up.
    pub recovered: bool,
    /// What reading the record again after that gave.
    pub reloaded: Option<Result<Option<VmRecord>, Error>>,
    /// What opening the machine's manager gave.
    pub manager: Option<Result<(), String>>,
    /// The socket of the host's SSH agent, once it was looked up.
    pub ssh_socket: Option<Option<String>>,
    /// What preparing the launch features gave.
    pub prepared: Option<Result<(), Error>>,
    /// The process of the machine, once it was launched.
    pub launched: Option<Result<Option<i32>, String>>,
    /// What connecting to the agent gave.
    pub connected: Option<Result<(), Error>>,
    /// What reading the machine's secrets gave.
    pub secrets: Option<Result<Vec<(String, String)>, Error>>,
    /// What pulling the image gave.
    pub pulled: Option<Result<ImageInfo, Error>>,
    /// What each init command gave.
    pub init: Vec<Result<ExecResult, Error>>,
    /// Whether the end of the first start was noted in the record.
    pub init_saved: bool,
    /// What starting the workload gave.
    pub workload: Option<Result<(), Error>>,
    /// What noting the running machine gave: whether its record was there.
    pub marked: Option<Result<bool, Error>>,
    /// The status of the started machine.
    pub status: Option<Result<Option<MachineStatus>, Error>>,
    /// The state of a machine that was running already.
    pub running_state: Option<RecordState>,
}

/// Mathematical model of a [`StartProgress`].
pub struct StartProgressView {
    pub record: Option<Result<Option<VmRecordView>, ErrorView>>,
    pub state: Option<RecordState>,
    pub recovered: bool,
    pub reloaded: Option<Result<Option<VmRecordView>, ErrorView>>,
    pub manager: Option<Result<(), Seq<char>>>,
    pub ssh_socket: Option<Option<Seq<char>>>,
    pub prepared: Option<Result<(), ErrorView>>,
    pub launched: Option<Result<Option<i32>, Seq<char>>>,
    pub connected: Option<Result<(), ErrorView>>,
    pub secrets: Option<Result<Seq<(Seq<char>, Seq<char>)>, ErrorView>>,
    pub pulled: Option<Result<ImageInfoView, ErrorView>>,
    pub init: Seq<Result<ExecResultView, ErrorView>>,
    pub init_saved: bool,
    pub workload: Option<Result<(), ErrorView>>,
    pub marked: Option<Result<bool, ErrorView>>,
    pub status: Option<Result<Option<MachineStatusView>, ErrorView>>,
    pub running_state: Option<RecordState>,
}

impl Model for StartProgress {
    type V = StartProgressView;

    open spec fn model(&self) -> StartProgressView {
        StartProgressView {
            record: self.record.model(),
            state: self.state.model(),
            recovered: self.recovered.model(),
            reloaded: self.reloaded.model(),
            manager: self.manager.model(),
            ssh_socket: self.ssh_socket.model(),
            prepared: self.prepared.model(),
            launched: self.launched.model(),
            connected: self.connected.model(),
            secrets: self.secrets.model(),
            pulled: self.pulled.model(),
            init: self.init.model(),
            init_saved: self.init_saved.model(),
            workload: self.workload.model(),
            marked: self.marked.model(),
            status: self.status.model(),
            running_state: self.running_state.model(),
        }
    }

    fn dup(&self) -> (copy: Self) {
        StartProgress {
            record: self.record.dup(),
            state: self.state.dup(),
            recovered: self.recovered.dup(),
            reloaded: self.reloaded.dup(),
            manager: self.manager.dup(),
            ssh_socket: self.ssh_socket.dup(),
            prepared: self.prepared.dup(),
            launched: self.launched.dup(),
            connected: self.connected.dup(),
            secrets: self.secrets.dup(),
            pulled: self.pulled.dup(),
            init: self.init.dup(),
            init_saved: self.init_saved.dup(),
            workload: self.workload.dup(),
            marked: self.marked.dup(),
            status: self.status.dup(),
            running_state: self.running_state.dup(),
        }
    }
}

/// What a start does next.
#[derive(Debug, PartialEq, Eq)]
pub enum StartStep {
    /// Read the record.
    LoadRecord,
    /// Find out the state of the machine.
    ProbeState,
    /// Find out the state of the running machine once more, for its status.
    ProbeRunning,
    /// Clean up after the unreachable machine.
    Recover(VmRecord),
    /// Read the record again.
    ReloadRecord,
    /// Open the manager of the machine with these disk sizes.
    OpenManager { storage_gb: Option<u64>, overlay_gb: Option<u64> },
    /// Look up the socket of the host's SSH agent.
    FindSshSocket,
    /// Prepare these features.
    Prepare(LaunchFeatures),
    /// Launch the machine of this record.
    Launch(VmRecord),
    /// Connect to the agent.
    Connect,
    /// Read these secrets.
    ReadSecrets(SecretMap),
    /// Pull an image.
    Pull { image: String, options: PullOptions },
    /// Run an init command.
    RunInit(Job),
    /// Note in the record that the first start is complete.
    SaveInitCompleted,
    /// Start the workload.
    LaunchWorkload(RunConfig),
    /// Note in the record that the machine runs.
    MarkRunning(Option<i32>),
    /// Read the status of the machine.
    LoadStatus,
    /// The start is over.
    Finish(Result<MachineStatus, Error>),
}

/// Mathematical model of a [`StartStep`].
pub enum StartStepView {
    LoadRecord,
    ProbeState,
    ProbeRunning,
    Recover(VmRecordView),
    ReloadRecord,
    OpenManager { storage_gb: Option<u64>, overlay_gb: Option<u64> },
    FindSshSocket,
    Prepare(LaunchFeaturesView),
    Launch(VmRecordView),
    Connect,
    ReadSecrets(SecretMapView),
    Pull { image: Seq<char>, options: PullOptionsView },
    RunInit(JobView),
    SaveInitCompleted,
    LaunchWorkload(RunConfigView),
    MarkRunning(Option<i32>),
    LoadStatus,
    Finish(Result<MachineStatusView, ErrorView>),
}

impl Model for StartStep {
    type V = StartStepView;

    open spec fn model(&self) -> StartStepView {
        match self {
            StartStep::LoadRecord => StartStepView::LoadRecord,
            StartStep::ProbeState => StartStepView::ProbeState,
            StartStep::ProbeRunning => StartStepView::ProbeRunning,
            StartStep::Recover(value) => StartStepView::Recover(value.model()),
            StartStep::ReloadRecord => StartStepView::ReloadRecord,
            StartStep::OpenManager { storage_gb, overlay_gb } => StartStepView::OpenManager { storage_gb: storage_gb.model(), overlay_gb: overlay_gb.model() },
            StartStep::FindSshSocket => StartStepView::FindSshSocket,
            StartStep::Prepare(value) => StartStepView::Prepare(value.model()),
            StartStep::Launch(value) => StartStepView::Launch(value.model()),
            StartStep::Connect => StartStepView::Connect,
            StartStep::ReadSecrets(value) => StartStepView::ReadSecrets(value.model()),
            StartStep::Pull { image, options } => StartStepView::Pull { image: image.model(), options: options.model() },
            StartStep::RunInit(value) => StartStepView::RunInit(value.model()),
            StartStep::SaveInitCompleted => StartStepView::SaveInitCompleted,
            StartStep::LaunchWorkload(value) => StartStepView::LaunchWorkload(value.model()),
            StartStep::MarkRunning(value) => StartStepView::MarkRunning(value.model()),
            StartStep::LoadStatus => StartStepView::LoadStatus,
            StartStep::Finish(value) => StartStepView::Finish(value.model()),
        }
    }

    fn dup(&self) -> (copy: Self) {
        match self {
            StartStep::LoadRecord => StartStep::LoadRecord,
            StartStep::ProbeState => StartStep::ProbeState,
            StartStep::ProbeRunning => StartStep::ProbeRunning,
            StartStep::Recover(value) => StartStep::Recover(value.dup()),
            StartStep::ReloadRecord => StartStep::ReloadRecord,
            StartStep::OpenManager { storage_gb, overlay_gb } => StartStep::OpenManager { storage_gb: storage_gb.dup(), overlay_gb: overlay_gb.dup() },
            StartStep::FindSshSocket => StartStep::FindSshSocket,
            StartStep::Prepare(value) => StartStep::Prepare(value.dup()),
            StartStep::Launch(value) => StartStep::Launch(value.dup()),
            StartStep::Connect => StartStep::Connect,
            StartStep::ReadSecrets(value) => StartStep::ReadSecrets(value.dup()),
            StartStep::Pull { image, options } => StartStep::Pull { image: image.dup(), options: options.dup() },
            StartStep::RunInit(value) => StartStep::RunInit(value.dup()),
            StartStep::SaveInitCompleted => StartStep::SaveInitCompleted,
            StartStep::LaunchWorkload(value) => StartStep::LaunchWorkload(value.dup()),
            StartStep::MarkRunning(value) => StartStep::MarkRunning(value.dup()),
            StartStep::LoadStatus => StartStep::LoadStatus,
            StartStep::Finish(value) => StartStep::Finish(value.dup()),
        }
    }
}

/// What a start that must end with an error does.
pub open spec fn start_failed(error: ErrorView) -> StartStepView {
    StartStepView::Finish(Err(error))
}

/// Whether this is the first start of a machine that is not started from a
/// snapshot.
pub open spec fn is_first_start(request: StartMachineView, record: VmRecordView) -> bool {
    !record.init_completed && request.snapshot_dir is None
}

/// Whether a start pulls the image of the machine.
pub open spec fn needs_pull(request: StartMachineView, record: VmRecordView) -> bool {
    is_first_start(request, record) && record.image is Some && record.source_smolmachine is None
}

/// Whether a start runs the init commands of the machine: every start does, but
/// for one from a snapshot, in which they have run.
pub open spec fn runs_init(request: StartMachineView) -> bool {
    request.snapshot_dir is None
}

/// Whether a start launches a workload: one without a snapshot, of a machine with
/// an image and a command of its own. What the image would run does not count.
pub open spec fn runs_workload(request: StartMachineView, record: VmRecordView) -> bool {
    request.snapshot_dir is None && record.image is Some && (record.entrypoint.len() > 0
        || record.cmd.len() > 0)
}

/// The end of a start: its workload, its record and its status.
pub open spec fn start_workload_step(
    request: StartMachineView,
    progress: StartProgressView,
    record: VmRecordView,
    pid: Option<i32>,
    env: EnvView,
) -> StartStepView {
    if !record.init_completed && (record.init.len() > 0 || record.image is Some)
        && !progress.init_saved {
        StartStepView::SaveInitCompleted
    } else if runs_workload(request, record) && progress.workload is None {
        StartStepView::LaunchWorkload(workload_config(request.name, record, record.image->0, env))
    } else if runs_workload(request, record) && progress.workload->0 is Err {
        start_failed(progress.workload->0->Err_0)
    } else {
        match progress.marked {
            None => StartStepView::MarkRunning(pid),
            Some(Err(error)) => start_failed(error),
            Some(Ok(false)) => start_failed(ErrorView::VmNotFound { name: request.name }),
            Some(Ok(true)) => match progress.status {
                None => StartStepView::LoadStatus,
                Some(Err(error)) => start_failed(error),
                Some(Ok(None)) => start_failed(ErrorView::VmNotFound { name: request.name }),
                Some(Ok(Some(status))) => StartStepView::Finish(Ok(status)),
            },
        }
    }
}

/// The image and the init commands of a start.
pub open spec fn start_init_step(
    request: StartMachineView,
    progress: StartProgressView,
    record: VmRecordView,
    pid: Option<i32>,
    env: EnvView,
) -> StartStepView {
    if needs_pull(request, record) && progress.pulled is None {
        StartStepView::Pull {
            image: record.image->0,
            options: pull_options(None, request.proxy, request.no_proxy),
        }
    } else if needs_pull(request, record) && progress.pulled->0 is Err {
        start_failed(progress.pulled->0->Err_0)
    } else if runs_init(request) && init_fault(progress.init, 0) is Some {
        start_failed(init_fault(progress.init, 0)->0)
    } else if runs_init(request) && progress.init.len() < record.init.len() {
        StartStepView::RunInit(
            init_job(request.name, record, env, record.init[progress.init.len() as int]),
        )
    } else {
        start_workload_step(request, progress, record, pid, env)
    }
}

/// The launch of a machine that does not run.
pub open spec fn start_launch_step(
    request: StartMachineView,
    progress: StartProgressView,
    record: VmRecordView,
) -> StartStepView {
    if progress.manager is None {
        StartStepView::OpenManager { storage_gb: record.storage_gb, overlay_gb: record.overlay_gb }
    } else if progress.manager->0 is Err {
        start_failed(
            ErrorView::Agent {
                operation: "create agent manager"@,
                reason: progress.manager->0->Err_0,
            },
        )
    } else if record.ssh_agent && progress.ssh_socket is None {
        StartStepView::FindSshSocket
    } else {
        match features_of(
            request,
            record,
            if progress.ssh_socket is Some {
                progress.ssh_socket->0
            } else {
                None
            },
        ) {
            Err(error) => start_failed(error),
            Ok(features) => if progress.prepared is None {
                StartStepView::Prepare(features)
            } else if progress.prepared->0 is Err {
                start_failed(progress.prepared->0->Err_0)
            } else {
                match progress.launched {
                    None => StartStepView::Launch(record),
                    Some(Err(reason)) => start_failed(
                        ErrorView::Agent { operation: "start machine"@, reason },
                    ),
                    Some(Ok(pid)) => if progress.connected is None {
                        StartStepView::Connect
                    } else if progress.connected->0 is Err {
                        start_failed(progress.connected->0->Err_0)
                    } else {
                        match progress.secrets {
                            None => StartStepView::ReadSecrets(record.secret_refs),
                            Some(resolved) => match environment_of_record(record, resolved) {
                                Err(error) => start_failed(error),
                                Ok(env) => start_init_step(request, progress, record, pid, env),
                            },
                        }
                    },
                }
            },
        }
    }
}

/// What a start does next.
pub open spec fn start_step(
    request: StartMachineView,
    progress: StartProgressView,
) -> StartStepView {
    match progress.record {
        None => StartStepView::LoadRecord,
        Some(loaded) => match record_found(request.name, loaded) {
            Err(error) => start_failed(error),
            Ok(record) => match progress.state {
                None => StartStepView::ProbeState,
                Some(RecordState::Running) => match progress.running_state {
                    None => StartStepView::ProbeRunning,
                    Some(state) => StartStepView::Finish(
                        Ok(MachineStatusView { name: request.name, state, record }),
                    ),
                },
                Some(RecordState::Unreachable) => if !progress.recovered {
                    StartStepView::Recover(record)
                } else {
                    match progress.reloaded {
                        None => StartStepView::ReloadRecord,
                        Some(reloaded) => match record_found(request.name, reloaded) {
                            Err(error) => start_failed(error),
                            Ok(again) => start_launch_step(request, progress, again),
                        },
                    }
                },
                Some(_) => start_launch_step(request, progress, record),
            },
        },
    }
}

fn decide_start_workload(
    request: &StartMachine,
    progress: &StartProgress,
    record: &VmRecord,
    pid: Option<i32>,
    env: Vec<(String, String)>,
) -> (step: StartStep)
    ensures
        step.model() == start_workload_step(
            request.model(),
            progress.model(),
            record.model(),
            pid,
            env.model(),
        ),
{
    if !record.init_completed && (record.init.len() > 0 || record.image.is_some())
        && !progress.init_saved {
        return StartStep::SaveInitCompleted;
    }
    if request.snapshot_dir.is_none() && (record.entrypoint.len() > 0 || record.cmd.len() > 0) {
        if let Some(image) = &record.image {
            match &progress.workload {
                None => {
                    return StartStep::LaunchWorkload(
                        launch_workload(request.name.as_str(), record, image.as_str(), env),
                    );
                },
                Some(Err(error)) => {
                    return StartStep::Finish(Err(error.dup()));
                },
                Some(Ok(_)) => {},
            }
        }
    }
    match &progress.marked {
        None => StartStep::MarkRunning(pid),
        Some(Err(error)) => StartStep::Finish(Err(error.dup())),
        Some(Ok(found)) => if !*found {
            StartStep::Finish(Err(Error::vm_not_found(request.name.as_str())))
        } else {
            match &progress.status {
                None => StartStep::LoadStatus,
                Some(Err(error)) => StartStep::Finish(Err(error.dup())),
                Some(Ok(None)) => StartStep::Finish(
                    Err(Error::vm_not_found(request.name.as_str())),
                ),
                Some(Ok(Some(status))) => StartStep::Finish(Ok(status.dup())),
            }
        },
    }
}

fn decide_start_init(
    request: &StartMachine,
    progress: &StartProgress,
    record: &VmRecord,
    pid: Option<i32>,
    env: Vec<(String, String)>,
) -> (step: StartStep)
    ensures
        step.model() == start_init_step(
            request.model(),
            progress.model(),
            record.model(),
            pid,
            env.model(),
        ),
{
    if !record.init_completed && request.snapshot_dir.is_none()
        && record.source_smolmachine.is_none() {
        if let Some(image) = &record.image {
            match &progress.pulled {
                None => {
                    return StartStep::Pull {
                        image: image.dup(),
                        options: PullOptions {
                            use_registry_config: true,
                            oci_platform: None,
                            proxy: request.proxy.dup(),
                            no_proxy: request.no_proxy.dup(),
                        },
                    };
                },
                Some(Err(error)) => {
                    return StartStep::Finish(Err(error.dup()));
                },
                Some(Ok(_)) => {},
            }
        }
    }
    if request.snapshot_dir.is_none() {
        if let Some(error) = find_init_fault(&progress.init) {
            return StartStep::Finish(Err(error));
        }
        if progress.init.len() < record.init.len() {
            let line: &String = &record.init[progress.init.len()];
            return StartStep::RunInit(
                make_init_job(request.name.as_str(), record, &env, line.as_str()),
            );
        }
    }
    decide_start_workload(request, progress, record, pid, env)
}

fn decide_start_launch(
    request: &StartMachine,
    progress: &StartProgress,
    record: &VmRecord,
) -> (step: StartStep)
    ensures
        step.model() == start_launch_step(request.model(), progress.model(), record.model()),
{
    match &progress.manager {
        None => {
            return StartStep::OpenManager {
                storage_gb: record.storage_gb,
                overlay_gb: record.overlay_gb,
            };
        },
        Some(Err(reason)) => {
            return StartStep::Finish(Err(Error::agent("create agent manager", reason.dup())));
        },
        Some(Ok(_)) => {},
    }
    if record.ssh_agent && progress.ssh_socket.is_none() {
        return StartStep::FindSshSocket;
    }
    let ssh_socket: Option<String> = match &progress.ssh_socket {
        Some(found) => found.dup(),
        None => None,
    };
    let features: LaunchFeatures = match launch_features(request, record, &ssh_socket) {
        Err(error) => {
            return StartStep::Finish(Err(error));
        },
        Ok(features) => features,
    };
    match &progress.prepared {
        None => {
            return StartStep::Prepare(features);
        },
        Some(Err(error)) => {
            return StartStep::Finish(Err(error.dup()));
        },
        Some(Ok(_)) => {},
    }
    let pid: Option<i32> = match &progress.launched {
        None => {
            return StartStep::Launch(record.dup());
        },
        Some(Err(reason)) => {
            return StartStep::Finish(Err(Error::agent("start machine", reason.dup())));
        },
        Some(Ok(pid)) => *pid,
    };
    match &progress.connected {
        None => {
            return StartStep::Connect;
        },
        Some(Err(error)) => {
            return StartStep::Finish(Err(error.dup()));
        },
        Some(Ok(_)) => {},
    }
    match &progress.secrets {
        None => StartStep::ReadSecrets(record.secret_refs.dup()),
        Some(resolved) => match record_env_with_secrets(record, resolved.dup()) {
            Err(error) => StartStep::Finish(Err(error)),
            Ok(env) => decide_start_init(request, progress, record, pid, env),
        },
    }
}

/// Decides what a start does next.
pub fn next_start_step(request: &StartMachine, progress: &StartProgress) -> (step: StartStep)
    ensures
        step.model() == start_step(request.model(), progress.model()),
{
    let loaded = match &progress.record {
        None => {
            return StartStep::LoadRecord;
        },
        Some(loaded) => loaded,
    };
    let record: VmRecord = match get_record(request.name.as_str(), loaded) {
        Err(error) => {
            return StartStep::Finish(Err(error));
        },
        Ok(record) => record,
    };
    match progress.state {
        None => StartStep::ProbeState,
        Some(RecordState::Running) => match progress.running_state {
            None => StartStep::ProbeRunning,
            Some(state) => StartStep::Finish(
                Ok(MachineStatus { name: request.name.dup(), state, record }),
            ),
        },
        Some(RecordState::Unreachable) => if !progress.recovered {
            StartStep::Recover(record)
        } else {
            match &progress.reloaded {
                None => StartStep::ReloadRecord,
                Some(reloaded) => match get_record(request.name.as_str(), reloaded) {
                    Err(error) => StartStep::Finish(Err(error)),
                    Ok(again) => decide_start_launch(request, progress, &again),
                },
            }
        },
        Some(_) => decide_start_launch(request, progress, &record),
    }
}

/// The record that a start goes by, once it was read.
pub open spec fn started_record(
    request: StartMachineView,
    progress: StartProgressView,
) -> VmRecordView {
    let loaded = if progress.state == Some(RecordState::Unreachable) {
        progress.reloaded->0
    } else {
        progress.record->0
    };
    record_found(request.name, loaded)->Ok_0
}

/// Law: a workload is started only by a start without a snapshot, of a machine
/// with an image and a command of its own, and only after every init command has
/// succeeded.
pub proof fn law_workload_after_init(request: StartMachineView, progress: StartProgressView)
    requires
        start_step(request, progress) is LaunchWorkload,
    ensures
        request.snapshot_dir is None,
        progress.launched matches Some(Ok(_)),
        progress.connected matches Some(Ok(_)),
        progress.secrets matches Some(Ok(_)),
        progress.state != Some(RecordState::Running),
        ({
            let record = started_record(request, progress);
            record.image is Some && (record.entrypoint.len() > 0 || record.cmd.len() > 0)
                && init_fault(progress.init, 0) is None && progress.init.len() >= record.init.len()
                && (record.init_completed || progress.init_saved)
        }),
{
}

/// Law: a machine is noted as running only after every init command has
/// succeeded in this start, whether it was started before or not, unless it
/// starts from a snapshot, which runs none.
pub proof fn law_init_runs_on_every_start(request: StartMachineView, progress: StartProgressView)
    ensures
        start_step(request, progress) is MarkRunning && request.snapshot_dir is None ==> init_fault(
            progress.init,
            0,
        ) is None && progress.init.len() >= started_record(request, progress).init.len(),
        start_step(request, progress) is RunInit ==> request.snapshot_dir is None
            && init_fault(progress.init, 0) is None && progress.init.len() < started_record(
            request,
            progress,
        ).init.len(),
{
}

/// Law: every start hands the launch the record as it is stored, with what the
/// machine may reach, and the names of the hosts that it may look up.
pub proof fn law_every_launch_gets_the_hosts(
    request: StartMachineView,
    progress: StartProgressView,
)
    ensures
        start_step(request, progress) matches StartStepView::Prepare(features)
            ==> features.dns_filter_hosts == started_record(request, progress).dns_filter_hosts,
        start_step(request, progress) matches StartStepView::Launch(record) ==> record
            == started_record(request, progress),
{
}

/// Law: a machine with an image but without a command of its own starts to a bare
/// agent: no workload is launched, whatever the image would run.
pub proof fn law_bare_start_runs_no_workload(
    request: StartMachineView,
    progress: StartProgressView,
)
    requires
        started_record(request, progress).entrypoint.len() == 0,
        started_record(request, progress).cmd.len() == 0,
    ensures
        !(start_step(request, progress) is LaunchWorkload),
{
}

/// Law: a machine that already runs is left alone: a start only reads its
/// record and its state.
pub proof fn law_running_machine_is_left_alone(
    request: StartMachineView,
    progress: StartProgressView,
)
    requires
        progress.state == Some(RecordState::Running),
    ensures
        start_step(request, progress) is LoadRecord || start_step(request, progress) is ProbeRunning
            || start_step(request, progress) is Finish,
{
}

/// What a stop has learnt so far.
#[derive(Debug, PartialEq, Eq)]
pub struct StopProgress {
    /// What reading the record gave.
    pub record: Option<Result<Option<VmRecord>, Error>>,
    /// The state that the machine was found in.
    pub state: Option<RecordState>,
    /// What opening the machine's manager gave.
    pub manager: Option<Result<(), String>>,
    /// What stopping the machine gave.
    pub stopped: Option<Result<(), Error>>,
    /// Whether an unreachable machine was cleaned up.
    pub recovered: bool,
    /// Whether packed layers were detached.
    pub detached: bool,
    /// What noting the stop gave: whether the record was there.
    pub marked: Option<Result<bool, Error>>,
    /// The status of the stopped machine.
    pub status: Option<Result<Option<MachineStatus>, Error>>,
}

/// Mathematical model of a [`StopProgress`].
pub struct StopProgressView {
    pub record: Option<Result<Option<VmRecordView>, ErrorView>>,
    pub state: Option<RecordState>,
    pub manager: Option<Result<(), Seq<char>>>,
    pub stopped: Option<Result<(), ErrorView>>,
    pub recovered: bool,
    pub detached: bool,
    pub marked: Option<Result<bool, ErrorView>>,
    pub status: Option<Result<Option<MachineStatusView>, ErrorView>>,
}

impl Model for StopProgress {
    type V = StopProgressView;

    open spec fn model(&self) -> StopProgressView {
        StopProgressView {
            record: self.record.model(),
            state: self.state.model(),
            manager: self.manager.model(),
            stopped: self.stopped.model(),
            recovered: self.recovered.model(),
            detached: self.detached.model(),
            marked: self.marked.model(),
            status: self.status.model(),
        }
    }

    fn dup(&self) -> (copy: Self) {
        StopProgress {
            record: self.record.dup(),
            state: self.state.dup(),
            manager: self.manager.dup(),
            stopped: self.stopped.dup(),
            recovered: self.recovered.dup(),
            detached: self.detached.dup(),
            marked: self.marked.dup(),
            status: self.status.dup(),
        }
    }
}

/// What a stop does next.
#[derive(Debug, PartialEq, Eq)]
pub enum StopStep {
    /// Read the record.
    LoadRecord,
    /// Find out the state of the machine.
    ProbeState,
    /// Open the manager of the machine.
    OpenManager,
    /// Stop the machine.
    StopMachine,
    /// Clean up after the unreachable machine.
    Recover(VmRecord),
    /// Detach the packed layers.
    DetachLayers,
    /// Note in the record that the machine is stopped.
    MarkStopped,
    /// Read the status of the machine.
    LoadStatus,
    /// The stop is over.
    Finish(Result<MachineStatus, Error>),
}

/// Mathematical model of a [`StopStep`].
pub enum StopStepView {
    LoadRecord,
    ProbeState,
    OpenManager,
    StopMachine,
    Recover(VmRecordView),
    DetachLayers,
    MarkStopped,
    LoadStatus,
    Finish(Result<MachineStatusView, ErrorView>),
}

impl Model for StopStep {
    type V = StopStepView;

    open spec fn model(&self) -> StopStepView {
        match self {
            StopStep::LoadRecord => StopStepView::LoadRecord,
            StopStep::ProbeState => StopStepView::ProbeState,
            StopStep::OpenManager => StopStepView::OpenManager,
            StopStep::StopMachine => StopStepView::StopMachine,
            StopStep::Recover(value) => StopStepView::Recover(value.model()),
            StopStep::DetachLayers => StopStepView::DetachLayers,
            StopStep::MarkStopped => StopStepView::MarkStopped,
            StopStep::LoadStatus => StopStepView::LoadStatus,
            StopStep::Finish(value) => StopStepView::Finish(value.model()),
        }
    }

    fn dup(&self) -> (copy: Self) {
        match self {
            StopStep::LoadRecord => StopStep::LoadRecord,
            StopStep::ProbeState => StopStep::ProbeState,
            StopStep::OpenManager => StopStep::OpenManager,
            StopStep::StopMachine => StopStep::StopMachine,
            StopStep::Recover(value) => StopStep::Recover(value.dup()),
            StopStep::DetachLayers => StopStep::DetachLayers,
            StopStep::MarkStopped => StopStep::MarkStopped,
            StopStep::LoadStatus => StopStep::LoadStatus,
            StopStep::Finish(value) => StopStep::Finish(value.dup()),
        }
    }
}

/// The end of a stop, once the machine does not run.
pub open spec fn stop_mark_step(
    request: StopMachineView,
    progress: StopProgressView,
    record: VmRecordView,
) -> StopStepView {
    if record.source_smolmachine is Some && !progress.detached {
        StopStepView::DetachLayers
    } else {
        match progress.marked {
            None => StopStepView::MarkStopped,
            Some(Err(error)) => StopStepView::Finish(Err(error)),
            Some(Ok(false)) => StopStepView::Finish(
                Err(ErrorView::VmNotFound { name: request.name }),
            ),
            Some(Ok(true)) => match progress.status {
                None => StopStepView::LoadStatus,
                Some(Err(error)) => StopStepView::Finish(Err(error)),
                Some(Ok(None)) => StopStepView::Finish(
                    Err(ErrorView::VmNotFound { name: request.name }),
                ),
                Some(Ok(Some(status))) => StopStepView::Finish(Ok(status)),
            },
        }
    }
}

/// What a stop does next.
pub open spec fn stop_step(request: StopMachineView, progress: StopProgressView) -> StopStepView {
    match progress.record {
        None => StopStepView::LoadRecord,
        Some(loaded) => match record_found(request.name, loaded) {
            Err(error) => StopStepView::Finish(Err(error)),
            Ok(record) => match progress.state {
                None => StopStepView::ProbeState,
                Some(RecordState::Running) => match progress.manager {
                    None => StopStepView::OpenManager,
                    Some(Err(reason)) => StopStepView::Finish(
                        Err(ErrorView::Agent { operation: "create agent manager"@, reason }),
                    ),
                    Some(Ok(_)) => match progress.stopped {
                        None => StopStepView::StopMachine,
                        Some(Err(error)) => StopStepView::Finish(Err(error)),
                        Some(Ok(_)) => stop_mark_step(request, progress, record),
                    },
                },
                Some(RecordState::Unreachable) => if !progress.recovered {
                    StopStepView::Recover(record)
                } else {
                    stop_mark_step(request, progress, record)
                },
                Some(_) => stop_mark_step(request, progress, record),
            },
        },
    }
}

fn decide_stop_mark(request: &StopMachine, progress: &StopProgress, record: &VmRecord) -> (step:
    StopStep)
    ensures
        step.model() == stop_mark_step(request.model(), progress.model(), record.model()),
{
    if record.source_smolmachine.is_some() && !progress.detached {
        return StopStep::DetachLayers;
    }
    match &progress.marked {
        None => StopStep::MarkStopped,
        Some(Err(error)) => StopStep::Finish(Err(error.dup())),
        Some(Ok(found)) => if !*found {
            StopStep::Finish(Err(Error::vm_not_found(request.name.as_str())))
        } else {
            match &progress.status {
                None => StopStep::LoadStatus,
                Some(Err(error)) => StopStep::Finish(Err(error.dup())),
                Some(Ok(None)) => StopStep::Finish(Err(Error::vm_not_found(request.name.as_str()))),
                Some(Ok(Some(status))) => StopStep::Finish(Ok(status.dup())),
            }
        },
    }
}

/// Decides what a stop does next.
pub fn next_stop_step(request: &StopMachine, progress: &StopProgress) -> (step: StopStep)
    ensures
        step.model() == stop_step(request.model(), progress.model()),
{
    let loaded = match &progress.record {
        None => {
            return StopStep::LoadRecord;
        },
        Some(loaded) => loaded,
    };
    let record: VmRecord = match get_record(request.name.as_str(), loaded) {
        Err(error) => {
            return StopStep::Finish(Err(error));
        },
        Ok(record) => record,
    };
    match progress.state {
        None => StopStep::ProbeState,
        Some(RecordState::Running) => match &progress.manager {
            None => StopStep::OpenManager,
            Some(Err(reason)) => StopStep::Finish(
                Err(Error::agent("create agent manager", reason.dup())),
            ),
            Some(Ok(_)) => match &progress.stopped {
                None => StopStep::StopMachine,
                Some(Err(error)) => StopStep::Finish(Err(error.dup())),
                Some(Ok(_)) => decide_stop_mark(request, progress, &record),
            },
        },
        Some(RecordState::Unreachable) => if !progress.recovered {
            StopStep::Recover(record)
        } else {
            decide_stop_mark(request, progress, &record)
        },
        Some(_) => decide_stop_mark(request, progress, &record),
    }
}

/// Law: a machine is noted as stopped only after its process was stopped or
/// cleaned up, if it had one.
pub proof fn law_stopped_before_noted(request: StopMachineView, progress: StopProgressView)
    requires
        stop_step(request, progress) is MarkStopped,
    ensures
        progress.state == Some(RecordState::Running) ==> progress.stopped matches Some(Ok(_)),
        progress.state == Some(RecordState::Unreachable) ==> progress.recovered,
        record_found(request.name, progress.record->0)->Ok_0.source_smolmachine is Some
            ==> progress.detached,
{
}

/// What removing a directory gave.
#[derive(Debug, PartialEq, Eq)]
pub enum Removal {
    /// It is gone.
    Removed,
    /// It was not there.
    Missing,
    /// It could not be removed.
    Failed { path: String, reason: String },
}

/// Mathematical model of a [`Removal`].
pub enum RemovalView {
    Removed,
    Missing,
    Failed { path: Seq<char>, reason: Seq<char> },
}

impl Model for Removal {
    type V = RemovalView;

    open spec fn model(&self) -> RemovalView {
        match self {
            Removal::Removed => RemovalView::Removed,
            Removal::Missing => RemovalView::Missing,
            Removal::Failed { path, reason } => RemovalView::Failed { path: path.model(), reason: reason.model() },
        }
    }

    fn dup(&self) -> (copy: Self) {
        match self {
            Removal::Removed => Removal::Removed,
            Removal::Missing => Removal::Missing,
            Removal::Failed { path, reason } => Removal::Failed { path: path.dup(), reason: reason.dup() },
        }
    }
}

/// What a delete has learnt so far.
#[derive(Debug, PartialEq, Eq)]
pub struct DeleteProgress {
    /// What reading the record gave.
    pub record: Option<Result<Option<VmRecord>, Error>>,
    /// The clones that have the machine as their fork base.
    pub clones: Option<Result<Vec<String>, Error>>,
    /// The state that the machine was found in.
    pub state: Option<RecordState>,
    /// The state that a machine which does not run was found in a second time.
    pub second_state: Option<RecordState>,
    /// What stopping the machine gave.
    pub stopped: Option<Result<(), Error>>,
    /// What removing the record gave.
    pub removed: Option<Result<(), Error>>,
    /// Whether packed layers were detached.
    pub detached: bool,
    /// What removing the data directory gave.
    pub data: Option<Removal>,
}

/// Mathematical model of a [`DeleteProgress`].
pub struct DeleteProgressView {
    pub record: Option<Result<Option<VmRecordView>, ErrorView>>,
    pub clones: Option<Result<Seq<Seq<char>>, ErrorView>>,
    pub state: Option<RecordState>,
    pub second_state: Option<RecordState>,
    pub stopped: Option<Result<(), ErrorView>>,
    pub removed: Option<Result<(), ErrorView>>,
    pub detached: bool,
    pub data: Option<RemovalView>,
}

impl Model for DeleteProgress {
    type V = DeleteProgressView;

    open spec fn model(&self) -> DeleteProgressView {
        DeleteProgressView {
            record: self.record.model(),
            clones: self.clones.model(),
            state: self.state.model(),
            second_state: self.second_state.model(),
            stopped: self.stopped.model(),
            removed: self.removed.model(),
            detached: self.detached.model(),
            data: self.data.model(),
        }
    }

    fn dup(&self) -> (copy: Self) {
        DeleteProgress {
            record: self.record.dup(),
            clones: self.clones.dup(),
            state: self.state.dup(),
            second_state: self.second_state.dup(),
            stopped: self.stopped.dup(),
            removed: self.removed.dup(),
            detached: self.detached.dup(),
            data: self.data.dup(),
        }
    }
}

/// What a delete does next.
#[derive(Debug, PartialEq, Eq)]
pub enum DeleteStep {
    /// Read the record.
    LoadRecord,
    /// List the clones that have the machine as their fork base.
    ListClones,
    /// Find out the state of the machine.
    ProbeState,
    /// Find out the state of the machine once more.
    ProbeAgain,
    /// Stop the machine.
    Stop(StopMachine),
    /// Remove the record.
    RemoveRecord,
    /// Detach packed layers.
    DetachLayers,
    /// Remove the data directory.
    RemoveData,
    /// The delete is over.
    Finish(Result<(), Error>),
}

/// Mathematical model of a [`DeleteStep`].
pub enum DeleteStepView {
    LoadRecord,
    ListClones,
    ProbeState,
    ProbeAgain,
    Stop(StopMachineView),
    RemoveRecord,
    DetachLayers,
    RemoveData,
    Finish(Result<(), ErrorView>),
}

impl Model for DeleteStep {
    type V = DeleteStepView;

    open spec fn model(&self) -> DeleteStepView {
        match self {
            DeleteStep::LoadRecord => DeleteStepView::LoadRecord,
            DeleteStep::ListClones => DeleteStepView::ListClones,
            DeleteStep::ProbeState => DeleteStepView::ProbeState,
            DeleteStep::ProbeAgain => DeleteStepView::ProbeAgain,
            DeleteStep::Stop(value) => DeleteStepView::Stop(value.model()),
            DeleteStep::RemoveRecord => DeleteStepView::RemoveRecord,
            DeleteStep::DetachLayers => DeleteStepView::DetachLayers,
            DeleteStep::RemoveData => DeleteStepView::RemoveData,
            DeleteStep::Finish(value) => DeleteStepView::Finish(value.model()),
        }
    }

    fn dup(&self) -> (copy: Self) {
        match self {
            DeleteStep::LoadRecord => DeleteStep::LoadRecord,
            DeleteStep::ListClones => DeleteStep::ListClones,
            DeleteStep::ProbeState => DeleteStep::ProbeState,
            DeleteStep::ProbeAgain => DeleteStep::ProbeAgain,
            DeleteStep::Stop(value) => DeleteStep::Stop(value.dup()),
            DeleteStep::RemoveRecord => DeleteStep::RemoveRecord,
            DeleteStep::DetachLayers => DeleteStep::DetachLayers,
            DeleteStep::RemoveData => DeleteStep::RemoveData,
            DeleteStep::Finish(value) => DeleteStep::Finish(value.dup()),
        }
    }
}

/// Whether a machine with these states must be stopped before it is deleted,
/// as far as is known.
pub open spec fn must_stop(state: RecordState, second: Option<RecordState>) -> bool {
    state == RecordState::Running || second == Some(RecordState::Unreachable)
}

/// The end of a delete: the record goes, packed layers are detached, and the data
/// of the machine goes unless it is to be kept. Data that is not there is as good
/// as removed.
pub open spec fn delete_remove_step(
    request: DeleteMachineView,
    progress: DeleteProgressView,
) -> DeleteStepView {
    match progress.removed {
        None => DeleteStepView::RemoveRecord,
        Some(Err(error)) => DeleteStepView::Finish(Err(error)),
        Some(Ok(_)) => if !progress.detached {
            DeleteStepView::DetachLayers
        } else if request.keep_data {
            DeleteStepView::Finish(Ok(()))
        } else {
            match progress.data {
                None => DeleteStepView::RemoveData,
                Some(RemovalView::Removed) => DeleteStepView::Finish(Ok(())),
                Some(RemovalView::Missing) => DeleteStepView::Finish(Ok(())),
                Some(RemovalView::Failed { path, reason }) => DeleteStepView::Finish(
                    Err(
                        ErrorView::Storage {
                            operation: "delete machine data"@,
                            reason: path + ": "@ + reason,
                        },
                    ),
                ),
            }
        },
    }
}

/// What a delete does next.
pub open spec fn delete_step(
    request: DeleteMachineView,
    progress: DeleteProgressView,
) -> DeleteStepView {
    match progress.record {
        None => DeleteStepView::LoadRecord,
        Some(loaded) => match record_found(request.name, loaded) {
            Err(error) => DeleteStepView::Finish(Err(error)),
            Ok(_) => match progress.clones {
                None => DeleteStepView::ListClones,
                Some(Err(error)) => DeleteStepView::Finish(Err(error)),
                Some(Ok(clones)) => if clones.len() > 0 && !request.break_dependent_clones {
                    DeleteStepView::Finish(
                        Err(
                            ErrorView::Agent {
                                operation: "delete"@,
                                reason: "machine '"@ + request.name + "' is the fork base for "@
                                    + decimal(clones.len()) + " clone(s) ("@ + joined(
                                    clones,
                                    ", "@,
                                ) + ")"@,
                            },
                        ),
                    )
                } else {
                    match progress.state {
                        None => DeleteStepView::ProbeState,
                        Some(state) => if state != RecordState::Running && progress.second_state
                            is None {
                            DeleteStepView::ProbeAgain
                        } else if must_stop(state, progress.second_state) && progress.stopped
                            is None {
                            DeleteStepView::Stop(StopMachineView { name: request.name })
                        } else if must_stop(state, progress.second_state) && progress.stopped->0
                            is Err {
                            DeleteStepView::Finish(Err(progress.stopped->0->Err_0))
                        } else {
                            delete_remove_step(request, progress)
                        },
                    }
                },
            },
        },
    }
}

fn decide_delete_remove(request: &DeleteMachine, progress: &DeleteProgress) -> (step: DeleteStep)
    ensures
        step.model() == delete_remove_step(request.model(), progress.model()),
{
    match &progress.removed {
        None => DeleteStep::RemoveRecord,
        Some(Err(error)) => DeleteStep::Finish(Err(error.dup())),
        Some(Ok(_)) => if !progress.detached {
            DeleteStep::DetachLayers
        } else if request.keep_data {
            DeleteStep::Finish(Ok(()))
        } else {
            match &progress.data {
                None => DeleteStep::RemoveData,
                Some(Removal::Removed) => DeleteStep::Finish(Ok(())),
                Some(Removal::Missing) => DeleteStep::Finish(Ok(())),
                Some(Removal::Failed { path, reason }) => DeleteStep::Finish(
                    Err(
                        Error::storage(
                            "delete machine data",
                            cat3(path.as_str(), ": ", reason.as_str()),
                        ),
                    ),
                ),
            }
        },
    }
}

/// Decides what a delete does next.
pub fn next_delete_step(request: &DeleteMachine, progress: &DeleteProgress) -> (step: DeleteStep)
    ensures
        step.model() == delete_step(request.model(), progress.model()),
{
    match &progress.record {
        None => {
            return DeleteStep::LoadRecord;
        },
        Some(Err(error)) => {
            return DeleteStep::Finish(Err(error.dup()));
        },
        Some(Ok(None)) => {
            return DeleteStep::Finish(Err(Error::vm_not_found(request.name.as_str())));
        },
        Some(Ok(Some(_))) => {},
    }
    match &progress.clones {
        None => {
            return DeleteStep::ListClones;
        },
        Some(Err(error)) => {
            return DeleteStep::Finish(Err(error.dup()));
        },
        Some(Ok(clones)) => {
            if clones.len() > 0 && !request.break_dependent_clones {
                let reason: String = cat7(
                    "machine '",
                    request.name.as_str(),
                    "' is the fork base for ",
                    number(clones.len() as u64).as_str(),
                    " clone(s) (",
                    join(clones, ", ").as_str(),
                    ")",
                );
                return DeleteStep::Finish(Err(Error::agent("delete", reason)));
            }
        },
    }
    let state: RecordState = match progress.state {
        None => {
            return DeleteStep::ProbeState;
        },
        Some(state) => state,
    };
    if state != RecordState::Running && progress.second_state.is_none() {
        return DeleteStep::ProbeAgain;
    }
    let unreachable: bool = match progress.second_state {
        Some(second) => second == RecordState::Unreachable,
        None => false,
    };
    if state == RecordState::Running || unreachable {
        match &progress.stopped {
            None => {
                return DeleteStep::Stop(StopMachine::new(request.name.dup()));
            },
            Some(Err(error)) => {
                return DeleteStep::Finish(Err(error.dup()));
            },
            Some(Ok(_)) => {},
        }
    }
    decide_delete_remove(request, progress)
}

/// Law: a machine that clones depend on is deleted only if the request accepts
/// that, and a running machine only after it was stopped.
pub proof fn law_delete_is_safe(request: DeleteMachineView, progress: DeleteProgressView)
    requires
        delete_step(request, progress) is RemoveRecord,
    ensures
        request.break_dependent_clones || progress.clones == Some(
            Ok::<Seq<Seq<char>>, ErrorView>(Seq::empty()),
        ),
        must_stop(progress.state->0, progress.second_state) ==> progress.stopped matches Some(Ok(_)),
{
    assert(progress.clones->0->Ok_0.len() == 0 ==> progress.clones->0->Ok_0 =~= Seq::empty());
}

/// Law: a delete that succeeds has removed the record, detached packed layers and,
/// unless it is to be kept, removed the data; data that is to be kept is not
/// touched.
pub proof fn law_delete_removes_what_was_asked(
    request: DeleteMachineView,
    progress: DeleteProgressView,
)
    ensures
        delete_step(request, progress) == DeleteStepView::Finish(Ok(())) ==> progress.removed
            is Some && progress.removed->0 is Ok && progress.detached && (request.keep_data || (
        progress.data is Some && !(progress.data->0 is Failed))),
        delete_step(request, progress) is RemoveData ==> !request.keep_data && progress.detached,
{
}

/// Law: the workload of a start runs in the image of the record. Its command is the
/// entrypoint of the record, word for word, followed by the words of its cmd and
/// nothing else; its variables are those of the record and then the secrets, and its
/// directory, user and mounts those of the record. It keeps its files under the name of
/// the machine, and no time limit ends it.
pub proof fn law_workload_is_the_record_command(
    request: StartMachineView,
    progress: StartProgressView,
    record: VmRecordView,
)
    requires
        progress.state == Some(RecordState::Unreachable) ==> progress.reloaded == Some(
            Ok::<Option<VmRecordView>, ErrorView>(Some(record)),
        ),
        progress.state != Some(RecordState::Unreachable) ==> progress.record == Some(
            Ok::<Option<VmRecordView>, ErrorView>(Some(record)),
        ),
    ensures
        start_step(request, progress) matches StartStepView::LaunchWorkload(config) ==> {
            &&& record.image == Some(config.image)
            &&& config.command.len() == record.entrypoint.len() + record.cmd.len()
            &&& config.command.len() > 0
            &&& forall|i: int|
                0 <= i < record.entrypoint.len() ==> #[trigger] config.command[i]
                    == record.entrypoint[i]
            &&& forall|j: int|
                0 <= j < record.cmd.len() ==> config.command[record.entrypoint.len() + j]
                    == #[trigger] record.cmd[j]
            &&& progress.secrets is Some && progress.secrets->0 is Ok && config.env == record.env
                + progress.secrets->0->Ok_0
            &&& config.workdir == record.workdir && config.user == record.user
            &&& config.mounts.len() == record.mounts.len()
            &&& forall|i: int|
                0 <= i < record.mounts.len() ==> #[trigger] config.mounts[i] == (
                    i as usize,
                    record.mounts[i].1,
                    record.mounts[i].2,
                )
            &&& config.timeout is None && !config.tty
            &&& config.persistent_overlay == Some(request.name)
        },
{
}

/// Law: each init command of a start is the next one of the record that has not run,
/// as a line for the shell, in the image where the record has one and in the guest
/// otherwise, with the variables, directory, user and mounts of the record.
pub proof fn law_init_runs_the_next_line(
    request: StartMachineView,
    progress: StartProgressView,
    record: VmRecordView,
)
    requires
        progress.state == Some(RecordState::Unreachable) ==> progress.reloaded == Some(
            Ok::<Option<VmRecordView>, ErrorView>(Some(record)),
        ),
        progress.state != Some(RecordState::Unreachable) ==> progress.record == Some(
            Ok::<Option<VmRecordView>, ErrorView>(Some(record)),
        ),
    ensures
        start_step(request, progress) matches StartStepView::RunInit(job) ==> {
            let line = seq!["/bin/sh"@, "-c"@, record.init[progress.init.len() as int]];
            &&& progress.init.len() < record.init.len() && request.snapshot_dir is None
            &&& forall|i: int|
                0 <= i < progress.init.len() ==> (#[trigger] progress.init[i]) is Ok
                    && progress.init[i]->Ok_0.exit_code == 0
            &&& progress.secrets is Some && progress.secrets->0 is Ok
            &&& job is Container <==> record.image is Some
            &&& job matches JobView::Container(config) ==> config.command == line && record.image
                == Some(config.image) && config.env == record.env + progress.secrets->0->Ok_0
                && config.workdir == record.workdir && config.user == record.user
                && config.mounts.len() == record.mounts.len() && config.timeout is None
                && !config.tty && config.persistent_overlay == Some(request.name) && forall|i: int|
                0 <= i < record.mounts.len() ==> #[trigger] config.mounts[i] == (
                    i as usize,
                    record.mounts[i].1,
                    record.mounts[i].2,
                )
            &&& job matches JobView::Guest(command) ==> command.command == line && command.env
                == record.env + progress.secrets->0->Ok_0 && command.workdir == record.workdir
                && command.timeout is None && command.stdin is None && !command.tty
        },
{
    law_init_fault_is_the_first(progress.init, 0);
}

/// Law: init commands have no fault exactly where each that ran succeeded with exit code
/// zero; the fault is otherwise that of the first that did not: its error, or its exit
/// code, output and place.
pub proof fn law_init_fault_is_the_first(
    outputs: Seq<Result<ExecResultView, ErrorView>>,
    from: nat,
)
    ensures
        init_fault(outputs, from) is None <==> forall|i: int|
            from <= i < outputs.len() ==> (#[trigger] outputs[i]) is Ok
                && outputs[i]->Ok_0.exit_code == 0,
        init_fault(outputs, from) matches Some(fault) ==> exists|k: int|
            from <= k < outputs.len() && (#[trigger] outputs[k] matches Ok(output) ==> {
                &&& output.exit_code != 0
                &&& fault == ErrorView::Agent {
                    operation: "run init"@,
                    reason: "init["@ + decimal(k as nat) + "] failed (exit "@ + signed_decimal(
                        output.exit_code as int,
                    ) + "): "@ + trimmed(lossy_text(output.stderr)) + "; stdout: "@ + trimmed(
                        lossy_text(output.stdout),
                    ),
                }
            }) && (outputs[k] is Err ==> fault == outputs[k]->Err_0) && forall|i: int|
                from <= i < k ==> (#[trigger] outputs[i]) is Ok && outputs[i]->Ok_0.exit_code == 0,
{
    if from <= outputs.len() {
        let k = lemma_first_fault(outputs, from);
        if k < outputs.len() {
            assert(outputs[k] is Ok ==> outputs[k]->Ok_0.exit_code != 0);
        }
    }
}

proof fn lemma_first_fault(outputs: Seq<Result<ExecResultView, ErrorView>>, from: nat) -> (k: int)
    requires
        from <= outputs.len(),
    ensures
        from <= k <= outputs.len(),
        forall|i: int|
            from <= i < k ==> (#[trigger] outputs[i]) is Ok && outputs[i]->Ok_0.exit_code == 0,
        k == outputs.len() ==> init_fault(outputs, from) is None,
        k < outputs.len() && outputs[k] is Err ==> init_fault(outputs, from) == Some(
            outputs[k]->Err_0,
        ),
        k < outputs.len() && outputs[k] is Ok ==> outputs[k]->Ok_0.exit_code != 0 && init_fault(
            outputs,
            from,
        ) == Some(init_error(k as nat, outputs[k]->Ok_0)),
    decreases outputs.len() - from,
{
    if from == outputs.len() {
        from as int
    } else if outputs[from as int] is Ok && outputs[from as int]->Ok_0.exit_code == 0 {
        lemma_first_fault(outputs, from + 1)
    } else {
        from as int
    }
}

/// Law: a start launches what the record describes: the disks of its sizes, the SSH
/// agent exactly where the record forwards it, the hosts that it may look up, its packed
/// layers, and the snapshot and the control socket that the request asks for.
pub proof fn law_launch_follows_record_and_request(
    request: StartMachineView,
    progress: StartProgressView,
    record: VmRecordView,
)
    requires
        progress.state == Some(RecordState::Unreachable) ==> progress.reloaded == Some(
            Ok::<Option<VmRecordView>, ErrorView>(Some(record)),
        ),
        progress.state != Some(RecordState::Unreachable) ==> progress.record == Some(
            Ok::<Option<VmRecordView>, ErrorView>(Some(record)),
        ),
    ensures
        start_step(request, progress) matches StartStepView::OpenManager { storage_gb, overlay_gb }
            ==> storage_gb == record.storage_gb && overlay_gb == record.overlay_gb,
        start_step(request, progress) is FindSshSocket ==> record.ssh_agent,
        start_step(request, progress) matches StartStepView::Prepare(features) ==> {
            &&& features.forkable == request.forkable
            &&& features.snapshot_dir == request.snapshot_dir
            &&& features.dns_filter_hosts == record.dns_filter_hosts
            &&& features.packed_from == record.source_smolmachine
            &&& record.ssh_agent ==> features.ssh_agent_socket is Some && progress.ssh_socket
                == Some(features.ssh_agent_socket)
            &&& !record.ssh_agent ==> features.ssh_agent_socket is None
        },
        start_step(request, progress) matches StartStepView::Launch(launched) ==> launched
            == record,
        start_step(request, progress) matches StartStepView::ReadSecrets(refs) ==> refs
            == record.secret_refs,
        start_step(request, progress) matches StartStepView::Pull { image, options } ==> {
            &&& record.image == Some(image)
            &&& !record.init_completed && request.snapshot_dir is None && record.source_smolmachine
                is None
            &&& options.use_registry_config && options.oci_platform is None && options.proxy
                == request.proxy && options.no_proxy == request.no_proxy
        },
        start_step(request, progress) matches StartStepView::MarkRunning(pid) ==> progress.launched
            == Some(Ok::<Option<i32>, Seq<char>>(pid)),
{
}

/// Law: a start that succeeds gives the status of the machine. Of one that ran already it
/// is its record and its state. Of any other it is what was read after the machine was
/// launched, reached, and noted as running, with its init commands run and its workload
/// launched where it has any.
pub proof fn law_successful_start(
    request: StartMachineView,
    progress: StartProgressView,
    status: MachineStatusView,
    record: VmRecordView,
)
    requires
        start_step(request, progress) == StartStepView::Finish(Ok(status)),
        progress.state == Some(RecordState::Unreachable) ==> progress.reloaded == Some(
            Ok::<Option<VmRecordView>, ErrorView>(Some(record)),
        ),
        progress.state != Some(RecordState::Unreachable) ==> progress.record == Some(
            Ok::<Option<VmRecordView>, ErrorView>(Some(record)),
        ),
    ensures
        progress.state == Some(RecordState::Running) ==> status.name == request.name
            && status.record == record && progress.running_state == Some(status.state),
        progress.state != Some(RecordState::Running) ==> {
            &&& progress.manager is Some && progress.manager->0 is Ok
            &&& progress.prepared is Some && progress.prepared->0 is Ok
            &&& progress.launched is Some && progress.launched->0 is Ok
            &&& progress.connected is Some && progress.connected->0 is Ok
            &&& progress.secrets is Some && progress.secrets->0 is Ok
            &&& progress.marked == Some(Ok::<bool, ErrorView>(true))
            &&& progress.status == Some(Ok::<Option<MachineStatusView>, ErrorView>(Some(status)))
            &&& request.snapshot_dir is None ==> progress.init.len() >= record.init.len()
                && forall|i: int|
                0 <= i < progress.init.len() ==> (#[trigger] progress.init[i]) is Ok
                    && progress.init[i]->Ok_0.exit_code == 0
            &&& request.snapshot_dir is None && record.image is Some && (record.entrypoint.len() > 0
                || record.cmd.len() > 0) ==> progress.workload is Some && progress.workload->0
                is Ok
            &&& request.snapshot_dir is None && !record.init_completed && record.image is Some
                && record.source_smolmachine is None ==> progress.pulled is Some
                && progress.pulled->0 is Ok
            &&& !record.init_completed && (record.init.len() > 0 || record.image is Some)
                ==> progress.init_saved
        },
{
    law_init_fault_is_the_first(progress.init, 0);
}

/// Law: a start asks for everything once: what it asks for next is not known yet.
pub proof fn law_start_asks_once(request: StartMachineView, progress: StartProgressView)
    ensures
        ({
            let step = start_step(request, progress);
            &&& step is LoadRecord ==> progress.record is None
            &&& step is ProbeState ==> progress.state is None
            &&& step is ProbeRunning ==> progress.running_state is None && progress.state == Some(
                RecordState::Running,
            )
            &&& step is Recover ==> !progress.recovered && progress.state == Some(
                RecordState::Unreachable,
            )
            &&& step is ReloadRecord ==> progress.reloaded is None && progress.recovered
            &&& step is OpenManager ==> progress.manager is None
            &&& step is FindSshSocket ==> progress.ssh_socket is None
            &&& step is Prepare ==> progress.prepared is None
            &&& step is Launch ==> progress.launched is None
            &&& step is Connect ==> progress.connected is None && (progress.launched is Some
                && progress.launched->0 is Ok)
            &&& step is ReadSecrets ==> progress.secrets is None
            &&& step is Pull ==> progress.pulled is None
            &&& step is SaveInitCompleted ==> !progress.init_saved
            &&& step is LaunchWorkload ==> progress.workload is None
            &&& step is MarkRunning ==> progress.marked is None
            &&& step is LoadStatus ==> progress.status is None && progress.marked == Some(
                Ok::<bool, ErrorView>(true),
            )
            &&& step matches StartStepView::Recover(record) ==> progress.record == Some(
                Ok::<Option<VmRecordView>, ErrorView>(Some(record)),
            )
        }),
{
}

/// Law: a start that fails tells an error that it was given, or what was missing: the
/// machine, its manager, its process or the SSH agent.
pub proof fn law_failed_start_tells_why(
    request: StartMachineView,
    progress: StartProgressView,
    error: ErrorView,
)
    requires
        start_step(request, progress) == StartStepView::Finish(Err(error)),
    ensures
        ({
            ||| progress.record == Some(Err::<Option<VmRecordView>, ErrorView>(error))
            ||| progress.reloaded == Some(Err::<Option<VmRecordView>, ErrorView>(error))
            ||| progress.prepared == Some(Err::<(), ErrorView>(error))
            ||| progress.connected == Some(Err::<(), ErrorView>(error))
            ||| progress.secrets == Some(Err::<EnvView, ErrorView>(error))
            ||| progress.pulled == Some(Err::<ImageInfoView, ErrorView>(error))
            ||| progress.workload == Some(Err::<(), ErrorView>(error))
            ||| progress.marked == Some(Err::<bool, ErrorView>(error))
            ||| progress.status == Some(Err::<Option<MachineStatusView>, ErrorView>(error))
            ||| error == (ErrorView::VmNotFound { name: request.name })
            ||| progress.manager is Some && progress.manager->0 is Err && error == (
            ErrorView::Agent {
                operation: "create agent manager"@,
                reason: progress.manager->0->Err_0,
            })
            ||| progress.launched is Some && progress.launched->0 is Err && error == (
            ErrorView::Agent { operation: "start machine"@, reason: progress.launched->0->Err_0 })
            ||| progress.ssh_socket == Some(None::<Seq<char>>) && error is Config
            ||| exists|i: int|
                0 <= i < progress.init.len() && ((#[trigger] progress.init[i]) is Err
                    || progress.init[i]->Ok_0.exit_code != 0) && init_fault(progress.init, 0)
                    == Some(error)
        }),
{
    law_init_fault_is_the_first(progress.init, 0);
}

/// Law: a stop that succeeds has ended the process of a machine that ran, cleaned up
/// after one that could not be reached, detached the layers of a packed one, noted that
/// the machine is stopped, and gives the status that was read after that.
pub proof fn law_successful_stop(
    request: StopMachineView,
    progress: StopProgressView,
    status: MachineStatusView,
)
    requires
        stop_step(request, progress) == StopStepView::Finish(Ok(status)),
    ensures
        progress.record is Some && progress.record->0 is Ok && progress.record->0->Ok_0 is Some,
        progress.state == Some(RecordState::Running) ==> progress.stopped is Some
            && progress.stopped->0 is Ok,
        progress.state == Some(RecordState::Unreachable) ==> progress.recovered,
        progress.record->0->Ok_0->0.source_smolmachine is Some ==> progress.detached,
        progress.marked == Some(Ok::<bool, ErrorView>(true)),
        progress.status == Some(Ok::<Option<MachineStatusView>, ErrorView>(Some(status))),
{
}

/// Law: a stop asks for everything once, and touches the process only of a machine that
/// runs and the leavings only of one that cannot be reached. One that fails tells an
/// error that it was given, or what was missing.
pub proof fn law_stop_asks_once(request: StopMachineView, progress: StopProgressView)
    ensures
        ({
            let step = stop_step(request, progress);
            &&& step is LoadRecord ==> progress.record is None
            &&& step is ProbeState ==> progress.state is None
            &&& step is OpenManager ==> progress.manager is None && progress.state == Some(
                RecordState::Running,
            )
            &&& step is StopMachine ==> progress.stopped is None && progress.state == Some(
                RecordState::Running,
            ) && progress.manager is Some && progress.manager->0 is Ok
            &&& step matches StopStepView::Recover(record) ==> !progress.recovered
                && progress.state == Some(RecordState::Unreachable) && progress.record == Some(
                Ok::<Option<VmRecordView>, ErrorView>(Some(record)),
            )
            &&& step is DetachLayers ==> !progress.detached && progress.record is Some
                && progress.record->0 is Ok && progress.record->0->Ok_0 is Some
                && progress.record->0->Ok_0->0.source_smolmachine is Some
            &&& step is MarkStopped ==> progress.marked is None && progress.state is Some
            &&& step is LoadStatus ==> progress.status is None && progress.marked == Some(
                Ok::<bool, ErrorView>(true),
            )
            &&& step matches StopStepView::Finish(Err(error)) ==> {
                ||| progress.record == Some(Err::<Option<VmRecordView>, ErrorView>(error))
                ||| progress.stopped == Some(Err::<(), ErrorView>(error))
                ||| progress.marked == Some(Err::<bool, ErrorView>(error))
                ||| progress.status == Some(Err::<Option<MachineStatusView>, ErrorView>(error))
                ||| error == (ErrorView::VmNotFound { name: request.name })
                ||| progress.manager is Some && progress.manager->0 is Err && error == (
                ErrorView::Agent {
                    operation: "create agent manager"@,
                    reason: progress.manager->0->Err_0,
                })
            }
        }),
{
}

/// Law: a delete stops the machine that it deletes, and no other, where it was found
/// running or then out of reach; it looks a second time only at one that was not found
/// running. It asks for everything once, and removes data only after the record.
pub proof fn law_delete_asks_once(request: DeleteMachineView, progress: DeleteProgressView)
    ensures
        ({
            let step = delete_step(request, progress);
            &&& step is LoadRecord ==> progress.record is None
            &&& step is ListClones ==> progress.clones is None
            &&& step is ProbeState ==> progress.state is None
            &&& step is ProbeAgain ==> progress.second_state is None && progress.state != Some(
                RecordState::Running,
            )
            &&& step matches DeleteStepView::Stop(stop) ==> stop.name == request.name
                && progress.stopped is None && (progress.state == Some(RecordState::Running)
                || progress.second_state == Some(RecordState::Unreachable))
            &&& step is RemoveRecord ==> progress.removed is None && (progress.state == Some(
                RecordState::Running,
            ) || progress.second_state == Some(RecordState::Unreachable) ==> progress.stopped
                is Some && progress.stopped->0 is Ok)
            &&& step is DetachLayers ==> !progress.detached && progress.removed is Some
                && progress.removed->0 is Ok
            &&& step is RemoveData ==> progress.data is None && progress.removed is Some
                && progress.removed->0 is Ok
        }),
{
}

/// Law: a delete fails only with an error that it was given, where there is no machine,
/// where clones depend on it and that was not accepted, or where its data could not be
/// removed.
pub proof fn law_failed_delete_tells_why(
    request: DeleteMachineView,
    progress: DeleteProgressView,
    error: ErrorView,
)
    requires
        delete_step(request, progress) == DeleteStepView::Finish(Err(error)),
    ensures
        ({
            ||| progress.record == Some(Err::<Option<VmRecordView>, ErrorView>(error))
            ||| progress.record == Some(Ok::<Option<VmRecordView>, ErrorView>(None)) && error == (
            ErrorView::VmNotFound { name: request.name })
            ||| progress.clones == Some(Err::<Seq<Seq<char>>, ErrorView>(error))
            ||| progress.clones is Some && progress.clones->0 is Ok && progress.clones->0->Ok_0.len()
                > 0 && !request.break_dependent_clones && (
            error matches ErrorView::Agent { operation, .. } && operation == "delete"@)
            ||| progress.stopped == Some(Err::<(), ErrorView>(error))
            ||| progress.removed == Some(Err::<(), ErrorView>(error))
            ||| !request.keep_data && (progress.data matches Some(RemovalView::Failed {
                path,
                reason,
            }) && error == (ErrorView::Storage {
                operation: "delete machine data"@,
                reason: path + ": "@ + reason,
            }))
        }),
{
}

} // verus!
