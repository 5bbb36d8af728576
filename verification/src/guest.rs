//! Work inside a machine: commands, files, images.

use crate::env::{
    environment_of_record, environment_of_request, image_variables, law_later_settings_win,
    law_overrides_win, law_secrets_are_checked_one_by_one, merge_env_overrides, overridden,
    record_env_with_secrets, request_env, resolve_image_runtime_defaults, runtime_defaults,
    value_of, EnvView,
};
use crate::error::{Error, ErrorView};
use crate::model::{dup_first_some, empty_list, extend_from, first_some, one_of, Model};
use crate::records::{get_record, record_found};
use crate::requests::{
    DataDirMachine, DataDirMachineView, ExecMachine, ExecMachineView, ExecResult, ExecResultView,
    ListMachineImages, ListMachineImagesView, PruneImagesResult, PruneImagesResultView,
    PruneMachineImages, PruneMachineImagesView, PullMachineImage, PullMachineImageView, RunMachine,
    RunMachineView, StartMachine, StartMachineView, StopMachine, StopMachineView,
};
use crate::secrets::{ref_fault, SecretMap, SecretMapView};
use crate::text::{cat3, decimal, number, own};
use crate::types::{
    bindings_of, record_mounts_to_runconfig_bindings, ExecEvent, ExecEventView, GuestCommand,
    GuestCommandView, ImageInfo, ImageInfoView, Job, JobView, PullOptions, PullOptionsView,
    RecordState, RunConfig, RunConfigView, TimeSpan, VmRecord, VmRecordView,
};
use vstd::prelude::*;

verus! {

/// What opening a client for an operation has learnt so far.
#[derive(Debug, PartialEq, Eq)]
pub struct ClientProgress {
    /// What reading the record gave.
    pub record: Option<Result<Option<VmRecord>, Error>>,
    /// The state that the machine was found in.
    pub state: Option<RecordState>,
    /// What starting the machine gave.
    pub started: Option<Result<(), Error>>,
    /// What reading the record again after that gave.
    pub reloaded: Option<Result<Option<VmRecord>, Error>>,
    /// What opening the machine's manager gave.
    pub manager: Option<Result<(), String>>,
    /// Whether the manager found a running machine.
    pub found: Option<bool>,
    /// What connecting to the agent gave.
    pub connected: Option<Result<(), Error>>,
}

/// Mathematical model of a [`ClientProgress`].
pub struct ClientProgressView {
    pub record: Option<Result<Option<VmRecordView>, ErrorView>>,
    pub state: Option<RecordState>,
    pub started: Option<Result<(), ErrorView>>,
    pub reloaded: Option<Result<Option<VmRecordView>, ErrorView>>,
    pub manager: Option<Result<(), Seq<char>>>,
    pub found: Option<bool>,
    pub connected: Option<Result<(), ErrorView>>,
}

impl Model for ClientProgress {
    type V = ClientProgressView;

    open spec fn model(&self) -> ClientProgressView {
        ClientProgressView {
            record: self.record.model(),
            state: self.state.model(),
            started: self.started.model(),
            reloaded: self.reloaded.model(),
            manager: self.manager.model(),
            found: self.found.model(),
            connected: self.connected.model(),
        }
    }

    fn dup(&self) -> (copy: Self) {
        ClientProgress {
            record: self.record.dup(),
            state: self.state.dup(),
            started: self.started.dup(),
            reloaded: self.reloaded.dup(),
            manager: self.manager.dup(),
            found: self.found.dup(),
            connected: self.connected.dup(),
        }
    }
}

/// What opening a client for an operation does next.
#[derive(Debug, PartialEq, Eq)]
pub enum ClientStep {
    /// Read the record.
    LoadRecord,
    /// Find out the state of the machine.
    ProbeState,
    /// Start the machine.
    Start(StartMachine),
    /// Read the record again.
    ReloadRecord,
    /// Open the manager of the machine with these disk sizes.
    OpenManager { storage_gb: Option<u64>, overlay_gb: Option<u64> },
    /// Look for a running machine.
    FindRunning,
    /// Connect to the agent.
    Connect,
    /// The client is open for a machine with this record, or cannot be opened.
    Finish(Result<VmRecord, Error>),
}

/// Mathematical model of a [`ClientStep`].
pub enum ClientStepView {
    LoadRecord,
    ProbeState,
    Start(StartMachineView),
    ReloadRecord,
    OpenManager { storage_gb: Option<u64>, overlay_gb: Option<u64> },
    FindRunning,
    Connect,
    Finish(Result<VmRecordView, ErrorView>),
}

impl Model for ClientStep {
    type V = ClientStepView;

    open spec fn model(&self) -> ClientStepView {
        match self {
            ClientStep::LoadRecord => ClientStepView::LoadRecord,
            ClientStep::ProbeState => ClientStepView::ProbeState,
            ClientStep::Start(value) => ClientStepView::Start(value.model()),
            ClientStep::ReloadRecord => ClientStepView::ReloadRecord,
            ClientStep::OpenManager { storage_gb, overlay_gb } => ClientStepView::OpenManager { storage_gb: storage_gb.model(), overlay_gb: overlay_gb.model() },
            ClientStep::FindRunning => ClientStepView::FindRunning,
            ClientStep::Connect => ClientStepView::Connect,
            ClientStep::Finish(value) => ClientStepView::Finish(value.model()),
        }
    }

    fn dup(&self) -> (copy: Self) {
        match self {
            ClientStep::LoadRecord => ClientStep::LoadRecord,
            ClientStep::ProbeState => ClientStep::ProbeState,
            ClientStep::Start(value) => ClientStep::Start(value.dup()),
            ClientStep::ReloadRecord => ClientStep::ReloadRecord,
            ClientStep::OpenManager { storage_gb, overlay_gb } => ClientStep::OpenManager { storage_gb: storage_gb.dup(), overlay_gb: overlay_gb.dup() },
            ClientStep::FindRunning => ClientStep::FindRunning,
            ClientStep::Connect => ClientStep::Connect,
            ClientStep::Finish(value) => ClientStep::Finish(value.dup()),
        }
    }
}

/// The end of opening a client for a machine with this record.
pub open spec fn client_connect_step(
    progress: ClientProgressView,
    record: VmRecordView,
    state: RecordState,
) -> ClientStepView {
    match progress.manager {
        None => ClientStepView::OpenManager {
            storage_gb: record.storage_gb,
            overlay_gb: record.overlay_gb,
        },
        Some(Err(reason)) => ClientStepView::Finish(
            Err(ErrorView::Agent { operation: "create agent manager"@, reason }),
        ),
        Some(Ok(_)) => match progress.found {
            None => ClientStepView::FindRunning,
            Some(false) => ClientStepView::Finish(
                Err(ErrorView::InvalidState { expected: "running"@, actual: state.name() }),
            ),
            Some(true) => match progress.connected {
                None => ClientStepView::Connect,
                Some(Err(error)) => ClientStepView::Finish(Err(error)),
                Some(Ok(_)) => ClientStepView::Finish(Ok(record)),
            },
        },
    }
}

/// What opening a client for an operation does next.
pub open spec fn client_step(
    name: Seq<char>,
    start_if_needed: bool,
    progress: ClientProgressView,
) -> ClientStepView {
    match progress.record {
        None => ClientStepView::LoadRecord,
        Some(loaded) => match record_found(name, loaded) {
            Err(error) => ClientStepView::Finish(Err(error)),
            Ok(record) => match progress.state {
                None => ClientStepView::ProbeState,
                Some(state) => if state != RecordState::Running && start_if_needed {
                    match progress.started {
                        None => ClientStepView::Start(
                            StartMachineView {
                                name,
                                forkable: false,
                                proxy: None,
                                no_proxy: None,
                                snapshot_dir: None,
                            },
                        ),
                        Some(Err(error)) => ClientStepView::Finish(Err(error)),
                        Some(Ok(_)) => match progress.reloaded {
                            None => ClientStepView::ReloadRecord,
                            Some(reloaded) => match record_found(name, reloaded) {
                                Err(error) => ClientStepView::Finish(Err(error)),
                                Ok(again) => client_connect_step(progress, again, state),
                            },
                        },
                    }
                } else {
                    client_connect_step(progress, record, state)
                },
            },
        },
    }
}

fn decide_connect(progress: &ClientProgress, record: VmRecord, state: RecordState) -> (step:
    ClientStep)
    ensures
        step.model() == client_connect_step(progress.model(), record.model(), state),
{
    match &progress.manager {
        None => ClientStep::OpenManager {
            storage_gb: record.storage_gb,
            overlay_gb: record.overlay_gb,
        },
        Some(Err(reason)) => ClientStep::Finish(
            Err(Error::agent("create agent manager", reason.dup())),
        ),
        Some(Ok(_)) => match progress.found {
            None => ClientStep::FindRunning,
            Some(found) => if !found {
                ClientStep::Finish(Err(Error::invalid_state("running", state.label())))
            } else {
                match &progress.connected {
                    None => ClientStep::Connect,
                    Some(Err(error)) => ClientStep::Finish(Err(error.dup())),
                    Some(Ok(_)) => ClientStep::Finish(Ok(record)),
                }
            },
        },
    }
}

/// Decides what opening a client for an operation does next.
pub fn client_for_operation(name: &str, start_if_needed: bool, progress: &ClientProgress) -> (step:
    ClientStep)
    ensures
        step.model() == client_step(name@, start_if_needed, progress.model()),
{
    let loaded = match &progress.record {
        None => {
            return ClientStep::LoadRecord;
        },
        Some(loaded) => loaded,
    };
    let record: VmRecord = match get_record(name, loaded) {
        Err(error) => {
            return ClientStep::Finish(Err(error));
        },
        Ok(record) => record,
    };
    let state: RecordState = match progress.state {
        None => {
            return ClientStep::ProbeState;
        },
        Some(state) => state,
    };
    if state != RecordState::Running && start_if_needed {
        match &progress.started {
            None => ClientStep::Start(StartMachine::new(own(name))),
            Some(Err(error)) => ClientStep::Finish(Err(error.dup())),
            Some(Ok(_)) => match &progress.reloaded {
                None => ClientStep::ReloadRecord,
                Some(reloaded) => match get_record(name, reloaded) {
                    Err(error) => ClientStep::Finish(Err(error)),
                    Ok(again) => decide_connect(progress, again, state),
                },
            },
        }
    } else {
        decide_connect(progress, record, state)
    }
}

/// Law: an operation starts a machine only if it may, and only one that does
/// not run.
pub proof fn law_operation_starts_only_if_asked(
    name: Seq<char>,
    start_if_needed: bool,
    progress: ClientProgressView,
)
    requires
        client_step(name, start_if_needed, progress) is Start,
    ensures
        start_if_needed,
        progress.state is Some && progress.state != Some(RecordState::Running),
{
}

/// A command that is ready to run in a machine.
#[derive(Debug, PartialEq, Eq)]
pub struct PreparedExec {
    pub record: VmRecord,
    pub env: Vec<(String, String)>,
    pub workdir: Option<String>,
    pub timeout: Option<TimeSpan>,
    pub tty: bool,
}

/// Mathematical model of a [`PreparedExec`].
pub struct PreparedExecView {
    pub record: VmRecordView,
    pub env: Seq<(Seq<char>, Seq<char>)>,
    pub workdir: Option<Seq<char>>,
    pub timeout: Option<TimeSpan>,
    pub tty: bool,
}

impl Model for PreparedExec {
    type V = PreparedExecView;

    open spec fn model(&self) -> PreparedExecView {
        PreparedExecView {
            record: self.record.model(),
            env: self.env.model(),
            workdir: self.workdir.model(),
            timeout: self.timeout.model(),
            tty: self.tty.model(),
        }
    }

    fn dup(&self) -> (copy: Self) {
        PreparedExec {
            record: self.record.dup(),
            env: self.env.dup(),
            workdir: self.workdir.dup(),
            timeout: self.timeout.dup(),
            tty: self.tty.dup(),
        }
    }
}

/// A request that is ready to run in a machine with this record, or why it is
/// not. `record_secrets` and `request_secrets` are what reading the secrets of
/// the machine and of the request gave.
pub open spec fn exec_prepared(
    request: ExecMachineView,
    record: VmRecordView,
    record_secrets: Result<EnvView, ErrorView>,
    request_secrets: Result<EnvView, ErrorView>,
) -> Result<PreparedExecView, ErrorView> {
    let base = if request.include_record_env {
        environment_of_record(record, record_secrets)
    } else {
        Ok(Seq::empty())
    };
    let more = environment_of_request(
        Seq::empty(),
        request.secret_refs,
        request.secret_scope,
        request_secrets,
    );
    if base is Err {
        Err(base->Err_0)
    } else if more is Err {
        Err(more->Err_0)
    } else {
        Ok(
            PreparedExecView {
                record,
                env: overridden(base->Ok_0 + more->Ok_0, request.env),
                workdir: first_some(request.workdir, record.workdir),
                timeout: request.timeout,
                tty: request.tty,
            },
        )
    }
}

/// Makes a request ready to run in a machine with this record.
pub fn prepare_exec(
    request: &ExecMachine,
    record: VmRecord,
    record_secrets: Result<Vec<(String, String)>, Error>,
    request_secrets: Result<Vec<(String, String)>, Error>,
) -> (prepared: Result<PreparedExec, Error>)
    ensures
        prepared.model() == exec_prepared(
            request.model(),
            record.model(),
            record_secrets.model(),
            request_secrets.model(),
        ),
{
    let mut env: Vec<(String, String)> = empty_list();
    if request.include_record_env {
        match record_env_with_secrets(&record, record_secrets) {
            Err(error) => {
                return Err(error);
            },
            Ok(base) => {
                env = base;
            },
        }
    }
    let none: Vec<(String, String)> = empty_list();
    match request_env(&none, &request.secret_refs, request.secret_scope, request_secrets) {
        Err(error) => Err(error),
        Ok(more) => {
            extend_from(&mut env, &more);
            let workdir: Option<String> = dup_first_some(&request.workdir, &record.workdir);
            Ok(
                PreparedExec {
                    record,
                    env: merge_env_overrides(&env, &request.env),
                    workdir,
                    timeout: request.timeout,
                    tty: request.tty,
                },
            )
        },
    }
}

/// The container job of a prepared command. `parsed` holds the variables of the
/// image, as the parser of `KEY=VALUE` entries gave them.
pub open spec fn prepared_config(
    prepared: PreparedExecView,
    image: Seq<char>,
    command: Seq<Seq<char>>,
    info: Option<ImageInfoView>,
    parsed: Seq<Option<(Seq<char>, Seq<char>)>>,
) -> RunConfigView {
    let defaults = runtime_defaults(
        info,
        parsed,
        prepared.env,
        prepared.workdir,
        prepared.record.user,
    );
    RunConfigView {
        image,
        command,
        env: defaults.env,
        workdir: defaults.workdir,
        user: defaults.user,
        mounts: bindings_of(prepared.record.mounts),
        timeout: prepared.timeout,
        tty: prepared.tty,
        persistent_overlay: Some(prepared.record.name),
    }
}

impl PreparedExec {
    /// Makes the container job of this command.
    pub fn image_run_config(
        &self,
        image: &str,
        command: &Vec<String>,
        info: &Option<ImageInfo>,
        parsed: &Vec<Option<(String, String)>>,
    ) -> (config: RunConfig)
        ensures
            config.model() == prepared_config(
                self.model(),
                image@,
                command.model(),
                info.model(),
                parsed.model(),
            ),
    {
        let defaults = resolve_image_runtime_defaults(
            info,
            parsed,
            &self.env,
            &self.workdir,
            &self.record.user,
        );
        RunConfig {
            image: own(image),
            command: command.dup(),
            env: defaults.env,
            workdir: defaults.workdir,
            user: defaults.user,
            mounts: record_mounts_to_runconfig_bindings(&self.record.mounts),
            timeout: self.timeout,
            tty: self.tty,
            persistent_overlay: Some(self.record.name.dup()),
        }
    }
}

/// How a command in a machine is run.
#[derive(Debug, Clone, Copy, PartialEq, Eq, Structural)]
pub enum ExecMode {
    /// Wait for the command and collect its output.
    Wait,
    /// Leave the command running.
    Background,
    /// Hand on output as it comes.
    Stream,
    /// Connect the caller's terminal.
    Interactive,
}

impl Model for ExecMode {
    type V = ExecMode;

    open spec fn model(&self) -> ExecMode {
        *self
    }

    fn dup(&self) -> (copy: Self) {
        *self
    }
}

/// The guest job of a prepared command.
pub open spec fn guest_job(
    request: ExecMachineView,
    prepared: PreparedExecView,
    mode: ExecMode,
) -> GuestCommandView {
    GuestCommandView {
        command: request.command,
        env: prepared.env,
        workdir: prepared.workdir,
        timeout: if mode == ExecMode::Background {
            None
        } else {
            request.timeout
        },
        stdin: if mode == ExecMode::Wait {
            request.stdin
        } else {
            None
        },
        tty: mode == ExecMode::Interactive && request.tty,
    }
}

/// What running a command in a machine has learnt so far.
#[derive(Debug, PartialEq, Eq)]
pub struct ExecProgress {
    /// The record of the machine, once a client is open.
    pub client: Option<Result<VmRecord, Error>>,
    /// What reading the machine's secrets gave.
    pub record_secrets: Option<Result<Vec<(String, String)>, Error>>,
    /// What reading the request's secrets gave.
    pub request_secrets: Option<Result<Vec<(String, String)>, Error>>,
    /// What the machine knows about its image.
    pub queried: Option<Result<Option<ImageInfo>, Error>>,
    /// What pulling the image gave.
    pub pulled: Option<Result<ImageInfo, Error>>,
    /// The variables of the image, as the parser of `KEY=VALUE` gave them.
    pub image_env: Option<Vec<Option<(String, String)>>>,
    /// The process of a command that was left running.
    pub background: Option<Result<u32, Error>>,
    /// What the command gave.
    pub output: Option<Result<ExecResult, Error>>,
}

/// Mathematical model of a [`ExecProgress`].
pub struct ExecProgressView {
    pub client: Option<Result<VmRecordView, ErrorView>>,
    pub record_secrets: Option<Result<Seq<(Seq<char>, Seq<char>)>, ErrorView>>,
    pub request_secrets: Option<Result<Seq<(Seq<char>, Seq<char>)>, ErrorView>>,
    pub queried: Option<Result<Option<ImageInfoView>, ErrorView>>,
    pub pulled: Option<Result<ImageInfoView, ErrorView>>,
    pub image_env: Option<Seq<Option<(Seq<char>, Seq<char>)>>>,
    pub background: Option<Result<u32, ErrorView>>,
    pub output: Option<Result<ExecResultView, ErrorView>>,
}

impl Model for ExecProgress {
    type V = ExecProgressView;

    open spec fn model(&self) -> ExecProgressView {
        ExecProgressView {
            client: self.client.model(),
            record_secrets: self.record_secrets.model(),
            request_secrets: self.request_secrets.model(),
            queried: self.queried.model(),
            pulled: self.pulled.model(),
            image_env: self.image_env.model(),
            background: self.background.model(),
            output: self.output.model(),
        }
    }

    fn dup(&self) -> (copy: Self) {
        ExecProgress {
            client: self.client.dup(),
            record_secrets: self.record_secrets.dup(),
            request_secrets: self.request_secrets.dup(),
            queried: self.queried.dup(),
            pulled: self.pulled.dup(),
            image_env: self.image_env.dup(),
            background: self.background.dup(),
            output: self.output.dup(),
        }
    }
}

/// What running a command in a machine does next.
#[derive(Debug, PartialEq, Eq)]
pub enum ExecStep {
    /// Open a client.
    OpenClient,
    /// Read the secrets of the machine.
    ReadRecordSecrets(SecretMap),
    /// Read the secrets of the request.
    ReadRequestSecrets(SecretMap),
    /// Ask what the machine knows about an image.
    QueryImage(String),
    /// Pull an image.
    PullImage(String),
    /// Parse the variables of the image.
    ParseImageEnv(Vec<String>),
    /// Run the command.
    Run(Job),
    /// The command is over.
    Finish(Result<ExecResult, Error>),
}

/// Mathematical model of a [`ExecStep`].
pub enum ExecStepView {
    OpenClient,
    ReadRecordSecrets(SecretMapView),
    ReadRequestSecrets(SecretMapView),
    QueryImage(Seq<char>),
    PullImage(Seq<char>),
    ParseImageEnv(Seq<Seq<char>>),
    Run(JobView),
    Finish(Result<ExecResultView, ErrorView>),
}

impl Model for ExecStep {
    type V = ExecStepView;

    open spec fn model(&self) -> ExecStepView {
        match self {
            ExecStep::OpenClient => ExecStepView::OpenClient,
            ExecStep::ReadRecordSecrets(value) => ExecStepView::ReadRecordSecrets(value.model()),
            ExecStep::ReadRequestSecrets(value) => ExecStepView::ReadRequestSecrets(value.model()),
            ExecStep::QueryImage(value) => ExecStepView::QueryImage(value.model()),
            ExecStep::PullImage(value) => ExecStepView::PullImage(value.model()),
            ExecStep::ParseImageEnv(value) => ExecStepView::ParseImageEnv(value.model()),
            ExecStep::Run(value) => ExecStepView::Run(value.model()),
            ExecStep::Finish(value) => ExecStepView::Finish(value.model()),
        }
    }

    fn dup(&self) -> (copy: Self) {
        match self {
            ExecStep::OpenClient => ExecStep::OpenClient,
            ExecStep::ReadRecordSecrets(value) => ExecStep::ReadRecordSecrets(value.dup()),
            ExecStep::ReadRequestSecrets(value) => ExecStep::ReadRequestSecrets(value.dup()),
            ExecStep::QueryImage(value) => ExecStep::QueryImage(value.dup()),
            ExecStep::PullImage(value) => ExecStep::PullImage(value.dup()),
            ExecStep::ParseImageEnv(value) => ExecStep::ParseImageEnv(value.dup()),
            ExecStep::Run(value) => ExecStep::Run(value.dup()),
            ExecStep::Finish(value) => ExecStep::Finish(value.dup()),
        }
    }
}

/// What is missing until the image of a machine is present.
#[derive(Debug, PartialEq, Eq)]
pub enum ImageStep {
    /// Ask whether the machine has the image.
    Query(String),
    /// Pull the image.
    Pull(String),
    /// The image cannot be had.
    Fail(Error),
}

/// Mathematical model of a [`ImageStep`].
pub enum ImageStepView {
    Query(Seq<char>),
    Pull(Seq<char>),
    Fail(ErrorView),
}

impl Model for ImageStep {
    type V = ImageStepView;

    open spec fn model(&self) -> ImageStepView {
        match self {
            ImageStep::Query(value) => ImageStepView::Query(value.model()),
            ImageStep::Pull(value) => ImageStepView::Pull(value.model()),
            ImageStep::Fail(value) => ImageStepView::Fail(value.model()),
        }
    }

    fn dup(&self) -> (copy: Self) {
        match self {
            ImageStep::Query(value) => ImageStep::Query(value.dup()),
            ImageStep::Pull(value) => ImageStep::Pull(value.dup()),
            ImageStep::Fail(value) => ImageStep::Fail(value.dup()),
        }
    }
}

/// What the machine knows about its image, once it is present.
pub open spec fn image_present(
    image: Seq<char>,
    queried: Option<Result<Option<ImageInfoView>, ErrorView>>,
    pulled: Option<Result<ImageInfoView, ErrorView>>,
) -> Result<ImageInfoView, ImageStepView> {
    match queried {
        None => Err(ImageStepView::Query(image)),
        Some(Err(error)) => Err(ImageStepView::Fail(error)),
        Some(Ok(Some(info))) => Ok(info),
        Some(Ok(None)) => match pulled {
            None => Err(ImageStepView::Pull(image)),
            Some(Err(error)) => Err(ImageStepView::Fail(error)),
            Some(Ok(info)) => Ok(info),
        },
    }
}

/// Decides what is missing until the image of a machine is present.
pub fn ensure_image_present(
    image: &str,
    queried: &Option<Result<Option<ImageInfo>, Error>>,
    pulled: &Option<Result<ImageInfo, Error>>,
) -> (info: Result<ImageInfo, ImageStep>)
    ensures
        info.model() == image_present(image@, queried.model(), pulled.model()),
{
    match queried {
        None => Err(ImageStep::Query(own(image))),
        Some(Err(error)) => Err(ImageStep::Fail(error.dup())),
        Some(Ok(Some(info))) => Ok(info.dup()),
        Some(Ok(None)) => match pulled {
            None => Err(ImageStep::Pull(own(image))),
            Some(Err(error)) => Err(ImageStep::Fail(error.dup())),
            Some(Ok(info)) => Ok(info.dup()),
        },
    }
}

/// Bytes of the line that names a process left running.
pub open spec fn pid_line(pid: u32) -> Seq<u8> {
    vstd::utf8::encode_utf8("pid="@ + decimal(pid as nat) + "\n"@)
}

/// What a command that was left running gives at once.
pub open spec fn background_result(pid: u32) -> ExecResultView {
    ExecResultView { exit_code: 0, stdout: pid_line(pid), stderr: Seq::empty() }
}

fn make_background_result(pid: u32) -> (result: ExecResult)
    ensures
        result.model() == background_result(pid),
{
    let line: String = cat3("pid=", number(pid as u64).as_str(), "\n");
    let stdout: Vec<u8> = line.as_str().as_bytes_vec();
    assert(stdout.model() =~= stdout@);
    ExecResult { exit_code: 0, stdout, stderr: empty_list() }
}

/// What running a prepared command does next.
pub open spec fn exec_run_step(
    request: ExecMachineView,
    mode: ExecMode,
    progress: ExecProgressView,
    job: JobView,
) -> ExecStepView {
    if mode == ExecMode::Background {
        match progress.background {
            None => ExecStepView::Run(job),
            Some(Err(error)) => ExecStepView::Finish(Err(error)),
            Some(Ok(pid)) => ExecStepView::Finish(Ok(background_result(pid))),
        }
    } else {
        match progress.output {
            None => ExecStepView::Run(job),
            Some(output) => ExecStepView::Finish(output),
        }
    }
}

/// What running a command in a machine with this record does.
pub open spec fn exec_job_step(
    request: ExecMachineView,
    mode: ExecMode,
    progress: ExecProgressView,
    prepared: PreparedExecView,
) -> ExecStepView {
    match prepared.record.image {
        None => exec_run_step(
            request,
            mode,
            progress,
            JobView::Guest(guest_job(request, prepared, mode)),
        ),
        Some(image) => match image_present(image, progress.queried, progress.pulled) {
            Err(ImageStepView::Query(image)) => ExecStepView::QueryImage(image),
            Err(ImageStepView::Pull(image)) => ExecStepView::PullImage(image),
            Err(ImageStepView::Fail(error)) => ExecStepView::Finish(Err(error)),
            Ok(info) => match progress.image_env {
                None => ExecStepView::ParseImageEnv(info.env),
                Some(parsed) => exec_run_step(
                    request,
                    mode,
                    progress,
                    JobView::Container(
                        prepared_config(prepared, image, request.command, Some(info), parsed),
                    ),
                ),
            },
        },
    }
}

/// What running a command in a machine does next.
pub open spec fn exec_step(
    request: ExecMachineView,
    mode: ExecMode,
    progress: ExecProgressView,
) -> ExecStepView {
    match progress.client {
        None => ExecStepView::OpenClient,
        Some(Err(error)) => ExecStepView::Finish(Err(error)),
        Some(Ok(record)) => if request.include_record_env && progress.record_secrets is None {
            ExecStepView::ReadRecordSecrets(record.secret_refs)
        } else if request.include_record_env && progress.record_secrets->0 is Err {
            ExecStepView::Finish(Err(progress.record_secrets->0->Err_0))
        } else {
            match crate::env::refs_checked("secrets"@, request.secret_refs, request.secret_scope) {
                Err(error) => ExecStepView::Finish(Err(error)),
                Ok(_) => match progress.request_secrets {
                    None => ExecStepView::ReadRequestSecrets(request.secret_refs),
                    Some(request_secrets) => match exec_prepared(
                        request,
                        record,
                        if request.include_record_env {
                            progress.record_secrets->0
                        } else {
                            Ok(Seq::empty())
                        },
                        request_secrets,
                    ) {
                        Err(error) => ExecStepView::Finish(Err(error)),
                        Ok(prepared) => exec_job_step(request, mode, progress, prepared),
                    },
                },
            }
        },
    }
}

fn decide_exec_run(
    request: &ExecMachine,
    mode: ExecMode,
    progress: &ExecProgress,
    job: Job,
) -> (step: ExecStep)
    ensures
        step.model() == exec_run_step(request.model(), mode, progress.model(), job.model()),
{
    if mode == ExecMode::Background {
        match &progress.background {
            None => ExecStep::Run(job),
            Some(Err(error)) => ExecStep::Finish(Err(error.dup())),
            Some(Ok(pid)) => ExecStep::Finish(Ok(make_background_result(*pid))),
        }
    } else {
        match &progress.output {
            None => ExecStep::Run(job),
            Some(output) => ExecStep::Finish(output.dup()),
        }
    }
}

fn decide_exec_job(
    request: &ExecMachine,
    mode: ExecMode,
    progress: &ExecProgress,
    prepared: PreparedExec,
) -> (step: ExecStep)
    ensures
        step.model() == exec_job_step(request.model(), mode, progress.model(), prepared.model()),
{
    match &prepared.record.image {
        None => {
            let command: GuestCommand = GuestCommand {
                command: request.command.dup(),
                env: prepared.env.dup(),
                workdir: prepared.workdir.dup(),
                timeout: if mode == ExecMode::Background {
                    None
                } else {
                    request.timeout
                },
                stdin: if mode == ExecMode::Wait {
                    request.stdin.dup()
                } else {
                    None
                },
                tty: mode == ExecMode::Interactive && request.tty,
            };
            decide_exec_run(request, mode, progress, Job::Guest(command))
        },
        Some(image) => match ensure_image_present(
            image.as_str(),
            &progress.queried,
            &progress.pulled,
        ) {
            Err(ImageStep::Query(image)) => ExecStep::QueryImage(image),
            Err(ImageStep::Pull(image)) => ExecStep::PullImage(image),
            Err(ImageStep::Fail(error)) => ExecStep::Finish(Err(error)),
            Ok(info) => match &progress.image_env {
                None => ExecStep::ParseImageEnv(info.env),
                Some(parsed) => {
                    let config: RunConfig = prepared.image_run_config(
                        image.as_str(),
                        &request.command,
                        &Some(info),
                        parsed,
                    );
                    decide_exec_run(request, mode, progress, Job::Container(config))
                },
            },
        },
    }
}

/// Decides what running a command in a machine does next.
pub fn next_exec_step(request: &ExecMachine, mode: ExecMode, progress: &ExecProgress) -> (step:
    ExecStep)
    ensures
        step.model() == exec_step(request.model(), mode, progress.model()),
{
    let record: &VmRecord = match &progress.client {
        None => {
            return ExecStep::OpenClient;
        },
        Some(Err(error)) => {
            return ExecStep::Finish(Err(error.dup()));
        },
        Some(Ok(record)) => record,
    };
    let mut record_secrets: Result<Vec<(String, String)>, Error> = Ok(empty_list());
    if request.include_record_env {
        match &progress.record_secrets {
            None => {
                return ExecStep::ReadRecordSecrets(record.secret_refs.dup());
            },
            Some(Err(error)) => {
                return ExecStep::Finish(Err(error.dup()));
            },
            Some(Ok(values)) => {
                record_secrets = Ok(values.dup());
            },
        }
    }
    if let Err(error) = crate::env::check_secret_refs(
        "secrets",
        &request.secret_refs,
        request.secret_scope,
    ) {
        return ExecStep::Finish(Err(error));
    }
    match &progress.request_secrets {
        None => ExecStep::ReadRequestSecrets(request.secret_refs.dup()),
        Some(request_secrets) => match prepare_exec(
            request,
            record.dup(),
            record_secrets,
            request_secrets.dup(),
        ) {
            Err(error) => ExecStep::Finish(Err(error)),
            Ok(prepared) => decide_exec_job(request, mode, progress, prepared),
        },
    }
}

/// The exit code that a stream of events ends with: that of the last exit, or
/// zero without one.
pub open spec fn last_exit(events: Seq<ExecEventView>) -> i32
    decreases events.len(),
{
    if events.len() == 0 {
        0
    } else {
        match events.last() {
            ExecEventView::Exit(code) => code,
            _ => last_exit(events.drop_last()),
        }
    }
}

/// Finds the exit code that a stream of events ends with.
pub fn stream_exit_code(events: &Vec<ExecEvent>) -> (code: i32)
    ensures
        code == last_exit(events.model()),
{
    let mut i: usize = events.len();
    assert(events.model().take(i as int) =~= events.model());
    while i > 0
        invariant
            i <= events.len(),
            last_exit(events.model().take(i as int)) == last_exit(events.model()),
        decreases i,
    {
        let ghost now = events.model().take(i as int);
        assert(now.last() == events[i - 1].model());
        assert(now.drop_last() =~= events.model().take(i - 1));
        match &events[i - 1] {
            ExecEvent::Exit(code) => {
                return *code;
            },
            _ => {},
        }
        i -= 1;
    }
    0
}

/// The container job of a run request, or why it cannot run.
pub open spec fn run_config(
    request: RunMachineView,
    record: VmRecordView,
    resolved: Result<EnvView, ErrorView>,
) -> Result<RunConfigView, ErrorView> {
    match environment_of_request(
        request.env,
        request.secret_refs,
        request.secret_scope,
        resolved,
    ) {
        Err(error) => Err(error),
        Ok(env) => Ok(
            RunConfigView {
                image: request.image,
                command: request.command,
                env,
                workdir: request.workdir,
                user: None,
                mounts: bindings_of(record.mounts),
                timeout: request.timeout,
                tty: false,
                persistent_overlay: request.persistent_overlay_id,
            },
        ),
    }
}

/// Makes the container job of a run request in a machine with this record.
pub fn make_run_config(
    request: &RunMachine,
    record: &VmRecord,
    resolved: Result<Vec<(String, String)>, Error>,
) -> (config: Result<RunConfig, Error>)
    ensures
        config.model() == run_config(request.model(), record.model(), resolved.model()),
{
    match request_env(&request.env, &request.secret_refs, request.secret_scope, resolved) {
        Err(error) => Err(error),
        Ok(env) => Ok(
            RunConfig {
                image: request.image.dup(),
                command: request.command.dup(),
                env,
                workdir: request.workdir.dup(),
                user: None,
                mounts: record_mounts_to_runconfig_bindings(&record.mounts),
                timeout: request.timeout,
                tty: false,
                persistent_overlay: request.persistent_overlay_id.dup(),
            },
        ),
    }
}

/// The job that brings up the file system of a machine with this image.
pub open spec fn overlay_config(image: Seq<char>, name: Seq<char>) -> RunConfigView {
    RunConfigView {
        image,
        command: seq!["/bin/true"@],
        env: Seq::empty(),
        workdir: None,
        user: None,
        mounts: Seq::empty(),
        timeout: None,
        tty: false,
        persistent_overlay: Some(name),
    }
}

fn make_overlay_config(image: &str, name: &str) -> (config: RunConfig)
    ensures
        config.model() == overlay_config(image@, name@),
{
    RunConfig {
        image: own(image),
        command: one_of(own("/bin/true")),
        env: empty_list(),
        workdir: None,
        user: None,
        mounts: empty_list(),
        timeout: None,
        tty: false,
        persistent_overlay: Some(own(name)),
    }
}

/// What is known while the file system of a machine is brought up.
#[derive(Debug, PartialEq, Eq)]
pub struct FilesProgress {
    /// What the machine knows about its image.
    pub queried: Option<Result<Option<ImageInfo>, Error>>,
    /// What pulling the image gave.
    pub pulled: Option<Result<ImageInfo, Error>>,
    /// What the job in the image gave.
    pub ran: Option<Result<(), Error>>,
}

/// Mathematical model of a [`FilesProgress`].
pub struct FilesProgressView {
    pub queried: Option<Result<Option<ImageInfoView>, ErrorView>>,
    pub pulled: Option<Result<ImageInfoView, ErrorView>>,
    pub ran: Option<Result<(), ErrorView>>,
}

impl Model for FilesProgress {
    type V = FilesProgressView;

    open spec fn model(&self) -> FilesProgressView {
        FilesProgressView {
            queried: self.queried.model(),
            pulled: self.pulled.model(),
            ran: self.ran.model(),
        }
    }

    fn dup(&self) -> (copy: Self) {
        FilesProgress {
            queried: self.queried.dup(),
            pulled: self.pulled.dup(),
            ran: self.ran.dup(),
        }
    }
}

/// What is done next to bring up the file system of a machine.
#[derive(Debug, PartialEq, Eq)]
pub enum FilesStep {
    /// Ask whether the machine has this image.
    QueryImage(String),
    /// Pull this image, with the registry settings of the host.
    PullImage(String),
    /// Run this job to its end.
    Run(RunConfig),
    /// The file system is up, or cannot be brought up.
    Finish(Result<(), Error>),
}

/// Mathematical model of a [`FilesStep`].
pub enum FilesStepView {
    QueryImage(Seq<char>),
    PullImage(Seq<char>),
    Run(RunConfigView),
    Finish(Result<(), ErrorView>),
}

impl Model for FilesStep {
    type V = FilesStepView;

    open spec fn model(&self) -> FilesStepView {
        match self {
            FilesStep::QueryImage(value) => FilesStepView::QueryImage(value.model()),
            FilesStep::PullImage(value) => FilesStepView::PullImage(value.model()),
            FilesStep::Run(value) => FilesStepView::Run(value.model()),
            FilesStep::Finish(value) => FilesStepView::Finish(value.model()),
        }
    }

    fn dup(&self) -> (copy: Self) {
        match self {
            FilesStep::QueryImage(value) => FilesStep::QueryImage(value.dup()),
            FilesStep::PullImage(value) => FilesStep::PullImage(value.dup()),
            FilesStep::Run(value) => FilesStep::Run(value.dup()),
            FilesStep::Finish(value) => FilesStep::Finish(value.dup()),
        }
    }
}

/// What is done next to bring up the file system of a machine before its files
/// are read or written: the image is pulled where it is missing, and a job in it
/// makes the file system appear. A machine without an image needs nothing.
pub open spec fn files_step(
    record: VmRecordView,
    name: Seq<char>,
    progress: FilesProgressView,
) -> FilesStepView {
    match record.image {
        None => FilesStepView::Finish(Ok(())),
        Some(image) => match image_present(image, progress.queried, progress.pulled) {
            Err(ImageStepView::Query(image)) => FilesStepView::QueryImage(image),
            Err(ImageStepView::Pull(image)) => FilesStepView::PullImage(image),
            Err(ImageStepView::Fail(error)) => FilesStepView::Finish(Err(error)),
            Ok(_) => match progress.ran {
                None => FilesStepView::Run(overlay_config(image, name)),
                Some(result) => FilesStepView::Finish(result),
            },
        },
    }
}

/// Decides what is done next to bring up the file system of a machine before its
/// files are read or written.
pub fn prepare_image_overlay_for_file_ops(
    record: &VmRecord,
    name: &str,
    progress: &FilesProgress,
) -> (step: FilesStep)
    ensures
        step.model() == files_step(record.model(), name@, progress.model()),
{
    let image: &String = match &record.image {
        None => {
            return FilesStep::Finish(Ok(()));
        },
        Some(image) => image,
    };
    match ensure_image_present(image.as_str(), &progress.queried, &progress.pulled) {
        Err(ImageStep::Query(image)) => FilesStep::QueryImage(image),
        Err(ImageStep::Pull(image)) => FilesStep::PullImage(image),
        Err(ImageStep::Fail(error)) => FilesStep::Finish(Err(error)),
        Ok(_) => match &progress.ran {
            None => FilesStep::Run(make_overlay_config(image.as_str(), name)),
            Some(result) => FilesStep::Finish(result.dup()),
        },
    }
}

/// Law: the file system of a machine with an image is up only once the image is
/// there and the job in it has run, an image is pulled only where the machine does
/// not have it, and without an image nothing is done.
pub proof fn law_files_wait_for_the_image(
    record: VmRecordView,
    name: Seq<char>,
    progress: FilesProgressView,
)
    ensures
        record.image is None ==> files_step(record, name, progress) == FilesStepView::Finish(
            Ok(()),
        ),
        record.image is Some && files_step(record, name, progress) == FilesStepView::Finish(Ok(()))
            ==> progress.ran == Some(Ok::<(), ErrorView>(())) && image_present(
            record.image->0,
            progress.queried,
            progress.pulled,
        ) is Ok,
        files_step(record, name, progress) is Run ==> image_present(
            record.image->0,
            progress.queried,
            progress.pulled,
        ) is Ok,
        files_step(record, name, progress) is PullImage ==> progress.queried == Some(
            Ok::<Option<ImageInfoView>, ErrorView>(None),
        ),
{
}

/// What listing cached images has learnt so far.
#[derive(Debug, PartialEq, Eq)]
pub struct ImagesProgress {
    /// The state of the machine, if it exists.
    pub state: Option<Result<Option<RecordState>, Error>>,
    /// What opening a client gave.
    pub client: Option<Result<(), Error>>,
    /// The images.
    pub images: Option<Result<Vec<ImageInfo>, Error>>,
    /// Whether the machine was stopped again.
    pub stopped: bool,
}

/// Mathematical model of a [`ImagesProgress`].
pub struct ImagesProgressView {
    pub state: Option<Result<Option<RecordState>, ErrorView>>,
    pub client: Option<Result<(), ErrorView>>,
    pub images: Option<Result<Seq<ImageInfoView>, ErrorView>>,
    pub stopped: bool,
}

impl Model for ImagesProgress {
    type V = ImagesProgressView;

    open spec fn model(&self) -> ImagesProgressView {
        ImagesProgressView {
            state: self.state.model(),
            client: self.client.model(),
            images: self.images.model(),
            stopped: self.stopped.model(),
        }
    }

    fn dup(&self) -> (copy: Self) {
        ImagesProgress {
            state: self.state.dup(),
            client: self.client.dup(),
            images: self.images.dup(),
            stopped: self.stopped.dup(),
        }
    }
}

/// What listing cached images does next.
#[derive(Debug, PartialEq, Eq)]
pub enum ImagesStep {
    /// Read the status of the machine.
    LoadStatus,
    /// Open a client, starting the machine if need be.
    OpenClient { start_if_needed: bool, trace_id: Option<String> },
    /// List the images.
    ListImages,
    /// Stop the machine again.
    Stop(StopMachine),
    /// The listing is over.
    Finish(Result<Vec<ImageInfo>, Error>),
}

/// Mathematical model of a [`ImagesStep`].
pub enum ImagesStepView {
    LoadStatus,
    OpenClient { start_if_needed: bool, trace_id: Option<Seq<char>> },
    ListImages,
    Stop(StopMachineView),
    Finish(Result<Seq<ImageInfoView>, ErrorView>),
}

impl Model for ImagesStep {
    type V = ImagesStepView;

    open spec fn model(&self) -> ImagesStepView {
        match self {
            ImagesStep::LoadStatus => ImagesStepView::LoadStatus,
            ImagesStep::OpenClient { start_if_needed, trace_id } => ImagesStepView::OpenClient { start_if_needed: start_if_needed.model(), trace_id: trace_id.model() },
            ImagesStep::ListImages => ImagesStepView::ListImages,
            ImagesStep::Stop(value) => ImagesStepView::Stop(value.model()),
            ImagesStep::Finish(value) => ImagesStepView::Finish(value.model()),
        }
    }

    fn dup(&self) -> (copy: Self) {
        match self {
            ImagesStep::LoadStatus => ImagesStep::LoadStatus,
            ImagesStep::OpenClient { start_if_needed, trace_id } => ImagesStep::OpenClient { start_if_needed: start_if_needed.dup(), trace_id: trace_id.dup() },
            ImagesStep::ListImages => ImagesStep::ListImages,
            ImagesStep::Stop(value) => ImagesStep::Stop(value.dup()),
            ImagesStep::Finish(value) => ImagesStep::Finish(value.dup()),
        }
    }
}

/// What listing cached images does next.
pub open spec fn images_step(
    request: ListMachineImagesView,
    progress: ImagesProgressView,
) -> ImagesStepView {
    match progress.state {
        None => ImagesStepView::LoadStatus,
        Some(Err(error)) => ImagesStepView::Finish(Err(error)),
        Some(Ok(None)) => ImagesStepView::Finish(Err(ErrorView::VmNotFound { name: request.name })),
        Some(Ok(Some(state))) => if state != RecordState::Running && !request.start_if_needed {
            if request.empty_when_stopped {
                ImagesStepView::Finish(Ok(Seq::empty()))
            } else {
                ImagesStepView::Finish(
                    Err(ErrorView::InvalidState { expected: "running"@, actual: state.name() }),
                )
            }
        } else {
            match progress.client {
                None => ImagesStepView::OpenClient {
                    start_if_needed: request.start_if_needed,
                    trace_id: request.trace_id,
                },
                Some(Err(error)) => ImagesStepView::Finish(Err(error)),
                Some(Ok(_)) => match progress.images {
                    None => ImagesStepView::ListImages,
                    Some(images) => if state != RecordState::Running && request.stop_after_start
                        && !progress.stopped {
                        ImagesStepView::Stop(StopMachineView { name: request.name })
                    } else {
                        ImagesStepView::Finish(images)
                    },
                },
            }
        },
    }
}

/// Decides what listing cached images does next.
pub fn next_images_step(request: &ListMachineImages, progress: &ImagesProgress) -> (step: ImagesStep)
    ensures
        step.model() == images_step(request.model(), progress.model()),
{
    let state: RecordState = match &progress.state {
        None => {
            return ImagesStep::LoadStatus;
        },
        Some(Err(error)) => {
            return ImagesStep::Finish(Err(error.dup()));
        },
        Some(Ok(None)) => {
            return ImagesStep::Finish(Err(Error::vm_not_found(request.name.as_str())));
        },
        Some(Ok(Some(state))) => *state,
    };
    if state != RecordState::Running && !request.start_if_needed {
        return if request.empty_when_stopped {
            ImagesStep::Finish(Ok(empty_list()))
        } else {
            ImagesStep::Finish(Err(Error::invalid_state("running", state.label())))
        };
    }
    match &progress.client {
        None => ImagesStep::OpenClient {
            start_if_needed: request.start_if_needed,
            trace_id: request.trace_id.dup(),
        },
        Some(Err(error)) => ImagesStep::Finish(Err(error.dup())),
        Some(Ok(_)) => match &progress.images {
            None => ImagesStep::ListImages,
            Some(images) => if state != RecordState::Running && request.stop_after_start
                && !progress.stopped {
                ImagesStep::Stop(StopMachine::new(request.name.dup()))
            } else {
                ImagesStep::Finish(images.dup())
            },
        },
    }
}

/// Law: listing images leaves a machine that it started running only if it was
/// not asked to stop it, and never stops a machine that ran before.
pub proof fn law_images_restore_state(
    request: ListMachineImagesView,
    progress: ImagesProgressView,
    state: RecordState,
)
    requires
        progress.state == Some(Ok::<Option<RecordState>, ErrorView>(Some(state))),
    ensures
        images_step(request, progress) is Stop ==> state != RecordState::Running,
        images_step(request, progress) matches ImagesStepView::Finish(Ok(_)) && request.stop_after_start
            && request.start_if_needed && state != RecordState::Running ==> progress.stopped,
{
}

/// Size of several images together.
pub open spec fn total_size(images: Seq<ImageInfoView>) -> nat
    decreases images.len(),
{
    if images.len() == 0 {
        0
    } else {
        total_size(images.drop_last()) + images.last().size as nat
    }
}

proof fn lemma_total_size(images: Seq<ImageInfoView>, i: int)
    requires
        0 <= i <= images.len(),
    ensures
        total_size(images.take(i)) <= total_size(images),
    decreases images.len() - i,
{
    if i < images.len() {
        lemma_total_size(images, i + 1);
        assert(images.take(i + 1).drop_last() =~= images.take(i));
    } else {
        assert(images.take(i) =~= images);
    }
}

fn sum_sizes(images: &Vec<ImageInfo>) -> (total: u64)
    requires
        total_size(images.model()) <= u64::MAX,
    ensures
        total == total_size(images.model()),
{
    let mut total: u64 = 0;
    let mut i: usize = 0;
    while i < images.len()
        invariant
            i <= images.len(),
            total_size(images.model()) <= u64::MAX,
            total == total_size(images.model().take(i as int)),
        decreases images.len() - i,
    {
        let ghost next = images.model().take(i + 1);
        assert(next.drop_last() =~= images.model().take(i as int));
        assert(next.last() == images[i as int].model());
        proof {
            lemma_total_size(images.model(), i + 1);
        }
        total += images[i].size;
        i += 1;
    }
    assert(images.model().take(images.len() as int) =~= images.model());
    total
}

/// What pruning images has learnt so far.
#[derive(Debug, PartialEq, Eq)]
pub struct PruneProgress {
    /// The state of the machine, if it exists.
    pub state: Option<Result<Option<RecordState>, Error>>,
    /// What opening a client gave.
    pub client: Option<Result<(), Error>>,
    /// The images.
    pub images: Option<Result<Vec<ImageInfo>, Error>>,
    /// The bytes that garbage collection freed.
    pub collected: Option<Result<u64, Error>>,
    /// Whether the machine was stopped again.
    pub stopped: bool,
}

/// Mathematical model of a [`PruneProgress`].
pub struct PruneProgressView {
    pub state: Option<Result<Option<RecordState>, ErrorView>>,
    pub client: Option<Result<(), ErrorView>>,
    pub images: Option<Result<Seq<ImageInfoView>, ErrorView>>,
    pub collected: Option<Result<u64, ErrorView>>,
    pub stopped: bool,
}

impl Model for PruneProgress {
    type V = PruneProgressView;

    open spec fn model(&self) -> PruneProgressView {
        PruneProgressView {
            state: self.state.model(),
            client: self.client.model(),
            images: self.images.model(),
            collected: self.collected.model(),
            stopped: self.stopped.model(),
        }
    }

    fn dup(&self) -> (copy: Self) {
        PruneProgress {
            state: self.state.dup(),
            client: self.client.dup(),
            images: self.images.dup(),
            collected: self.collected.dup(),
            stopped: self.stopped.dup(),
        }
    }
}

/// What pruning images does next.
#[derive(Debug, PartialEq, Eq)]
pub enum PruneStep {
    /// Read the status of the machine.
    LoadStatus,
    /// Open a client, starting the machine if need be.
    OpenClient { trace_id: Option<String> },
    /// List the images.
    ListImages,
    /// Remove what is not needed, or only say how much that is.
    Collect { dry_run: bool, all: bool },
    /// Stop the machine again.
    Stop(StopMachine),
    /// The prune is over.
    Finish(Result<PruneImagesResult, Error>),
}

/// Mathematical model of a [`PruneStep`].
pub enum PruneStepView {
    LoadStatus,
    OpenClient { trace_id: Option<Seq<char>> },
    ListImages,
    Collect { dry_run: bool, all: bool },
    Stop(StopMachineView),
    Finish(Result<PruneImagesResultView, ErrorView>),
}

impl Model for PruneStep {
    type V = PruneStepView;

    open spec fn model(&self) -> PruneStepView {
        match self {
            PruneStep::LoadStatus => PruneStepView::LoadStatus,
            PruneStep::OpenClient { trace_id } => PruneStepView::OpenClient { trace_id: trace_id.model() },
            PruneStep::ListImages => PruneStepView::ListImages,
            PruneStep::Collect { dry_run, all } => PruneStepView::Collect { dry_run: dry_run.model(), all: all.model() },
            PruneStep::Stop(value) => PruneStepView::Stop(value.model()),
            PruneStep::Finish(value) => PruneStepView::Finish(value.model()),
        }
    }

    fn dup(&self) -> (copy: Self) {
        match self {
            PruneStep::LoadStatus => PruneStep::LoadStatus,
            PruneStep::OpenClient { trace_id } => PruneStep::OpenClient { trace_id: trace_id.dup() },
            PruneStep::ListImages => PruneStep::ListImages,
            PruneStep::Collect { dry_run, all } => PruneStep::Collect { dry_run: dry_run.dup(), all: all.dup() },
            PruneStep::Stop(value) => PruneStep::Stop(value.dup()),
            PruneStep::Finish(value) => PruneStep::Finish(value.dup()),
        }
    }
}

/// The end of a prune that freed this many bytes.
pub open spec fn prune_end(
    request: PruneMachineImagesView,
    progress: PruneProgressView,
    state: RecordState,
    images: nat,
    freed: u64,
) -> PruneStepView {
    if state != RecordState::Running && request.stop_after_start && !progress.stopped {
        PruneStepView::Stop(StopMachineView { name: request.name })
    } else {
        PruneStepView::Finish(
            Ok(
                PruneImagesResultView {
                    freed_bytes: freed,
                    removed_images: if request.all {
                        images as usize
                    } else {
                        0
                    },
                    dry_run: request.dry_run,
                },
            ),
        )
    }
}

/// What pruning images does next.
pub open spec fn prune_step(
    request: PruneMachineImagesView,
    progress: PruneProgressView,
) -> PruneStepView {
    match progress.state {
        None => PruneStepView::LoadStatus,
        Some(Err(error)) => PruneStepView::Finish(Err(error)),
        Some(Ok(None)) => PruneStepView::Finish(Err(ErrorView::VmNotFound { name: request.name })),
        Some(Ok(Some(state))) => if request.all && state == RecordState::Running {
            PruneStepView::Finish(
                Err(
                    ErrorView::Agent {
                        operation: "prune"@,
                        reason: "cannot prune all images while machine '"@ + request.name
                            + "' is running"@,
                    },
                ),
            )
        } else {
            match progress.client {
                None => PruneStepView::OpenClient { trace_id: request.trace_id },
                Some(Err(error)) => PruneStepView::Finish(Err(error)),
                Some(Ok(_)) => if request.all && progress.images is None {
                    PruneStepView::ListImages
                } else if request.all && progress.images->0 is Err {
                    PruneStepView::Finish(Err(progress.images->0->Err_0))
                } else {
                    let images = if request.all {
                        progress.images->0->Ok_0
                    } else {
                        Seq::empty()
                    };
                    if request.all && request.dry_run {
                        prune_end(
                            request,
                            progress,
                            state,
                            images.len(),
                            total_size(images) as u64,
                        )
                    } else {
                        match progress.collected {
                            None => PruneStepView::Collect {
                                dry_run: request.dry_run,
                                all: request.all,
                            },
                            Some(Err(error)) => PruneStepView::Finish(Err(error)),
                            Some(Ok(freed)) => prune_end(
                                request,
                                progress,
                                state,
                                images.len(),
                                freed,
                            ),
                        }
                    }
                },
            }
        },
    }
}

fn decide_prune_end(
    request: &PruneMachineImages,
    progress: &PruneProgress,
    state: RecordState,
    images: usize,
    freed: u64,
) -> (step: PruneStep)
    ensures
        step.model() == prune_end(request.model(), progress.model(), state, images as nat, freed),
{
    if state != RecordState::Running && request.stop_after_start && !progress.stopped {
        PruneStep::Stop(StopMachine::new(request.name.dup()))
    } else {
        PruneStep::Finish(
            Ok(
                PruneImagesResult {
                    freed_bytes: freed,
                    removed_images: if request.all {
                        images
                    } else {
                        0
                    },
                    dry_run: request.dry_run,
                },
            ),
        )
    }
}

/// Decides what pruning images does next. In a dry run over every image, the
/// sizes of the images together must fit in 64 bits.
pub fn next_prune_step(request: &PruneMachineImages, progress: &PruneProgress) -> (step: PruneStep)
    requires
        request.all && request.dry_run ==> (progress.model().images matches Some(Ok(images))
            ==> total_size(images) <= u64::MAX),
    ensures
        step.model() == prune_step(request.model(), progress.model()),
{
    let state: RecordState = match &progress.state {
        None => {
            return PruneStep::LoadStatus;
        },
        Some(Err(error)) => {
            return PruneStep::Finish(Err(error.dup()));
        },
        Some(Ok(None)) => {
            return PruneStep::Finish(Err(Error::vm_not_found(request.name.as_str())));
        },
        Some(Ok(Some(state))) => *state,
    };
    if request.all && state == RecordState::Running {
        return PruneStep::Finish(
            Err(
                Error::agent(
                    "prune",
                    cat3(
                        "cannot prune all images while machine '",
                        request.name.as_str(),
                        "' is running",
                    ),
                ),
            ),
        );
    }
    match &progress.client {
        None => {
            return PruneStep::OpenClient { trace_id: request.trace_id.dup() };
        },
        Some(Err(error)) => {
            return PruneStep::Finish(Err(error.dup()));
        },
        Some(Ok(_)) => {},
    }
    let mut count: usize = 0;
    if request.all {
        match &progress.images {
            None => {
                return PruneStep::ListImages;
            },
            Some(Err(error)) => {
                return PruneStep::Finish(Err(error.dup()));
            },
            Some(Ok(images)) => {
                count = images.len();
                if request.dry_run {
                    let freed: u64 = sum_sizes(images);
                    return decide_prune_end(request, progress, state, count, freed);
                }
            },
        }
    }
    match &progress.collected {
        None => PruneStep::Collect { dry_run: request.dry_run, all: request.all },
        Some(Err(error)) => PruneStep::Finish(Err(error.dup())),
        Some(Ok(freed)) => decide_prune_end(request, progress, state, count, *freed),
    }
}

/// Law: a dry run removes nothing, and every image is removed only from a
/// machine that did not run.
pub proof fn law_prune_is_safe(request: PruneMachineImagesView, progress: PruneProgressView)
    requires
        prune_step(request, progress) is Collect,
    ensures
        request.dry_run ==> prune_step(request, progress) == (PruneStepView::Collect {
            dry_run: true,
            all: false,
        }),
        request.all ==> progress.state != Some(
            Ok::<Option<RecordState>, ErrorView>(Some(RecordState::Running)),
        ),
{
}

/// How the image of a pull request is pulled, or why it is not.
pub open spec fn pull_requested(request: PullMachineImageView) -> Result<
    PullOptionsView,
    ErrorView,
> {
    if request.image.len() == 0 {
        Err(
            ErrorView::Config {
                operation: "pull image"@,
                reason: "image reference cannot be empty"@,
            },
        )
    } else {
        Ok(
            crate::lifecycle::pull_options(
                request.oci_platform,
                request.proxy,
                request.no_proxy,
            ),
        )
    }
}

/// Decides how the image of a pull request is pulled.
pub fn pull_image_options(request: &PullMachineImage) -> (options: Result<PullOptions, Error>)
    ensures
        options.model() == pull_requested(request.model()),
{
    if request.image.as_str().is_empty() {
        return Err(Error::config("pull image", own("image reference cannot be empty")));
    }
    Ok(
        PullOptions {
            use_registry_config: true,
            oci_platform: request.oci_platform.dup(),
            proxy: request.proxy.dup(),
            no_proxy: request.no_proxy.dup(),
        },
    )
}

/// Whether a request for a data directory may be answered.
pub open spec fn data_dir_allowed(
    request: DataDirMachineView,
    loaded: Result<Option<VmRecordView>, ErrorView>,
) -> Result<(), ErrorView> {
    if request.require_existing {
        match record_found(request.name, loaded) {
            Err(error) => Err(error),
            Ok(_) => Ok(()),
        }
    } else {
        Ok(())
    }
}

/// Decides whether a request for a data directory may be answered.
pub fn check_data_dir(request: &DataDirMachine, loaded: &Result<Option<VmRecord>, Error>) -> (allowed:
    Result<(), Error>)
    ensures
        allowed.model() == data_dir_allowed(request.model(), loaded.model()),
{
    if !request.require_existing {
        return Ok(());
    }
    match loaded {
        Err(error) => Err(error.dup()),
        Ok(None) => Err(Error::vm_not_found(request.name.as_str())),
        Ok(Some(_)) => Ok(()),
    }
}

/// Law: a command in a machine is run as it was asked for, in the image of the machine
/// where it has one and in the guest otherwise. A directory that the request names is
/// used, whatever record and image say; without one the record's is used, and then the
/// image's. The user and the mounts are those of the record, and the user of the image
/// stands in for a record without one.
pub proof fn law_exec_runs_what_was_asked(
    request: ExecMachineView,
    mode: ExecMode,
    progress: ExecProgressView,
)
    ensures
        exec_step(request, mode, progress) matches ExecStepView::Run(job) ==> {
            &&& progress.client is Some && progress.client->0 is Ok
            &&& ({
                let record = progress.client->0->Ok_0;
                let info = if progress.queried->0->Ok_0 is Some {
                    progress.queried->0->Ok_0->0
                } else {
                    progress.pulled->0->Ok_0
                };
                &&& job is Container <==> record.image is Some
                &&& job matches JobView::Guest(command) ==> {
                    &&& command.command == request.command
                    &&& request.workdir is Some ==> command.workdir == request.workdir
                    &&& request.workdir is None ==> command.workdir == record.workdir
                    &&& mode == ExecMode::Background ==> command.timeout is None
                    &&& mode != ExecMode::Background ==> command.timeout == request.timeout
                    &&& mode == ExecMode::Wait ==> command.stdin == request.stdin
                    &&& mode != ExecMode::Wait ==> command.stdin is None
                    &&& command.tty <==> mode == ExecMode::Interactive && request.tty
                }
                &&& job matches JobView::Container(config) ==> {
                    &&& progress.queried is Some && progress.queried->0 is Ok
                    &&& progress.queried->0->Ok_0 is None ==> progress.pulled is Some
                        && progress.pulled->0 is Ok
                    &&& record.image == Some(config.image)
                    &&& config.command == request.command
                    &&& request.workdir is Some ==> config.workdir == request.workdir
                    &&& request.workdir is None && record.workdir is Some ==> config.workdir
                        == record.workdir
                    &&& request.workdir is None && record.workdir is None ==> config.workdir
                        == info.workdir
                    &&& record.user is Some ==> config.user == record.user
                    &&& record.user is None ==> config.user == info.user
                    &&& config.timeout == request.timeout && config.tty == request.tty
                    &&& config.persistent_overlay == Some(record.name)
                    &&& config.mounts.len() == record.mounts.len()
                    &&& forall|i: int|
                        0 <= i < record.mounts.len() ==> #[trigger] config.mounts[i] == (
                            i as usize,
                            record.mounts[i].1,
                            record.mounts[i].2,
                        )
                }
            })
        },
{
}

/// Law: a command in a machine sees a variable with the value that the request gives it;
/// else with that of a secret of the request, and else, where the request takes in those
/// of the machine, with that of a secret of the machine or with that of the record. In an
/// image, the image's value stands in where none of these gives one.
pub proof fn law_exec_environment(
    request: ExecMachineView,
    mode: ExecMode,
    progress: ExecProgressView,
    key: Seq<char>,
)
    ensures
        exec_step(request, mode, progress) matches ExecStepView::Run(job) ==> {
            let env = match job {
                JobView::Guest(command) => command.env,
                JobView::Container(config) => config.env,
            };
            let own_secrets = progress.request_secrets->0->Ok_0;
            let machine_secrets = progress.record_secrets->0->Ok_0;
            let record = progress.client->0->Ok_0;
            let takes_in = request.include_record_env;
            &&& progress.request_secrets is Some && progress.request_secrets->0 is Ok
            &&& takes_in ==> progress.record_secrets is Some && progress.record_secrets->0 is Ok
            &&& value_of(request.env, key) is Some ==> value_of(env, key) == value_of(
                request.env,
                key,
            )
            &&& value_of(request.env, key) is None && value_of(own_secrets, key) is Some
                ==> value_of(env, key) == value_of(own_secrets, key)
            &&& value_of(request.env, key) is None && value_of(own_secrets, key) is None && takes_in
                && value_of(machine_secrets, key) is Some ==> value_of(env, key) == value_of(
                machine_secrets,
                key,
            )
            &&& value_of(request.env, key) is None && value_of(own_secrets, key) is None && takes_in
                && value_of(machine_secrets, key) is None && value_of(record.env, key) is Some
                ==> value_of(env, key) == value_of(record.env, key)
            &&& value_of(request.env, key) is None && value_of(own_secrets, key) is None && (
            !takes_in || (value_of(machine_secrets, key) is None && value_of(record.env, key)
                is None)) ==> value_of(env, key) == (if job is Container {
                value_of(image_variables(progress.image_env->0), key)
            } else {
                None
            })
        },
{
    if exec_step(request, mode, progress) is Run {
        let record = progress.client->0->Ok_0;
        let own_secrets = progress.request_secrets->0->Ok_0;
        let base = if request.include_record_env {
            record.env + progress.record_secrets->0->Ok_0
        } else {
            Seq::empty()
        };
        assert(overridden(own_secrets, Seq::empty()) == own_secrets);
        law_later_settings_win(record.env, progress.record_secrets->0->Ok_0, key);
        law_later_settings_win(base, own_secrets, key);
        law_overrides_win(base + own_secrets, request.env, key);
        let env = overridden(base + own_secrets, request.env);
        if record.image is Some {
            law_overrides_win(image_variables(progress.image_env->0), env, key);
        }
    }
}

/// Law: a command gives what it gave: where it was left running that is its process, told
/// at once, and otherwise its output. It asks for everything once, and for the secrets of
/// the machine only where it takes them in.
pub proof fn law_exec_gives_the_output(
    request: ExecMachineView,
    mode: ExecMode,
    progress: ExecProgressView,
)
    ensures
        ({
            let step = exec_step(request, mode, progress);
            &&& step is OpenClient ==> progress.client is None
            &&& step matches ExecStepView::ReadRecordSecrets(refs) ==> request.include_record_env
                && progress.record_secrets is None && progress.client is Some && progress.client->0
                is Ok && refs == progress.client->0->Ok_0.secret_refs
            &&& step matches ExecStepView::ReadRequestSecrets(refs) ==> progress.request_secrets
                is None && refs == request.secret_refs
            &&& step matches ExecStepView::QueryImage(image) ==> progress.queried is None
                && progress.client->0->Ok_0.image == Some(image)
            &&& step matches ExecStepView::PullImage(image) ==> progress.pulled is None
                && progress.queried == Some(Ok::<Option<ImageInfoView>, ErrorView>(None))
                && progress.client->0->Ok_0.image == Some(image)
            &&& step matches ExecStepView::ParseImageEnv(entries) ==> progress.image_env is None
                && (progress.queried matches Some(Ok(Some(info))) ==> entries == info.env) && (
            progress.queried == Some(Ok::<Option<ImageInfoView>, ErrorView>(None))
                ==> progress.pulled is Some && progress.pulled->0 is Ok && entries
                == progress.pulled->0->Ok_0.env)
            &&& step is Run && mode == ExecMode::Background ==> progress.background is None
            &&& step is Run && mode != ExecMode::Background ==> progress.output is None
            &&& mode != ExecMode::Background ==> (step matches ExecStepView::Finish(Ok(result))
                ==> progress.output == Some(Ok::<ExecResultView, ErrorView>(result)))
            &&& mode == ExecMode::Background ==> (step matches ExecStepView::Finish(Ok(result))
                ==> progress.background is Some && progress.background->0 is Ok && result.exit_code
                == 0 && result.stderr.len() == 0 && result.stdout == vstd::utf8::encode_utf8(
                "pid="@ + decimal(progress.background->0->Ok_0 as nat) + "\n"@,
            ))
        }),
{
}

/// Law: a command fails only with an error that it was given, or where its secrets may not
/// be used.
pub proof fn law_failed_exec_tells_why(
    request: ExecMachineView,
    mode: ExecMode,
    progress: ExecProgressView,
    error: ErrorView,
)
    requires
        exec_step(request, mode, progress) == ExecStepView::Finish(Err(error)),
    ensures
        ({
            ||| progress.client == Some(Err::<VmRecordView, ErrorView>(error))
            ||| progress.record_secrets == Some(Err::<EnvView, ErrorView>(error))
            ||| progress.request_secrets == Some(Err::<EnvView, ErrorView>(error))
            ||| progress.queried == Some(Err::<Option<ImageInfoView>, ErrorView>(error))
            ||| progress.pulled == Some(Err::<ImageInfoView, ErrorView>(error))
            ||| mode == ExecMode::Background && progress.background == Some(
                Err::<u32, ErrorView>(error),
            )
            ||| mode != ExecMode::Background && progress.output == Some(
                Err::<ExecResultView, ErrorView>(error),
            )
            ||| exists|i: int|
                0 <= i < request.secret_refs.len() && ref_fault(
                    (#[trigger] request.secret_refs[i]).1,
                    request.secret_scope,
                ) is Some
        }),
{
    law_secrets_are_checked_one_by_one("secrets"@, request.secret_refs, request.secret_scope);
}

/// Law: an operation on a machine reaches the machine that it names. One that does not run
/// is started, as it is stored, where the operation may do that, and its record is read
/// again. The operation goes on with the record, once the agent was reached, and says in
/// which state it found a machine that does not run.
pub proof fn law_operation_reaches_its_machine(
    name: Seq<char>,
    start_if_needed: bool,
    progress: ClientProgressView,
)
    ensures
        ({
            let step = client_step(name, start_if_needed, progress);
            let starts = start_if_needed && progress.state != Some(RecordState::Running);
            &&& step is LoadRecord ==> progress.record is None
            &&& step is ProbeState ==> progress.state is None
            &&& step matches ClientStepView::Start(start) ==> start.name == name
                && start.snapshot_dir is None && !start.forkable && start.proxy is None
                && start.no_proxy is None && progress.started is None && starts
            &&& step is ReloadRecord ==> progress.reloaded is None && progress.started is Some
                && progress.started->0 is Ok
            &&& step is FindRunning ==> progress.found is None
            &&& step is Connect ==> progress.connected is None && progress.found == Some(true)
            &&& step matches ClientStepView::OpenManager { storage_gb, overlay_gb } ==> {
                let record = if starts {
                    progress.reloaded->0->Ok_0->0
                } else {
                    progress.record->0->Ok_0->0
                };
                progress.manager is None && storage_gb == record.storage_gb && overlay_gb
                    == record.overlay_gb
            }
            &&& step matches ClientStepView::Finish(Ok(record)) ==> progress.connected is Some
                && progress.connected->0 is Ok && progress.found == Some(true) && (starts
                ==> progress.started is Some && progress.started->0 is Ok && progress.reloaded
                == Some(Ok::<Option<VmRecordView>, ErrorView>(Some(record)))) && (!starts
                ==> progress.record == Some(Ok::<Option<VmRecordView>, ErrorView>(Some(record))))
            &&& progress.found == Some(false) && step is Finish && progress.manager is Some
                && progress.manager->0 is Ok ==> (step matches ClientStepView::Finish(Err(_)))
            &&& step matches ClientStepView::Finish(Err(error)) ==> {
                ||| progress.record == Some(Err::<Option<VmRecordView>, ErrorView>(error))
                ||| progress.reloaded == Some(Err::<Option<VmRecordView>, ErrorView>(error))
                ||| progress.started == Some(Err::<(), ErrorView>(error))
                ||| progress.connected == Some(Err::<(), ErrorView>(error))
                ||| error == (ErrorView::VmNotFound { name })
                ||| progress.manager is Some && progress.manager->0 is Err && error == (
                ErrorView::Agent {
                    operation: "create agent manager"@,
                    reason: progress.manager->0->Err_0,
                })
                ||| progress.found == Some(false) && progress.state is Some && error == (
                ErrorView::InvalidState {
                    expected: "running"@,
                    actual: progress.state->0.name(),
                })
            }
        }),
{
}

/// Law: a stream of events ends with the exit code of its last exit, and with zero where
/// there is none.
pub proof fn law_last_exit_counts(events: Seq<ExecEventView>, event: ExecEventView)
    ensures
        last_exit(Seq::empty()) == 0,
        event matches ExecEventView::Exit(code) ==> last_exit(events.push(event)) == code,
        !(event is Exit) ==> last_exit(events.push(event)) == last_exit(events),
{
    assert(events.push(event).drop_last() =~= events);
}

/// Law: a run request is carried out as it was asked for: its command in its image, in its
/// directory, for as long as it allows, with its own variables over its secrets, and with
/// the mounts of the machine.
pub proof fn law_run_is_what_was_asked(
    request: RunMachineView,
    record: VmRecordView,
    resolved: Result<EnvView, ErrorView>,
    key: Seq<char>,
)
    ensures
        run_config(request, record, resolved) matches Ok(config) ==> {
            &&& config.image == request.image && config.command == request.command
            &&& config.workdir == request.workdir && config.timeout == request.timeout
            &&& config.user is None && !config.tty
            &&& config.persistent_overlay == request.persistent_overlay_id
            &&& resolved is Ok
            &&& value_of(request.env, key) is Some ==> value_of(config.env, key) == value_of(
                request.env,
                key,
            )
            &&& value_of(request.env, key) is None ==> value_of(config.env, key) == value_of(
                resolved->Ok_0,
                key,
            )
            &&& config.mounts.len() == record.mounts.len()
            &&& forall|i: int|
                0 <= i < record.mounts.len() ==> #[trigger] config.mounts[i] == (
                    i as usize,
                    record.mounts[i].1,
                    record.mounts[i].2,
                )
        },
        run_config(request, record, resolved) is Ok <==> resolved is Ok && forall|i: int|
            0 <= i < request.secret_refs.len() ==> ref_fault(
                (#[trigger] request.secret_refs[i]).1,
                request.secret_scope,
            ) is None,
{
    law_secrets_are_checked_one_by_one("secrets"@, request.secret_refs, request.secret_scope);
    if resolved is Ok {
        law_overrides_win(resolved->Ok_0, request.env, key);
    }
}

/// Law: the files of a machine with an image are brought up by a job in that image that
/// does nothing and keeps its files under the name of the machine, after the image was
/// asked for by its name and, only where it is missing, pulled by that name.
pub proof fn law_files_are_those_of_the_machine(
    record: VmRecordView,
    name: Seq<char>,
    progress: FilesProgressView,
)
    ensures
        ({
            let step = files_step(record, name, progress);
            &&& step matches FilesStepView::QueryImage(image) ==> record.image == Some(image)
                && progress.queried is None
            &&& step matches FilesStepView::PullImage(image) ==> record.image == Some(image)
                && progress.pulled is None && progress.queried == Some(
                Ok::<Option<ImageInfoView>, ErrorView>(None),
            )
            &&& step matches FilesStepView::Run(config) ==> record.image == Some(config.image)
                && config.command == seq!["/bin/true"@] && config.persistent_overlay == Some(name)
                && progress.ran is None && progress.queried is Some && progress.queried->0 is Ok
                && (progress.queried->0->Ok_0 is None ==> progress.pulled is Some
                && progress.pulled->0 is Ok)
            &&& record.image is Some ==> (step matches FilesStepView::Finish(Ok(_))
                ==> progress.ran is Some && progress.ran->0 is Ok)
            &&& step matches FilesStepView::Finish(Err(error)) ==> record.image is Some && (
            progress.queried == Some(Err::<Option<ImageInfoView>, ErrorView>(error))
                || progress.pulled == Some(Err::<ImageInfoView, ErrorView>(error)) || progress.ran
                == Some(Err::<(), ErrorView>(error)))
        }),
{
}

/// Law: listing images gives the images that the machine listed, unless the machine does not
/// run and may not be started: then there are none, or that is an error, as was asked for.
/// A machine that was started for this is stopped again where that was asked for.
pub proof fn law_images_are_those_of_the_machine(
    request: ListMachineImagesView,
    progress: ImagesProgressView,
)
    ensures
        ({
            let step = images_step(request, progress);
            let runs = progress.state == Some(
                Ok::<Option<RecordState>, ErrorView>(Some(RecordState::Running)),
            );
            &&& step is LoadStatus ==> progress.state is None
            &&& step matches ImagesStepView::OpenClient { start_if_needed, trace_id }
                ==> start_if_needed == request.start_if_needed && trace_id == request.trace_id
                && progress.client is None && (runs || request.start_if_needed)
            &&& step is ListImages ==> progress.images is None && progress.client is Some
                && progress.client->0 is Ok
            &&& step matches ImagesStepView::Stop(stop) ==> stop.name == request.name && !runs
                && request.stop_after_start && !progress.stopped && progress.images is Some
            &&& step matches ImagesStepView::Finish(Ok(images)) ==> progress.images == Some(
                Ok::<Seq<ImageInfoView>, ErrorView>(images),
            ) || (images.len() == 0 && !runs && !request.start_if_needed
                && request.empty_when_stopped)
            &&& step matches ImagesStepView::Finish(Err(error)) ==> {
                ||| progress.state == Some(Err::<Option<RecordState>, ErrorView>(error))
                ||| progress.state == Some(Ok::<Option<RecordState>, ErrorView>(None)) && error == (
                ErrorView::VmNotFound { name: request.name })
                ||| progress.client == Some(Err::<(), ErrorView>(error))
                ||| progress.images == Some(Err::<Seq<ImageInfoView>, ErrorView>(error))
                ||| !runs && !request.start_if_needed && !request.empty_when_stopped && error
                    is InvalidState
            }
        }),
{
}

/// Law: a prune tells how much it freed: what was collected, or in a dry run over every
/// image the sizes of the images together. It tells how many images went only where every
/// image goes. What is collected is what was asked for, and a machine that was started for
/// this is stopped again where that was asked for.
pub proof fn law_prune_tells_what_it_freed(
    request: PruneMachineImagesView,
    progress: PruneProgressView,
)
    requires
        progress.images matches Some(Ok(images)) ==> total_size(images) <= u64::MAX
            && images.len() <= usize::MAX,
    ensures
        ({
            let step = prune_step(request, progress);
            let runs = progress.state == Some(
                Ok::<Option<RecordState>, ErrorView>(Some(RecordState::Running)),
            );
            &&& step is LoadStatus ==> progress.state is None
            &&& step matches PruneStepView::OpenClient { trace_id } ==> trace_id
                == request.trace_id && progress.client is None
            &&& step is ListImages ==> request.all && progress.images is None
            &&& step matches PruneStepView::Collect { dry_run, all } ==> dry_run == request.dry_run
                && all == request.all && progress.collected is None
            &&& step matches PruneStepView::Stop(stop) ==> stop.name == request.name && !runs
                && request.stop_after_start && !progress.stopped
            &&& step matches PruneStepView::Finish(Ok(result)) ==> {
                &&& result.dry_run == request.dry_run
                &&& request.all ==> progress.images is Some && progress.images->0 is Ok
                    && result.removed_images == progress.images->0->Ok_0.len()
                &&& !request.all ==> result.removed_images == 0
                &&& request.all && request.dry_run ==> result.freed_bytes == total_size(
                    progress.images->0->Ok_0,
                )
                &&& !(request.all && request.dry_run) ==> progress.collected == Some(
                    Ok::<u64, ErrorView>(result.freed_bytes),
                )
                &&& !runs && request.stop_after_start ==> progress.stopped
            }
            &&& step matches PruneStepView::Finish(Err(error)) ==> {
                ||| progress.state == Some(Err::<Option<RecordState>, ErrorView>(error))
                ||| progress.state == Some(Ok::<Option<RecordState>, ErrorView>(None)) && error == (
                ErrorView::VmNotFound { name: request.name })
                ||| runs && request.all && (error matches ErrorView::Agent { operation, .. }
                    && operation == "prune"@)
                ||| progress.client == Some(Err::<(), ErrorView>(error))
                ||| progress.images == Some(Err::<Seq<ImageInfoView>, ErrorView>(error))
                ||| progress.collected == Some(Err::<u64, ErrorView>(error))
            }
        }),
{
}

/// Law: the size of images together grows by the size of each.
pub proof fn law_sizes_add_up(images: Seq<ImageInfoView>, image: ImageInfoView)
    ensures
        total_size(Seq::empty()) == 0,
        total_size(images.push(image)) == total_size(images) + image.size,
{
    assert(images.push(image).drop_last() =~= images);
}

/// Law: an image is pulled as was asked for, with the registry settings of the host, unless
/// it is not named.
pub proof fn law_pull_is_what_was_asked(request: PullMachineImageView)
    ensures
        pull_requested(request) is Ok <==> request.image.len() > 0,
        pull_requested(request) matches Ok(options) ==> options.use_registry_config
            && options.oci_platform == request.oci_platform && options.proxy == request.proxy
            && options.no_proxy == request.no_proxy,
{
}

/// Law: a data directory is told of any name, unless the machine must exist: then only of one
/// that does.
pub proof fn law_data_dir_of_what_exists(
    request: DataDirMachineView,
    loaded: Result<Option<VmRecordView>, ErrorView>,
)
    ensures
        data_dir_allowed(request, loaded) is Ok <==> !request.require_existing || (loaded is Ok
            && loaded->Ok_0 is Some),
{
}

} // verus!
