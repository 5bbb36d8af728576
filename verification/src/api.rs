//! HTTP API: what requests ask for, what is refused, and what is answered.

use crate::bytes::{lossy_text, text_of_bytes};
use crate::create::{create_step, CreateProgressView, CreateStepView};
use crate::env::EnvView;
use crate::error::{Error, ErrorView};
use crate::fork::{agreed, fork_step, ForkProgressView, ForkStepView};
use crate::model::{empty_list, push_to, Model};
use crate::records::record_found;
use crate::requests::{
    DeleteMachine, DeleteMachineView, ExecMachine, ExecMachineView, ExecResult, ForkMachine,
    ForkMachineView, ListMachineImages, ListMachineImagesView, MachineRun, MachineRunResult,
    MachineRunResultView, MachineRunView, MachineStatus, MachineStatusView, MonitorMachine,
    MonitorMachineView, NetworkTestMachine, NetworkTestMachineView, PruneMachineImages,
    PruneMachineImagesView, PullMachineImage, PullMachineImageView, ReadMachineFile,
    ReadMachineFileView, RunMachine, RunMachineView, StartMachine, StartMachineView,
    StorageStatusRequest, StorageStatusRequestView, UpdateMachine, UpdateMachineView,
    WriteMachineFile, WriteMachineFileView,
};
use crate::secrets::{
    ref_fault, validate_ref, ResolutionScope, SecretMap, SecretMapView, SecretRefView,
};
use crate::text::{
    byte_count, cat2, cat3, cat4, chars_of, decimal, ends_with, number, own, same_text,
    starts_with, trim_slashes, without_leading_slashes,
};
use crate::types::{
    optional_secs, seconds, HostMount, HostMountView, PortMapping, RecordState, ResourceDefaults,
    ResourceDefaultsView, RestartConfig, RestartConfigView, RestartPolicy, TimeSpan, VmRecord,
    VmRecordView, VmResources, VmResourcesView,
};
use vstd::prelude::*;

verus! {

/// Why an HTTP request is not fulfilled.
#[derive(Debug, PartialEq, Eq)]
pub enum ApiError {
    BadRequest(String),
    NotFound(String),
    Conflict(String),
    Internal(String),
}

/// Mathematical model of a [`ApiError`].
pub enum ApiErrorView {
    BadRequest(Seq<char>),
    NotFound(Seq<char>),
    Conflict(Seq<char>),
    Internal(Seq<char>),
}

impl Model for ApiError {
    type V = ApiErrorView;

    open spec fn model(&self) -> ApiErrorView {
        match self {
            ApiError::BadRequest(value) => ApiErrorView::BadRequest(value.model()),
            ApiError::NotFound(value) => ApiErrorView::NotFound(value.model()),
            ApiError::Conflict(value) => ApiErrorView::Conflict(value.model()),
            ApiError::Internal(value) => ApiErrorView::Internal(value.model()),
        }
    }

    fn dup(&self) -> (copy: Self) {
        match self {
            ApiError::BadRequest(value) => ApiError::BadRequest(value.dup()),
            ApiError::NotFound(value) => ApiError::NotFound(value.dup()),
            ApiError::Conflict(value) => ApiError::Conflict(value.dup()),
            ApiError::Internal(value) => ApiError::Internal(value.dup()),
        }
    }
}

/// Whether a setting was refused because a machine of that name exists or is
/// being created.
pub open spec fn says_taken(operation: Seq<char>, reason: Seq<char>) -> bool {
    operation == "create machine"@ && ("machine '"@).is_prefix_of(reason) && ((
    "' already exists or is being created"@).is_suffix_of(reason) || (
    "' already exists or is no longer reserved"@).is_suffix_of(reason))
}

fn tells_taken(operation: &str, reason: &str) -> (taken: bool)
    ensures
        taken == says_taken(operation@, reason@),
{
    same_text(operation, "create machine") && starts_with(reason, "machine '") && (ends_with(
        reason,
        "' already exists or is being created",
    ) || ends_with(reason, "' already exists or is no longer reserved"))
}

/// The HTTP error of an error of the machine service. `message` is its text.
pub open spec fn http_error(error: ErrorView, message: Seq<char>) -> ApiErrorView {
    match error {
        ErrorView::Config { operation, reason } => if says_taken(operation, reason) {
            ApiErrorView::Conflict(message)
        } else {
            ApiErrorView::BadRequest(message)
        },
        ErrorView::VmNotFound { .. } => ApiErrorView::NotFound(message),
        ErrorView::InvalidState { .. } => ApiErrorView::Conflict(message),
        ErrorView::Agent { operation, .. } => if operation == "fork"@ {
            ApiErrorView::Conflict(message)
        } else {
            ApiErrorView::Internal(message)
        },
        _ => ApiErrorView::Internal(message),
    }
}

/// Tells the HTTP error of an error of the machine service: a setting that is
/// not acceptable is a bad request, a machine that does not exist is not found,
/// and a conflict is a machine in the wrong state, one that exists already, and
/// a clone that exists already or whose fork base cannot be forked.
pub fn error_to_http(error: &Error, message: String) -> (answer: ApiError)
    ensures
        answer.model() == http_error(error.model(), message@),
{
    match error {
        Error::Config { operation, reason } => if tells_taken(
            operation.as_str(),
            reason.as_str(),
        ) {
            ApiError::Conflict(message)
        } else {
            ApiError::BadRequest(message)
        },
        Error::VmNotFound { .. } => ApiError::NotFound(message),
        Error::InvalidState { .. } => ApiError::Conflict(message),
        Error::Agent { operation, .. } => if same_text(operation.as_str(), "fork") {
            ApiError::Conflict(message)
        } else {
            ApiError::Internal(message)
        },
        _ => ApiError::Internal(message),
    }
}

/// Law: creating a machine whose name is taken, forking to a name that is taken
/// and forking a machine that is not ready for it are answered with a conflict.
pub proof fn law_taken_names_are_conflicts(
    record: VmRecordView,
    create: CreateProgressView,
    request: ForkMachineView,
    fork: ForkProgressView,
    message: Seq<char>,
)
    ensures
        create.reserved == Some(Ok::<bool, ErrorView>(false)) ==> (create_step(
            record,
            create,
        ) matches CreateStepView::Finish(Err(error)) && http_error(error, message)
            == ApiErrorView::Conflict(message)),
        fork.name matches Some(Ok(_)) && fork.taken == Some(Ok::<bool, ErrorView>(true)) ==> (
        fork_step(request, fork) matches ForkStepView::Finish(Err(error)) && http_error(
            error,
            message,
        ) == ApiErrorView::Conflict(message)),
        fork.name matches Some(Ok(_)) && fork.taken == Some(Ok::<bool, ErrorView>(false))
            && fork.golden is Some && record_found(request.golden, fork.golden->0) is Ok && (
        fork.socket_status matches Some(status) && (status is Err || !agreed(status->Ok_0)))
            ==> (fork_step(request, fork) matches ForkStepView::Finish(Err(error)) && http_error(
            error,
            message,
        ) == ApiErrorView::Conflict(message)),
{
    let name = record.name;
    let reason = "machine '"@ + name + "' already exists or is being created"@;
    assert("machine '"@ =~= reason.subrange(0, "machine '"@.len() as int));
    let end = "' already exists or is being created"@;
    assert(end =~= reason.subrange(reason.len() - end.len(), reason.len() as int));
}

impl ApiError {
    /// The status code of the answer.
    pub fn status_code(&self) -> (code: u16)
        ensures
            code == (match self.model() {
                ApiErrorView::BadRequest(_) => 400u16,
                ApiErrorView::NotFound(_) => 404u16,
                ApiErrorView::Conflict(_) => 409u16,
                ApiErrorView::Internal(_) => 500u16,
            }),
    {
        match self {
            ApiError::BadRequest(_) => 400,
            ApiError::NotFound(_) => 404,
            ApiError::Conflict(_) => 409,
            ApiError::Internal(_) => 500,
        }
    }

    /// The text of the answer.
    pub fn message(&self) -> (message: &String)
        ensures
            message@ == (match self.model() {
                ApiErrorView::BadRequest(message) => message,
                ApiErrorView::NotFound(message) => message,
                ApiErrorView::Conflict(message) => message,
                ApiErrorView::Internal(message) => message,
            }),
    {
        match self {
            ApiError::BadRequest(message) => message,
            ApiError::NotFound(message) => message,
            ApiError::Conflict(message) => message,
            ApiError::Internal(message) => message,
        }
    }
}

/// A variable in a request.
#[derive(Debug, PartialEq, Eq)]
pub struct EnvVar {
    pub name: String,
    pub value: String,
}

/// Mathematical model of a [`EnvVar`].
pub struct EnvVarView {
    pub name: Seq<char>,
    pub value: Seq<char>,
}

impl Model for EnvVar {
    type V = EnvVarView;

    open spec fn model(&self) -> EnvVarView {
        EnvVarView {
            name: self.name.model(),
            value: self.value.model(),
        }
    }

    fn dup(&self) -> (copy: Self) {
        EnvVar {
            name: self.name.dup(),
            value: self.value.dup(),
        }
    }
}

/// Variables as pairs.
pub open spec fn variables(env: Seq<EnvVarView>) -> EnvView {
    Seq::new(env.len(), |i: int| (env[i].name, env[i].value))
}

impl EnvVar {
    /// Variables as pairs.
    pub fn to_tuples(env: &Vec<EnvVar>) -> (pairs: Vec<(String, String)>)
        ensures
            pairs.model() == variables(env.model()),
    {
        let mut pairs: Vec<(String, String)> = empty_list();
        let mut i: usize = 0;
        while i < env.len()
            invariant
                i <= env.len(),
                pairs.model() == variables(env.model()).take(i as int),
            decreases env.len() - i,
        {
            push_to(&mut pairs, (env[i].name.dup(), env[i].value.dup()));
            assert(variables(env.model()).take(i + 1) =~= variables(env.model()).take(
                i as int,
            ).push(variables(env.model())[i as int]));
            i += 1;
        }
        assert(variables(env.model()).take(env.len() as int) =~= variables(env.model()));
        pairs
    }
}

/// Checks the command of a request.
pub fn validate_command(cmd: &Vec<String>) -> (checked: Result<(), ApiError>)
    ensures
        checked.model() == command_checked(cmd.model()),
{
    if cmd.is_empty() {
        return Err(ApiError::BadRequest(own("command cannot be empty")));
    }
    Ok(())
}

/// What checking the command of a request gives.
pub open spec fn command_checked(cmd: Seq<Seq<char>>) -> Result<(), ApiErrorView> {
    if cmd.len() == 0 {
        Err(ApiErrorView::BadRequest("command cannot be empty"@))
    } else {
        Ok(())
    }
}

/// Most secrets in one request.
pub const MAX_REQ_SECRETS_PER_REQUEST: usize = 64;

/// Most bytes in the key of a secret.
pub const MAX_SECRET_KEY_LEN: usize = 256;

/// Whether a character is an ASCII letter.
pub open spec fn is_letter(c: char) -> bool {
    'a' <= c <= 'z' || 'A' <= c <= 'Z'
}

/// Whether a character is an ASCII digit.
pub open spec fn is_digit(c: char) -> bool {
    '0' <= c <= '9'
}

/// Why a key is no name of an environment variable, if it is none.
pub open spec fn key_fault(key: Seq<char>) -> Option<Seq<char>> {
    if key.len() == 0 {
        Some("env key must not be empty"@)
    } else if byte_count(key) as usize > MAX_SECRET_KEY_LEN {
        Some("env key exceeds "@ + decimal(MAX_SECRET_KEY_LEN as nat) + "-byte limit"@)
    } else if !is_letter(key[0]) && key[0] != '_' {
        Some("env key must start with an ASCII letter or underscore"@)
    } else if exists|i: int|
        0 <= i < key.len() && !is_letter(#[trigger] key[i]) && !is_digit(key[i]) && key[i] != '_' {
        Some("env key must contain only ASCII alphanumeric and underscore"@)
    } else {
        None
    }
}

fn letter(c: char) -> (is: bool)
    ensures
        is == is_letter(c),
{
    ('a' <= c && c <= 'z') || ('A' <= c && c <= 'Z')
}

fn digit(c: char) -> (is: bool)
    ensures
        is == is_digit(c),
{
    '0' <= c && c <= '9'
}

/// Checks that a key names an environment variable.
pub fn check_env_key_shape(key: &str) -> (checked: Result<(), String>)
    ensures
        checked.model() == (match key_fault(key@) {
            Some(fault) => Err::<(), Seq<char>>(fault),
            None => Ok(()),
        }),
{
    if key.is_empty() {
        return Err(own("env key must not be empty"));
    }
    if key.len() > MAX_SECRET_KEY_LEN {
        return Err(
            cat3("env key exceeds ", number(MAX_SECRET_KEY_LEN as u64).as_str(), "-byte limit"),
        );
    }
    let chars: Vec<char> = chars_of(key);
    if !letter(chars[0]) && chars[0] != '_' {
        return Err(own("env key must start with an ASCII letter or underscore"));
    }
    let mut i: usize = 0;
    while i < chars.len()
        invariant
            i <= chars.len(),
            chars@ == key@,
            key@.len() > 0,
            byte_count(key@) as usize <= MAX_SECRET_KEY_LEN,
            is_letter(key@[0]) || key@[0] == '_',
            forall|j: int|
                0 <= j < i ==> is_letter(#[trigger] key@[j]) || is_digit(key@[j]) || key@[j] == '_',
        decreases chars.len() - i,
    {
        let c: char = chars[i];
        assert(key@[i as int] == c);
        if !letter(c) && !digit(c) && c != '_' {
            return Err(own("env key must contain only ASCII alphanumeric and underscore"));
        }
        i += 1;
    }
    Ok(())
}

/// Why an entry of the secrets of a request is not accepted, if so.
pub open spec fn secret_fault(key: Seq<char>, secret: SecretRefView) -> Option<Seq<char>> {
    match key_fault(key) {
        Some(rule) => Some(
            "secrets entry with "@ + decimal(byte_count(key) as usize as nat) + "-byte key rejected: "@
                + rule,
        ),
        None => match ref_fault(secret, ResolutionScope::Untrusted) {
            Some(fault) => Some("secret '"@ + key + "': "@ + fault),
            None => None,
        },
    }
}

/// Why the first entry that is not accepted is not, if there is one.
pub open spec fn first_secret_fault(refs: SecretMapView) -> Option<Seq<char>>
    decreases refs.len(),
{
    if refs.len() == 0 {
        None
    } else {
        match secret_fault(refs[0].0, refs[0].1) {
            Some(fault) => Some(fault),
            None => first_secret_fault(refs.skip(1)),
        }
    }
}

/// What checking the secrets of an HTTP request gives.
pub open spec fn request_secrets_checked(refs: SecretMapView) -> Result<(), ApiErrorView> {
    if refs.len() > MAX_REQ_SECRETS_PER_REQUEST {
        Err(
            ApiErrorView::BadRequest(
                "request `secrets` map has "@ + decimal(refs.len()) + " entries; maximum is "@
                    + decimal(MAX_REQ_SECRETS_PER_REQUEST as nat),
            ),
        )
    } else {
        match first_secret_fault(refs) {
            Some(fault) => Err(ApiErrorView::BadRequest(fault)),
            None => Ok(()),
        }
    }
}

/// Checks the secrets of an HTTP request: their number, their keys, and that an
/// untrusted caller may use them.
pub fn validate_request_secrets(refs: &SecretMap) -> (checked: Result<(), ApiError>)
    ensures
        checked.model() == request_secrets_checked(refs.model()),
{
    if refs.len() > MAX_REQ_SECRETS_PER_REQUEST {
        return Err(
            ApiError::BadRequest(
                cat4(
                    "request `secrets` map has ",
                    number(refs.len() as u64).as_str(),
                    " entries; maximum is ",
                    number(MAX_REQ_SECRETS_PER_REQUEST as u64).as_str(),
                ),
            ),
        );
    }
    let mut i: usize = 0;
    assert(refs.model().skip(0) =~= refs.model());
    while i < refs.len()
        invariant
            i <= refs.model().len(),
            refs.model().len() <= MAX_REQ_SECRETS_PER_REQUEST,
            first_secret_fault(refs.model().skip(i as int)) == first_secret_fault(refs.model()),
        decreases refs.model().len() - i,
    {
        let entry = refs.entry(i);
        assert(refs.model().skip(i as int).skip(1) =~= refs.model().skip(i + 1));
        assert(refs.model().skip(i as int)[0] == refs.model()[i as int]);
        if let Err(rule) = check_env_key_shape(entry.0.as_str()) {
            return Err(
                ApiError::BadRequest(
                    cat4(
                        "secrets entry with ",
                        number(entry.0.as_str().len() as u64).as_str(),
                        "-byte key rejected: ",
                        rule.as_str(),
                    ),
                ),
            );
        }
        if let Err(fault) = validate_ref(entry.1, ResolutionScope::Untrusted) {
            return Err(
                ApiError::BadRequest(cat4("secret '", entry.0.as_str(), "': ", fault.as_str())),
            );
        }
        i += 1;
    }
    Ok(())
}

/// Law: an HTTP request with any secret is refused, and one without secrets is
/// not refused for them.
pub proof fn law_http_secrets_are_refused(refs: SecretMapView)
    ensures
        request_secrets_checked(refs) is Ok <==> refs.len() == 0,
{
}

/// A request to run a command in a machine.
#[derive(Debug, PartialEq, Eq)]
pub struct ExecRequest {
    pub command: Vec<String>,
    pub env: Vec<EnvVar>,
    pub secrets: SecretMap,
    pub workdir: Option<String>,
    pub timeout_secs: Option<u64>,
    pub stdin: Option<String>,
    pub background: bool,
}

/// Mathematical model of a [`ExecRequest`].
pub struct ExecRequestView {
    pub command: Seq<Seq<char>>,
    pub env: Seq<EnvVarView>,
    pub secrets: SecretMapView,
    pub workdir: Option<Seq<char>>,
    pub timeout_secs: Option<u64>,
    pub stdin: Option<Seq<char>>,
    pub background: bool,
}

impl Model for ExecRequest {
    type V = ExecRequestView;

    open spec fn model(&self) -> ExecRequestView {
        ExecRequestView {
            command: self.command.model(),
            env: self.env.model(),
            secrets: self.secrets.model(),
            workdir: self.workdir.model(),
            timeout_secs: self.timeout_secs.model(),
            stdin: self.stdin.model(),
            background: self.background.model(),
        }
    }

    fn dup(&self) -> (copy: Self) {
        ExecRequest {
            command: self.command.dup(),
            env: self.env.dup(),
            secrets: self.secrets.dup(),
            workdir: self.workdir.dup(),
            timeout_secs: self.timeout_secs.dup(),
            stdin: self.stdin.dup(),
            background: self.background.dup(),
        }
    }
}

/// The service request of a request to run a command; a streamed command takes
/// no input and is not left running.
pub open spec fn exec_accepted(
    id: Seq<char>,
    trace_id: Option<Seq<char>>,
    request: ExecRequestView,
    streamed: bool,
) -> Result<ExecMachineView, ApiErrorView> {
    if command_checked(request.command) is Err {
        Err(command_checked(request.command)->Err_0)
    } else if request_secrets_checked(request.secrets) is Err {
        Err(request_secrets_checked(request.secrets)->Err_0)
    } else {
        Ok(
            ExecMachineView {
                name: id,
                command: request.command,
                env: variables(request.env),
                secret_refs: request.secrets,
                secret_scope: ResolutionScope::Untrusted,
                workdir: request.workdir,
                timeout: seconds(request.timeout_secs),
                stdin: if streamed {
                    None
                } else {
                    request.stdin
                },
                background: !streamed && request.background,
                tty: false,
                start_if_needed: true,
                include_record_env: true,
                trace_id,
            },
        )
    }
}

/// Turns a request to run a command into a service request.
pub fn accept_exec(
    id: String,
    trace_id: Option<String>,
    request: &ExecRequest,
    streamed: bool,
) -> (accepted: Result<ExecMachine, ApiError>)
    ensures
        accepted.model() == exec_accepted(id@, trace_id.model(), request.model(), streamed),
{
    if let Err(error) = validate_command(&request.command) {
        return Err(error);
    }
    if let Err(error) = validate_request_secrets(&request.secrets) {
        return Err(error);
    }
    let mut exec: ExecMachine = ExecMachine::new(id, request.command.dup());
    exec.env = EnvVar::to_tuples(&request.env);
    exec.secret_refs = request.secrets.dup();
    exec.secret_scope = ResolutionScope::Untrusted;
    exec.workdir = request.workdir.dup();
    exec.timeout = optional_secs(request.timeout_secs);
    if !streamed {
        exec.stdin = request.stdin.dup();
        exec.background = request.background;
    }
    exec.start_if_needed = true;
    exec.trace_id = trace_id;
    Ok(exec)
}

/// The answer to a request to run a command.
#[derive(Debug, PartialEq, Eq)]
pub struct ExecResponse {
    pub exit_code: i32,
    pub stdout: String,
    pub stderr: String,
}

/// Mathematical model of a [`ExecResponse`].
pub struct ExecResponseView {
    pub exit_code: i32,
    pub stdout: Seq<char>,
    pub stderr: Seq<char>,
}

impl Model for ExecResponse {
    type V = ExecResponseView;

    open spec fn model(&self) -> ExecResponseView {
        ExecResponseView {
            exit_code: self.exit_code.model(),
            stdout: self.stdout.model(),
            stderr: self.stderr.model(),
        }
    }

    fn dup(&self) -> (copy: Self) {
        ExecResponse {
            exit_code: self.exit_code.dup(),
            stdout: self.stdout.dup(),
            stderr: self.stderr.dup(),
        }
    }
}

/// Makes the answer to a request to run a command.
pub fn exec_response(result: &ExecResult) -> (response: ExecResponse)
    ensures
        response.model() == (ExecResponseView {
            exit_code: result.exit_code,
            stdout: lossy_text(result.stdout.model()),
            stderr: lossy_text(result.stderr.model()),
        }),
{
    assert(result.stdout.model() =~= result.stdout@);
    assert(result.stderr.model() =~= result.stderr@);
    ExecResponse {
        exit_code: result.exit_code,
        stdout: text_of_bytes(&result.stdout),
        stderr: text_of_bytes(&result.stderr),
    }
}

/// A request to run a command in a container.
#[derive(Debug, PartialEq, Eq)]
pub struct RunRequest {
    pub image: String,
    pub command: Vec<String>,
    pub env: Vec<EnvVar>,
    pub secrets: SecretMap,
    pub workdir: Option<String>,
    pub timeout_secs: Option<u64>,
}

/// Mathematical model of a [`RunRequest`].
pub struct RunRequestView {
    pub image: Seq<char>,
    pub command: Seq<Seq<char>>,
    pub env: Seq<EnvVarView>,
    pub secrets: SecretMapView,
    pub workdir: Option<Seq<char>>,
    pub timeout_secs: Option<u64>,
}

impl Model for RunRequest {
    type V = RunRequestView;

    open spec fn model(&self) -> RunRequestView {
        RunRequestView {
            image: self.image.model(),
            command: self.command.model(),
            env: self.env.model(),
            secrets: self.secrets.model(),
            workdir: self.workdir.model(),
            timeout_secs: self.timeout_secs.model(),
        }
    }

    fn dup(&self) -> (copy: Self) {
        RunRequest {
            image: self.image.dup(),
            command: self.command.dup(),
            env: self.env.dup(),
            secrets: self.secrets.dup(),
            workdir: self.workdir.dup(),
            timeout_secs: self.timeout_secs.dup(),
        }
    }
}

/// The service request of a request to run a command in a container.
pub open spec fn run_accepted(
    id: Seq<char>,
    trace_id: Option<Seq<char>>,
    request: RunRequestView,
) -> Result<RunMachineView, ApiErrorView> {
    if command_checked(request.command) is Err {
        Err(command_checked(request.command)->Err_0)
    } else if request_secrets_checked(request.secrets) is Err {
        Err(request_secrets_checked(request.secrets)->Err_0)
    } else {
        Ok(
            RunMachineView {
                name: id,
                image: request.image,
                command: request.command,
                env: variables(request.env),
                secret_refs: request.secrets,
                secret_scope: ResolutionScope::Untrusted,
                workdir: request.workdir,
                timeout: seconds(request.timeout_secs),
                persistent_overlay_id: None,
                start_if_needed: true,
                trace_id,
            },
        )
    }
}

/// Turns a request to run a command in a container into a service request.
pub fn accept_run(id: String, trace_id: Option<String>, request: &RunRequest) -> (accepted: Result<
    RunMachine,
    ApiError,
>)
    ensures
        accepted.model() == run_accepted(id@, trace_id.model(), request.model()),
{
    if let Err(error) = validate_command(&request.command) {
        return Err(error);
    }
    if let Err(error) = validate_request_secrets(&request.secrets) {
        return Err(error);
    }
    let mut run: RunMachine = RunMachine::new(id, request.image.dup(), request.command.dup());
    run.env = EnvVar::to_tuples(&request.env);
    run.secret_refs = request.secrets.dup();
    run.secret_scope = ResolutionScope::Untrusted;
    run.workdir = request.workdir.dup();
    run.timeout = optional_secs(request.timeout_secs);
    run.start_if_needed = true;
    run.trace_id = trace_id;
    Ok(run)
}

/// Resources in a request.
#[derive(Debug, PartialEq, Eq)]
pub struct ResourceSpec {
    pub cpus: Option<u8>,
    pub memory_mb: Option<u32>,
    pub network: Option<bool>,
    pub gpu: Option<bool>,
    pub storage_gb: Option<u64>,
    pub overlay_gb: Option<u64>,
    pub allowed_cidrs: Option<Vec<String>>,
}

/// Mathematical model of a [`ResourceSpec`].
pub struct ResourceSpecView {
    pub cpus: Option<u8>,
    pub memory_mb: Option<u32>,
    pub network: Option<bool>,
    pub gpu: Option<bool>,
    pub storage_gb: Option<u64>,
    pub overlay_gb: Option<u64>,
    pub allowed_cidrs: Option<Seq<Seq<char>>>,
}

impl Model for ResourceSpec {
    type V = ResourceSpecView;

    open spec fn model(&self) -> ResourceSpecView {
        ResourceSpecView {
            cpus: self.cpus.model(),
            memory_mb: self.memory_mb.model(),
            network: self.network.model(),
            gpu: self.gpu.model(),
            storage_gb: self.storage_gb.model(),
            overlay_gb: self.overlay_gb.model(),
            allowed_cidrs: self.allowed_cidrs.model(),
        }
    }

    fn dup(&self) -> (copy: Self) {
        ResourceSpec {
            cpus: self.cpus.dup(),
            memory_mb: self.memory_mb.dup(),
            network: self.network.dup(),
            gpu: self.gpu.dup(),
            storage_gb: self.storage_gb.dup(),
            overlay_gb: self.overlay_gb.dup(),
            allowed_cidrs: self.allowed_cidrs.dup(),
        }
    }
}

/// A request for a run session.
#[derive(Debug, PartialEq, Eq)]
pub struct MachineRunRequest {
    pub name: Option<String>,
    pub detached: bool,
    pub allow_existing: bool,
    pub image: Option<String>,
    pub command: Vec<String>,
    pub entrypoint: Vec<String>,
    pub cmd: Vec<String>,
    pub env: Vec<EnvVar>,
    pub secrets: SecretMap,
    pub workdir: Option<String>,
    pub user: Option<String>,
    pub ports: Vec<PortMapping>,
    pub resources: ResourceSpec,
    pub init: Vec<String>,
    pub ssh_agent: bool,
    pub dns_filter_hosts: Option<Vec<String>>,
    pub oci_platform: Option<String>,
    pub proxy: Option<String>,
    pub no_proxy: Option<String>,
    pub timeout_secs: Option<u64>,
}

/// Mathematical model of a [`MachineRunRequest`].
pub struct MachineRunRequestView {
    pub name: Option<Seq<char>>,
    pub detached: bool,
    pub allow_existing: bool,
    pub image: Option<Seq<char>>,
    pub command: Seq<Seq<char>>,
    pub entrypoint: Seq<Seq<char>>,
    pub cmd: Seq<Seq<char>>,
    pub env: Seq<EnvVarView>,
    pub secrets: SecretMapView,
    pub workdir: Option<Seq<char>>,
    pub user: Option<Seq<char>>,
    pub ports: Seq<PortMapping>,
    pub resources: ResourceSpecView,
    pub init: Seq<Seq<char>>,
    pub ssh_agent: bool,
    pub dns_filter_hosts: Option<Seq<Seq<char>>>,
    pub oci_platform: Option<Seq<char>>,
    pub proxy: Option<Seq<char>>,
    pub no_proxy: Option<Seq<char>>,
    pub timeout_secs: Option<u64>,
}

impl Model for MachineRunRequest {
    type V = MachineRunRequestView;

    open spec fn model(&self) -> MachineRunRequestView {
        MachineRunRequestView {
            name: self.name.model(),
            detached: self.detached.model(),
            allow_existing: self.allow_existing.model(),
            image: self.image.model(),
            command: self.command.model(),
            entrypoint: self.entrypoint.model(),
            cmd: self.cmd.model(),
            env: self.env.model(),
            secrets: self.secrets.model(),
            workdir: self.workdir.model(),
            user: self.user.model(),
            ports: self.ports.model(),
            resources: self.resources.model(),
            init: self.init.model(),
            ssh_agent: self.ssh_agent.model(),
            dns_filter_hosts: self.dns_filter_hosts.model(),
            oci_platform: self.oci_platform.model(),
            proxy: self.proxy.model(),
            no_proxy: self.no_proxy.model(),
            timeout_secs: self.timeout_secs.model(),
        }
    }

    fn dup(&self) -> (copy: Self) {
        MachineRunRequest {
            name: self.name.dup(),
            detached: self.detached.dup(),
            allow_existing: self.allow_existing.dup(),
            image: self.image.dup(),
            command: self.command.dup(),
            entrypoint: self.entrypoint.dup(),
            cmd: self.cmd.dup(),
            env: self.env.dup(),
            secrets: self.secrets.dup(),
            workdir: self.workdir.dup(),
            user: self.user.dup(),
            ports: self.ports.dup(),
            resources: self.resources.dup(),
            init: self.init.dup(),
            ssh_agent: self.ssh_agent.dup(),
            dns_filter_hosts: self.dns_filter_hosts.dup(),
            oci_platform: self.oci_platform.dup(),
            proxy: self.proxy.dup(),
            no_proxy: self.no_proxy.dup(),
            timeout_secs: self.timeout_secs.dup(),
        }
    }
}

/// Why a request for a run session is refused at once, if so.
pub open spec fn session_refused(request: MachineRunRequestView) -> Option<ApiErrorView> {
    if request_secrets_checked(request.secrets) is Err {
        Some(request_secrets_checked(request.secrets)->Err_0)
    } else if request.ssh_agent {
        Some(
            ApiErrorView::BadRequest(
                "sshAgent is not accepted on the HTTP API; configure SSH agent forwarding locally"@,
            ),
        )
    } else if !request.detached && request.command.len() == 0 && request.entrypoint.len() == 0
        && request.cmd.len() == 0 {
        Some(ApiErrorView::BadRequest("foreground run requires command, entrypoint, or cmd"@))
    } else {
        None
    }
}

/// The name of a run session: the one asked for, or else `default` for a
/// detached one and a generated one otherwise.
pub open spec fn session_name(request: MachineRunRequestView, generated: Seq<char>) -> Seq<char> {
    match request.name {
        Some(name) => name,
        None => if request.detached {
            "default"@
        } else {
            generated
        },
    }
}

/// The service request of a request for a run session. `mounts` is what reading
/// its mounts gave: an error comes as its text.
pub open spec fn session_accepted(
    request: MachineRunRequestView,
    generated: Seq<char>,
    mounts: Result<Seq<HostMountView>, Seq<char>>,
    defaults: ResourceDefaultsView,
) -> Result<MachineRunView, ApiErrorView> {
    if session_refused(request) is Some {
        Err(session_refused(request)->0)
    } else {
        match mounts {
            Err(reason) => Err(ApiErrorView::BadRequest(reason)),
            Ok(mounts) => Ok(
                MachineRunView {
                    name: session_name(request, generated),
                    detached: request.detached,
                    allow_existing_record: request.allow_existing,
                    image: request.image,
                    command: request.command,
                    entrypoint: request.entrypoint,
                    cmd: request.cmd,
                    env: variables(request.env),
                    secret_refs: request.secrets,
                    secret_scope: ResolutionScope::Untrusted,
                    workdir: request.workdir,
                    user: request.user,
                    mounts,
                    ports: request.ports,
                    resources: VmResourcesView {
                        cpus: match request.resources.cpus {
                            Some(cpus) => cpus,
                            None => defaults.cpus,
                        },
                        memory_mib: match request.resources.memory_mb {
                            Some(memory) => memory,
                            None => defaults.memory_mib,
                        },
                        network: request.resources.network == Some(true),
                        network_backend: None,
                        gpu: request.resources.gpu == Some(true),
                        gpu_vram_mib: None,
                        storage_gib: request.resources.storage_gb,
                        overlay_gib: request.resources.overlay_gb,
                        allowed_cidrs: request.resources.allowed_cidrs,
                    },
                    init: request.init,
                    ssh_agent: false,
                    dns_filter_hosts: request.dns_filter_hosts,
                    oci_platform: request.oci_platform,
                    proxy: request.proxy,
                    no_proxy: request.no_proxy,
                    timeout: seconds(request.timeout_secs),
                    interactive: false,
                    tty: false,
                    kill_on_sigint: false,
                },
            ),
        }
    }
}

fn is_set(flag: Option<bool>) -> (set: bool)
    ensures
        set == (flag == Some(true)),
{
    match flag {
        Some(flag) => flag,
        None => false,
    }
}

fn refuse_session(request: &MachineRunRequest) -> (refused: Option<ApiError>)
    ensures
        refused.model() == session_refused(request.model()),
{
    if let Err(error) = validate_request_secrets(&request.secrets) {
        return Some(error);
    }
    if request.ssh_agent {
        return Some(
            ApiError::BadRequest(
                own(
                    "sshAgent is not accepted on the HTTP API; configure SSH agent forwarding locally",
                ),
            ),
        );
    }
    if !request.detached && request.command.is_empty() && request.entrypoint.is_empty()
        && request.cmd.is_empty() {
        return Some(
            ApiError::BadRequest(own("foreground run requires command, entrypoint, or cmd")),
        );
    }
    None
}

/// Turns a request for a run session into a service request.
pub fn accept_session(
    request: &MachineRunRequest,
    generated: String,
    mounts: Result<Vec<HostMount>, String>,
    defaults: &ResourceDefaults,
) -> (accepted: Result<MachineRun, ApiError>)
    ensures
        accepted.model() == session_accepted(
            request.model(),
            generated@,
            mounts.model(),
            defaults.model(),
        ),
{
    if let Some(error) = refuse_session(request) {
        return Err(error);
    }
    let mounts: Vec<HostMount> = match mounts {
        Err(reason) => {
            return Err(ApiError::BadRequest(reason));
        },
        Ok(mounts) => mounts,
    };
    let name: String = match &request.name {
        Some(name) => name.dup(),
        None => if request.detached {
            own("default")
        } else {
            generated
        },
    };
    let resources: VmResources = VmResources {
        cpus: match request.resources.cpus {
            Some(cpus) => cpus,
            None => defaults.cpus,
        },
        memory_mib: match request.resources.memory_mb {
            Some(memory) => memory,
            None => defaults.memory_mib,
        },
        network: is_set(request.resources.network),
        network_backend: None,
        gpu: is_set(request.resources.gpu),
        gpu_vram_mib: None,
        storage_gib: request.resources.storage_gb,
        overlay_gib: request.resources.overlay_gb,
        allowed_cidrs: request.resources.allowed_cidrs.dup(),
    };
    let mut run: MachineRun = MachineRun::new(name, resources);
    run.detached = request.detached;
    run.allow_existing_record = request.allow_existing;
    run.image = request.image.dup();
    run.command = request.command.dup();
    run.entrypoint = request.entrypoint.dup();
    run.cmd = request.cmd.dup();
    run.env = EnvVar::to_tuples(&request.env);
    run.secret_refs = request.secrets.dup();
    run.secret_scope = ResolutionScope::Untrusted;
    run.workdir = request.workdir.dup();
    run.user = request.user.dup();
    run.mounts = mounts;
    run.ports = request.ports.dup();
    run.init = request.init.dup();
    run.dns_filter_hosts = request.dns_filter_hosts.dup();
    run.oci_platform = request.oci_platform.dup();
    run.proxy = request.proxy.dup();
    run.no_proxy = request.no_proxy.dup();
    run.timeout = optional_secs(request.timeout_secs);
    Ok(run)
}

/// The answer to a request for a run session.
#[derive(Debug, PartialEq, Eq)]
pub struct MachineRunResponse {
    pub name: String,
    pub detached: bool,
    pub pid: Option<i32>,
    pub exit_code: Option<i32>,
    pub stdout: String,
    pub stderr: String,
}

/// Mathematical model of a [`MachineRunResponse`].
pub struct MachineRunResponseView {
    pub name: Seq<char>,
    pub detached: bool,
    pub pid: Option<i32>,
    pub exit_code: Option<i32>,
    pub stdout: Seq<char>,
    pub stderr: Seq<char>,
}

impl Model for MachineRunResponse {
    type V = MachineRunResponseView;

    open spec fn model(&self) -> MachineRunResponseView {
        MachineRunResponseView {
            name: self.name.model(),
            detached: self.detached.model(),
            pid: self.pid.model(),
            exit_code: self.exit_code.model(),
            stdout: self.stdout.model(),
            stderr: self.stderr.model(),
        }
    }

    fn dup(&self) -> (copy: Self) {
        MachineRunResponse {
            name: self.name.dup(),
            detached: self.detached.dup(),
            pid: self.pid.dup(),
            exit_code: self.exit_code.dup(),
            stdout: self.stdout.dup(),
            stderr: self.stderr.dup(),
        }
    }
}

/// The answer to a request for a run session of this name.
pub open spec fn session_answer(
    name: Seq<char>,
    result: MachineRunResultView,
) -> MachineRunResponseView {
    match result {
        MachineRunResultView::Detached { name, pid } => MachineRunResponseView {
            name,
            detached: true,
            pid,
            exit_code: None,
            stdout: Seq::empty(),
            stderr: Seq::empty(),
        },
        MachineRunResultView::Foreground { exit_code, stdout, stderr } => MachineRunResponseView {
            name,
            detached: false,
            pid: None,
            exit_code: Some(exit_code),
            stdout: lossy_text(stdout),
            stderr: lossy_text(stderr),
        },
    }
}

/// Makes the answer to a request for a run session of this name.
pub fn session_response(name: &str, result: &MachineRunResult) -> (response: MachineRunResponse)
    ensures
        response.model() == session_answer(name@, result.model()),
{
    match result {
        MachineRunResult::Detached { name, pid } => MachineRunResponse {
            name: name.dup(),
            detached: true,
            pid: *pid,
            exit_code: None,
            stdout: String::new(),
            stderr: String::new(),
        },
        MachineRunResult::Foreground { exit_code, stdout, stderr } => {
            assert(stdout.model() =~= stdout@);
            assert(stderr.model() =~= stderr@);
            MachineRunResponse {
                name: own(name),
                detached: false,
                pid: None,
                exit_code: Some(*exit_code),
                stdout: text_of_bytes(stdout),
                stderr: text_of_bytes(stderr),
            }
        },
    }
}

/// A mount of a machine in an answer: its place in the list names its tag.
#[derive(Debug, PartialEq, Eq)]
pub struct MountInfo {
    pub index: usize,
    pub source: String,
    pub target: String,
    pub readonly: bool,
}

/// Mathematical model of a [`MountInfo`].
pub struct MountInfoView {
    pub index: usize,
    pub source: Seq<char>,
    pub target: Seq<char>,
    pub readonly: bool,
}

impl Model for MountInfo {
    type V = MountInfoView;

    open spec fn model(&self) -> MountInfoView {
        MountInfoView {
            index: self.index.model(),
            source: self.source.model(),
            target: self.target.model(),
            readonly: self.readonly.model(),
        }
    }

    fn dup(&self) -> (copy: Self) {
        MountInfo {
            index: self.index.dup(),
            source: self.source.dup(),
            target: self.target.dup(),
            readonly: self.readonly.dup(),
        }
    }
}

/// A machine in an answer.
#[derive(Debug, PartialEq, Eq)]
pub struct MachineInfo {
    pub name: String,
    pub state: String,
    pub cpus: u8,
    pub mem: u32,
    pub pid: Option<i32>,
    pub mounts: Vec<MountInfo>,
    pub ports: Vec<PortMapping>,
    pub network: bool,
    pub storage_gb: Option<u64>,
    pub overlay_gb: Option<u64>,
    pub created_at: u64,
}

/// Mathematical model of a [`MachineInfo`].
pub struct MachineInfoView {
    pub name: Seq<char>,
    pub state: Seq<char>,
    pub cpus: u8,
    pub mem: u32,
    pub pid: Option<i32>,
    pub mounts: Seq<MountInfoView>,
    pub ports: Seq<PortMapping>,
    pub network: bool,
    pub storage_gb: Option<u64>,
    pub overlay_gb: Option<u64>,
    pub created_at: u64,
}

impl Model for MachineInfo {
    type V = MachineInfoView;

    open spec fn model(&self) -> MachineInfoView {
        MachineInfoView {
            name: self.name.model(),
            state: self.state.model(),
            cpus: self.cpus.model(),
            mem: self.mem.model(),
            pid: self.pid.model(),
            mounts: self.mounts.model(),
            ports: self.ports.model(),
            network: self.network.model(),
            storage_gb: self.storage_gb.model(),
            overlay_gb: self.overlay_gb.model(),
            created_at: self.created_at.model(),
        }
    }

    fn dup(&self) -> (copy: Self) {
        MachineInfo {
            name: self.name.dup(),
            state: self.state.dup(),
            cpus: self.cpus.dup(),
            mem: self.mem.dup(),
            pid: self.pid.dup(),
            mounts: self.mounts.dup(),
            ports: self.ports.dup(),
            network: self.network.dup(),
            storage_gb: self.storage_gb.dup(),
            overlay_gb: self.overlay_gb.dup(),
            created_at: self.created_at.dup(),
        }
    }
}

/// Stored mounts in an answer.
pub open spec fn mount_infos(mounts: Seq<(Seq<char>, Seq<char>, bool)>) -> Seq<MountInfoView> {
    Seq::new(
        mounts.len(),
        |i: int|
            MountInfoView {
                index: i as usize,
                source: mounts[i].0,
                target: mounts[i].1,
                readonly: mounts[i].2,
            },
    )
}

/// A machine in an answer: a stopped one shows no process.
pub open spec fn machine_info(status: MachineStatusView) -> MachineInfoView {
    MachineInfoView {
        name: status.name,
        state: status.state.name(),
        cpus: status.record.cpus,
        mem: status.record.mem,
        pid: if status.state == RecordState::Stopped {
            None
        } else {
            status.record.pid
        },
        mounts: mount_infos(status.record.mounts),
        ports: crate::update_flow::mappings(status.record.ports),
        network: status.record.network,
        storage_gb: status.record.storage_gb,
        overlay_gb: status.record.overlay_gb,
        created_at: status.record.created_at,
    }
}

fn list_mounts(mounts: &Vec<(String, String, bool)>) -> (infos: Vec<MountInfo>)
    ensures
        infos.model() == mount_infos(mounts.model()),
{
    let mut infos: Vec<MountInfo> = empty_list();
    let mut i: usize = 0;
    while i < mounts.len()
        invariant
            i <= mounts.len(),
            infos.model() == mount_infos(mounts.model()).take(i as int),
        decreases mounts.len() - i,
    {
        push_to(
            &mut infos,
            MountInfo {
                index: i,
                source: mounts[i].0.dup(),
                target: mounts[i].1.dup(),
                readonly: mounts[i].2,
            },
        );
        assert(mount_infos(mounts.model()).take(i + 1) =~= mount_infos(mounts.model()).take(
            i as int,
        ).push(mount_infos(mounts.model())[i as int]));
        i += 1;
    }
    assert(mount_infos(mounts.model()).take(mounts.len() as int) =~= mount_infos(mounts.model()));
    infos
}

fn list_ports(pairs: &Vec<(u16, u16)>) -> (ports: Vec<PortMapping>)
    ensures
        ports.model() == crate::update_flow::mappings(pairs.model()),
{
    let mut ports: Vec<PortMapping> = empty_list();
    let ghost all = crate::update_flow::mappings(pairs.model());
    let mut i: usize = 0;
    while i < pairs.len()
        invariant
            i <= pairs.len(),
            all == crate::update_flow::mappings(pairs.model()),
            ports.model() == all.take(i as int),
        decreases pairs.len() - i,
    {
        push_to(&mut ports, PortMapping { host: pairs[i].0, guest: pairs[i].1 });
        assert(all.take(i + 1) =~= all.take(i as int).push(all[i as int]));
        i += 1;
    }
    assert(all.take(pairs.len() as int) =~= all);
    ports
}

/// Shows a machine in an answer.
pub fn machine_status_to_info(status: &MachineStatus) -> (info: MachineInfo)
    ensures
        info.model() == machine_info(status.model()),
{
    MachineInfo {
        name: status.name.dup(),
        state: own(status.state.label()),
        cpus: status.record.cpus,
        mem: status.record.mem,
        pid: if status.state == RecordState::Stopped {
            None
        } else {
            status.record.pid
        },
        mounts: list_mounts(&status.record.mounts),
        ports: list_ports(&status.record.ports),
        network: status.record.network,
        storage_gb: status.record.storage_gb,
        overlay_gb: status.record.overlay_gb,
        created_at: status.record.created_at,
    }
}

/// What the server remembers of a machine besides its manager.
#[derive(Debug, PartialEq, Eq)]
pub struct MachineEntry {
    pub mounts: Vec<(String, String, bool)>,
    pub ports: Vec<PortMapping>,
    pub resources: ResourceSpec,
    pub restart: RestartConfig,
    pub network: bool,
    pub secret_refs: SecretMap,
    pub source_smolmachine: Option<String>,
}

/// Mathematical model of a [`MachineEntry`].
pub struct MachineEntryView {
    pub mounts: Seq<(Seq<char>, Seq<char>, bool)>,
    pub ports: Seq<PortMapping>,
    pub resources: ResourceSpecView,
    pub restart: RestartConfigView,
    pub network: bool,
    pub secret_refs: SecretMapView,
    pub source_smolmachine: Option<Seq<char>>,
}

impl Model for MachineEntry {
    type V = MachineEntryView;

    open spec fn model(&self) -> MachineEntryView {
        MachineEntryView {
            mounts: self.mounts.model(),
            ports: self.ports.model(),
            resources: self.resources.model(),
            restart: self.restart.model(),
            network: self.network.model(),
            secret_refs: self.secret_refs.model(),
            source_smolmachine: self.source_smolmachine.model(),
        }
    }

    fn dup(&self) -> (copy: Self) {
        MachineEntry {
            mounts: self.mounts.dup(),
            ports: self.ports.dup(),
            resources: self.resources.dup(),
            restart: self.restart.dup(),
            network: self.network.dup(),
            secret_refs: self.secret_refs.dup(),
            source_smolmachine: self.source_smolmachine.dup(),
        }
    }
}

/// Remembers a machine with this record and these resources.
pub fn machine_entry_from_record(record: &VmRecord, resources: ResourceSpec) -> (entry:
    MachineEntry)
    ensures
        entry.model() == (MachineEntryView {
            mounts: record.model().mounts,
            ports: crate::update_flow::mappings(record.model().ports),
            resources: resources.model(),
            restart: record.model().restart,
            network: record.network,
            secret_refs: record.model().secret_refs,
            source_smolmachine: record.model().source_smolmachine,
        }),
{
    MachineEntry {
        mounts: record.mounts.dup(),
        ports: list_ports(&record.ports),
        resources,
        restart: record.restart.dup(),
        network: record.network,
        secret_refs: record.secret_refs.dup(),
        source_smolmachine: record.source_smolmachine.dup(),
    }
}

/// A request to change the settings of a machine.
#[derive(Debug, PartialEq, Eq)]
pub struct UpdateMachineRequest {
    pub add_ports: Vec<PortMapping>,
    pub remove_ports: Vec<PortMapping>,
    pub cpus: Option<u8>,
    pub mem: Option<u32>,
    pub network: Option<bool>,
    pub gpu: Option<bool>,
    pub storage_gb: Option<u64>,
    pub overlay_gb: Option<u64>,
    pub env: Vec<EnvVar>,
    pub remove_env: Vec<String>,
    pub workdir: Option<String>,
    pub allowed_cidrs: Option<Vec<String>>,
    pub dns_filter_hosts: Option<Vec<String>>,
    pub ssh_agent: Option<bool>,
}

/// Mathematical model of a [`UpdateMachineRequest`].
pub struct UpdateMachineRequestView {
    pub add_ports: Seq<PortMapping>,
    pub remove_ports: Seq<PortMapping>,
    pub cpus: Option<u8>,
    pub mem: Option<u32>,
    pub network: Option<bool>,
    pub gpu: Option<bool>,
    pub storage_gb: Option<u64>,
    pub overlay_gb: Option<u64>,
    pub env: Seq<EnvVarView>,
    pub remove_env: Seq<Seq<char>>,
    pub workdir: Option<Seq<char>>,
    pub allowed_cidrs: Option<Seq<Seq<char>>>,
    pub dns_filter_hosts: Option<Seq<Seq<char>>>,
    pub ssh_agent: Option<bool>,
}

impl Model for UpdateMachineRequest {
    type V = UpdateMachineRequestView;

    open spec fn model(&self) -> UpdateMachineRequestView {
        UpdateMachineRequestView {
            add_ports: self.add_ports.model(),
            remove_ports: self.remove_ports.model(),
            cpus: self.cpus.model(),
            mem: self.mem.model(),
            network: self.network.model(),
            gpu: self.gpu.model(),
            storage_gb: self.storage_gb.model(),
            overlay_gb: self.overlay_gb.model(),
            env: self.env.model(),
            remove_env: self.remove_env.model(),
            workdir: self.workdir.model(),
            allowed_cidrs: self.allowed_cidrs.model(),
            dns_filter_hosts: self.dns_filter_hosts.model(),
            ssh_agent: self.ssh_agent.model(),
        }
    }

    fn dup(&self) -> (copy: Self) {
        UpdateMachineRequest {
            add_ports: self.add_ports.dup(),
            remove_ports: self.remove_ports.dup(),
            cpus: self.cpus.dup(),
            mem: self.mem.dup(),
            network: self.network.dup(),
            gpu: self.gpu.dup(),
            storage_gb: self.storage_gb.dup(),
            overlay_gb: self.overlay_gb.dup(),
            env: self.env.dup(),
            remove_env: self.remove_env.dup(),
            workdir: self.workdir.dup(),
            allowed_cidrs: self.allowed_cidrs.dup(),
            dns_filter_hosts: self.dns_filter_hosts.dup(),
            ssh_agent: self.ssh_agent.dup(),
        }
    }
}

/// The service request of a request to change settings. `add` and `remove` are
/// what reading its mounts gave: an error comes as its text.
pub open spec fn update_accepted(
    name: Seq<char>,
    request: UpdateMachineRequestView,
    add: Result<Seq<HostMountView>, Seq<char>>,
    remove: Result<Seq<HostMountView>, Seq<char>>,
) -> Result<UpdateMachineView, ApiErrorView> {
    if add is Err {
        Err(ApiErrorView::BadRequest(add->Err_0))
    } else if remove is Err {
        Err(ApiErrorView::BadRequest(remove->Err_0))
    } else {
        Ok(
            UpdateMachineView {
                name,
                add_mounts: add->Ok_0,
                remove_mounts: remove->Ok_0,
                add_ports: request.add_ports,
                remove_ports: request.remove_ports,
                cpus: request.cpus,
                memory_mib: request.mem,
                enable_network: request.network == Some(true),
                disable_network: request.network == Some(false),
                network_backend: None,
                allowed_cidrs: request.allowed_cidrs,
                clear_allowed_cidrs: false,
                dns_filter_hosts: request.dns_filter_hosts,
                clear_dns_filter_hosts: false,
                set_env: variables(request.env),
                remove_env: request.remove_env,
                workdir: request.workdir,
                clear_workdir: false,
                enable_gpu: request.gpu == Some(true),
                disable_gpu: request.gpu == Some(false),
                gpu_vram_mib: None,
                storage_gb: request.storage_gb,
                overlay_gb: request.overlay_gb,
                restart_policy: None,
                restart_max_retries: None,
                restart_max_backoff_secs: None,
                health_cmd: None,
                clear_health_cmd: false,
                health_interval_secs: None,
                health_timeout_secs: None,
                health_retries: None,
                health_startup_grace_secs: None,
                enable_ssh_agent: request.ssh_agent == Some(true),
                disable_ssh_agent: request.ssh_agent == Some(false),
            },
        )
    }
}

fn is_unset(flag: Option<bool>) -> (unset: bool)
    ensures
        unset == (flag == Some(false)),
{
    match flag {
        Some(flag) => !flag,
        None => false,
    }
}

/// Turns a request to change settings into a service request.
pub fn accept_update(
    name: String,
    request: &UpdateMachineRequest,
    add: Result<Vec<HostMount>, String>,
    remove: Result<Vec<HostMount>, String>,
) -> (accepted: Result<UpdateMachine, ApiError>)
    ensures
        accepted.model() == update_accepted(name@, request.model(), add.model(), remove.model()),
{
    let mut update: UpdateMachine = UpdateMachine::new(name);
    match add {
        Err(reason) => {
            return Err(ApiError::BadRequest(reason));
        },
        Ok(mounts) => {
            update.add_mounts = mounts;
        },
    }
    match remove {
        Err(reason) => {
            return Err(ApiError::BadRequest(reason));
        },
        Ok(mounts) => {
            update.remove_mounts = mounts;
        },
    }
    update.add_ports = request.add_ports.dup();
    update.remove_ports = request.remove_ports.dup();
    update.cpus = request.cpus;
    update.memory_mib = request.mem;
    update.enable_network = is_set(request.network);
    update.disable_network = is_unset(request.network);
    update.enable_gpu = is_set(request.gpu);
    update.disable_gpu = is_unset(request.gpu);
    update.storage_gb = request.storage_gb;
    update.overlay_gb = request.overlay_gb;
    update.set_env = EnvVar::to_tuples(&request.env);
    update.remove_env = request.remove_env.dup();
    update.workdir = request.workdir.dup();
    update.allowed_cidrs = request.allowed_cidrs.dup();
    update.dns_filter_hosts = request.dns_filter_hosts.dup();
    update.enable_ssh_agent = is_set(request.ssh_agent);
    update.disable_ssh_agent = is_unset(request.ssh_agent);
    Ok(update)
}

/// A request for larger disks.
#[derive(Debug, PartialEq, Eq)]
pub struct ResizeMachineRequest {
    pub storage_gb: Option<u64>,
    pub overlay_gb: Option<u64>,
}

/// Mathematical model of a [`ResizeMachineRequest`].
pub struct ResizeMachineRequestView {
    pub storage_gb: Option<u64>,
    pub overlay_gb: Option<u64>,
}

impl Model for ResizeMachineRequest {
    type V = ResizeMachineRequestView;

    open spec fn model(&self) -> ResizeMachineRequestView {
        ResizeMachineRequestView {
            storage_gb: self.storage_gb.model(),
            overlay_gb: self.overlay_gb.model(),
        }
    }

    fn dup(&self) -> (copy: Self) {
        ResizeMachineRequest {
            storage_gb: self.storage_gb.dup(),
            overlay_gb: self.overlay_gb.dup(),
        }
    }
}

/// Turns a request for larger disks into a service request: it is refused where
/// it names no disk, and changes nothing but the disks it names.
pub fn accept_resize(name: String, request: &ResizeMachineRequest) -> (accepted: Result<
    UpdateMachine,
    ApiError,
>)
    ensures
        request.storage_gb is None && request.overlay_gb is None ==> accepted.model() == Err::<
            UpdateMachineView,
            ApiErrorView,
        >(
            ApiErrorView::BadRequest("at least one of storageGb or overlayGb must be specified"@),
        ),
        request.storage_gb is Some || request.overlay_gb is Some ==> accepted.model()
            == update_accepted(
            name@,
            UpdateMachineRequestView {
                add_ports: Seq::empty(),
                remove_ports: Seq::empty(),
                cpus: None,
                mem: None,
                network: None,
                gpu: None,
                storage_gb: request.storage_gb,
                overlay_gb: request.overlay_gb,
                env: Seq::empty(),
                remove_env: Seq::empty(),
                workdir: None,
                allowed_cidrs: None,
                dns_filter_hosts: None,
                ssh_agent: None,
            },
            Ok(Seq::empty()),
            Ok(Seq::empty()),
        ),
{
    if request.storage_gb.is_none() && request.overlay_gb.is_none() {
        return Err(
            ApiError::BadRequest(own("at least one of storageGb or overlayGb must be specified")),
        );
    }
    let mut update: UpdateMachine = UpdateMachine::new(name);
    update.storage_gb = request.storage_gb;
    update.overlay_gb = request.overlay_gb;
    assert(variables(Seq::empty()) =~= Seq::<(Seq<char>, Seq<char>)>::empty());
    Ok(update)
}

/// A request to watch a machine.
#[derive(Debug, PartialEq, Eq)]
pub struct MonitorQuery {
    pub restart: Option<String>,
    pub health_cmd: Option<String>,
    pub health_timeout_secs: Option<u64>,
    pub interval_secs: Option<u64>,
    pub health_retries: Option<u32>,
}

/// Mathematical model of a [`MonitorQuery`].
pub struct MonitorQueryView {
    pub restart: Option<Seq<char>>,
    pub health_cmd: Option<Seq<char>>,
    pub health_timeout_secs: Option<u64>,
    pub interval_secs: Option<u64>,
    pub health_retries: Option<u32>,
}

impl Model for MonitorQuery {
    type V = MonitorQueryView;

    open spec fn model(&self) -> MonitorQueryView {
        MonitorQueryView {
            restart: self.restart.model(),
            health_cmd: self.health_cmd.model(),
            health_timeout_secs: self.health_timeout_secs.model(),
            interval_secs: self.interval_secs.model(),
            health_retries: self.health_retries.model(),
        }
    }

    fn dup(&self) -> (copy: Self) {
        MonitorQuery {
            restart: self.restart.dup(),
            health_cmd: self.health_cmd.dup(),
            health_timeout_secs: self.health_timeout_secs.dup(),
            interval_secs: self.interval_secs.dup(),
            health_retries: self.health_retries.dup(),
        }
    }
}

/// The service request of a request to watch a machine. `policy` is what reading
/// its restart policy gave.
pub open spec fn monitor_accepted(
    name: Seq<char>,
    query: MonitorQueryView,
    policy: Result<RestartPolicy, Seq<char>>,
) -> Result<MonitorMachineView, ApiErrorView> {
    if query.restart is Some && policy is Err {
        Err(ApiErrorView::BadRequest(policy->Err_0))
    } else {
        Ok(
            MonitorMachineView {
                name,
                restart_policy: if query.restart is Some {
                    Some(policy->Ok_0)
                } else {
                    None
                },
                health_cmd: match query.health_cmd {
                    Some(command) => Some(crate::lifecycle::shell_words("sh"@, command)),
                    None => None,
                },
                health_timeout: TimeSpan {
                    secs: match query.health_timeout_secs {
                        Some(secs) => secs,
                        None => 5,
                    },
                    nanos: 0,
                },
                interval: TimeSpan {
                    secs: match query.interval_secs {
                        Some(secs) => secs,
                        None => 5,
                    },
                    nanos: 0,
                },
                health_retries: match query.health_retries {
                    Some(retries) => retries,
                    None => 3,
                },
            },
        )
    }
}

/// Turns a request to watch a machine into a service request.
pub fn accept_monitor(
    name: String,
    query: &MonitorQuery,
    policy: Result<RestartPolicy, String>,
) -> (accepted: Result<MonitorMachine, ApiError>)
    ensures
        accepted.model() == monitor_accepted(name@, query.model(), policy.model()),
{
    let mut monitor: MonitorMachine = MonitorMachine::new(name);
    if query.restart.is_some() {
        match policy {
            Err(reason) => {
                return Err(ApiError::BadRequest(reason));
            },
            Ok(policy) => {
                monitor.restart_policy = Some(policy);
            },
        }
    }
    if let Some(command) = &query.health_cmd {
        monitor.health_cmd = Some(crate::lifecycle::shell_command("sh", command.as_str()));
    }
    if let Some(secs) = query.health_timeout_secs {
        monitor.health_timeout = TimeSpan::from_secs(secs);
    }
    if let Some(secs) = query.interval_secs {
        monitor.interval = TimeSpan::from_secs(secs);
    }
    if let Some(retries) = query.health_retries {
        monitor.health_retries = retries;
    }
    Ok(monitor)
}

/// Turns a request to test the network into a service request.
pub fn accept_network_test(
    name: String,
    url: String,
    start_if_needed: bool,
    trace_id: Option<String>,
) -> (accepted: Result<NetworkTestMachine, ApiError>)
    ensures
        accepted.model() == (if url@.len() == 0 {
            Err::<NetworkTestMachineView, ApiErrorView>(
                ApiErrorView::BadRequest("url cannot be empty"@),
            )
        } else {
            Ok(
                NetworkTestMachineView {
                    name: name@,
                    url: url@,
                    start_if_needed,
                    trace_id: trace_id.model(),
                },
            )
        }),
{
    if url.as_str().is_empty() {
        return Err(ApiError::BadRequest(own("url cannot be empty")));
    }
    Ok(NetworkTestMachine { name, url, start_if_needed, trace_id })
}

/// A request to pull an image.
#[derive(Debug, PartialEq, Eq)]
pub struct PullImageRequest {
    pub image: String,
    pub oci_platform: Option<String>,
    pub proxy: Option<String>,
    pub no_proxy: Option<String>,
}

/// Mathematical model of a [`PullImageRequest`].
pub struct PullImageRequestView {
    pub image: Seq<char>,
    pub oci_platform: Option<Seq<char>>,
    pub proxy: Option<Seq<char>>,
    pub no_proxy: Option<Seq<char>>,
}

impl Model for PullImageRequest {
    type V = PullImageRequestView;

    open spec fn model(&self) -> PullImageRequestView {
        PullImageRequestView {
            image: self.image.model(),
            oci_platform: self.oci_platform.model(),
            proxy: self.proxy.model(),
            no_proxy: self.no_proxy.model(),
        }
    }

    fn dup(&self) -> (copy: Self) {
        PullImageRequest {
            image: self.image.dup(),
            oci_platform: self.oci_platform.dup(),
            proxy: self.proxy.dup(),
            no_proxy: self.no_proxy.dup(),
        }
    }
}

/// Turns a request to pull an image into a service request.
pub fn accept_pull(name: String, request: &PullImageRequest, trace_id: Option<String>) -> (accepted:
    Result<PullMachineImage, ApiError>)
    ensures
        accepted.model() == (if request.image@.len() == 0 {
            Err::<PullMachineImageView, ApiErrorView>(
                ApiErrorView::BadRequest("image reference cannot be empty"@),
            )
        } else {
            Ok(
                PullMachineImageView {
                    name: name@,
                    image: request.image@,
                    oci_platform: request.oci_platform.model(),
                    proxy: request.proxy.model(),
                    no_proxy: request.no_proxy.model(),
                    start_if_needed: true,
                    trace_id: trace_id.model(),
                },
            )
        }),
{
    if request.image.as_str().is_empty() {
        return Err(ApiError::BadRequest(own("image reference cannot be empty")));
    }
    Ok(
        PullMachineImage {
            name,
            image: request.image.dup(),
            oci_platform: request.oci_platform.dup(),
            proxy: request.proxy.dup(),
            no_proxy: request.no_proxy.dup(),
            start_if_needed: true,
            trace_id,
        },
    )
}

/// Turns a request for the cached images into a service request.
pub fn accept_list_images(name: String, trace_id: Option<String>) -> (request: ListMachineImages)
    ensures
        request.model() == (ListMachineImagesView {
            name: name@,
            start_if_needed: false,
            stop_after_start: false,
            empty_when_stopped: true,
            trace_id: trace_id.model(),
        }),
{
    ListMachineImages {
        name,
        start_if_needed: false,
        stop_after_start: false,
        empty_when_stopped: true,
        trace_id,
    }
}

/// Turns a request for the use of the image storage into a service request.
pub fn accept_storage_status(name: String, trace_id: Option<String>) -> (request:
    StorageStatusRequest)
    ensures
        request.model() == (StorageStatusRequestView {
            name: name@,
            start_if_needed: true,
            trace_id: trace_id.model(),
        }),
{
    StorageStatusRequest { name, start_if_needed: true, trace_id }
}

/// A request to remove cached images or layers.
#[derive(Debug, PartialEq, Eq)]
pub struct PruneImagesRequest {
    pub dry_run: bool,
    pub all: bool,
    pub stop_after_start: bool,
}

/// Mathematical model of a [`PruneImagesRequest`].
pub struct PruneImagesRequestView {
    pub dry_run: bool,
    pub all: bool,
    pub stop_after_start: bool,
}

impl Model for PruneImagesRequest {
    type V = PruneImagesRequestView;

    open spec fn model(&self) -> PruneImagesRequestView {
        PruneImagesRequestView {
            dry_run: self.dry_run.model(),
            all: self.all.model(),
            stop_after_start: self.stop_after_start.model(),
        }
    }

    fn dup(&self) -> (copy: Self) {
        PruneImagesRequest {
            dry_run: self.dry_run.dup(),
            all: self.all.dup(),
            stop_after_start: self.stop_after_start.dup(),
        }
    }
}

/// Turns a request to remove cached images or layers into a service request.
pub fn accept_prune(name: String, request: &PruneImagesRequest, trace_id: Option<String>) -> (prune:
    PruneMachineImages)
    ensures
        prune.model() == (PruneMachineImagesView {
            name: name@,
            dry_run: request.dry_run,
            all: request.all,
            stop_after_start: request.stop_after_start,
            trace_id: trace_id.model(),
        }),
{
    PruneMachineImages {
        name,
        dry_run: request.dry_run,
        all: request.all,
        stop_after_start: request.stop_after_start,
        trace_id,
    }
}

/// A request to start a machine.
#[derive(Debug, PartialEq, Eq)]
pub struct StartMachineRequest {
    pub forkable: bool,
    pub proxy: Option<String>,
    pub no_proxy: Option<String>,
}

/// Mathematical model of a [`StartMachineRequest`].
pub struct StartMachineRequestView {
    pub forkable: bool,
    pub proxy: Option<Seq<char>>,
    pub no_proxy: Option<Seq<char>>,
}

impl Model for StartMachineRequest {
    type V = StartMachineRequestView;

    open spec fn model(&self) -> StartMachineRequestView {
        StartMachineRequestView {
            forkable: self.forkable.model(),
            proxy: self.proxy.model(),
            no_proxy: self.no_proxy.model(),
        }
    }

    fn dup(&self) -> (copy: Self) {
        StartMachineRequest {
            forkable: self.forkable.dup(),
            proxy: self.proxy.dup(),
            no_proxy: self.no_proxy.dup(),
        }
    }
}

/// Turns a request to start a machine, with or without a body, into a service
/// request.
pub fn accept_start(name: String, body: &Option<StartMachineRequest>) -> (start: StartMachine)
    ensures
        start.model() == (StartMachineView {
            name: name@,
            forkable: body is Some && body->0.forkable,
            proxy: match body.model() {
                Some(body) => body.proxy,
                None => None,
            },
            no_proxy: match body.model() {
                Some(body) => body.no_proxy,
                None => None,
            },
            snapshot_dir: None,
        }),
{
    let mut start: StartMachine = StartMachine::new(name);
    if let Some(body) = body {
        start.forkable = body.forkable;
        start.proxy = body.proxy.dup();
        start.no_proxy = body.no_proxy.dup();
    }
    start
}

/// A request for a clone of a running machine.
#[derive(Debug, PartialEq, Eq)]
pub struct ForkMachineRequest {
    pub clone: String,
    pub ports: Vec<PortMapping>,
}

/// Mathematical model of a [`ForkMachineRequest`].
pub struct ForkMachineRequestView {
    pub clone: Seq<char>,
    pub ports: Seq<PortMapping>,
}

impl Model for ForkMachineRequest {
    type V = ForkMachineRequestView;

    open spec fn model(&self) -> ForkMachineRequestView {
        ForkMachineRequestView {
            clone: self.clone.model(),
            ports: self.ports.model(),
        }
    }

    fn dup(&self) -> (copy: Self) {
        ForkMachineRequest {
            clone: self.clone.dup(),
            ports: self.ports.dup(),
        }
    }
}

/// Turns a request for a clone into a service request.
pub fn accept_fork(name: String, request: &ForkMachineRequest) -> (fork: ForkMachine)
    ensures
        fork.model() == (ForkMachineView {
            golden: name@,
            clone: request.clone@,
            ports: request.ports.model(),
        }),
{
    let mut fork: ForkMachine = ForkMachine::new(name, request.clone.dup());
    fork.ports = request.ports.dup();
    fork
}

/// Turns a request to delete a machine into a service request: its data goes too,
/// and `force` also breaks its clones.
pub fn accept_delete(name: String, force: bool) -> (request: DeleteMachine)
    ensures
        request.model() == (DeleteMachineView {
            name: name@,
            break_dependent_clones: force,
            keep_data: false,
        }),
{
    let mut request: DeleteMachine = DeleteMachine::new(name);
    request.break_dependent_clones = force;
    request
}

/// Answers a request for one machine.
pub fn show_machine(name: &str, found: &Option<MachineStatus>) -> (answer: Result<
    MachineInfo,
    ApiError,
>)
    ensures
        answer.model() == (match found.model() {
            Some(status) => Ok::<MachineInfoView, ApiErrorView>(machine_info(status)),
            None => Err(ApiErrorView::NotFound("machine '"@ + name@ + "' not found"@)),
        }),
{
    match found {
        Some(status) => Ok(machine_status_to_info(status)),
        None => Err(ApiError::NotFound(cat3("machine '", name, "' not found"))),
    }
}

/// Answers a request for all machines.
pub fn show_machines(statuses: &Vec<MachineStatus>) -> (infos: Vec<MachineInfo>)
    ensures
        infos.model() == Seq::new(
            statuses.model().len(),
            |i: int| machine_info(statuses.model()[i]),
        ),
{
    let mut infos: Vec<MachineInfo> = empty_list();
    let ghost all = Seq::new(
        statuses.model().len(),
        |i: int| machine_info(statuses.model()[i]),
    );
    let mut i: usize = 0;
    while i < statuses.len()
        invariant
            i <= statuses.len(),
            all == Seq::new(statuses.model().len(), |i: int| machine_info(statuses.model()[i])),
            infos.model() == all.take(i as int),
        decreases statuses.len() - i,
    {
        push_to(&mut infos, machine_status_to_info(&statuses[i]));
        assert(all.take(i + 1) =~= all.take(i as int).push(all[i as int]));
        i += 1;
    }
    assert(all.take(statuses.len() as int) =~= all);
    infos
}

/// The path in the guest that a path of a request names.
pub open spec fn path_in_guest(path: Seq<char>) -> Seq<char> {
    "/"@ + without_leading_slashes(path)
}

/// Makes the path in the guest that a path of a request names.
pub fn guest_path(path: &str) -> (guest: String)
    ensures
        guest@ == path_in_guest(path@),
{
    cat2("/", trim_slashes(path).as_str())
}

/// Law: the path in the guest is absolute, and does not depend on how many
/// slashes a request puts in front.
pub proof fn law_guest_path_is_absolute(path: Seq<char>)
    ensures
        ("/"@).is_prefix_of(path_in_guest(path)),
        path_in_guest("/"@ + path) == path_in_guest(path),
        path_in_guest(path_in_guest(path)) == path_in_guest(path),
{
    reveal_strlit("/");
    let slash = "/"@;
    assert((slash + path).skip(1) =~= path);
    assert((slash + path)[0] == '/');
    let rest = without_leading_slashes(path);
    assert((slash + rest).skip(1) =~= rest);
    assert((slash + rest)[0] == '/');
    lemma_no_leading_slash(path);
    assert(path_in_guest(path).subrange(0, 1) =~= slash);
}

proof fn lemma_no_leading_slash(path: Seq<char>)
    ensures
        without_leading_slashes(without_leading_slashes(path)) == without_leading_slashes(path),
    decreases path.len(),
{
    if path.len() > 0 && path[0] == '/' {
        lemma_no_leading_slash(path.skip(1));
    }
}

/// The answer to an upload.
#[derive(Debug, PartialEq, Eq)]
pub struct FileUploadResponse {
    pub path: String,
    pub size: u64,
}

/// Mathematical model of a [`FileUploadResponse`].
pub struct FileUploadResponseView {
    pub path: Seq<char>,
    pub size: u64,
}

impl Model for FileUploadResponse {
    type V = FileUploadResponseView;

    open spec fn model(&self) -> FileUploadResponseView {
        FileUploadResponseView {
            path: self.path.model(),
            size: self.size.model(),
        }
    }

    fn dup(&self) -> (copy: Self) {
        FileUploadResponse {
            path: self.path.dup(),
            size: self.size.dup(),
        }
    }
}

/// Turns an upload into a service request and its answer.
pub fn accept_upload(id: String, path: &str, data: Vec<u8>, trace_id: Option<String>) -> (accepted: (
    WriteMachineFile,
    FileUploadResponse,
))
    ensures
        accepted.0.model() == (WriteMachineFileView {
            name: id@,
            guest_path: path_in_guest(path@),
            data: data.model(),
            mode: None,
            start_if_needed: true,
            trace_id: trace_id.model(),
        }),
        accepted.1.model() == (FileUploadResponseView {
            path: path_in_guest(path@),
            size: data@.len() as u64,
        }),
{
    let guest: String = guest_path(path);
    let size: u64 = data.len() as u64;
    (
        WriteMachineFile {
            name: id,
            guest_path: guest.dup(),
            data,
            mode: None,
            start_if_needed: true,
            trace_id,
        },
        FileUploadResponse { path: guest, size },
    )
}

/// Turns a download into a service request.
pub fn accept_download(id: String, path: &str, trace_id: Option<String>) -> (request:
    ReadMachineFile)
    ensures
        request.model() == (ReadMachineFileView {
            name: id@,
            guest_path: path_in_guest(path@),
            start_if_needed: true,
            trace_id: trace_id.model(),
        }),
{
    ReadMachineFile { name: id, guest_path: guest_path(path), start_if_needed: true, trace_id }
}

/// Law: an error of the machine service is answered with the code that tells what to do: a machine
/// that is missing is not found, a machine in the wrong state is a conflict, a setting is a bad
/// request unless the name is taken, and anything else is an error of the server; the text of the
/// error is always told.
pub proof fn law_errors_are_answered_by_kind(error: ErrorView, message: Seq<char>)
    ensures
        error is VmNotFound ==> http_error(error, message) == ApiErrorView::NotFound(message),
        error is InvalidState ==> http_error(error, message) == ApiErrorView::Conflict(message),
        error matches ErrorView::Config { operation, .. } ==> (operation != "create machine"@
            ==> http_error(error, message) == ApiErrorView::BadRequest(message)),
        error is Config ==> http_error(error, message) == ApiErrorView::BadRequest(message)
            || http_error(error, message) == ApiErrorView::Conflict(message),
        error matches ErrorView::Agent { operation, .. } ==> (operation != "fork"@ ==> http_error(
            error,
            message,
        ) == ApiErrorView::Internal(message)),
        error is Storage ==> http_error(error, message) == ApiErrorView::Internal(message),
{
}

/// Law: variables of a request are handed on as they are, in their order.
pub proof fn law_request_variables_are_kept(env: Seq<EnvVarView>)
    ensures
        variables(env).len() == env.len(),
        forall|i: int|
            0 <= i < env.len() ==> #[trigger] variables(env)[i] == (env[i].name, env[i].value),
{
}

/// Law: a request to run a command is handed on as it was made: the machine of the path, its command,
/// variables, directory and time limit, and its input where it is not streamed; it may start the
/// machine and sees the variables of the machine, and its secrets count as untrusted. It is refused
/// exactly where it has no command or carries secrets.
pub proof fn law_exec_request_is_handed_on(
    id: Seq<char>,
    trace_id: Option<Seq<char>>,
    request: ExecRequestView,
    streamed: bool,
)
    ensures
        exec_accepted(id, trace_id, request, streamed) is Ok <==> request.command.len() > 0
            && request.secrets.len() == 0,
        exec_accepted(id, trace_id, request, streamed) matches Err(error) ==> error is BadRequest,
        exec_accepted(id, trace_id, request, streamed) matches Ok(exec) ==> {
            &&& exec.name == id && exec.command == request.command && exec.workdir
                == request.workdir && exec.trace_id == trace_id
            &&& exec.env.len() == request.env.len() && forall|i: int|
                0 <= i < request.env.len() ==> #[trigger] exec.env[i] == (
                    request.env[i].name,
                    request.env[i].value,
                )
            &&& exec.timeout is Some <==> request.timeout_secs is Some
            &&& exec.timeout is Some ==> exec.timeout->0.secs == request.timeout_secs->0
                && exec.timeout->0.nanos == 0
            &&& streamed ==> exec.stdin is None && !exec.background
            &&& !streamed ==> exec.stdin == request.stdin && exec.background == request.background
            &&& exec.start_if_needed && exec.include_record_env && !exec.tty
            &&& exec.secret_scope == ResolutionScope::Untrusted
        },
{
    law_http_secrets_are_refused(request.secrets);
}

/// Law: a request to run a command in a container is handed on as it was made, and refused exactly
/// where it has no command or carries secrets.
pub proof fn law_run_request_is_handed_on(
    id: Seq<char>,
    trace_id: Option<Seq<char>>,
    request: RunRequestView,
)
    ensures
        run_accepted(id, trace_id, request) is Ok <==> request.command.len() > 0
            && request.secrets.len() == 0,
        run_accepted(id, trace_id, request) matches Err(error) ==> error is BadRequest,
        run_accepted(id, trace_id, request) matches Ok(run) ==> {
            &&& run.name == id && run.image == request.image && run.command == request.command
                && run.workdir == request.workdir && run.trace_id == trace_id
            &&& run.env.len() == request.env.len() && forall|i: int|
                0 <= i < request.env.len() ==> #[trigger] run.env[i] == (
                    request.env[i].name,
                    request.env[i].value,
                )
            &&& run.timeout is Some <==> request.timeout_secs is Some
            &&& run.timeout is Some ==> run.timeout->0.secs == request.timeout_secs->0
                && run.timeout->0.nanos == 0
            &&& run.persistent_overlay_id is None && run.start_if_needed
            &&& run.secret_scope == ResolutionScope::Untrusted
        },
{
    law_http_secrets_are_refused(request.secrets);
}

/// Law: a request for a run session is handed on as it was made, with defaults for what its resources
/// leave out. It is refused exactly where it carries secrets, forwards the SSH agent, has nothing to
/// run in the foreground, or has mounts that cannot be read.
pub proof fn law_session_request_is_handed_on(
    request: MachineRunRequestView,
    generated: Seq<char>,
    mounts: Result<Seq<HostMountView>, Seq<char>>,
    defaults: ResourceDefaultsView,
)
    ensures
        session_accepted(request, generated, mounts, defaults) is Ok <==> request.secrets.len() == 0
            && !request.ssh_agent && mounts is Ok && (request.detached || request.command.len() > 0
            || request.entrypoint.len() > 0 || request.cmd.len() > 0),
        session_accepted(request, generated, mounts, defaults) matches Err(error) ==> error
            is BadRequest,
        session_accepted(request, generated, mounts, defaults) matches Ok(run) ==> {
            &&& request.name is Some ==> run.name == request.name->0
            &&& request.name is None && request.detached ==> run.name == "default"@
            &&& request.name is None && !request.detached ==> run.name == generated
            &&& run.detached == request.detached && run.allow_existing_record
                == request.allow_existing
            &&& run.image == request.image && run.command == request.command && run.entrypoint
                == request.entrypoint && run.cmd == request.cmd && run.init == request.init
            &&& run.env.len() == request.env.len() && forall|i: int|
                0 <= i < request.env.len() ==> #[trigger] run.env[i] == (
                    request.env[i].name,
                    request.env[i].value,
                )
            &&& run.workdir == request.workdir && run.user == request.user && run.mounts
                == mounts->Ok_0 && run.ports == request.ports
            &&& request.resources.cpus is Some ==> run.resources.cpus == request.resources.cpus->0
            &&& request.resources.cpus is None ==> run.resources.cpus == defaults.cpus
            &&& request.resources.memory_mb is Some ==> run.resources.memory_mib
                == request.resources.memory_mb->0
            &&& request.resources.memory_mb is None ==> run.resources.memory_mib
                == defaults.memory_mib
            &&& run.resources.network <==> request.resources.network == Some(true)
            &&& run.resources.gpu <==> request.resources.gpu == Some(true)
            &&& run.resources.storage_gib == request.resources.storage_gb
                && run.resources.overlay_gib == request.resources.overlay_gb
                && run.resources.allowed_cidrs == request.resources.allowed_cidrs
            &&& run.dns_filter_hosts == request.dns_filter_hosts && run.oci_platform
                == request.oci_platform && run.proxy == request.proxy && run.no_proxy
                == request.no_proxy
            &&& run.timeout is Some <==> request.timeout_secs is Some
            &&& run.timeout is Some ==> run.timeout->0.secs == request.timeout_secs->0
                && run.timeout->0.nanos == 0
            &&& !run.ssh_agent && !run.interactive && !run.tty && run.secret_scope
                == ResolutionScope::Untrusted
        },
{
    law_http_secrets_are_refused(request.secrets);
}

/// Law: the answer to a run session tells what it gave: the exit code and the output of the command, or
/// the name and the process of the machine that stays.
pub proof fn law_session_answer_tells_the_result(name: Seq<char>, result: MachineRunResultView)
    ensures
        result matches MachineRunResultView::Detached { name: kept, pid } ==> session_answer(
            name,
            result,
        ).name == kept && session_answer(name, result).pid == pid && session_answer(
            name,
            result,
        ).detached && session_answer(name, result).exit_code is None,
        result matches MachineRunResultView::Foreground { exit_code, stdout, stderr } ==> {
            let answer = session_answer(name, result);
            answer.name == name && !answer.detached && answer.exit_code == Some(exit_code)
                && answer.stdout == lossy_text(stdout) && answer.stderr == lossy_text(stderr)
                && answer.pid is None
        },
{
}

/// Law: a machine is answered as it is: its name, state and settings, each mount with its source, target
/// and whether it may be written, each port; and its process unless it is stopped.
pub proof fn law_machine_is_answered_as_it_is(status: MachineStatusView)
    ensures
        ({
            let info = machine_info(status);
            let record = status.record;
            &&& info.name == status.name && info.state == status.state.name()
            &&& info.cpus == record.cpus && info.mem == record.mem && info.network
                == record.network && info.storage_gb == record.storage_gb && info.overlay_gb
                == record.overlay_gb && info.created_at == record.created_at
            &&& status.state == RecordState::Stopped ==> info.pid is None
            &&& status.state != RecordState::Stopped ==> info.pid == record.pid
            &&& info.mounts.len() == record.mounts.len() && forall|i: int|
                0 <= i < record.mounts.len() ==> (#[trigger] info.mounts[i]).index == i as usize
                    && info.mounts[i].source == record.mounts[i].0 && info.mounts[i].target
                    == record.mounts[i].1 && info.mounts[i].readonly == record.mounts[i].2
            &&& info.ports.len() == record.ports.len() && forall|i: int|
                0 <= i < record.ports.len() ==> (#[trigger] info.ports[i]).host
                    == record.ports[i].0 && info.ports[i].guest == record.ports[i].1
        }),
{
}

/// Law: a request to change settings is handed on as it was made: what it names is set or switched, and
/// what it leaves out is left alone. It is refused exactly where its mounts cannot be read.
pub proof fn law_update_request_is_handed_on(
    name: Seq<char>,
    request: UpdateMachineRequestView,
    add: Result<Seq<HostMountView>, Seq<char>>,
    remove: Result<Seq<HostMountView>, Seq<char>>,
)
    ensures
        update_accepted(name, request, add, remove) is Ok <==> add is Ok && remove is Ok,
        update_accepted(name, request, add, remove) matches Err(error) ==> error is BadRequest,
        update_accepted(name, request, add, remove) matches Ok(update) ==> {
            &&& update.name == name && update.add_mounts == add->Ok_0 && update.remove_mounts
                == remove->Ok_0
            &&& update.add_ports == request.add_ports && update.remove_ports
                == request.remove_ports
            &&& update.cpus == request.cpus && update.memory_mib == request.mem
                && update.storage_gb == request.storage_gb && update.overlay_gb
                == request.overlay_gb
            &&& update.enable_network <==> request.network == Some(true)
            &&& update.disable_network <==> request.network == Some(false)
            &&& update.enable_gpu <==> request.gpu == Some(true)
            &&& update.disable_gpu <==> request.gpu == Some(false)
            &&& update.enable_ssh_agent <==> request.ssh_agent == Some(true)
            &&& update.disable_ssh_agent <==> request.ssh_agent == Some(false)
            &&& update.allowed_cidrs == request.allowed_cidrs && update.dns_filter_hosts
                == request.dns_filter_hosts && !update.clear_allowed_cidrs
                && !update.clear_dns_filter_hosts
            &&& update.workdir == request.workdir && !update.clear_workdir && update.remove_env
                == request.remove_env
            &&& update.set_env.len() == request.env.len() && forall|i: int|
                0 <= i < request.env.len() ==> #[trigger] update.set_env[i] == (
                    request.env[i].name,
                    request.env[i].value,
                )
            &&& update.network_backend is None && update.gpu_vram_mib is None
                && update.restart_policy is None && update.restart_max_retries is None
                && update.restart_max_backoff_secs is None && update.health_cmd is None
                && !update.clear_health_cmd && update.health_interval_secs is None
                && update.health_timeout_secs is None && update.health_retries is None
                && update.health_startup_grace_secs is None
        },
{
}

/// Law: a request to watch a machine is handed on as it was made: its policy as it was read, its health
/// command as a line for the shell, and its times and counts, or else five seconds and three tries. It
/// is refused exactly where its policy cannot be read.
pub proof fn law_monitor_request_is_handed_on(
    name: Seq<char>,
    query: MonitorQueryView,
    policy: Result<RestartPolicy, Seq<char>>,
)
    ensures
        monitor_accepted(name, query, policy) is Ok <==> query.restart is None || policy is Ok,
        monitor_accepted(name, query, policy) matches Err(error) ==> error
            == ApiErrorView::BadRequest(policy->Err_0),
        monitor_accepted(name, query, policy) matches Ok(monitor) ==> {
            &&& monitor.name == name
            &&& query.restart is Some ==> monitor.restart_policy == Some(policy->Ok_0)
            &&& query.restart is None ==> monitor.restart_policy is None
            &&& query.health_cmd is Some ==> monitor.health_cmd == Some(
                seq!["sh"@, "-c"@, query.health_cmd->0],
            )
            &&& query.health_cmd is None ==> monitor.health_cmd is None
            &&& query.health_timeout_secs is Some ==> monitor.health_timeout.secs
                == query.health_timeout_secs->0
            &&& query.health_timeout_secs is None ==> monitor.health_timeout.secs == 5
            &&& query.interval_secs is Some ==> monitor.interval.secs == query.interval_secs->0
            &&& query.interval_secs is None ==> monitor.interval.secs == 5
            &&& query.health_retries is Some ==> monitor.health_retries == query.health_retries->0
            &&& query.health_retries is None ==> monitor.health_retries == 3
            &&& monitor.health_timeout.nanos == 0 && monitor.interval.nanos == 0
        },
{
}

/// Law: requests to start, fork and delete a machine name the machine of the path and hand on what their
/// body or query says; a deleted machine loses its data.
pub proof fn law_lifecycle_requests_are_handed_on(
    name: String,
    body: &Option<StartMachineRequest>,
    start: StartMachine,
    asked: &ForkMachineRequest,
    fork: ForkMachine,
    force: bool,
    delete: DeleteMachine,
)
    requires
        call_ensures(accept_start, (name, body), start),
        call_ensures(accept_fork, (name, asked), fork),
        call_ensures(accept_delete, (name, force), delete),
    ensures
        start.name@ == name@ && start.snapshot_dir is None,
        body is Some ==> start.forkable == body->0.forkable && start.proxy.model()
            == body->0.proxy.model() && start.no_proxy.model() == body->0.no_proxy.model(),
        body is None ==> !start.forkable && start.proxy is None && start.no_proxy is None,
        fork.golden@ == name@ && fork.clone@ == asked.clone@ && fork.ports.model()
            == asked.ports.model(),
        delete.name@ == name@ && delete.break_dependent_clones == force && !delete.keep_data,
{
    assert(start.model().name == name@);
    assert(fork.model().golden == name@);
    assert(delete.model().name == name@);
}

/// Law: requests about the files, images and network of a machine name the machine of the path and hand
/// on what they say. An image without a reference and a test without an address are refused.
pub proof fn law_image_requests_are_handed_on(
    name: String,
    trace_id: Option<String>,
    asked: &PullImageRequest,
    pull: Result<PullMachineImage, ApiError>,
    pruning: &PruneImagesRequest,
    prune: PruneMachineImages,
    list: ListMachineImages,
    storage: StorageStatusRequest,
)
    requires
        call_ensures(accept_pull, (name, asked, trace_id), pull),
        call_ensures(accept_prune, (name, pruning, trace_id), prune),
        call_ensures(accept_list_images, (name, trace_id), list),
        call_ensures(accept_storage_status, (name, trace_id), storage),
    ensures
        pull is Ok <==> asked.image@.len() > 0,
        pull is Err ==> pull->Err_0.model() is BadRequest,
        pull matches Ok(pull) ==> pull.name@ == name@ && pull.image@ == asked.image@
            && pull.oci_platform.model() == asked.oci_platform.model() && pull.proxy.model()
            == asked.proxy.model() && pull.no_proxy.model() == asked.no_proxy.model()
            && pull.start_if_needed && pull.trace_id.model() == trace_id.model(),
        prune.name@ == name@ && prune.all == pruning.all && prune.dry_run == pruning.dry_run
            && prune.stop_after_start == pruning.stop_after_start && prune.trace_id.model()
            == trace_id.model(),
        list.name@ == name@ && list.empty_when_stopped && !list.start_if_needed
            && !list.stop_after_start && list.trace_id.model() == trace_id.model(),
        storage.name@ == name@ && storage.start_if_needed && storage.trace_id.model()
            == trace_id.model(),
{
    assert(pull is Ok ==> pull.model()->Ok_0 == pull->Ok_0.model());
    assert(pull is Err ==> pull.model()->Err_0 == pull->Err_0.model());
    assert(prune.model().name == prune.name@);
    assert(list.model().name == list.name@);
    assert(storage.model().name == storage.name@);
}

/// Law: a file is written to and read from the machine of the path, at the path that was named, which
/// is made absolute; what is written is what was sent, and the answer tells its path and size. A test
/// of the network tries the address that was given.
pub proof fn law_file_requests_are_handed_on(
    id: String,
    path: &str,
    data: Vec<u8>,
    trace_id: Option<String>,
    upload: (WriteMachineFile, FileUploadResponse),
    download: ReadMachineFile,
    url: String,
    start_if_needed: bool,
    test: Result<NetworkTestMachine, ApiError>,
)
    requires
        call_ensures(accept_upload, (id, path, data, trace_id), upload),
        call_ensures(accept_download, (id, path, trace_id), download),
        call_ensures(accept_network_test, (id, url, start_if_needed, trace_id), test),
    ensures
        upload.0.name@ == id@ && upload.0.data@ == data@ && upload.0.mode is None
            && upload.0.start_if_needed && upload.0.trace_id.model() == trace_id.model(),
        without_leading_slashes(path@).is_suffix_of(upload.0.guest_path@),
        upload.0.guest_path@.len() == without_leading_slashes(path@).len() + 1
            && upload.0.guest_path@[0] == '/',
        upload.1.path@ == upload.0.guest_path@ && upload.1.size == data@.len() as u64,
        download.name@ == id@ && download.guest_path@ == upload.0.guest_path@
            && download.start_if_needed && download.trace_id.model() == trace_id.model(),
        test is Ok <==> url@.len() > 0,
        test is Err ==> test->Err_0.model() is BadRequest,
        test matches Ok(test) ==> test.name@ == id@ && test.url@ == url@ && test.start_if_needed
            == start_if_needed && test.trace_id.model() == trace_id.model(),
{
    reveal_strlit("/");
    assert(upload.0.model().name == upload.0.name@);
    assert(upload.1.model().path == upload.1.path@);
    assert(download.model().name == download.name@);
    assert(test is Ok ==> test.model()->Ok_0 == test->Ok_0.model());
    assert(test is Err ==> test.model()->Err_0 == test->Err_0.model());
    let rest = without_leading_slashes(path@);
    let guest = upload.0.guest_path@;
    assert(upload.0.model().guest_path == guest);
    assert(guest == "/"@ + rest);
    assert(guest.subrange(guest.len() - rest.len(), guest.len() as int) =~= rest);
    assert(upload.0.model().data =~= upload.0.data.model());
    assert forall|i: int| 0 <= i < data@.len() implies upload.0.data@[i] == data@[i] by {
        assert(upload.0.data.model()[i] == data.model()[i]);
    }
    assert(upload.0.data.model().len() == upload.0.data@.len());
    assert(upload.0.data@ =~= data@);
}

/// Law: the answer to a command gives its exit code and what it wrote, as text, to each stream.
pub proof fn law_answer_gives_the_output(result: &ExecResult, response: ExecResponse)
    requires
        call_ensures(exec_response, (result,), response),
    ensures
        response.exit_code == result.exit_code,
        response.stdout@ == lossy_text(result.stdout.model()),
        response.stderr@ == lossy_text(result.stderr.model()),
{
    assert(response.model().exit_code == response.exit_code);
}

/// Law: a machine that was found is shown as it is, a missing one is not found; machines are shown one
/// by one, in their order.
pub proof fn law_found_machines_are_shown(
    name: &str,
    found: &Option<MachineStatus>,
    answer: Result<MachineInfo, ApiError>,
    statuses: &Vec<MachineStatus>,
    infos: Vec<MachineInfo>,
)
    requires
        call_ensures(show_machine, (name, found), answer),
        call_ensures(show_machines, (statuses,), infos),
    ensures
        answer is Ok <==> found is Some,
        answer is Err ==> answer->Err_0.model() is NotFound,
        found is Some ==> answer->Ok_0.model() == machine_info(found->0.model()),
        infos@.len() == statuses@.len(),
        forall|i: int|
            0 <= i < statuses@.len() ==> (#[trigger] infos@[i]).model() == machine_info(
                statuses@[i].model(),
            ),
{
    assert(answer is Ok ==> answer.model()->Ok_0 == answer->Ok_0.model());
    assert(answer is Err ==> answer.model()->Err_0 == answer->Err_0.model());
    assert(found is Some ==> found.model()->0 == found->0.model());
    assert(infos.model().len() == infos@.len());
    assert(statuses.model().len() == statuses@.len());
    assert forall|i: int| 0 <= i < statuses@.len() implies (#[trigger] infos@[i]).model()
        == machine_info(statuses@[i].model()) by {
        assert(infos.model()[i] == infos@[i].model());
        assert(statuses.model()[i] == statuses@[i].model());
    }
}

/// Law: a bad request, a machine that was not found, a conflict and an error of the server have the
/// status codes of HTTP for them, and tell their message.
pub proof fn law_errors_have_their_status_codes(error: &ApiError, code: u16)
    requires
        call_ensures(ApiError::status_code, (error,), code),
    ensures
        error.model() is BadRequest <==> code == 400,
        error.model() is NotFound <==> code == 404,
        error.model() is Conflict <==> code == 409,
        error.model() is Internal <==> code == 500,
{
}

/// Law: a request to enlarge disks changes the sizes that it names and nothing else, and is refused
/// where it names none.
pub proof fn law_resize_request_is_handed_on(
    name: String,
    request: &ResizeMachineRequest,
    accepted: Result<UpdateMachine, ApiError>,
)
    requires
        call_ensures(accept_resize, (name, request), accepted),
    ensures
        accepted is Ok <==> request.storage_gb is Some || request.overlay_gb is Some,
        accepted is Err ==> accepted->Err_0.model() is BadRequest,
        accepted matches Ok(update) ==> {
            &&& update.name@ == name@ && update.storage_gb == request.storage_gb
                && update.overlay_gb == request.overlay_gb
            &&& update.cpus is None && update.memory_mib is None && update.workdir is None
            &&& !update.enable_network && !update.disable_network && !update.enable_gpu
                && !update.disable_gpu && !update.enable_ssh_agent && !update.disable_ssh_agent
            &&& update.add_mounts.model().len() == 0 && update.remove_mounts.model().len() == 0
                && update.add_ports.model().len() == 0 && update.remove_ports.model().len() == 0
                && update.set_env.model().len() == 0 && update.remove_env.model().len() == 0
        },
{
    assert(accepted is Ok ==> accepted.model()->Ok_0 == accepted->Ok_0.model());
    assert(accepted is Err ==> accepted.model()->Err_0 == accepted->Err_0.model());
    if let Ok(update) = accepted {
        assert(update.model().name == update.name@);
        assert(update.model().workdir == update.workdir.model());
    }
}

/// Law: a key is one of the environment exactly where it is not empty and not too long, begins with a
/// letter or an underscore, and holds only letters, digits and underscores.
pub proof fn law_keys_of_the_environment(key: Seq<char>)
    ensures
        key_fault(key) is None <==> key.len() > 0 && byte_count(key) as usize <= MAX_SECRET_KEY_LEN
            && !('0' <= key[0] && key[0] <= '9') && forall|i: int|
            0 <= i < key.len() ==> (('a' <= #[trigger] key[i] && key[i] <= 'z') || ('A' <= key[i]
                && key[i] <= 'Z') || ('0' <= key[i] && key[i] <= '9') || key[i] == '_'),
{
}

/// Law: a command is needed, and nothing else is asked of it.
pub proof fn law_command_is_needed(cmd: Seq<Seq<char>>)
    ensures
        command_checked(cmd) is Ok <==> cmd.len() > 0,
        command_checked(cmd) matches Err(error) ==> error is BadRequest,
{
}

} // verus!
