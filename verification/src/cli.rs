//! Command line: the other commands about machines.

use crate::bytes::{trim, trimmed};
use crate::commands::{
    shell_of, CpCmd, CpCmdView, DeleteCmd, DeleteCmdView, ExecCmd, ExecCmdView, ForkCmd,
    MonitorCmd, MonitorCmdView, NetworkTestCmd, PruneCmd, PruneCmdView, ShellCmd, ShellCmdView,
    StartCmd, StartCmdView, UpdateCmd, UpdateCmdView,
};
use crate::error::{Error, ErrorView};
use crate::flags::{cli_secrets, parse_cli_secret_refs, secret_flags};
use crate::guest::{client_step, ClientProgressView};
use crate::json::{
    indented, json_list, json_of, list, member, natural, object, put, write_indented, JsonView,
};
use crate::listing::{label_of, show_notation, vm_label};
use crate::model::{empty_list, extend_from, one_of, push_to, Model};
use crate::monitor::{MonitorEvent, MonitorEventView};
use crate::records::record_found;
use crate::requests::{
    CreateMachine, CreateMachineView, DeleteMachine, DeleteMachineView, DownloadMachineFile,
    DownloadMachineFileView, ExecMachine, ExecMachineView, ForkMachine, ForkMachineView,
    ListMachineImages, ListMachineImagesView, MonitorMachine, MonitorMachineView,
    NetworkTestMachine, NetworkTestMachineView, PruneImagesResult, PruneImagesResultView,
    PruneMachineImages, PruneMachineImagesView, StartMachine, StartMachineView,
    StorageStatusRequest, StorageStatusRequestView, UpdateMachine, UpdateMachineView,
    UploadMachineFile, UploadMachineFileView,
};
use crate::secrets::ResolutionScope;
use crate::text::{
    align_left, align_right, byte_count, cat2, cat3, cat4, cat5, cat6, cat7, chars_of, cut, decimal,
    left_aligned, lemma_byte_count_last, number, own, repeat_char, repeated, right_aligned, same_text, signed_decimal,
    signed_number, split_once, text_of,
};
use crate::types::{
    ExecEvent, ExecEventView, HostMount, HostMountView, RecordState, ResourceDefaults,
    ResourceDefaultsView, RestartPolicy, StorageStatus, StorageStatusView, TimeSpan,
};
use vstd::prelude::*;

verus! {

/// The service request of a command in a machine. `env` is what reading its
/// variables gave.
pub open spec fn exec_request_of(
    cmd: ExecCmdView,
    resolved: Option<Seq<char>>,
    env: Seq<(Seq<char>, Seq<char>)>,
) -> Result<ExecMachineView, ErrorView> {
    match cli_secrets(secret_flags(cmd.secret_env, cmd.secret_file)) {
        Err(error) => Err(error),
        Ok(secret_refs) => Ok(
            ExecMachineView {
                name: label_of(resolved),
                command: cmd.command,
                env,
                secret_refs,
                secret_scope: ResolutionScope::TrustedLocal,
                workdir: cmd.workdir,
                timeout: cmd.timeout,
                stdin: None,
                background: false,
                tty: cmd.tty,
                start_if_needed: false,
                include_record_env: true,
                trace_id: None,
            },
        ),
    }
}

impl ExecCmd {
    /// Makes the service request of a command in the machine that its name
    /// resolves to.
    pub fn request(&self, resolved: &Option<String>, env: Vec<(String, String)>) -> (request: Result<
        ExecMachine,
        Error,
    >)
        ensures
            request.model() == exec_request_of(self.model(), resolved.model(), env.model()),
    {
        let secrets = match parse_cli_secret_refs(&self.secret_env, &self.secret_file) {
            Err(error) => {
                return Err(error);
            },
            Ok(secrets) => secrets,
        };
        let mut request: ExecMachine = ExecMachine::new(vm_label(resolved), self.command.dup());
        request.env = env;
        request.secret_refs = secrets;
        request.secret_scope = ResolutionScope::TrustedLocal;
        request.workdir = self.workdir.dup();
        request.timeout = self.timeout;
        request.tty = self.tty;
        request.start_if_needed = false;
        Ok(request)
    }

    /// Tells whether a command talks to the user's terminal.
    pub fn is_interactive(&self) -> (interactive: bool)
        ensures
            interactive == (self.interactive || self.tty),
    {
        self.interactive || self.tty
    }
}

/// The service request that opens a shell: unlike other commands in a machine, it
/// starts the machine where that does not run.
pub open spec fn shell_request(resolved: Option<Seq<char>>) -> ExecMachineView {
    ExecMachineView {
        name: label_of(resolved),
        command: seq!["/bin/sh"@],
        env: Seq::empty(),
        secret_refs: Seq::empty(),
        secret_scope: ResolutionScope::TrustedLocal,
        workdir: None,
        timeout: None,
        stdin: None,
        background: false,
        tty: true,
        start_if_needed: true,
        include_record_env: true,
        trace_id: None,
    }
}

impl ShellCmd {
    /// Makes the service request that opens a shell in the machine that its name
    /// resolves to.
    pub fn request(&self, resolved: &Option<String>) -> (request: ExecMachine)
        ensures
            request.model() == shell_request(resolved.model()),
    {
        let mut request: ExecMachine = ExecMachine::new(
            vm_label(resolved),
            one_of(own("/bin/sh")),
        );
        request.tty = true;
        request.start_if_needed = true;
        request
    }
}

/// Law: opening a shell is a command with a terminal that runs `/bin/sh`, but for
/// starting the machine, and a machine that does not run is started for it.
pub proof fn law_shell_starts_the_machine(
    cmd: ShellCmdView,
    resolved: Option<Seq<char>>,
    progress: ClientProgressView,
)
    ensures
        exec_request_of(shell_of(cmd), resolved, Seq::empty()) == Ok::<ExecMachineView, ErrorView>(
            ExecMachineView { start_if_needed: false, ..shell_request(resolved) },
        ),
        ({
            let request = shell_request(resolved);
            progress.record is Some && record_found(request.name, progress.record->0) is Ok
                && progress.state is Some && progress.state != Some(RecordState::Running)
                && progress.started is None ==> client_step(
                request.name,
                request.start_if_needed,
                progress,
            ) is Start
        }),
{
    assert(secret_flags(Seq::empty(), Seq::empty()) =~= Seq::empty());
}

/// Shows what a streamed command produces, and keeps its exit code.
#[derive(Debug, PartialEq, Eq)]
pub struct ExecEventPrinter {
    pub exit_code: i32,
}

/// Mathematical model of a [`ExecEventPrinter`].
pub struct ExecEventPrinterView {
    pub exit_code: i32,
}

impl Model for ExecEventPrinter {
    type V = ExecEventPrinterView;

    open spec fn model(&self) -> ExecEventPrinterView {
        ExecEventPrinterView {
            exit_code: self.exit_code.model(),
        }
    }

    fn dup(&self) -> (copy: Self) {
        ExecEventPrinter {
            exit_code: self.exit_code.dup(),
        }
    }
}

/// What is shown of an event.
#[derive(Debug, PartialEq, Eq)]
pub enum Shown {
    /// Bytes for the standard output.
    Stdout(Vec<u8>),
    /// Bytes for the standard error.
    Stderr(Vec<u8>),
    /// A line for the standard error.
    Line(String),
    /// Nothing.
    Nothing,
}

/// Mathematical model of a [`Shown`].
pub enum ShownView {
    Stdout(Seq<u8>),
    Stderr(Seq<u8>),
    Line(Seq<char>),
    Nothing,
}

impl Model for Shown {
    type V = ShownView;

    open spec fn model(&self) -> ShownView {
        match self {
            Shown::Stdout(value) => ShownView::Stdout(value.model()),
            Shown::Stderr(value) => ShownView::Stderr(value.model()),
            Shown::Line(value) => ShownView::Line(value.model()),
            Shown::Nothing => ShownView::Nothing,
        }
    }

    fn dup(&self) -> (copy: Self) {
        match self {
            Shown::Stdout(value) => Shown::Stdout(value.dup()),
            Shown::Stderr(value) => Shown::Stderr(value.dup()),
            Shown::Line(value) => Shown::Line(value.dup()),
            Shown::Nothing => Shown::Nothing,
        }
    }
}

/// What is shown of an event of a streamed command.
pub open spec fn event_shown(event: ExecEventView) -> ShownView {
    match event {
        ExecEventView::Stdout(data) => ShownView::Stdout(data),
        ExecEventView::Stderr(data) => ShownView::Stderr(data),
        ExecEventView::Exit(_) => ShownView::Nothing,
        ExecEventView::Error(message) => ShownView::Line("error: "@ + message),
    }
}

/// The exit code after an event of a streamed command.
pub open spec fn code_after(code: i32, event: ExecEventView) -> i32 {
    match event {
        ExecEventView::Exit(code) => code,
        ExecEventView::Error(_) => 1i32,
        _ => code,
    }
}

impl ExecEventPrinter {
    /// Nothing was shown yet.
    pub fn new() -> (printer: ExecEventPrinter)
        ensures
            printer.exit_code == 0,
    {
        ExecEventPrinter { exit_code: 0 }
    }

    /// Takes an event, and tells what is shown of it.
    pub fn handle(&mut self, event: ExecEvent) -> (shown: Shown)
        ensures
            final(self).exit_code == code_after(old(self).exit_code, event.model()),
            shown.model() == event_shown(event.model()),
    {
        match event {
            ExecEvent::Stdout(data) => Shown::Stdout(data),
            ExecEvent::Stderr(data) => Shown::Stderr(data),
            ExecEvent::Exit(code) => {
                self.exit_code = code;
                Shown::Nothing
            },
            ExecEvent::Error(message) => {
                self.exit_code = 1;
                Shown::Line(cat2("error: ", message.as_str()))
            },
        }
    }
}

/// What is known while a machine is started.
#[derive(Debug, PartialEq, Eq)]
pub struct StartCmdProgress {
    pub started: Option<Result<(), Error>>,
    pub created: Option<Result<(), Error>>,
    pub restarted: Option<Result<(), Error>>,
}

/// Mathematical model of a [`StartCmdProgress`].
pub struct StartCmdProgressView {
    pub started: Option<Result<(), ErrorView>>,
    pub created: Option<Result<(), ErrorView>>,
    pub restarted: Option<Result<(), ErrorView>>,
}

impl Model for StartCmdProgress {
    type V = StartCmdProgressView;

    open spec fn model(&self) -> StartCmdProgressView {
        StartCmdProgressView {
            started: self.started.model(),
            created: self.created.model(),
            restarted: self.restarted.model(),
        }
    }

    fn dup(&self) -> (copy: Self) {
        StartCmdProgress {
            started: self.started.dup(),
            created: self.created.dup(),
            restarted: self.restarted.dup(),
        }
    }
}

/// What is done next to start a machine.
#[derive(Debug, PartialEq, Eq)]
pub enum StartCmdStep {
    /// Hand this to the machine service.
    Start(StartMachine),
    /// Create the default machine.
    Create(CreateMachine),
    /// Start the machine that was just created.
    StartCreated(StartMachine),
    /// The command has ended.
    Done(Result<(), Error>),
}

/// Mathematical model of a [`StartCmdStep`].
pub enum StartCmdStepView {
    Start(StartMachineView),
    Create(CreateMachineView),
    StartCreated(StartMachineView),
    Done(Result<(), ErrorView>),
}

impl Model for StartCmdStep {
    type V = StartCmdStepView;

    open spec fn model(&self) -> StartCmdStepView {
        match self {
            StartCmdStep::Start(value) => StartCmdStepView::Start(value.model()),
            StartCmdStep::Create(value) => StartCmdStepView::Create(value.model()),
            StartCmdStep::StartCreated(value) => StartCmdStepView::StartCreated(value.model()),
            StartCmdStep::Done(value) => StartCmdStepView::Done(value.model()),
        }
    }

    fn dup(&self) -> (copy: Self) {
        match self {
            StartCmdStep::Start(value) => StartCmdStep::Start(value.dup()),
            StartCmdStep::Create(value) => StartCmdStep::Create(value.dup()),
            StartCmdStep::StartCreated(value) => StartCmdStep::StartCreated(value.dup()),
            StartCmdStep::Done(value) => StartCmdStep::Done(value.dup()),
        }
    }
}

/// The default machine as it is created when it is missing.
pub open spec fn default_machine(defaults: ResourceDefaultsView) -> CreateMachineView {
    CreateMachineView {
        name: "default"@,
        image: None,
        entrypoint: Seq::empty(),
        cmd: Seq::empty(),
        cpus: defaults.cpus,
        memory_mib: defaults.memory_mib,
        mounts: Seq::empty(),
        ports: Seq::empty(),
        net: false,
        network_backend: None,
        init: Seq::empty(),
        env: Seq::empty(),
        workdir: None,
        user: None,
        storage_gb: Some(defaults.storage_gib),
        overlay_gb: Some(defaults.overlay_gib),
        allowed_cidrs: None,
        restart_policy: None,
        restart_max_retries: None,
        restart_max_backoff_secs: None,
        health_cmd: None,
        health_interval_secs: None,
        health_timeout_secs: None,
        health_retries: None,
        health_startup_grace_secs: None,
        ssh_agent: false,
        gpu: false,
        gpu_vram_mib: None,
        dns_filter_hosts: None,
        source_smolmachine: None,
        secret_refs: Seq::empty(),
    }
}

/// The service request that starts a machine.
pub open spec fn start_request_of(cmd: StartCmdView, forkable: bool) -> StartMachineView {
    StartMachineView {
        name: label_of(cmd.name),
        forkable,
        proxy: cmd.proxy_opts.proxy,
        no_proxy: cmd.proxy_opts.no_proxy,
        snapshot_dir: None,
    }
}

/// What is done next to start a machine: the default one is created where no
/// machine was named and it is missing.
pub open spec fn start_cmd_step(
    cmd: StartCmdView,
    progress: StartCmdProgressView,
    defaults: ResourceDefaultsView,
) -> StartCmdStepView {
    match progress.started {
        None => StartCmdStepView::Start(start_request_of(cmd, cmd.forkable)),
        Some(Ok(_)) => StartCmdStepView::Done(Ok(())),
        Some(Err(error)) => if error is VmNotFound && cmd.name is None {
            match progress.created {
                None => StartCmdStepView::Create(default_machine(defaults)),
                Some(Err(error)) => StartCmdStepView::Done(Err(error)),
                Some(Ok(_)) => match progress.restarted {
                    None => StartCmdStepView::StartCreated(start_request_of(cmd, false)),
                    Some(result) => StartCmdStepView::Done(result),
                },
            }
        } else {
            StartCmdStepView::Done(Err(error))
        },
    }
}

fn make_start_request(cmd: &StartCmd, forkable: bool) -> (request: StartMachine)
    ensures
        request.model() == start_request_of(cmd.model(), forkable),
{
    let mut request: StartMachine = StartMachine::new(vm_label(&cmd.name));
    request.forkable = forkable;
    request.proxy = cmd.proxy_opts.proxy.dup();
    request.no_proxy = cmd.proxy_opts.no_proxy.dup();
    request
}

impl StartCmd {
    /// Decides what is done next to start a machine.
    pub fn next_step(&self, progress: &StartCmdProgress, defaults: &ResourceDefaults) -> (step:
        StartCmdStep)
        ensures
            step.model() == start_cmd_step(self.model(), progress.model(), defaults.model()),
    {
        let error: &Error = match &progress.started {
            None => {
                return StartCmdStep::Start(make_start_request(self, self.forkable));
            },
            Some(Ok(_)) => {
                return StartCmdStep::Done(Ok(()));
            },
            Some(Err(error)) => error,
        };
        let missing: bool = match error {
            Error::VmNotFound { .. } => true,
            _ => false,
        };
        if !missing || self.name.is_some() {
            return StartCmdStep::Done(Err(error.dup()));
        }
        match &progress.created {
            None => StartCmdStep::Create(CreateMachine::new(own("default"), defaults)),
            Some(Err(error)) => StartCmdStep::Done(Err(error.dup())),
            Some(Ok(_)) => match &progress.restarted {
                None => StartCmdStep::StartCreated(make_start_request(self, false)),
                Some(result) => StartCmdStep::Done(result.dup()),
            },
        }
    }
}

/// Law: starting a machine creates one only where no machine was named and the
/// default one is missing, and then it is the default one.
pub proof fn law_start_creates_only_default(
    cmd: StartCmdView,
    progress: StartCmdProgressView,
    defaults: ResourceDefaultsView,
)
    requires
        start_cmd_step(cmd, progress, defaults) is Create,
    ensures
        cmd.name is None,
        progress.started is Some && progress.started->0 is Err && progress.started->0->Err_0
            is VmNotFound,
        start_cmd_step(cmd, progress, defaults)->Create_0.name == "default"@,
{
}

impl ForkCmd {
    /// Makes the service request of a clone: a clone cannot be cloned again, so
    /// asking for that is refused.
    pub fn request(&self) -> (request: Result<ForkMachine, Error>)
        ensures
            request.model() == (if self.forkable {
                Err::<ForkMachineView, ErrorView>(
                    ErrorView::Agent {
                        operation: "fork"@,
                        reason:
                            "nested fork is not supported: a clone cannot be re-forked, so `--forkable` has no effect (drop it)"@,
                    },
                )
            } else {
                Ok(
                    ForkMachineView {
                        golden: self.golden@,
                        clone: self.clone@,
                        ports: self.port.model(),
                    },
                )
            }),
    {
        if self.forkable {
            return Err(
                Error::agent(
                    "fork",
                    own(
                        "nested fork is not supported: a clone cannot be re-forked, so `--forkable` has no effect (drop it)",
                    ),
                ),
            );
        }
        let mut request: ForkMachine = ForkMachine::new(self.golden.dup(), self.clone.dup());
        request.ports = self.port.dup();
        Ok(request)
    }

    /// Tells what is shown once the clone of this name exists.
    pub fn message(&self, clone: &str) -> (line: String)
        ensures
            line@ == "Forked '"@ + self.golden@ + "' -> '"@ + clone@
                + "'. Golden stays frozen as the fork base (do not start it again while clones exist)."@,
    {
        cat5(
            "Forked '",
            self.golden.as_str(),
            "' -> '",
            clone,
            "'. Golden stays frozen as the fork base (do not start it again while clones exist).",
        )
    }
}

/// Whether an answer agrees.
pub open spec fn agrees(answer: Seq<char>) -> bool {
    let word = trimmed(answer);
    word == "y"@ || word == "Y"@ || word == "yes"@ || word == "YES"@
}

/// What is done next to delete a machine.
#[derive(Debug, PartialEq, Eq)]
pub enum DeleteCmdStep {
    /// Ask the user this question.
    Ask(String),
    /// Hand this to the machine service.
    Delete(DeleteMachine),
    /// Nothing is deleted; show this line.
    Abort(String),
}

/// Mathematical model of a [`DeleteCmdStep`].
pub enum DeleteCmdStepView {
    Ask(Seq<char>),
    Delete(DeleteMachineView),
    Abort(Seq<char>),
}

impl Model for DeleteCmdStep {
    type V = DeleteCmdStepView;

    open spec fn model(&self) -> DeleteCmdStepView {
        match self {
            DeleteCmdStep::Ask(value) => DeleteCmdStepView::Ask(value.model()),
            DeleteCmdStep::Delete(value) => DeleteCmdStepView::Delete(value.model()),
            DeleteCmdStep::Abort(value) => DeleteCmdStepView::Abort(value.model()),
        }
    }

    fn dup(&self) -> (copy: Self) {
        match self {
            DeleteCmdStep::Ask(value) => DeleteCmdStep::Ask(value.dup()),
            DeleteCmdStep::Delete(value) => DeleteCmdStep::Delete(value.dup()),
            DeleteCmdStep::Abort(value) => DeleteCmdStep::Abort(value.dup()),
        }
    }
}

/// What is done next to delete a machine: the user is asked, unless deletion is
/// forced. The data of the machine is kept.
pub open spec fn delete_cmd_step(cmd: DeleteCmdView, answer: Option<Seq<char>>) -> DeleteCmdStepView {
    if !cmd.force && answer is None {
        DeleteCmdStepView::Ask("Delete machine '"@ + cmd.name + "'? [y/N] "@)
    } else if !cmd.force && !agrees(answer->0) {
        DeleteCmdStepView::Abort("Aborted."@)
    } else {
        DeleteCmdStepView::Delete(
            DeleteMachineView {
                name: cmd.name,
                break_dependent_clones: cmd.force,
                keep_data: true,
            },
        )
    }
}

impl DeleteCmd {
    /// Decides what is done next to delete a machine.
    pub fn next_step(&self, answer: &Option<String>) -> (step: DeleteCmdStep)
        ensures
            step.model() == delete_cmd_step(self.model(), answer.model()),
    {
        if !self.force {
            match answer {
                None => {
                    return DeleteCmdStep::Ask(
                        cat3("Delete machine '", self.name.as_str(), "'? [y/N] "),
                    );
                },
                Some(answer) => {
                    let word: String = trim(answer.as_str());
                    if !same_text(word.as_str(), "y") && !same_text(word.as_str(), "Y")
                        && !same_text(word.as_str(), "yes") && !same_text(word.as_str(), "YES") {
                        return DeleteCmdStep::Abort(own("Aborted."));
                    }
                },
            }
        }
        let mut request: DeleteMachine = DeleteMachine::new(self.name.dup());
        request.break_dependent_clones = self.force;
        request.keep_data = true;
        DeleteCmdStep::Delete(request)
    }

    /// Tells what is shown once the machine is deleted.
    pub fn message(&self) -> (line: String)
        ensures
            line@ == "Deleted machine: "@ + self.name@,
    {
        cat2("Deleted machine: ", self.name.as_str())
    }
}

/// Law: from the command line a machine is deleted only where that is forced or
/// the user agreed, and its data is kept.
pub proof fn law_delete_is_confirmed(cmd: DeleteCmdView, answer: Option<Seq<char>>)
    ensures
        delete_cmd_step(cmd, answer) is Delete ==> cmd.force || (answer is Some && agrees(
            answer->0,
        )),
        delete_cmd_step(cmd, answer) matches DeleteCmdStepView::Delete(request)
            ==> request.keep_data,
{
}

/// The service request of a change of settings. `add`, `remove` and `env` are
/// what reading its mounts and variables gave.
pub open spec fn update_request_of(
    cmd: UpdateCmdView,
    add: Result<Seq<HostMountView>, ErrorView>,
    remove: Result<Seq<HostMountView>, ErrorView>,
    env: Seq<(Seq<char>, Seq<char>)>,
) -> Result<UpdateMachineView, ErrorView> {
    if add is Err {
        Err(add->Err_0)
    } else if remove is Err {
        Err(remove->Err_0)
    } else {
        Ok(
            UpdateMachineView {
                name: cmd.name,
                add_mounts: add->Ok_0,
                remove_mounts: remove->Ok_0,
                add_ports: cmd.port,
                remove_ports: cmd.remove_port,
                cpus: cmd.cpus,
                memory_mib: cmd.mem,
                enable_network: cmd.net,
                disable_network: cmd.no_net,
                network_backend: None,
                allowed_cidrs: None,
                clear_allowed_cidrs: false,
                dns_filter_hosts: None,
                clear_dns_filter_hosts: false,
                set_env: env,
                remove_env: cmd.remove_env,
                workdir: cmd.workdir,
                clear_workdir: false,
                enable_gpu: cmd.gpu,
                disable_gpu: cmd.no_gpu,
                gpu_vram_mib: None,
                storage_gb: cmd.storage,
                overlay_gb: cmd.overlay,
                restart_policy: None,
                restart_max_retries: None,
                restart_max_backoff_secs: None,
                health_cmd: None,
                clear_health_cmd: false,
                health_interval_secs: None,
                health_timeout_secs: None,
                health_retries: None,
                health_startup_grace_secs: None,
                enable_ssh_agent: false,
                disable_ssh_agent: false,
            },
        )
    }
}

/// The lines of the changes of a machine.
pub open spec fn change_lines(changes: Seq<Seq<char>>) -> Seq<Seq<char>> {
    Seq::new(changes.len(), |i: int| "  "@ + changes[i])
}

/// What is shown of an update.
pub open spec fn updated_lines(name: Seq<char>, changes: Seq<Seq<char>>) -> Seq<Seq<char>> {
    if changes.len() == 0 {
        seq!["No changes specified."@]
    } else {
        seq!["Updated machine '"@ + name + "':"@] + change_lines(changes) + seq![
            "\nStart with: smolvm machine start --name "@ + name,
        ]
    }
}

impl UpdateCmd {
    /// Makes the service request of a change of settings.
    pub fn request(
        &self,
        add: Result<Vec<HostMount>, Error>,
        remove: Result<Vec<HostMount>, Error>,
        env: Vec<(String, String)>,
    ) -> (request: Result<UpdateMachine, Error>)
        ensures
            request.model() == update_request_of(
                self.model(),
                add.model(),
                remove.model(),
                env.model(),
            ),
    {
        let mut request: UpdateMachine = UpdateMachine::new(self.name.dup());
        match add {
            Err(error) => {
                return Err(error);
            },
            Ok(mounts) => {
                request.add_mounts = mounts;
            },
        }
        match remove {
            Err(error) => {
                return Err(error);
            },
            Ok(mounts) => {
                request.remove_mounts = mounts;
            },
        }
        request.add_ports = self.port.dup();
        request.remove_ports = self.remove_port.dup();
        request.cpus = self.cpus;
        request.memory_mib = self.mem;
        request.enable_network = self.net;
        request.disable_network = self.no_net;
        request.set_env = env;
        request.remove_env = self.remove_env.dup();
        request.workdir = self.workdir.dup();
        request.enable_gpu = self.gpu;
        request.disable_gpu = self.no_gpu;
        request.storage_gb = self.storage;
        request.overlay_gb = self.overlay;
        Ok(request)
    }

    /// Tells what is shown of an update.
    pub fn lines(&self, changes: &Vec<String>) -> (lines: Vec<String>)
        ensures
            lines.model() == updated_lines(self.name@, changes.model()),
    {
        if changes.is_empty() {
            return one_of(own("No changes specified."));
        }
        let ghost all = change_lines(changes.model());
        let ghost head = seq!["Updated machine '"@ + self.name@ + "':"@];
        let mut lines: Vec<String> = one_of(cat3("Updated machine '", self.name.as_str(), "':"));
        let mut i: usize = 0;
        assert(lines.model() =~= head + all.take(0));
        while i < changes.len()
            invariant
                i <= changes.len(),
                all == change_lines(changes.model()),
                lines.model() == head + all.take(i as int),
            decreases changes.len() - i,
        {
            push_to(&mut lines, cat2("  ", changes[i].as_str()));
            assert(lines.model() =~= head + all.take(i + 1));
            i += 1;
        }
        assert(all.take(all.len() as int) =~= all);
        push_to(
            &mut lines,
            cat2("\nStart with: smolvm machine start --name ", self.name.as_str()),
        );
        assert(lines.model() =~= updated_lines(self.name@, changes.model()));
        lines
    }
}

impl NetworkTestCmd {
    /// Makes the service request of a test of the network of the machine that
    /// the command's name resolves to.
    pub fn request(&self, resolved: &Option<String>) -> (request: NetworkTestMachine)
        ensures
            request.model() == (NetworkTestMachineView {
                name: label_of(resolved.model()),
                url: self.url@,
                start_if_needed: true,
                trace_id: None,
            }),
    {
        let mut request: NetworkTestMachine = NetworkTestMachine::new(
            vm_label(resolved),
            self.url.dup(),
        );
        request.start_if_needed = true;
        request
    }

    /// Tells what is shown before the test.
    pub fn announcement(&self) -> (line: String)
        ensures
            line@ == "Testing network from machine: "@ + self.url@,
    {
        cat2("Testing network from machine: ", self.url.as_str())
    }
}

/// Tells what is shown once the result of a network test was written.
pub fn network_notation_line(notation: &Result<String, String>) -> (line: String)
    ensures
        line@ == "Result: "@ + (match notation.model() {
            Ok(notation) => notation,
            Err(_) => Seq::<char>::empty(),
        }),
{
    match notation {
        Ok(notation) => cat2("Result: ", notation.as_str()),
        Err(_) => {
            assert("Result: "@ + Seq::<char>::empty() =~= "Result: "@);
            own("Result: ")
        },
    }
}

/// Tells what is shown of the result of a network test.
pub fn network_result_line(result: &serde_json::Value) -> (line: String)
    ensures
        line@ == "Result: "@ + indented(json_of(*result)),
{
    let notation: Result<String, String> = write_indented(result);
    network_notation_line(&notation)
}

/// Tells whether a machine is started to look into its image storage.
pub fn starts_for_query(state: RecordState) -> (starts: bool)
    ensures
        starts == (state != RecordState::Running),
{
    state != RecordState::Running
}

/// Makes the service requests that look into the image storage of a machine.
pub fn image_requests(name: &str) -> (requests: (StorageStatusRequest, ListMachineImages))
    ensures
        requests.0.model() == (StorageStatusRequestView {
            name: name@,
            start_if_needed: true,
            trace_id: None,
        }),
        requests.1.model() == (ListMachineImagesView {
            name: name@,
            start_if_needed: true,
            stop_after_start: false,
            empty_when_stopped: false,
            trace_id: None,
        }),
{
    let mut storage: StorageStatusRequest = StorageStatusRequest::new(own(name));
    storage.start_if_needed = true;
    let mut images: ListMachineImages = ListMachineImages::new(own(name));
    images.start_if_needed = true;
    (storage, images)
}

/// The image storage of a machine in JSON. `images` are its images in JSON.
pub open spec fn storage_json(status: StorageStatusView, images: Seq<JsonView>) -> JsonView {
    JsonView::Object(
        Map::empty().insert(
            "storage"@,
            JsonView::Object(
                Map::empty().insert(
                    "total_bytes"@,
                    JsonView::Integer(status.total_bytes as int),
                ).insert("used_bytes"@, JsonView::Integer(status.used_bytes as int)).insert(
                    "layer_count"@,
                    JsonView::Integer(status.layer_count as int),
                ).insert("image_count"@, JsonView::Integer(status.image_count as int)),
            ),
        ).insert("images"@, JsonView::List(images)),
    )
}

/// Shows the image storage of a machine in JSON.
pub fn images_json(status: &StorageStatus, images: Vec<serde_json::Value>) -> (shown: Result<
    String,
    Error,
>)
    ensures
        shown.model() == Ok::<Seq<char>, ErrorView>(
            indented(storage_json(status.model(), json_list(images@))),
        ),
{
    let mut storage = object();
    put(&mut storage, "total_bytes", natural(status.total_bytes));
    put(&mut storage, "used_bytes", natural(status.used_bytes));
    put(&mut storage, "layer_count", natural(status.layer_count as u64));
    put(&mut storage, "image_count", natural(status.image_count as u64));
    let mut value = object();
    put(&mut value, "storage", storage);
    put(&mut value, "images", list(images));
    show_notation(write_indented(&value))
}

/// Whether a text can be cut after this many bytes, and after how many
/// characters that is.
pub open spec fn cuts_at(text: Seq<char>, bytes: nat, chars: int) -> bool {
    0 <= chars <= text.len() && byte_count(text.take(chars)) == bytes
}

/// The reference of an image as the table shows it: one of more than 38 bytes is
/// cut after 35.
pub open spec fn shown_reference(reference: Seq<char>, shown: Seq<char>) -> bool {
    if byte_count(reference) > 38 {
        exists|n: int| cuts_at(reference, 35, n) && shown == #[trigger] reference.take(n) + "..."@
    } else {
        shown == reference
    }
}

proof fn lemma_bytes_grow(text: Seq<char>, a: int, b: int)
    requires
        0 <= a < b <= text.len(),
    ensures
        byte_count(text.take(a)) < byte_count(text.take(b)),
    decreases b - a,
{
    lemma_byte_count_last(text.take(b));
    assert(text.take(b).drop_last() =~= text.take(b - 1));
    if a < b - 1 {
        lemma_bytes_grow(text, a, b - 1);
    }
}

/// Cuts the reference of an image for the table. A longer reference must have a
/// character that ends with its byte 35.
pub fn shorten_reference(reference: &str) -> (shown: String)
    requires
        byte_count(reference@) > 38 ==> exists|n: int| cuts_at(reference@, 35, n),
    ensures
        shown_reference(reference@, shown@),
{
    let chars: Vec<char> = chars_of(reference);
    let mut bytes: usize = 0;
    let mut place: usize = 0;
    let mut i: usize = 0;
    assert(reference@.take(0) =~= Seq::empty());
    while i < chars.len() && bytes <= 38
        invariant
            i <= chars.len(),
            chars@ == reference@,
            bytes <= 42,
            bytes == byte_count(reference@.take(i as int)),
            place <= i,
            bytes >= 35 ==> (exists|n: int| cuts_at(reference@, 35, n) && n <= i) ==> cuts_at(
                reference@,
                35,
                place as int,
            ),
        decreases chars.len() - i,
    {
        let c: char = chars[i];
        let width: usize = if (c as u32) < 0x80 {
            1
        } else if (c as u32) < 0x800 {
            2
        } else if (c as u32) < 0x10000 {
            3
        } else {
            4
        };
        proof {
            let next = reference@.take(i + 1);
            assert(next.drop_last() =~= reference@.take(i as int));
            assert(next.last() == c);
            lemma_byte_count_last(next);
            vstd::utf8::char_is_scalar(c);
        }
        let ghost before = bytes as int;
        bytes = bytes + width;
        i += 1;
        if bytes == 35 {
            place = i;
            assert(cuts_at(reference@, 35, place as int));
        }
        proof {
            if bytes >= 35 && (exists|n: int| cuts_at(reference@, 35, n) && n <= i) {
                let n = choose|n: int| cuts_at(reference@, 35, n) && n <= i;
                if bytes > 35 {
                    assert(n != i);
                    if before < 35 {
                        if n < i - 1 {
                            lemma_bytes_grow(reference@, n, i - 1);
                        }
                        assert(false);
                    }
                }
            }
        }
    }
    assert(reference@.take(reference@.len() as int) =~= reference@);
    if bytes > 38 {
        proof {
            if i < reference@.len() {
                lemma_bytes_grow(reference@, i as int, reference@.len() as int);
            }
            let n = choose|n: int| cuts_at(reference@, 35, n);
            if n > i {
                lemma_bytes_grow(reference@, i as int, n);
            }
            assert(cuts_at(reference@, 35, n) && n <= i);
        }
        let cut: String = text_of(&chars, 0, place);
        assert(cut@ =~= reference@.take(place as int));
        cat2(cut.as_str(), "...")
    } else {
        own(reference)
    }
}

/// An image as the table shows it.
#[derive(Debug, PartialEq, Eq)]
pub struct ImageRow {
    /// The reference, cut to the width of its column.
    pub reference: String,
    /// The size, as text.
    pub size: String,
    pub layer_count: usize,
}

/// Mathematical model of a [`ImageRow`].
pub struct ImageRowView {
    pub reference: Seq<char>,
    pub size: Seq<char>,
    pub layer_count: usize,
}

impl Model for ImageRow {
    type V = ImageRowView;

    open spec fn model(&self) -> ImageRowView {
        ImageRowView {
            reference: self.reference.model(),
            size: self.size.model(),
            layer_count: self.layer_count.model(),
        }
    }

    fn dup(&self) -> (copy: Self) {
        ImageRow {
            reference: self.reference.dup(),
            size: self.size.dup(),
            layer_count: self.layer_count.dup(),
        }
    }
}

/// A line of the table of images.
pub open spec fn image_line(reference: Seq<char>, size: Seq<char>, layers: Seq<char>) -> Seq<char> {
    left_aligned(reference, 40) + " "@ + right_aligned(size, 10) + " "@ + right_aligned(layers, 8)
}

/// The lines of the images.
pub open spec fn image_lines(images: Seq<ImageRowView>) -> Seq<Seq<char>> {
    Seq::new(
        images.len(),
        |i: int|
            image_line(images[i].reference, images[i].size, decimal(images[i].layer_count as nat)),
    )
}

/// What is shown of the image storage of a machine. `total` and `used` are its
/// sizes as text.
pub open spec fn storage_lines(
    total: Seq<char>,
    used: Seq<char>,
    layers: usize,
    images: Seq<ImageRowView>,
) -> Seq<Seq<char>> {
    seq![
        "Storage Usage:"@,
        "  Total:  "@ + total,
        "  Used:   "@ + used,
        "  Layers: "@ + decimal(layers as nat),
        ""@,
    ] + if images.len() == 0 {
        seq!["No cached images."@]
    } else {
        seq![
            "Cached Images:"@,
            image_line("IMAGE"@, "SIZE"@, "LAYERS"@),
            repeated('-', 60),
        ] + image_lines(images) + seq![
            ""@,
            "Total: "@ + decimal(images.len()) + " images"@,
        ]
    }
}

fn make_image_line(reference: &str, size: &str, layers: &str) -> (line: String)
    ensures
        line@ == image_line(reference@, size@, layers@),
{
    cat5(
        align_left(reference, 40).as_str(),
        " ",
        align_right(size, 10).as_str(),
        " ",
        align_right(layers, 8).as_str(),
    )
}

fn make_image_lines(images: &Vec<ImageRow>) -> (lines: Vec<String>)
    ensures
        lines.model() == image_lines(images.model()),
{
    let ghost all = image_lines(images.model());
    let mut lines: Vec<String> = empty_list();
    let mut i: usize = 0;
    while i < images.len()
        invariant
            i <= images.len(),
            all == image_lines(images.model()),
            lines.model() == all.take(i as int),
        decreases images.len() - i,
    {
        push_to(
            &mut lines,
            make_image_line(
                images[i].reference.as_str(),
                images[i].size.as_str(),
                number(images[i].layer_count as u64).as_str(),
            ),
        );
        assert(all.take(i + 1) =~= all.take(i as int).push(all[i as int]));
        i += 1;
    }
    assert(all.take(all.len() as int) =~= all);
    lines
}

/// Shows the image storage of a machine.
pub fn show_storage(total: &str, used: &str, layers: usize, images: &Vec<ImageRow>) -> (lines: Vec<
    String,
>)
    ensures
        lines.model() == storage_lines(total@, used@, layers, images.model()),
{
    proof {
        reveal_strlit("");
        assert(""@ =~= Seq::<char>::empty());
    }
    let mut lines: Vec<String> = empty_list();
    push_to(&mut lines, own("Storage Usage:"));
    push_to(&mut lines, cat2("  Total:  ", total));
    push_to(&mut lines, cat2("  Used:   ", used));
    push_to(&mut lines, cat2("  Layers: ", number(layers as u64).as_str()));
    push_to(&mut lines, String::new());
    if images.is_empty() {
        push_to(&mut lines, own("No cached images."));
    } else {
        push_to(&mut lines, own("Cached Images:"));
        push_to(&mut lines, make_image_line("IMAGE", "SIZE", "LAYERS"));
        push_to(&mut lines, repeat_char('-', 60));
        extend_from(&mut lines, &make_image_lines(images));
        push_to(&mut lines, String::new());
        push_to(&mut lines, cat3("Total: ", number(images.len() as u64).as_str(), " images"));
    }
    assert(lines.model() =~= storage_lines(total@, used@, layers, images.model()));
    lines
}

/// What is shown of a prune. `freed` is the freed size as text.
pub open spec fn pruned_line(
    cmd: PruneCmdView,
    result: PruneImagesResultView,
    freed: Seq<char>,
) -> Seq<char> {
    if cmd.all {
        if result.removed_images == 0 && result.freed_bytes == 0 {
            "No cached images to remove."@
        } else if cmd.dry_run {
            "Would remove "@ + decimal(result.removed_images as nat) + " images ("@ + freed + ")"@
        } else {
            "Removed "@ + decimal(result.removed_images as nat) + " images, freed "@ + freed
        }
    } else if result.freed_bytes == 0 {
        "No unreferenced layers to remove."@
    } else if cmd.dry_run {
        "Would free "@ + freed + " of unreferenced layers"@
    } else {
        "Freed "@ + freed
    }
}

impl PruneCmd {
    /// Makes the service request of a prune.
    pub fn request(&self) -> (request: PruneMachineImages)
        ensures
            request.model() == (PruneMachineImagesView {
                name: self.name@,
                dry_run: self.dry_run,
                all: self.all,
                stop_after_start: true,
                trace_id: None,
            }),
    {
        let mut request: PruneMachineImages = PruneMachineImages::new(self.name.dup());
        request.dry_run = self.dry_run;
        request.all = self.all;
        request.stop_after_start = true;
        request
    }

    /// Tells what is shown of a prune.
    pub fn message(&self, result: &PruneImagesResult, freed: &str) -> (line: String)
        ensures
            line@ == pruned_line(self.model(), result.model(), freed@),
    {
        if self.all {
            if result.removed_images == 0 && result.freed_bytes == 0 {
                own("No cached images to remove.")
            } else if self.dry_run {
                cat5(
                    "Would remove ",
                    number(result.removed_images as u64).as_str(),
                    " images (",
                    freed,
                    ")",
                )
            } else {
                cat4(
                    "Removed ",
                    number(result.removed_images as u64).as_str(),
                    " images, freed ",
                    freed,
                )
            }
        } else if result.freed_bytes == 0 {
            own("No unreferenced layers to remove.")
        } else if self.dry_run {
            cat3("Would free ", freed, " of unreferenced layers")
        } else {
            cat2("Freed ", freed)
        }
    }
}

/// A copy between the host and a machine.
#[derive(Debug, PartialEq, Eq)]
pub enum CopyPlan {
    /// From the host to the machine.
    Upload(UploadMachineFile),
    /// From the machine to the host.
    Download(DownloadMachineFile),
}

/// Mathematical model of a [`CopyPlan`].
pub enum CopyPlanView {
    Upload(UploadMachineFileView),
    Download(DownloadMachineFileView),
}

impl Model for CopyPlan {
    type V = CopyPlanView;

    open spec fn model(&self) -> CopyPlanView {
        match self {
            CopyPlan::Upload(value) => CopyPlanView::Upload(value.model()),
            CopyPlan::Download(value) => CopyPlanView::Download(value.model()),
        }
    }

    fn dup(&self) -> (copy: Self) {
        match self {
            CopyPlan::Upload(value) => CopyPlan::Upload(value.dup()),
            CopyPlan::Download(value) => CopyPlan::Download(value.dup()),
        }
    }
}

/// The copy that is asked for: the side with a colon names a machine, and where
/// both have one, it is the source.
pub open spec fn copy_of(cmd: CpCmdView) -> Result<CopyPlanView, ErrorView> {
    match cut(cmd.src, ':') {
        Some(source) => Ok(
            CopyPlanView::Download(
                DownloadMachineFileView {
                    name: source.0,
                    guest_path: source.1,
                    local_path: cmd.dst,
                    start_if_needed: false,
                    trace_id: None,
                },
            ),
        ),
        None => match cut(cmd.dst, ':') {
            Some(target) => Ok(
                CopyPlanView::Upload(
                    UploadMachineFileView {
                        name: target.0,
                        local_path: cmd.src,
                        guest_path: target.1,
                        mode: None,
                        start_if_needed: false,
                        trace_id: None,
                    },
                ),
            ),
            None => Err(
                ErrorView::Config {
                    operation: "cp"@,
                    reason:
                        "one of SRC or DST must use machine:path syntax (e.g., myvm:/workspace/file)"@,
                },
            ),
        },
    }
}

impl CpCmd {
    /// Plans the copy that is asked for.
    pub fn plan(&self) -> (plan: Result<CopyPlan, Error>)
        ensures
            plan.model() == copy_of(self.model()),
    {
        if let Some(source) = split_once(self.src.as_str(), ':') {
            return Ok(
                CopyPlan::Download(DownloadMachineFile::new(source.0, source.1, self.dst.dup())),
            );
        }
        match split_once(self.dst.as_str(), ':') {
            Some(target) => Ok(
                CopyPlan::Upload(UploadMachineFile::new(target.0, self.src.dup(), target.1)),
            ),
            None => Err(
                Error::config(
                    "cp",
                    own(
                        "one of SRC or DST must use machine:path syntax (e.g., myvm:/workspace/file)",
                    ),
                ),
            ),
        }
    }
}

/// Tells what is shown once a file was copied.
pub fn copied_message(plan: &CopyPlan, bytes: u64) -> (line: String)
    ensures
        line@ == (match plan.model() {
            CopyPlanView::Upload(_) => "Uploaded "@,
            CopyPlanView::Download(_) => "Downloaded "@,
        }) + decimal(bytes as nat) + " bytes"@,
{
    let done: &str = match plan {
        CopyPlan::Upload(_) => "Uploaded ",
        CopyPlan::Download(_) => "Downloaded ",
    };
    cat3(done, number(bytes).as_str(), " bytes")
}

/// The service request of a watch. `policy` is what reading the restart policy
/// gave.
pub open spec fn monitor_request_of(
    cmd: MonitorCmdView,
    policy: Result<RestartPolicy, Seq<char>>,
) -> Result<MonitorMachineView, ErrorView> {
    if cmd.restart is Some && policy is Err {
        Err(ErrorView::Config { operation: "--restart"@, reason: policy->Err_0 })
    } else {
        Ok(
            MonitorMachineView {
                name: label_of(cmd.name),
                restart_policy: if cmd.restart is Some {
                    Some(policy->Ok_0)
                } else {
                    None
                },
                health_cmd: match cmd.health_cmd {
                    Some(line) => Some(crate::lifecycle::shell_words("sh"@, line)),
                    None => None,
                },
                health_timeout: TimeSpan { secs: cmd.health_timeout, nanos: 0 },
                interval: TimeSpan { secs: cmd.interval, nanos: 0 },
                health_retries: cmd.health_retries,
            },
        )
    }
}

impl MonitorCmd {
    /// Makes the service request of a watch.
    pub fn request(&self, policy: Result<RestartPolicy, String>) -> (request: Result<
        MonitorMachine,
        Error,
    >)
        ensures
            request.model() == monitor_request_of(self.model(), policy.model()),
    {
        let mut request: MonitorMachine = MonitorMachine::new(vm_label(&self.name));
        if self.restart.is_some() {
            match policy {
                Err(reason) => {
                    return Err(Error::config("--restart", reason));
                },
                Ok(policy) => {
                    request.restart_policy = Some(policy);
                },
            }
        }
        if let Some(line) = &self.health_cmd {
            request.health_cmd = Some(crate::lifecycle::shell_command("sh", line.as_str()));
        }
        request.health_timeout = TimeSpan::from_secs(self.health_timeout);
        request.interval = TimeSpan::from_secs(self.interval);
        request.health_retries = self.health_retries;
        Ok(request)
    }
}

/// How many failures of how many that are allowed.
pub open spec fn ratio(count: u32, limit: u32) -> Seq<char> {
    decimal(count as nat) + "/"@ + decimal(limit as nat)
}

fn make_ratio(count: u32, limit: u32) -> (shown: String)
    ensures
        shown@ == ratio(count, limit),
{
    cat3(number(count as u64).as_str(), "/", number(limit as u64).as_str())
}

/// What is shown of what a monitor reports.
pub open spec fn report_lines(event: MonitorEventView) -> Seq<Seq<char>> {
    match event {
        MonitorEventView::Starting { name } => seq![
            "Machine '"@ + name + "' is not running, starting..."@,
        ],
        MonitorEventView::Monitoring { name, policy, interval_secs, health } => seq![
            "Monitoring machine '"@ + name + "' (policy: "@ + policy.name() + ", interval: "@
                + decimal(interval_secs as nat) + "s)"@,
        ] + (match health {
            Some(health) => seq![
                "  Health check: retries="@ + decimal(health.retries as nat) + ", timeout="@
                    + decimal(health.timeout_secs as nat) + "s"@,
            ],
            None => Seq::empty(),
        }),
        MonitorEventView::SuspendDetected { sleep_secs } => seq![
            "  detected suspend (~"@ + decimal(sleep_secs as nat)
                + "s) — skipping health check for recovery"@,
        ],
        MonitorEventView::HealthRecovered => seq!["  health check passed (recovered)"@],
        MonitorEventView::HealthFailed { exit_code, consecutive, retries, stderr } => seq![
            "  health check failed (exit "@ + signed_decimal(exit_code as int) + ", "@ + ratio(
                consecutive,
                retries,
            ) + "): "@ + stderr,
        ],
        MonitorEventView::HealthError { consecutive, retries, error } => seq![
            "  health check error ("@ + ratio(consecutive, retries) + "): "@ + error,
        ],
        MonitorEventView::AgentUnreachable { consecutive, retries } => seq![
            "  cannot connect to agent ("@ + ratio(consecutive, retries) + ")"@,
        ],
        MonitorEventView::UnhealthyStopping => seq![
            "  unhealthy — stopping machine for restart"@,
        ],
        MonitorEventView::MachineExited { exit_code } => seq![
            "  machine exited (exit code: "@ + (match exit_code {
                Some(code) => signed_decimal(code as int),
                None => "unknown"@,
            }) + ")"@,
        ],
        MonitorEventView::Restarting { attempt, backoff_secs } => seq![
            "  restarting (attempt "@ + decimal(attempt as nat) + ", backoff "@ + decimal(
                backoff_secs as nat,
            ) + "s)..."@,
        ],
        MonitorEventView::Restarted => seq!["  machine restarted"@],
        MonitorEventView::RestartFailed { error } => seq!["  restart failed: "@ + error],
        MonitorEventView::NotRestarting { policy, count, max_retries } => seq![
            "  not restarting (policy: "@ + policy.name() + ", count: "@ + decimal(count as nat)
                + "/"@ + (if max_retries > 0 {
                decimal(max_retries as nat)
            } else {
                "unlimited"@
            }) + ")"@,
        ],
        MonitorEventView::Stopped { name } => seq![
            "\nStopped monitoring. Machine '"@ + name + "' may still be running."@,
        ],
    }
}

/// Shows what a monitor reports.
pub fn show_report(event: &MonitorEvent) -> (lines: Vec<String>)
    ensures
        lines.model() == report_lines(event.model()),
{
    match event {
        MonitorEvent::Starting { name } => one_of(
            cat3("Machine '", name.as_str(), "' is not running, starting..."),
        ),
        MonitorEvent::Monitoring { name, policy, interval_secs, health } => {
            let mut lines: Vec<String> = one_of(
                cat7(
                    "Monitoring machine '",
                    name.as_str(),
                    "' (policy: ",
                    policy.label(),
                    ", interval: ",
                    number(*interval_secs).as_str(),
                    "s)",
                ),
            );
            let ghost first = lines.model();
            match health {
                Some(health) => {
                    push_to(
                        &mut lines,
                        cat5(
                            "  Health check: retries=",
                            number(health.retries as u64).as_str(),
                            ", timeout=",
                            number(health.timeout_secs).as_str(),
                            "s",
                        ),
                    );
                },
                None => {
                    assert(first + Seq::<Seq<char>>::empty() =~= first);
                },
            }
            assert(lines.model() =~= report_lines(event.model()));
            lines
        },
        MonitorEvent::SuspendDetected { sleep_secs } => one_of(
            cat3(
                "  detected suspend (~",
                number(*sleep_secs).as_str(),
                "s) — skipping health check for recovery",
            ),
        ),
        MonitorEvent::HealthRecovered => one_of(own("  health check passed (recovered)")),
        MonitorEvent::HealthFailed { exit_code, consecutive, retries, stderr } => one_of(
            cat6(
                "  health check failed (exit ",
                signed_number(*exit_code).as_str(),
                ", ",
                make_ratio(*consecutive, *retries).as_str(),
                "): ",
                stderr.as_str(),
            ),
        ),
        MonitorEvent::HealthError { consecutive, retries, error } => one_of(
            cat4(
                "  health check error (",
                make_ratio(*consecutive, *retries).as_str(),
                "): ",
                error.as_str(),
            ),
        ),
        MonitorEvent::AgentUnreachable { consecutive, retries } => one_of(
            cat3(
                "  cannot connect to agent (",
                make_ratio(*consecutive, *retries).as_str(),
                ")",
            ),
        ),
        MonitorEvent::UnhealthyStopping => one_of(
            own("  unhealthy — stopping machine for restart"),
        ),
        MonitorEvent::MachineExited { exit_code } => {
            let code: String = match exit_code {
                Some(code) => signed_number(*code),
                None => own("unknown"),
            };
            one_of(cat3("  machine exited (exit code: ", code.as_str(), ")"))
        },
        MonitorEvent::Restarting { attempt, backoff_secs } => one_of(
            cat5(
                "  restarting (attempt ",
                number(*attempt as u64).as_str(),
                ", backoff ",
                number(*backoff_secs).as_str(),
                "s)...",
            ),
        ),
        MonitorEvent::Restarted => one_of(own("  machine restarted")),
        MonitorEvent::RestartFailed { error } => one_of(
            cat2("  restart failed: ", error.as_str()),
        ),
        MonitorEvent::NotRestarting { policy, count, max_retries } => {
            let limit: String = if *max_retries > 0 {
                number(*max_retries as u64)
            } else {
                own("unlimited")
            };
            one_of(
                cat7(
                    "  not restarting (policy: ",
                    policy.label(),
                    ", count: ",
                    number(*count as u64).as_str(),
                    "/",
                    limit.as_str(),
                    ")",
                ),
            )
        },
        MonitorEvent::Stopped { name } => one_of(
            cat3(
                "\nStopped monitoring. Machine '",
                name.as_str(),
                "' may still be running.",
            ),
        ),
    }
}

/// Law: a command in a machine is handed on as it was given: the machine that was found, or the
/// default one, the command, the variables that were read, its directory, time limit and terminal; its
/// secrets are those of its flags, and the machine is not started for it.
pub proof fn law_exec_command_is_handed_on(
    cmd: ExecCmdView,
    resolved: Option<Seq<char>>,
    env: Seq<(Seq<char>, Seq<char>)>,
)
    ensures
        exec_request_of(cmd, resolved, env) is Ok <==> cli_secrets(
            secret_flags(cmd.secret_env, cmd.secret_file),
        ) is Ok,
        exec_request_of(cmd, resolved, env) matches Err(error) ==> error == cli_secrets(
            secret_flags(cmd.secret_env, cmd.secret_file),
        )->Err_0,
        exec_request_of(cmd, resolved, env) matches Ok(request) ==> {
            &&& resolved is Some ==> request.name == resolved->0
            &&& resolved is None ==> request.name == "default"@
            &&& request.command == cmd.command && request.env == env && request.workdir
                == cmd.workdir && request.timeout == cmd.timeout && request.tty == cmd.tty
            &&& request.secret_refs == cli_secrets(
                secret_flags(cmd.secret_env, cmd.secret_file),
            )->Ok_0
            &&& request.secret_scope == ResolutionScope::TrustedLocal
            &&& request.include_record_env && !request.start_if_needed && !request.background
            &&& request.stdin is None && request.trace_id is None
        },
{
}

/// Law: opening a shell runs `/bin/sh` with a terminal in the machine that was found, or the default
/// one.
pub proof fn law_shell_is_a_shell(cmd: ShellCmdView, resolved: Option<Seq<char>>)
    ensures
        resolved is Some ==> shell_request(resolved).name == resolved->0,
        resolved is None ==> shell_request(resolved).name == "default"@,
        shell_request(resolved).command == seq!["/bin/sh"@],
        shell_request(resolved).tty && !shell_request(resolved).background,
        shell_request(resolved).start_if_needed && shell_request(resolved).include_record_env,
        shell_request(resolved).workdir is None && shell_request(resolved).timeout is None,
        shell_of(cmd).name == cmd.name && shell_of(cmd).command == seq!["/bin/sh"@],
        shell_of(cmd).interactive && shell_of(cmd).tty && !shell_of(cmd).stream,
{
}

/// Law: what a streamed command writes is shown where the command wrote it, an error is shown as a
/// line, and its exit shows nothing. The exit code is the one that the command ended with, one after
/// an error, and output does not change it.
pub proof fn law_streamed_events_are_shown(event: ExecEventView, code: i32)
    ensures
        event matches ExecEventView::Stdout(data) ==> event_shown(event) == ShownView::Stdout(data)
            && code_after(code, event) == code,
        event matches ExecEventView::Stderr(data) ==> event_shown(event) == ShownView::Stderr(data)
            && code_after(code, event) == code,
        event matches ExecEventView::Exit(own) ==> event_shown(event) is Nothing && code_after(
            code,
            event,
        ) == own,
        event matches ExecEventView::Error(message) ==> event_shown(event) is Line
            && message.is_suffix_of(event_shown(event)->Line_0) && code_after(code, event) == 1,
{
    if let ExecEventView::Error(message) = event {
        let line = "error: "@ + message;
        assert(line.subrange(line.len() - message.len(), line.len() as int) =~= message);
    }
}

/// Law: starting a machine first asks for the start of the machine that was named, or the default one,
/// as the command says; what that gives is the result, unless no machine was named and the default
/// one is missing: then that one is created and started, and a failure of either is the result.
pub proof fn law_start_command_starts_its_machine(
    cmd: StartCmdView,
    progress: StartCmdProgressView,
    defaults: ResourceDefaultsView,
)
    ensures
        progress.started is None ==> start_cmd_step(cmd, progress, defaults) is Start,
        start_cmd_step(cmd, progress, defaults) matches StartCmdStepView::Start(request) ==> {
            &&& progress.started is None
            &&& cmd.name is Some ==> request.name == cmd.name->0
            &&& cmd.name is None ==> request.name == "default"@
            &&& request.forkable == cmd.forkable && request.proxy == cmd.proxy_opts.proxy
                && request.no_proxy == cmd.proxy_opts.no_proxy && request.snapshot_dir is None
        },
        start_cmd_step(cmd, progress, defaults) matches StartCmdStepView::StartCreated(request)
            ==> {
            &&& progress.created is Some && progress.created->0 is Ok && progress.restarted is None
            &&& cmd.name is None && request.name == "default"@ && !request.forkable
            &&& request.proxy == cmd.proxy_opts.proxy && request.no_proxy
                == cmd.proxy_opts.no_proxy && request.snapshot_dir is None
        },
        start_cmd_step(cmd, progress, defaults) matches StartCmdStepView::Create(request) ==> {
            &&& progress.created is None
            &&& request.cpus == defaults.cpus && request.memory_mib == defaults.memory_mib
            &&& request.storage_gb == Some(defaults.storage_gib) && request.overlay_gb == Some(
                defaults.overlay_gib,
            )
            &&& !request.net && !request.gpu && !request.ssh_agent && request.image is None
                && request.source_smolmachine is None && request.user is None && request.workdir
                is None
            &&& request.mounts.len() == 0 && request.ports.len() == 0 && request.env.len() == 0
                && request.init.len() == 0 && request.cmd.len() == 0 && request.entrypoint.len()
                == 0 && request.secret_refs.len() == 0
        },
        progress.started is Some && progress.started->0 is Ok ==> start_cmd_step(
            cmd,
            progress,
            defaults,
        ) is Done && start_cmd_step(cmd, progress, defaults)->Done_0 is Ok,
        progress.started is Some && progress.started->0 is Err && (cmd.name is Some || !(
        progress.started->0->Err_0 is VmNotFound)) ==> start_cmd_step(cmd, progress, defaults)
            == StartCmdStepView::Done(Err(progress.started->0->Err_0)),
        progress.started is Some && progress.started->0 is Err && cmd.name is None
            && progress.started->0->Err_0 is VmNotFound ==> {
            &&& progress.created is None ==> start_cmd_step(cmd, progress, defaults) is Create
            &&& progress.created is Some && progress.created->0 is Err ==> start_cmd_step(
                cmd,
                progress,
                defaults,
            ) == StartCmdStepView::Done(Err(progress.created->0->Err_0))
            &&& progress.created is Some && progress.created->0 is Ok && progress.restarted is None
                ==> start_cmd_step(cmd, progress, defaults) is StartCreated
            &&& progress.created is Some && progress.created->0 is Ok && progress.restarted is Some
                ==> start_cmd_step(cmd, progress, defaults) == StartCmdStepView::Done(
                progress.restarted->0,
            )
        },
{
}

/// Law: only a plain yes agrees, whatever white space stands round it.
pub proof fn law_only_a_yes_agrees(answer: Seq<char>)
    ensures
        agrees(answer) ==> trimmed(answer).len() == 1 || trimmed(answer).len() == 3,
        agrees(answer) <==> trimmed(answer) == "y"@ || trimmed(answer) == "Y"@ || trimmed(answer)
            == "yes"@ || trimmed(answer) == "YES"@,
{
    reveal_strlit("y");
    reveal_strlit("Y");
    reveal_strlit("yes");
    reveal_strlit("YES");
}

/// Law: a machine is deleted under its own name, and its clones are cut off exactly where deletion is
/// forced. Without force the user is asked about that machine first; then a yes deletes it and any
/// other answer leaves it.
pub proof fn law_delete_command_names_its_machine(cmd: DeleteCmdView, answer: Option<Seq<char>>)
    ensures
        cmd.force || (answer is Some && agrees(answer->0)) <==> delete_cmd_step(cmd, answer)
            is Delete,
        !cmd.force && answer is None <==> delete_cmd_step(cmd, answer) is Ask,
        delete_cmd_step(cmd, answer) matches DeleteCmdStepView::Delete(request) ==> request.name
            == cmd.name && request.break_dependent_clones == cmd.force && request.keep_data,
        delete_cmd_step(cmd, answer) matches DeleteCmdStepView::Ask(question)
            ==> crate::text::has_part(question, cmd.name),
{
    crate::text::law_parts_of_a_text("Delete machine '"@, cmd.name, "'? [y/N] "@);
}

/// Law: a change of settings is handed on as it was given: each setting that was named, the mounts and
/// variables as they were read, and nothing else.
pub proof fn law_update_command_is_handed_on(
    cmd: UpdateCmdView,
    add: Result<Seq<HostMountView>, ErrorView>,
    remove: Result<Seq<HostMountView>, ErrorView>,
    env: Seq<(Seq<char>, Seq<char>)>,
)
    ensures
        update_request_of(cmd, add, remove, env) is Ok <==> add is Ok && remove is Ok,
        add is Err ==> update_request_of(cmd, add, remove, env)->Err_0 == add->Err_0,
        add is Ok && remove is Err ==> update_request_of(cmd, add, remove, env)->Err_0
            == remove->Err_0,
        update_request_of(cmd, add, remove, env) matches Ok(update) ==> {
            &&& update.name == cmd.name && update.add_mounts == add->Ok_0 && update.remove_mounts
                == remove->Ok_0
            &&& update.add_ports == cmd.port && update.remove_ports == cmd.remove_port
            &&& update.cpus == cmd.cpus && update.memory_mib == cmd.mem && update.storage_gb
                == cmd.storage && update.overlay_gb == cmd.overlay
            &&& update.enable_network == cmd.net && update.disable_network == cmd.no_net
            &&& update.enable_gpu == cmd.gpu && update.disable_gpu == cmd.no_gpu
            &&& update.set_env == env && update.remove_env == cmd.remove_env && update.workdir
                == cmd.workdir && !update.clear_workdir
            &&& update.network_backend is None && update.allowed_cidrs is None
                && !update.clear_allowed_cidrs && update.dns_filter_hosts is None
                && !update.clear_dns_filter_hosts && update.gpu_vram_mib is None
            &&& update.restart_policy is None && update.restart_max_retries is None
                && update.restart_max_backoff_secs is None && update.health_cmd is None
                && !update.clear_health_cmd && update.health_interval_secs is None
                && update.health_timeout_secs is None && update.health_retries is None
                && update.health_startup_grace_secs is None
            &&& !update.enable_ssh_agent && !update.disable_ssh_agent
        },
{
}

/// Law: what is shown of an update names the machine and then each change, in its order, and how to
/// start the machine; without a change a single line says so.
pub proof fn law_each_change_is_shown(name: Seq<char>, changes: Seq<Seq<char>>)
    ensures
        changes.len() == 0 ==> updated_lines(name, changes).len() == 1,
        changes.len() > 0 ==> updated_lines(name, changes).len() == changes.len() + 2
            && crate::text::has_part(updated_lines(name, changes)[0], name)
            && name.is_suffix_of(updated_lines(name, changes).last()),
        forall|i: int|
            0 <= i < changes.len() ==> #[trigger] changes[i].is_suffix_of(
                updated_lines(name, changes)[i + 1],
            ),
{
    if changes.len() > 0 {
        crate::text::law_parts_of_a_text("Updated machine '"@, name, "':"@);
        let last = "\nStart with: smolvm machine start --name "@ + name;
        assert(last.subrange(last.len() - name.len(), last.len() as int) =~= name);
    }
    assert forall|i: int| 0 <= i < changes.len() implies #[trigger] changes[i].is_suffix_of(
        updated_lines(name, changes)[i + 1],
    ) by {
        let line = "  "@ + changes[i];
        assert(updated_lines(name, changes)[i + 1] == line);
        assert(line.subrange(line.len() - changes[i].len(), line.len() as int) =~= changes[i]);
    }
}

/// Law: a copy goes from the machine that the source names, or else to the machine that the target
/// names: the machine is what stands before the first colon, its path what stands behind it, and the
/// path on the host is the other side. Without a colon on either side there is no copy.
pub proof fn law_copy_goes_where_the_colon_is(cmd: CpCmdView)
    ensures
        copy_of(cmd) is Ok <==> cmd.src.contains(':') || cmd.dst.contains(':'),
        cmd.src.contains(':') ==> (copy_of(cmd) matches Ok(CopyPlanView::Download(request))
            && request.name + seq![':'] + request.guest_path == cmd.src && !request.name.contains(
            ':',
        ) && request.local_path == cmd.dst && !request.start_if_needed),
        !cmd.src.contains(':') && cmd.dst.contains(':') ==> (copy_of(cmd) matches Ok(
            CopyPlanView::Upload(request),
        ) && request.name + seq![':'] + request.guest_path == cmd.dst && !request.name.contains(':')
            && request.local_path == cmd.src && request.mode is None && !request.start_if_needed),
{
    crate::text::law_text_is_cut_at_the_first(cmd.src, ':');
    crate::text::law_text_is_cut_at_the_first(cmd.dst, ':');
}

/// Law: a watch is handed on as it was given: the machine that was named or the default one, the policy
/// that was read where one was given, the health command as a line for the shell, and its times and
/// tries. It is refused exactly where its policy cannot be read.
pub proof fn law_monitor_command_is_handed_on(
    cmd: MonitorCmdView,
    policy: Result<RestartPolicy, Seq<char>>,
)
    ensures
        monitor_request_of(cmd, policy) is Ok <==> cmd.restart is None || policy is Ok,
        monitor_request_of(cmd, policy) matches Err(error) ==> error is Config
            && error->Config_reason == policy->Err_0,
        monitor_request_of(cmd, policy) matches Ok(monitor) ==> {
            &&& cmd.name is Some ==> monitor.name == cmd.name->0
            &&& cmd.name is None ==> monitor.name == "default"@
            &&& cmd.restart is Some ==> monitor.restart_policy == Some(policy->Ok_0)
            &&& cmd.restart is None ==> monitor.restart_policy is None
            &&& cmd.health_cmd is Some ==> monitor.health_cmd == Some(
                seq!["sh"@, "-c"@, cmd.health_cmd->0],
            )
            &&& cmd.health_cmd is None ==> monitor.health_cmd is None
            &&& monitor.health_timeout.secs == cmd.health_timeout && monitor.health_timeout.nanos
                == 0
            &&& monitor.interval.secs == cmd.interval && monitor.interval.nanos == 0
            &&& monitor.health_retries == cmd.health_retries
        },
{
}

/// Law: the image storage of a machine in JSON holds its sizes and counts under their names, and its
/// images.
pub proof fn law_storage_members(status: StorageStatusView, images: Seq<JsonView>)
    ensures
        ({
            let storage = member(storage_json(status, images), "storage"@);
            &&& member(storage_json(status, images), "images"@) == JsonView::List(images)
            &&& member(storage, "total_bytes"@) == JsonView::Integer(status.total_bytes as int)
            &&& member(storage, "used_bytes"@) == JsonView::Integer(status.used_bytes as int)
            &&& member(storage, "layer_count"@) == JsonView::Integer(status.layer_count as int)
            &&& member(storage, "image_count"@) == JsonView::Integer(status.image_count as int)
        }),
{
    reveal_strlit("storage");
    reveal_strlit("images");
    reveal_strlit("total_bytes");
    reveal_strlit("used_bytes");
    reveal_strlit("layer_count");
    reveal_strlit("image_count");
    assert(("storage"@)[0] == 's');
    assert(("images"@)[0] == 'i');
    assert(("total_bytes"@)[0] == 't');
    assert(("used_bytes"@)[0] == 'u');
    assert(("layer_count"@)[0] == 'l');
    assert(("image_count"@)[0] == 'i');
}

/// Law: each image has its line in the table, in the order of the images, that shows its reference, its
/// size and its layers, in this order and in full.
pub proof fn law_each_image_has_its_line(images: Seq<ImageRowView>, i: int)
    requires
        0 <= i < images.len(),
    ensures
        image_lines(images).len() == images.len(),
        images[i].reference.is_prefix_of(image_lines(images)[i]),
        crate::text::has_part(image_lines(images)[i], images[i].size),
        decimal(images[i].layer_count as nat).is_suffix_of(image_lines(images)[i]),
{
    let row = images[i];
    let layers = decimal(row.layer_count as nat);
    let first = left_aligned(row.reference, 40);
    let second = right_aligned(row.size, 10);
    let third = right_aligned(layers, 8);
    let line = image_lines(images)[i];
    assert(line == first + " "@ + second + " "@ + third);
    assert(row.reference =~= line.take(row.reference.len() as int));
    assert(line.subrange(line.len() - layers.len(), line.len() as int) =~= layers);
    let at = first.len() + (" "@).len() + second.len() - row.size.len();
    assert(line.subrange(at, at + row.size.len()) =~= row.size);
    assert(crate::text::stands_at(line, row.size, at));
}

/// Law: the line after pruning tells the freed size and, where all images were removed, how many they
/// were, unless nothing was removed; a trial run is told as such.
pub proof fn law_prune_line_tells_the_result(
    cmd: PruneCmdView,
    result: PruneImagesResultView,
    freed: Seq<char>,
)
    requires
        result.freed_bytes > 0,
    ensures
        crate::text::has_part(pruned_line(cmd, result, freed), freed),
        cmd.all ==> crate::text::has_part(
            pruned_line(cmd, result, freed),
            decimal(result.removed_images as nat),
        ),
        cmd.dry_run <==> ("Would "@).is_prefix_of(pruned_line(cmd, result, freed)),
{
    reveal_strlit("Would ");
    reveal_strlit("Would remove ");
    reveal_strlit("Would free ");
    reveal_strlit("Removed ");
    reveal_strlit("Freed ");
    let line = pruned_line(cmd, result, freed);
    let count = decimal(result.removed_images as nat);
    if cmd.all && cmd.dry_run {
        let at = ("Would remove "@).len() as int;
        assert(line.subrange(at, at + count.len()) =~= count);
        assert(crate::text::stands_at(line, count, at));
        let then = at + count.len() + (" images ("@).len();
        assert(line.subrange(then, then + freed.len()) =~= freed);
        assert(crate::text::stands_at(line, freed, then));
        assert(line.take(6) =~= "Would "@);
    } else if cmd.all {
        let at = ("Removed "@).len() as int;
        assert(line.subrange(at, at + count.len()) =~= count);
        assert(crate::text::stands_at(line, count, at));
        let then = at + count.len() + (" images, freed "@).len();
        assert(line.subrange(then, then + freed.len()) =~= freed);
        assert(crate::text::stands_at(line, freed, then));
        assert(line[0] == 'R' && ("Would "@)[0] == 'W');
    } else if cmd.dry_run {
        let at = ("Would free "@).len() as int;
        assert(line.subrange(at, at + freed.len()) =~= freed);
        assert(crate::text::stands_at(line, freed, at));
        assert(line.take(6) =~= "Would "@);
    } else {
        let at = ("Freed "@).len() as int;
        assert(line.subrange(at, at + freed.len()) =~= freed);
        assert(crate::text::stands_at(line, freed, at));
        assert(line[0] == 'F' && ("Would "@)[0] == 'W');
    }
}

/// Law: a clone is made of the machine and under the name that were given, with the ports that were
/// given; a clone that is to be cloned again is refused.
pub proof fn law_fork_command_is_handed_on(cmd: &ForkCmd, request: Result<ForkMachine, Error>)
    requires
        call_ensures(ForkCmd::request, (cmd,), request),
    ensures
        request is Err <==> cmd.forkable,
        request is Err ==> request->Err_0.model() is Agent,
        request matches Ok(fork) ==> fork.golden@ == cmd.golden@ && fork.clone@ == cmd.clone@
            && fork.ports.model() == cmd.port.model(),
{
    assert(request is Ok ==> request.model()->Ok_0 == request->Ok_0.model());
    assert(request is Err ==> request.model()->Err_0 == request->Err_0.model());
    if let Ok(fork) = request {
        assert(fork.model().golden == fork.golden@);
    }
}

/// Law: images are listed and removed, and the network is tested, in the machine that was named, as the
/// command says; a machine that was started to remove images is stopped again.
pub proof fn law_image_commands_are_handed_on(
    prune: &PruneCmd,
    pruning: PruneMachineImages,
    test: &NetworkTestCmd,
    resolved: &Option<String>,
    testing: NetworkTestMachine,
    name: &str,
    images: (StorageStatusRequest, ListMachineImages),
)
    requires
        call_ensures(PruneCmd::request, (prune,), pruning),
        call_ensures(NetworkTestCmd::request, (test, resolved), testing),
        call_ensures(image_requests, (name,), images),
    ensures
        pruning.name@ == prune.name@ && pruning.all == prune.all && pruning.dry_run == prune.dry_run
            && pruning.stop_after_start && pruning.trace_id is None,
        testing.url@ == test.url@ && testing.start_if_needed && testing.trace_id is None,
        resolved is Some ==> testing.name@ == resolved->0@,
        resolved is None ==> testing.name@ == "default"@,
        images.0.name@ == name@ && images.0.start_if_needed,
        images.1.name@ == name@ && images.1.start_if_needed && !images.1.stop_after_start
            && !images.1.empty_when_stopped,
{
    assert(pruning.model().name == pruning.name@);
    assert(pruning.model().trace_id == pruning.trace_id.model());
    assert(testing.model().name == testing.name@);
    assert(testing.model().trace_id == testing.trace_id.model());
    assert(images.0.model().name == images.0.name@);
    assert(images.1.model().name == images.1.name@);
}

/// Law: what a monitor reports of a machine names the machine, and a restart, a failed check and a
/// restart that is not made are told with their numbers.
pub proof fn law_reports_are_shown(event: MonitorEventView)
    ensures
        report_lines(event).len() >= 1,
        event matches MonitorEventView::Starting { name } ==> crate::text::has_part(
            report_lines(event)[0],
            name,
        ),
        event matches MonitorEventView::Stopped { name } ==> crate::text::has_part(
            report_lines(event)[0],
            name,
        ),
        event matches MonitorEventView::Monitoring { name, .. } ==> crate::text::has_part(
            report_lines(event)[0],
            name,
        ),
        event matches MonitorEventView::Monitoring { health, .. } ==> report_lines(event).len()
            == if health is Some {
            2nat
        } else {
            1nat
        },
        event matches MonitorEventView::HealthFailed { exit_code, consecutive, retries, stderr }
            ==> stderr.is_suffix_of(report_lines(event)[0]) && crate::text::has_part(
            report_lines(event)[0],
            signed_decimal(exit_code as int) + ", "@ + decimal(consecutive as nat) + "/"@ + decimal(
                retries as nat,
            ),
        ),
        event matches MonitorEventView::HealthError { consecutive, retries, error }
            ==> error.is_suffix_of(report_lines(event)[0]) && crate::text::has_part(
            report_lines(event)[0],
            decimal(consecutive as nat) + "/"@ + decimal(retries as nat),
        ),
        event matches MonitorEventView::AgentUnreachable { consecutive, retries }
            ==> crate::text::has_part(
            report_lines(event)[0],
            decimal(consecutive as nat) + "/"@ + decimal(retries as nat),
        ),
        event matches MonitorEventView::Restarting { attempt, backoff_secs }
            ==> crate::text::has_part(
            report_lines(event)[0],
            "attempt "@ + decimal(attempt as nat) + ", backoff "@ + decimal(backoff_secs as nat),
        ),
        event matches MonitorEventView::RestartFailed { error } ==> error.is_suffix_of(
            report_lines(event)[0],
        ),
{
    let line = report_lines(event)[0];
    if let MonitorEventView::Starting { name } = event {
        crate::text::law_parts_of_a_text("Machine '"@, name, "' is not running, starting..."@);
    }
    if let MonitorEventView::Stopped { name } = event {
        crate::text::law_parts_of_a_text(
            "\nStopped monitoring. Machine '"@,
            name,
            "' may still be running."@,
        );
    }
    if let MonitorEventView::Monitoring { name, .. } = event {
        let at = ("Monitoring machine '"@).len() as int;
        assert(line.subrange(at, at + name.len()) =~= name);
        assert(crate::text::stands_at(line, name, at));
    }
    if let MonitorEventView::HealthFailed { exit_code, consecutive, retries, stderr } = event {
        let part = signed_decimal(exit_code as int) + ", "@ + decimal(consecutive as nat) + "/"@
            + decimal(retries as nat);
        let at = ("  health check failed (exit "@).len() as int;
        assert(line.subrange(at, at + part.len()) =~= part);
        assert(crate::text::stands_at(line, part, at));
        assert(line.subrange(line.len() - stderr.len(), line.len() as int) =~= stderr);
    }
    if let MonitorEventView::HealthError { consecutive, retries, error } = event {
        let part = decimal(consecutive as nat) + "/"@ + decimal(retries as nat);
        let at = ("  health check error ("@).len() as int;
        assert(line.subrange(at, at + part.len()) =~= part);
        assert(crate::text::stands_at(line, part, at));
        assert(line.subrange(line.len() - error.len(), line.len() as int) =~= error);
    }
    if let MonitorEventView::AgentUnreachable { consecutive, retries } = event {
        crate::text::law_parts_of_a_text(
            "  cannot connect to agent ("@,
            decimal(consecutive as nat) + "/"@ + decimal(retries as nat),
            ")"@,
        );
    }
    if let MonitorEventView::Restarting { attempt, backoff_secs } = event {
        reveal_strlit("  restarting (attempt ");
        reveal_strlit("attempt ");
        let part = "attempt "@ + decimal(attempt as nat) + ", backoff "@ + decimal(
            backoff_secs as nat,
        );
        assert(line.subrange(14, 14 + part.len() as int) =~= part);
        assert(crate::text::stands_at(line, part, 14));
    }
    if let MonitorEventView::RestartFailed { error } = event {
        assert(line.subrange(line.len() - error.len(), line.len() as int) =~= error);
    }
}

/// Law: the reference of an image is shown in full where it fits its column, and otherwise as far as it
/// does, with dots behind it.
pub proof fn law_long_references_are_cut(reference: Seq<char>, shown: Seq<char>)
    requires
        shown_reference(reference, shown),
    ensures
        byte_count(reference) <= 38 ==> shown == reference,
        byte_count(reference) > 38 ==> exists|n: int|
            #![trigger reference.take(n)]
            0 <= n <= reference.len() && byte_count(reference.take(n)) == 35 && shown
                == reference.take(n) + "..."@,
{
    if byte_count(reference) > 38 {
        let n = choose|n: int|
            cuts_at(reference, 35, n) && shown == #[trigger] reference.take(n) + "..."@;
        assert(byte_count(reference.take(n)) == 35);
    }
}

/// Law: the image storage is shown with its sizes and layers, and then each image on a line of its own,
/// in their order, and how many they are, or a line that says that there is none.
pub proof fn law_storage_shows_each_image(
    total: Seq<char>,
    used: Seq<char>,
    layers: usize,
    images: Seq<ImageRowView>,
)
    ensures
        ({
            let lines = storage_lines(total, used, layers, images);
            &&& total.is_suffix_of(lines[1]) && used.is_suffix_of(lines[2]) && decimal(
                layers as nat,
            ).is_suffix_of(lines[3])
            &&& images.len() == 0 ==> lines.len() == 6
            &&& images.len() > 0 ==> lines.len() == 10 + images.len() && lines.subrange(
                8,
                8 + images.len() as int,
            ) == image_lines(images) && crate::text::has_part(
                lines.last(),
                decimal(images.len()),
            )
        }),
{
    let lines = storage_lines(total, used, layers, images);
    let one = "  Total:  "@ + total;
    assert(one.subrange(one.len() - total.len(), one.len() as int) =~= total);
    let two = "  Used:   "@ + used;
    assert(two.subrange(two.len() - used.len(), two.len() as int) =~= used);
    let count = decimal(layers as nat);
    let three = "  Layers: "@ + count;
    assert(three.subrange(three.len() - count.len(), three.len() as int) =~= count);
    if images.len() > 0 {
        assert(lines.subrange(8, 8 + images.len() as int) =~= image_lines(images));
        crate::text::law_parts_of_a_text("Total: "@, decimal(images.len()), " images"@);
    }
}

} // verus!
