//! Watching a machine: health checks, restarts, and when to stop watching.

use crate::bytes::{lossy_text, text_of_bytes, trim, trimmed};
use crate::error::{Error, ErrorView};
use crate::model::{dup_first_some, empty_list, first_some, one_of, push_to, Model};
use crate::records::{get_record, record_found};
use crate::requests::{
    ExecResult, ExecResultView, MonitorHealthConfig, MonitorHealthConfigView, MonitorMachine, MonitorMachineView,
    MonitorResult, MonitorResultView, StartMachine, StartMachineView, StopMachine, StopMachineView,
};
use crate::types::{
    GuestCommand, GuestCommandView, RestartConfig, RestartConfigView, RestartPolicy, TimeSpan,
    VmRecord, VmRecordView,
};
use vstd::prelude::*;

verus! {

/// What a monitor reports.
#[derive(Debug, PartialEq, Eq)]
pub enum MonitorEvent {
    /// The machine does not run and is started.
    Starting { name: String },
    /// The machine is being watched.
    Monitoring {
        name: String,
        policy: RestartPolicy,
        interval_secs: u64,
        health: Option<MonitorHealthConfig>,
    },
    /// The host slept.
    SuspendDetected { sleep_secs: u64 },
    /// The machine is healthy again.
    HealthRecovered,
    /// The health command failed.
    HealthFailed { exit_code: i32, consecutive: u32, retries: u32, stderr: String },
    /// The health command could not be run.
    HealthError { consecutive: u32, retries: u32, error: String },
    /// The agent could not be reached.
    AgentUnreachable { consecutive: u32, retries: u32 },
    /// The machine is unhealthy and is stopped.
    UnhealthyStopping,
    /// The machine ended.
    MachineExited { exit_code: Option<i32> },
    /// The machine is started again.
    Restarting { attempt: u32, backoff_secs: u64 },
    /// The machine was started again.
    Restarted,
    /// The machine could not be started again.
    RestartFailed { error: String },
    /// The machine is not started again.
    NotRestarting { policy: RestartPolicy, count: u32, max_retries: u32 },
    /// The machine is no longer watched.
    Stopped { name: String },
}

/// Mathematical model of a [`MonitorEvent`].
pub enum MonitorEventView {
    Starting { name: Seq<char> },
    Monitoring { name: Seq<char>, policy: RestartPolicy, interval_secs: u64, health: Option<MonitorHealthConfigView> },
    SuspendDetected { sleep_secs: u64 },
    HealthRecovered,
    HealthFailed { exit_code: i32, consecutive: u32, retries: u32, stderr: Seq<char> },
    HealthError { consecutive: u32, retries: u32, error: Seq<char> },
    AgentUnreachable { consecutive: u32, retries: u32 },
    UnhealthyStopping,
    MachineExited { exit_code: Option<i32> },
    Restarting { attempt: u32, backoff_secs: u64 },
    Restarted,
    RestartFailed { error: Seq<char> },
    NotRestarting { policy: RestartPolicy, count: u32, max_retries: u32 },
    Stopped { name: Seq<char> },
}

impl Model for MonitorEvent {
    type V = MonitorEventView;

    open spec fn model(&self) -> MonitorEventView {
        match self {
            MonitorEvent::Starting { name } => MonitorEventView::Starting { name: name.model() },
            MonitorEvent::Monitoring { name, policy, interval_secs, health } => MonitorEventView::Monitoring { name: name.model(), policy: policy.model(), interval_secs: interval_secs.model(), health: health.model() },
            MonitorEvent::SuspendDetected { sleep_secs } => MonitorEventView::SuspendDetected { sleep_secs: sleep_secs.model() },
            MonitorEvent::HealthRecovered => MonitorEventView::HealthRecovered,
            MonitorEvent::HealthFailed { exit_code, consecutive, retries, stderr } => MonitorEventView::HealthFailed { exit_code: exit_code.model(), consecutive: consecutive.model(), retries: retries.model(), stderr: stderr.model() },
            MonitorEvent::HealthError { consecutive, retries, error } => MonitorEventView::HealthError { consecutive: consecutive.model(), retries: retries.model(), error: error.model() },
            MonitorEvent::AgentUnreachable { consecutive, retries } => MonitorEventView::AgentUnreachable { consecutive: consecutive.model(), retries: retries.model() },
            MonitorEvent::UnhealthyStopping => MonitorEventView::UnhealthyStopping,
            MonitorEvent::MachineExited { exit_code } => MonitorEventView::MachineExited { exit_code: exit_code.model() },
            MonitorEvent::Restarting { attempt, backoff_secs } => MonitorEventView::Restarting { attempt: attempt.model(), backoff_secs: backoff_secs.model() },
            MonitorEvent::Restarted => MonitorEventView::Restarted,
            MonitorEvent::RestartFailed { error } => MonitorEventView::RestartFailed { error: error.model() },
            MonitorEvent::NotRestarting { policy, count, max_retries } => MonitorEventView::NotRestarting { policy: policy.model(), count: count.model(), max_retries: max_retries.model() },
            MonitorEvent::Stopped { name } => MonitorEventView::Stopped { name: name.model() },
        }
    }

    fn dup(&self) -> (copy: Self) {
        match self {
            MonitorEvent::Starting { name } => MonitorEvent::Starting { name: name.dup() },
            MonitorEvent::Monitoring { name, policy, interval_secs, health } => MonitorEvent::Monitoring { name: name.dup(), policy: policy.dup(), interval_secs: interval_secs.dup(), health: health.dup() },
            MonitorEvent::SuspendDetected { sleep_secs } => MonitorEvent::SuspendDetected { sleep_secs: sleep_secs.dup() },
            MonitorEvent::HealthRecovered => MonitorEvent::HealthRecovered,
            MonitorEvent::HealthFailed { exit_code, consecutive, retries, stderr } => MonitorEvent::HealthFailed { exit_code: exit_code.dup(), consecutive: consecutive.dup(), retries: retries.dup(), stderr: stderr.dup() },
            MonitorEvent::HealthError { consecutive, retries, error } => MonitorEvent::HealthError { consecutive: consecutive.dup(), retries: retries.dup(), error: error.dup() },
            MonitorEvent::AgentUnreachable { consecutive, retries } => MonitorEvent::AgentUnreachable { consecutive: consecutive.dup(), retries: retries.dup() },
            MonitorEvent::UnhealthyStopping => MonitorEvent::UnhealthyStopping,
            MonitorEvent::MachineExited { exit_code } => MonitorEvent::MachineExited { exit_code: exit_code.dup() },
            MonitorEvent::Restarting { attempt, backoff_secs } => MonitorEvent::Restarting { attempt: attempt.dup(), backoff_secs: backoff_secs.dup() },
            MonitorEvent::Restarted => MonitorEvent::Restarted,
            MonitorEvent::RestartFailed { error } => MonitorEvent::RestartFailed { error: error.dup() },
            MonitorEvent::NotRestarting { policy, count, max_retries } => MonitorEvent::NotRestarting { policy: policy.dup(), count: count.dup(), max_retries: max_retries.dup() },
            MonitorEvent::Stopped { name } => MonitorEvent::Stopped { name: name.dup() },
        }
    }
}

/// How a machine is watched.
#[derive(Debug, PartialEq, Eq)]
pub struct MonitorPlan {
    pub name: String,
    pub health_cmd: Option<Vec<String>>,
    pub health_timeout_secs: u64,
    pub health_retries: u32,
    pub interval_secs: u64,
    pub startup_grace_secs: u64,
}

/// Mathematical model of a [`MonitorPlan`].
pub struct MonitorPlanView {
    pub name: Seq<char>,
    pub health_cmd: Option<Seq<Seq<char>>>,
    pub health_timeout_secs: u64,
    pub health_retries: u32,
    pub interval_secs: u64,
    pub startup_grace_secs: u64,
}

impl Model for MonitorPlan {
    type V = MonitorPlanView;

    open spec fn model(&self) -> MonitorPlanView {
        MonitorPlanView {
            name: self.name.model(),
            health_cmd: self.health_cmd.model(),
            health_timeout_secs: self.health_timeout_secs.model(),
            health_retries: self.health_retries.model(),
            interval_secs: self.interval_secs.model(),
            startup_grace_secs: self.startup_grace_secs.model(),
        }
    }

    fn dup(&self) -> (copy: Self) {
        MonitorPlan {
            name: self.name.dup(),
            health_cmd: self.health_cmd.dup(),
            health_timeout_secs: self.health_timeout_secs.dup(),
            health_retries: self.health_retries.dup(),
            interval_secs: self.interval_secs.dup(),
            startup_grace_secs: self.startup_grace_secs.dup(),
        }
    }
}

/// How a machine with this record is watched: the record's settings, or else
/// those of the request, but for the health command, which the request sets
/// first.
pub open spec fn monitor_plan(
    request: MonitorMachineView,
    record: VmRecordView,
) -> MonitorPlanView {
    MonitorPlanView {
        name: request.name,
        health_cmd: first_some(request.health_cmd, record.health_cmd),
        health_timeout_secs: match record.health_timeout_secs {
            Some(secs) => secs,
            None => request.health_timeout.secs,
        },
        health_retries: match record.health_retries {
            Some(retries) => retries,
            None => request.health_retries,
        },
        interval_secs: match record.health_interval_secs {
            Some(secs) => secs,
            None => request.interval.secs,
        },
        startup_grace_secs: match record.health_startup_grace_secs {
            Some(secs) => secs,
            None => 0,
        },
    }
}

/// Plans how a machine with this record is watched.
pub fn plan_monitor(request: &MonitorMachine, record: &VmRecord) -> (plan: MonitorPlan)
    ensures
        plan.model() == monitor_plan(request.model(), record.model()),
{
    MonitorPlan {
        name: request.name.dup(),
        health_cmd: dup_first_some(&request.health_cmd, &record.health_cmd),
        health_timeout_secs: match record.health_timeout_secs {
            Some(secs) => secs,
            None => request.health_timeout.secs,
        },
        health_retries: match record.health_retries {
            Some(retries) => retries,
            None => request.health_retries,
        },
        interval_secs: match record.health_interval_secs {
            Some(secs) => secs,
            None => request.interval.secs,
        },
        startup_grace_secs: match record.health_startup_grace_secs {
            Some(secs) => secs,
            None => 0,
        },
    }
}

/// The restart settings of a record, under the policy of the request if it has
/// one.
pub open spec fn restart_settings(
    request: MonitorMachineView,
    record: VmRecordView,
) -> RestartConfigView {
    match request.restart_policy {
        Some(policy) => RestartConfigView { policy, ..record.restart },
        None => record.restart,
    }
}

fn settings_for(request: &MonitorMachine, record: &VmRecord) -> (settings: RestartConfig)
    ensures
        settings.model() == restart_settings(request.model(), record.model()),
{
    let mut settings: RestartConfig = record.restart.dup();
    if let Some(policy) = request.restart_policy {
        settings.policy = policy;
    }
    settings
}

/// What a health check gave.
#[derive(Debug, PartialEq, Eq)]
pub enum HealthOutcome {
    /// The health command succeeded.
    Passed,
    /// The health command failed.
    Failed { exit_code: i32, stderr: Vec<u8> },
    /// The health command could not be run.
    Broken { error: String },
    /// The agent could not be reached.
    Unreachable,
}

/// Mathematical model of a [`HealthOutcome`].
pub enum HealthOutcomeView {
    Passed,
    Failed { exit_code: i32, stderr: Seq<u8> },
    Broken { error: Seq<char> },
    Unreachable,
}

impl Model for HealthOutcome {
    type V = HealthOutcomeView;

    open spec fn model(&self) -> HealthOutcomeView {
        match self {
            HealthOutcome::Passed => HealthOutcomeView::Passed,
            HealthOutcome::Failed { exit_code, stderr } => HealthOutcomeView::Failed { exit_code: exit_code.model(), stderr: stderr.model() },
            HealthOutcome::Broken { error } => HealthOutcomeView::Broken { error: error.model() },
            HealthOutcome::Unreachable => HealthOutcomeView::Unreachable,
        }
    }

    fn dup(&self) -> (copy: Self) {
        match self {
            HealthOutcome::Passed => HealthOutcome::Passed,
            HealthOutcome::Failed { exit_code, stderr } => HealthOutcome::Failed { exit_code: exit_code.dup(), stderr: stderr.dup() },
            HealthOutcome::Broken { error } => HealthOutcome::Broken { error: error.dup() },
            HealthOutcome::Unreachable => HealthOutcome::Unreachable,
        }
    }
}

/// What a health command that ran to its end says: it passed where its exit code
/// is zero.
pub open spec fn health_of(result: ExecResultView) -> HealthOutcomeView {
    if result.exit_code == 0 {
        HealthOutcomeView::Passed
    } else {
        HealthOutcomeView::Failed { exit_code: result.exit_code, stderr: result.stderr }
    }
}

/// Tells what a health command that ran to its end says.
pub fn health_outcome(result: ExecResult) -> (outcome: HealthOutcome)
    ensures
        outcome.model() == health_of(result.model()),
{
    if result.exit_code == 0 {
        HealthOutcome::Passed
    } else {
        HealthOutcome::Failed { exit_code: result.exit_code, stderr: result.stderr }
    }
}

/// What the host reports to a monitor.
#[derive(Debug, PartialEq, Eq)]
pub enum MonitorInput {
    /// The interval is over. `stop` tells whether to stop watching, `elapsed`
    /// how long it took.
    Woke { stop: bool, elapsed: TimeSpan },
    /// Whether the machine's manager could be opened.
    Opened { ok: bool },
    /// Whether the machine's process lives, and how long ago it was started.
    Looked { alive: bool, since_start: TimeSpan },
    /// What the health check gave.
    Health(HealthOutcome),
    /// The exit code of the ended machine, if it is known.
    Exited { exit_code: Option<i32> },
    /// Whether the restart settings call for a restart, and how long to wait.
    RestartChoice { restart: bool, backoff_secs: u64 },
    /// The wait before a restart is over. `stop` tells whether to stop watching.
    WaitOver { stop: bool },
    /// The machine was started, or the text of why it was not.
    StartResult(Result<(), String>),
    /// What the monitor asked for is done.
    Done,
}

/// Mathematical model of a [`MonitorInput`].
pub enum MonitorInputView {
    Woke { stop: bool, elapsed: TimeSpan },
    Opened { ok: bool },
    Looked { alive: bool, since_start: TimeSpan },
    Health(HealthOutcomeView),
    Exited { exit_code: Option<i32> },
    RestartChoice { restart: bool, backoff_secs: u64 },
    WaitOver { stop: bool },
    StartResult(Result<(), Seq<char>>),
    Done,
}

impl Model for MonitorInput {
    type V = MonitorInputView;

    open spec fn model(&self) -> MonitorInputView {
        match self {
            MonitorInput::Woke { stop, elapsed } => MonitorInputView::Woke { stop: stop.model(), elapsed: elapsed.model() },
            MonitorInput::Opened { ok } => MonitorInputView::Opened { ok: ok.model() },
            MonitorInput::Looked { alive, since_start } => MonitorInputView::Looked { alive: alive.model(), since_start: since_start.model() },
            MonitorInput::Health(value) => MonitorInputView::Health(value.model()),
            MonitorInput::Exited { exit_code } => MonitorInputView::Exited { exit_code: exit_code.model() },
            MonitorInput::RestartChoice { restart, backoff_secs } => MonitorInputView::RestartChoice { restart: restart.model(), backoff_secs: backoff_secs.model() },
            MonitorInput::WaitOver { stop } => MonitorInputView::WaitOver { stop: stop.model() },
            MonitorInput::StartResult(value) => MonitorInputView::StartResult(value.model()),
            MonitorInput::Done => MonitorInputView::Done,
        }
    }

    fn dup(&self) -> (copy: Self) {
        match self {
            MonitorInput::Woke { stop, elapsed } => MonitorInput::Woke { stop: stop.dup(), elapsed: elapsed.dup() },
            MonitorInput::Opened { ok } => MonitorInput::Opened { ok: ok.dup() },
            MonitorInput::Looked { alive, since_start } => MonitorInput::Looked { alive: alive.dup(), since_start: since_start.dup() },
            MonitorInput::Health(value) => MonitorInput::Health(value.dup()),
            MonitorInput::Exited { exit_code } => MonitorInput::Exited { exit_code: exit_code.dup() },
            MonitorInput::RestartChoice { restart, backoff_secs } => MonitorInput::RestartChoice { restart: restart.dup(), backoff_secs: backoff_secs.dup() },
            MonitorInput::WaitOver { stop } => MonitorInput::WaitOver { stop: stop.dup() },
            MonitorInput::StartResult(value) => MonitorInput::StartResult(value.dup()),
            MonitorInput::Done => MonitorInput::Done,
        }
    }
}

/// What a monitor asks the host to do next.
#[derive(Debug, PartialEq, Eq)]
pub enum MonitorTask {
    /// Wait this many seconds.
    Wait { secs: u64 },
    /// Open the machine's manager.
    OpenManager,
    /// Look whether the machine's process lives.
    Look,
    /// Run the health command.
    CheckHealth(GuestCommand),
    /// Stop the unhealthy machine.
    StopUnhealthy(StopMachine),
    /// Collect the exit code of the ended machine.
    CollectExit,
    /// Note the end of the machine in its record.
    SaveExit { exit_code: Option<i32> },
    /// Decide about a restart by these settings.
    ChooseRestart { restart: RestartConfig, exit_code: Option<i32> },
    /// Note the number of restarts in the record.
    SaveRestartCount { count: u32, backoff_secs: u64 },
    /// Wait this many seconds before the restart.
    Backoff { secs: u64 },
    /// Start the machine.
    Restart(StartMachine),
    /// Note in the record that the user stopped watching.
    SaveUserStopped,
    /// The monitor has ended.
    Finished(MonitorResult),
}

/// Mathematical model of a [`MonitorTask`].
pub enum MonitorTaskView {
    Wait { secs: u64 },
    OpenManager,
    Look,
    CheckHealth(GuestCommandView),
    StopUnhealthy(StopMachineView),
    CollectExit,
    SaveExit { exit_code: Option<i32> },
    ChooseRestart { restart: RestartConfigView, exit_code: Option<i32> },
    SaveRestartCount { count: u32, backoff_secs: u64 },
    Backoff { secs: u64 },
    Restart(StartMachineView),
    SaveUserStopped,
    Finished(MonitorResultView),
}

impl Model for MonitorTask {
    type V = MonitorTaskView;

    open spec fn model(&self) -> MonitorTaskView {
        match self {
            MonitorTask::Wait { secs } => MonitorTaskView::Wait { secs: secs.model() },
            MonitorTask::OpenManager => MonitorTaskView::OpenManager,
            MonitorTask::Look => MonitorTaskView::Look,
            MonitorTask::CheckHealth(value) => MonitorTaskView::CheckHealth(value.model()),
            MonitorTask::StopUnhealthy(value) => MonitorTaskView::StopUnhealthy(value.model()),
            MonitorTask::CollectExit => MonitorTaskView::CollectExit,
            MonitorTask::SaveExit { exit_code } => MonitorTaskView::SaveExit { exit_code: exit_code.model() },
            MonitorTask::ChooseRestart { restart, exit_code } => MonitorTaskView::ChooseRestart { restart: restart.model(), exit_code: exit_code.model() },
            MonitorTask::SaveRestartCount { count, backoff_secs } => MonitorTaskView::SaveRestartCount { count: count.model(), backoff_secs: backoff_secs.model() },
            MonitorTask::Backoff { secs } => MonitorTaskView::Backoff { secs: secs.model() },
            MonitorTask::Restart(value) => MonitorTaskView::Restart(value.model()),
            MonitorTask::SaveUserStopped => MonitorTaskView::SaveUserStopped,
            MonitorTask::Finished(value) => MonitorTaskView::Finished(value.model()),
        }
    }

    fn dup(&self) -> (copy: Self) {
        match self {
            MonitorTask::Wait { secs } => MonitorTask::Wait { secs: secs.dup() },
            MonitorTask::OpenManager => MonitorTask::OpenManager,
            MonitorTask::Look => MonitorTask::Look,
            MonitorTask::CheckHealth(value) => MonitorTask::CheckHealth(value.dup()),
            MonitorTask::StopUnhealthy(value) => MonitorTask::StopUnhealthy(value.dup()),
            MonitorTask::CollectExit => MonitorTask::CollectExit,
            MonitorTask::SaveExit { exit_code } => MonitorTask::SaveExit { exit_code: exit_code.dup() },
            MonitorTask::ChooseRestart { restart, exit_code } => MonitorTask::ChooseRestart { restart: restart.dup(), exit_code: exit_code.dup() },
            MonitorTask::SaveRestartCount { count, backoff_secs } => MonitorTask::SaveRestartCount { count: count.dup(), backoff_secs: backoff_secs.dup() },
            MonitorTask::Backoff { secs } => MonitorTask::Backoff { secs: secs.dup() },
            MonitorTask::Restart(value) => MonitorTask::Restart(value.dup()),
            MonitorTask::SaveUserStopped => MonitorTask::SaveUserStopped,
            MonitorTask::Finished(value) => MonitorTask::Finished(value.dup()),
        }
    }
}

/// A monitor at work.
#[derive(Debug, PartialEq, Eq)]
pub struct MonitorState {
    pub plan: MonitorPlan,
    /// Restart settings and how often the machine was restarted.
    pub restart: RestartConfig,
    /// Health checks that failed in a row.
    pub consecutive: u32,
    /// What the host is asked to do.
    pub task: MonitorTask,
}

/// Mathematical model of a [`MonitorState`].
pub struct MonitorStateView {
    pub plan: MonitorPlanView,
    pub restart: RestartConfigView,
    pub consecutive: u32,
    pub task: MonitorTaskView,
}

impl Model for MonitorState {
    type V = MonitorStateView;

    open spec fn model(&self) -> MonitorStateView {
        MonitorStateView {
            plan: self.plan.model(),
            restart: self.restart.model(),
            consecutive: self.consecutive.model(),
            task: self.task.model(),
        }
    }

    fn dup(&self) -> (copy: Self) {
        MonitorState {
            plan: self.plan.dup(),
            restart: self.restart.dup(),
            consecutive: self.consecutive.dup(),
            task: self.task.dup(),
        }
    }
}

/// A length of time in nanoseconds.
pub open spec fn nanoseconds(span: TimeSpan) -> nat {
    (span.secs * 1_000_000_000 + span.nanos) as nat
}

/// Whether an interval took so long that the host must have slept.
pub open spec fn slept(elapsed: TimeSpan, interval_secs: u64) -> bool {
    nanoseconds(elapsed) > interval_secs * 3_000_000_000
}

fn has_slept(elapsed: TimeSpan, interval_secs: u64) -> (slept_: bool)
    ensures
        slept_ == slept(elapsed, interval_secs),
{
    let passed: u128 = elapsed.secs as u128 * 1_000_000_000 + elapsed.nanos as u128;
    let limit: u128 = interval_secs as u128 * 3_000_000_000;
    passed > limit
}

/// Whether the machine was started less than the grace time ago.
pub open spec fn in_grace(since_start: TimeSpan, grace_secs: u64) -> bool {
    grace_secs > 0 && nanoseconds(since_start) < grace_secs * 1_000_000_000
}

fn is_in_grace(since_start: TimeSpan, grace_secs: u64) -> (within: bool)
    ensures
        within == in_grace(since_start, grace_secs),
{
    let passed: u128 = since_start.secs as u128 * 1_000_000_000 + since_start.nanos as u128;
    let limit: u128 = grace_secs as u128 * 1_000_000_000;
    grace_secs > 0 && passed < limit
}

/// The health command as a guest command.
pub open spec fn health_command(plan: MonitorPlanView, command: Seq<Seq<char>>) -> GuestCommandView {
    GuestCommandView {
        command,
        env: Seq::empty(),
        workdir: None,
        timeout: Some(TimeSpan { secs: plan.health_timeout_secs, nanos: 0 }),
        stdin: None,
        tty: false,
    }
}

/// The monitor waiting for its next interval.
pub open spec fn waiting(state: MonitorStateView) -> MonitorStateView {
    MonitorStateView { task: MonitorTaskView::Wait { secs: state.plan.interval_secs }, ..state }
}

/// The number of failed checks in a row after a health check.
pub open spec fn failures_after(consecutive: u32, outcome: HealthOutcomeView) -> int {
    if outcome is Passed {
        0
    } else {
        consecutive + 1
    }
}

/// What a health check reports, given the failed checks before and after it.
pub open spec fn health_events(
    before: u32,
    after: u32,
    retries: u32,
    outcome: HealthOutcomeView,
) -> Seq<MonitorEventView> {
    match outcome {
        HealthOutcomeView::Passed => if before > 0 {
            seq![MonitorEventView::HealthRecovered]
        } else {
            Seq::empty()
        },
        HealthOutcomeView::Failed { exit_code, stderr } => seq![
            MonitorEventView::HealthFailed {
                exit_code,
                consecutive: after,
                retries,
                stderr: trimmed(lossy_text(stderr)),
            },
        ],
        HealthOutcomeView::Broken { error } => seq![
            MonitorEventView::HealthError { consecutive: after, retries, error },
        ],
        HealthOutcomeView::Unreachable => seq![
            MonitorEventView::AgentUnreachable { consecutive: after, retries },
        ],
    }
}

/// The monitor, and what it reports, after an input. An input that does not
/// answer what the monitor asked for changes nothing.
pub open spec fn monitor_next(
    state: MonitorStateView,
    input: MonitorInputView,
) -> (MonitorStateView, Seq<MonitorEventView>) {
    let none = Seq::<MonitorEventView>::empty();
    match (state.task, input) {
        (MonitorTaskView::Wait { .. }, MonitorInputView::Woke { stop, elapsed }) => if stop {
            (MonitorStateView { task: MonitorTaskView::SaveUserStopped, ..state }, none)
        } else if slept(elapsed, state.plan.interval_secs) {
            (
                waiting(MonitorStateView { consecutive: 0, ..state }),
                seq![
                    MonitorEventView::SuspendDetected {
                        sleep_secs: if elapsed.secs > state.plan.interval_secs {
                            (elapsed.secs - state.plan.interval_secs) as u64
                        } else {
                            0
                        },
                    },
                ],
            )
        } else {
            (MonitorStateView { task: MonitorTaskView::OpenManager, ..state }, none)
        },
        (MonitorTaskView::OpenManager, MonitorInputView::Opened { ok }) => if ok {
            (MonitorStateView { task: MonitorTaskView::Look, ..state }, none)
        } else {
            (waiting(state), none)
        },
        (MonitorTaskView::Look, MonitorInputView::Looked { alive, since_start }) => if !alive {
            (
                MonitorStateView { consecutive: 0, task: MonitorTaskView::CollectExit, ..state },
                none,
            )
        } else if in_grace(since_start, state.plan.startup_grace_secs) || state.plan.health_cmd
            is None {
            (waiting(state), none)
        } else {
            (
                MonitorStateView {
                    task: MonitorTaskView::CheckHealth(
                        health_command(state.plan, state.plan.health_cmd->0),
                    ),
                    ..state
                },
                none,
            )
        },
        (MonitorTaskView::CheckHealth(_), MonitorInputView::Health(outcome)) => {
            let after = failures_after(state.consecutive, outcome) as u32;
            let events = health_events(
                state.consecutive,
                after,
                state.plan.health_retries,
                outcome,
            );
            let next = MonitorStateView { consecutive: after, ..state };
            if after >= state.plan.health_retries {
                (
                    MonitorStateView {
                        task: MonitorTaskView::StopUnhealthy(
                            StopMachineView { name: state.plan.name },
                        ),
                        ..next
                    },
                    events.push(MonitorEventView::UnhealthyStopping),
                )
            } else {
                (waiting(next), events)
            }
        },
        (MonitorTaskView::StopUnhealthy(_), MonitorInputView::Done) => (waiting(state), none),
        (MonitorTaskView::CollectExit, MonitorInputView::Exited { exit_code }) => (
            MonitorStateView { task: MonitorTaskView::SaveExit { exit_code }, ..state },
            seq![MonitorEventView::MachineExited { exit_code }],
        ),
        (MonitorTaskView::SaveExit { exit_code }, MonitorInputView::Done) => (
            MonitorStateView {
                task: MonitorTaskView::ChooseRestart { restart: state.restart, exit_code },
                ..state
            },
            none,
        ),
        (
            MonitorTaskView::ChooseRestart { .. },
            MonitorInputView::RestartChoice { restart, backoff_secs },
        ) => if restart {
            let count = (state.restart.restart_count + 1) as u32;
            (
                MonitorStateView {
                    restart: RestartConfigView { restart_count: count, ..state.restart },
                    task: MonitorTaskView::SaveRestartCount { count, backoff_secs },
                    ..state
                },
                seq![MonitorEventView::Restarting { attempt: count, backoff_secs }],
            )
        } else {
            (
                MonitorStateView { task: MonitorTaskView::SaveUserStopped, ..state },
                seq![
                    MonitorEventView::NotRestarting {
                        policy: state.restart.policy,
                        count: state.restart.restart_count,
                        max_retries: state.restart.max_retries,
                    },
                ],
            )
        },
        (MonitorTaskView::SaveRestartCount { backoff_secs, .. }, MonitorInputView::Done) => (
            MonitorStateView { task: MonitorTaskView::Backoff { secs: backoff_secs }, ..state },
            none,
        ),
        (MonitorTaskView::Backoff { .. }, MonitorInputView::WaitOver { stop }) => if stop {
            (MonitorStateView { task: MonitorTaskView::SaveUserStopped, ..state }, none)
        } else {
            (
                MonitorStateView {
                    task: MonitorTaskView::Restart(
                        StartMachineView {
                            name: state.plan.name,
                            forkable: false,
                            proxy: None,
                            no_proxy: None,
                            snapshot_dir: None,
                        },
                    ),
                    ..state
                },
                none,
            )
        },
        (MonitorTaskView::Restart(_), MonitorInputView::StartResult(result)) => (
            waiting(state),
            match result {
                Ok(_) => seq![MonitorEventView::Restarted],
                Err(error) => seq![MonitorEventView::RestartFailed { error }],
            },
        ),
        (MonitorTaskView::SaveUserStopped, MonitorInputView::Done) => (
            MonitorStateView {
                task: MonitorTaskView::Finished(MonitorResultView { name: state.plan.name }),
                ..state
            },
            seq![MonitorEventView::Stopped { name: state.plan.name }],
        ),
        _ => (state, none),
    }
}

/// Whether the counters of a monitor have room for what an input adds to them.
pub open spec fn can_count(state: MonitorStateView, input: MonitorInputView) -> bool {
    match (state.task, input) {
        (MonitorTaskView::CheckHealth(_), MonitorInputView::Health(outcome)) => outcome is Passed
            || state.consecutive < u32::MAX,
        (MonitorTaskView::ChooseRestart { .. }, MonitorInputView::RestartChoice { restart, .. }) =>
            !restart || state.restart.restart_count < u32::MAX,
        _ => true,
    }
}

impl MonitorState {
    fn wait(&mut self)
        ensures
            final(self).model() == waiting(old(self).model()),
    {
        self.task = MonitorTask::Wait { secs: self.plan.interval_secs };
    }

    fn take_health(&mut self, outcome: HealthOutcome) -> (events: Vec<MonitorEvent>)
        requires
            can_count(old(self).model(), MonitorInputView::Health(outcome.model())),
            old(self).task is CheckHealth,
        ensures
            (final(self).model(), events.model()) == monitor_next(
                old(self).model(),
                MonitorInputView::Health(outcome.model()),
            ),
    {
        let before: u32 = self.consecutive;
        let retries: u32 = self.plan.health_retries;
        let mut events: Vec<MonitorEvent> = empty_list();
        match outcome {
            HealthOutcome::Passed => {
                if before > 0 {
                    events = one_of(MonitorEvent::HealthRecovered);
                }
                self.consecutive = 0;
            },
            HealthOutcome::Failed { exit_code, stderr } => {
                self.consecutive = before + 1;
                assert(stderr.model() =~= stderr@);
                let text: String = trim(text_of_bytes(&stderr).as_str());
                events = one_of(
                    MonitorEvent::HealthFailed {
                        exit_code,
                        consecutive: before + 1,
                        retries,
                        stderr: text,
                    },
                );
            },
            HealthOutcome::Broken { error } => {
                self.consecutive = before + 1;
                events = one_of(
                    MonitorEvent::HealthError { consecutive: before + 1, retries, error },
                );
            },
            HealthOutcome::Unreachable => {
                self.consecutive = before + 1;
                events = one_of(
                    MonitorEvent::AgentUnreachable { consecutive: before + 1, retries },
                );
            },
        }
        if self.consecutive >= retries {
            push_to(&mut events, MonitorEvent::UnhealthyStopping);
            self.task = MonitorTask::StopUnhealthy(StopMachine::new(self.plan.name.dup()));
        } else {
            self.wait();
        }
        events
    }

    fn take_choice(&mut self, restart: bool, backoff_secs: u64) -> (events: Vec<MonitorEvent>)
        requires
            can_count(
                old(self).model(),
                MonitorInputView::RestartChoice { restart, backoff_secs },
            ),
            old(self).task is ChooseRestart,
        ensures
            (final(self).model(), events.model()) == monitor_next(
                old(self).model(),
                MonitorInputView::RestartChoice { restart, backoff_secs },
            ),
    {
        if restart {
            let count: u32 = self.restart.restart_count + 1;
            self.restart.restart_count = count;
            self.task = MonitorTask::SaveRestartCount { count, backoff_secs };
            one_of(MonitorEvent::Restarting { attempt: count, backoff_secs })
        } else {
            self.task = MonitorTask::SaveUserStopped;
            one_of(
                MonitorEvent::NotRestarting {
                    policy: self.restart.policy,
                    count: self.restart.restart_count,
                    max_retries: self.restart.max_retries,
                },
            )
        }
    }

    /// Takes what the host reports, and tells what the monitor reports.
    pub fn advance(&mut self, input: MonitorInput) -> (events: Vec<MonitorEvent>)
        requires
            can_count(old(self).model(), input.model()),
        ensures
            (final(self).model(), events.model()) == monitor_next(old(self).model(), input.model()),
    {
        let none: Vec<MonitorEvent> = empty_list();
        match (&self.task, input) {
            (MonitorTask::Wait { .. }, MonitorInput::Woke { stop, elapsed }) => {
                if stop {
                    self.task = MonitorTask::SaveUserStopped;
                    none
                } else if has_slept(elapsed, self.plan.interval_secs) {
                    self.consecutive = 0;
                    self.wait();
                    one_of(
                        MonitorEvent::SuspendDetected {
                            sleep_secs: elapsed.secs.saturating_sub(self.plan.interval_secs),
                        },
                    )
                } else {
                    self.task = MonitorTask::OpenManager;
                    none
                }
            },
            (MonitorTask::OpenManager, MonitorInput::Opened { ok }) => {
                if ok {
                    self.task = MonitorTask::Look;
                } else {
                    self.wait();
                }
                none
            },
            (MonitorTask::Look, MonitorInput::Looked { alive, since_start }) => {
                if !alive {
                    self.consecutive = 0;
                    self.task = MonitorTask::CollectExit;
                } else if is_in_grace(since_start, self.plan.startup_grace_secs) {
                    self.wait();
                } else {
                    let task: Option<MonitorTask> = match &self.plan.health_cmd {
                        None => None,
                        Some(command) => Some(
                            MonitorTask::CheckHealth(
                                GuestCommand {
                                    command: command.dup(),
                                    env: empty_list(),
                                    workdir: None,
                                    timeout: Some(
                                        TimeSpan::from_secs(self.plan.health_timeout_secs),
                                    ),
                                    stdin: None,
                                    tty: false,
                                },
                            ),
                        ),
                    };
                    match task {
                        None => {
                            self.wait();
                        },
                        Some(task) => {
                            self.task = task;
                        },
                    }
                }
                none
            },
            (MonitorTask::CheckHealth(_), MonitorInput::Health(outcome)) => {
                self.take_health(outcome)
            },
            (MonitorTask::StopUnhealthy(_), MonitorInput::Done) => {
                self.wait();
                none
            },
            (MonitorTask::CollectExit, MonitorInput::Exited { exit_code }) => {
                self.task = MonitorTask::SaveExit { exit_code };
                one_of(MonitorEvent::MachineExited { exit_code })
            },
            (MonitorTask::SaveExit { exit_code }, MonitorInput::Done) => {
                let exit_code: Option<i32> = *exit_code;
                self.task = MonitorTask::ChooseRestart { restart: self.restart.dup(), exit_code };
                none
            },
            (
                MonitorTask::ChooseRestart { .. },
                MonitorInput::RestartChoice { restart, backoff_secs },
            ) => { self.take_choice(restart, backoff_secs) },
            (MonitorTask::SaveRestartCount { backoff_secs, .. }, MonitorInput::Done) => {
                let secs: u64 = *backoff_secs;
                self.task = MonitorTask::Backoff { secs };
                none
            },
            (MonitorTask::Backoff { .. }, MonitorInput::WaitOver { stop }) => {
                if stop {
                    self.task = MonitorTask::SaveUserStopped;
                } else {
                    self.task = MonitorTask::Restart(StartMachine::new(self.plan.name.dup()));
                }
                none
            },
            (MonitorTask::Restart(_), MonitorInput::StartResult(result)) => {
                self.wait();
                match result {
                    Ok(_) => one_of(MonitorEvent::Restarted),
                    Err(error) => one_of(MonitorEvent::RestartFailed { error }),
                }
            },
            (MonitorTask::SaveUserStopped, MonitorInput::Done) => {
                self.task = MonitorTask::Finished(MonitorResult { name: self.plan.name.dup() });
                one_of(MonitorEvent::Stopped { name: self.plan.name.dup() })
            },
            _ => none,
        }
    }
}

/// What setting up a monitor has learnt so far.
#[derive(Debug, PartialEq, Eq)]
pub struct MonitorSetup {
    /// What reading the record gave.
    pub record: Option<Result<Option<VmRecord>, Error>>,
    /// What opening the machine's manager gave.
    pub manager: Option<Result<(), String>>,
    /// Whether the machine's process lives.
    pub alive: Option<bool>,
    /// Whether the start was reported.
    pub reported: bool,
    /// What starting the machine gave.
    pub started: Option<Result<(), Error>>,
    /// What reading the record again after that gave.
    pub reloaded: Option<Result<Option<VmRecord>, Error>>,
}

/// Mathematical model of a [`MonitorSetup`].
pub struct MonitorSetupView {
    pub record: Option<Result<Option<VmRecordView>, ErrorView>>,
    pub manager: Option<Result<(), Seq<char>>>,
    pub alive: Option<bool>,
    pub reported: bool,
    pub started: Option<Result<(), ErrorView>>,
    pub reloaded: Option<Result<Option<VmRecordView>, ErrorView>>,
}

impl Model for MonitorSetup {
    type V = MonitorSetupView;

    open spec fn model(&self) -> MonitorSetupView {
        MonitorSetupView {
            record: self.record.model(),
            manager: self.manager.model(),
            alive: self.alive.model(),
            reported: self.reported.model(),
            started: self.started.model(),
            reloaded: self.reloaded.model(),
        }
    }

    fn dup(&self) -> (copy: Self) {
        MonitorSetup {
            record: self.record.dup(),
            manager: self.manager.dup(),
            alive: self.alive.dup(),
            reported: self.reported.dup(),
            started: self.started.dup(),
            reloaded: self.reloaded.dup(),
        }
    }
}

/// What setting up a monitor does next.
#[derive(Debug, PartialEq, Eq)]
pub enum SetupStep {
    /// Read the record.
    LoadRecord,
    /// Open the machine's manager.
    OpenManager,
    /// Look whether the machine's process lives.
    Look,
    /// Report this event.
    Report(MonitorEvent),
    /// Start the machine.
    Start(StartMachine),
    /// Read the record again.
    ReloadRecord,
    /// The monitor can start, reporting this event first.
    Ready { state: MonitorState, event: MonitorEvent },
    /// The monitor cannot start.
    Failed(Error),
}

/// Mathematical model of a [`SetupStep`].
pub enum SetupStepView {
    LoadRecord,
    OpenManager,
    Look,
    Report(MonitorEventView),
    Start(StartMachineView),
    ReloadRecord,
    Ready { state: MonitorStateView, event: MonitorEventView },
    Failed(ErrorView),
}

impl Model for SetupStep {
    type V = SetupStepView;

    open spec fn model(&self) -> SetupStepView {
        match self {
            SetupStep::LoadRecord => SetupStepView::LoadRecord,
            SetupStep::OpenManager => SetupStepView::OpenManager,
            SetupStep::Look => SetupStepView::Look,
            SetupStep::Report(value) => SetupStepView::Report(value.model()),
            SetupStep::Start(value) => SetupStepView::Start(value.model()),
            SetupStep::ReloadRecord => SetupStepView::ReloadRecord,
            SetupStep::Ready { state, event } => SetupStepView::Ready { state: state.model(), event: event.model() },
            SetupStep::Failed(value) => SetupStepView::Failed(value.model()),
        }
    }

    fn dup(&self) -> (copy: Self) {
        match self {
            SetupStep::LoadRecord => SetupStep::LoadRecord,
            SetupStep::OpenManager => SetupStep::OpenManager,
            SetupStep::Look => SetupStep::Look,
            SetupStep::Report(value) => SetupStep::Report(value.dup()),
            SetupStep::Start(value) => SetupStep::Start(value.dup()),
            SetupStep::ReloadRecord => SetupStep::ReloadRecord,
            SetupStep::Ready { state, event } => SetupStep::Ready { state: state.dup(), event: event.dup() },
            SetupStep::Failed(value) => SetupStep::Failed(value.dup()),
        }
    }
}

/// A monitor that starts to watch, and what it reports.
pub open spec fn monitor_ready(
    plan: MonitorPlanView,
    restart: RestartConfigView,
) -> SetupStepView {
    SetupStepView::Ready {
        state: MonitorStateView {
            plan,
            restart,
            consecutive: 0,
            task: MonitorTaskView::Wait { secs: plan.interval_secs },
        },
        event: MonitorEventView::Monitoring {
            name: plan.name,
            policy: restart.policy,
            interval_secs: plan.interval_secs,
            health: match plan.health_cmd {
                Some(command) => Some(
                    MonitorHealthConfigView {
                        command,
                        timeout_secs: plan.health_timeout_secs,
                        retries: plan.health_retries,
                    },
                ),
                None => None,
            },
        },
    }
}

/// What setting up a monitor does next.
pub open spec fn setup_step(request: MonitorMachineView, setup: MonitorSetupView) -> SetupStepView {
    match setup.record {
        None => SetupStepView::LoadRecord,
        Some(loaded) => match record_found(request.name, loaded) {
            Err(error) => SetupStepView::Failed(error),
            Ok(record) => match setup.manager {
                None => SetupStepView::OpenManager,
                Some(Err(reason)) => SetupStepView::Failed(
                    ErrorView::Agent { operation: "create agent manager"@, reason },
                ),
                Some(Ok(_)) => match setup.alive {
                    None => SetupStepView::Look,
                    Some(true) => monitor_ready(
                        monitor_plan(request, record),
                        restart_settings(request, record),
                    ),
                    Some(false) => if !setup.reported {
                        SetupStepView::Report(MonitorEventView::Starting { name: request.name })
                    } else {
                        match setup.started {
                            None => SetupStepView::Start(
                                StartMachineView {
                                    name: request.name,
                                    forkable: false,
                                    proxy: None,
                                    no_proxy: None,
                                    snapshot_dir: None,
                                },
                            ),
                            Some(Err(error)) => SetupStepView::Failed(error),
                            Some(Ok(_)) => match setup.reloaded {
                                None => SetupStepView::ReloadRecord,
                                Some(reloaded) => match record_found(request.name, reloaded) {
                                    Err(error) => SetupStepView::Failed(error),
                                    Ok(again) => monitor_ready(
                                        monitor_plan(request, record),
                                        restart_settings(request, again),
                                    ),
                                },
                            },
                        }
                    },
                },
            },
        },
    }
}

fn make_ready(plan: MonitorPlan, restart: RestartConfig) -> (step: SetupStep)
    ensures
        step.model() == monitor_ready(plan.model(), restart.model()),
{
    let health: Option<MonitorHealthConfig> = match &plan.health_cmd {
        Some(command) => Some(
            MonitorHealthConfig {
                command: command.dup(),
                timeout_secs: plan.health_timeout_secs,
                retries: plan.health_retries,
            },
        ),
        None => None,
    };
    let event: MonitorEvent = MonitorEvent::Monitoring {
        name: plan.name.dup(),
        policy: restart.policy,
        interval_secs: plan.interval_secs,
        health,
    };
    let secs: u64 = plan.interval_secs;
    SetupStep::Ready {
        state: MonitorState { plan, restart, consecutive: 0, task: MonitorTask::Wait { secs } },
        event,
    }
}

/// Decides what setting up a monitor does next.
pub fn next_setup_step(request: &MonitorMachine, setup: &MonitorSetup) -> (step: SetupStep)
    ensures
        step.model() == setup_step(request.model(), setup.model()),
{
    let loaded = match &setup.record {
        None => {
            return SetupStep::LoadRecord;
        },
        Some(loaded) => loaded,
    };
    let record: VmRecord = match get_record(request.name.as_str(), loaded) {
        Err(error) => {
            return SetupStep::Failed(error);
        },
        Ok(record) => record,
    };
    match &setup.manager {
        None => {
            return SetupStep::OpenManager;
        },
        Some(Err(reason)) => {
            return SetupStep::Failed(Error::agent("create agent manager", reason.dup()));
        },
        Some(Ok(_)) => {},
    }
    match setup.alive {
        None => {
            return SetupStep::Look;
        },
        Some(alive) => {
            if alive {
                return make_ready(plan_monitor(request, &record), settings_for(request, &record));
            }
        },
    }
    if !setup.reported {
        return SetupStep::Report(MonitorEvent::Starting { name: request.name.dup() });
    }
    match &setup.started {
        None => SetupStep::Start(StartMachine::new(request.name.dup())),
        Some(Err(error)) => SetupStep::Failed(error.dup()),
        Some(Ok(_)) => match &setup.reloaded {
            None => SetupStep::ReloadRecord,
            Some(reloaded) => match get_record(request.name.as_str(), reloaded) {
                Err(error) => SetupStep::Failed(error),
                Ok(again) => make_ready(
                    plan_monitor(request, &record),
                    settings_for(request, &again),
                ),
            },
        },
    }
}

/// Law: a health check that passes, a suspended host and an ended machine each
/// put the count of failed checks back to zero.
pub proof fn law_failures_are_reset(state: MonitorStateView, input: MonitorInputView)
    requires
        (state.task is CheckHealth && input == MonitorInputView::Health(HealthOutcomeView::Passed))
            || (state.task is Wait && (input matches MonitorInputView::Woke { stop, elapsed }
            && !stop && slept(elapsed, state.plan.interval_secs))) || (state.task is Look && (
        input matches MonitorInputView::Looked { alive, .. } && !alive)),
    ensures
        monitor_next(state, input).0.consecutive == 0,
{
}

/// Law: a machine is stopped as unhealthy exactly when a health check brings
/// the failed checks in a row up to the allowed number.
pub proof fn law_unhealthy_after_retries(state: MonitorStateView, outcome: HealthOutcomeView)
    requires
        can_count(state, MonitorInputView::Health(outcome)),
        state.task is CheckHealth,
    ensures
        ({
            let next = monitor_next(state, MonitorInputView::Health(outcome)).0;
            next.consecutive == failures_after(state.consecutive, outcome) && (next.task
                is StopUnhealthy <==> next.consecutive >= state.plan.health_retries)
        }),
{
}

/// Law: every restart is counted once, and nothing else changes the count or the
/// plan.
pub proof fn law_restarts_are_counted(state: MonitorStateView, input: MonitorInputView)
    requires
        can_count(state, input),
    ensures
        ({
            let next = monitor_next(state, input).0;
            next.plan == state.plan && next.restart.policy == state.restart.policy
                && next.restart.restart_count == state.restart.restart_count + (if state.task
                is ChooseRestart && (input matches MonitorInputView::RestartChoice { restart, .. }
                && restart) {
                1int
            } else {
                0int
            })
        }),
{
}

/// Law: once it is told to stop, between two checks or before a restart, a
/// monitor notes that in the record and ends.
pub proof fn law_stop_ends_monitor(state: MonitorStateView, input: MonitorInputView)
    requires
        (state.task is Wait && (input matches MonitorInputView::Woke { stop, .. } && stop)) || (
        state.task is Backoff && input == (MonitorInputView::WaitOver { stop: true })),
    ensures
        ({
            let stopping = monitor_next(state, input).0;
            let ended = monitor_next(stopping, MonitorInputView::Done);
            stopping.task is SaveUserStopped && ended.0.task == MonitorTaskView::Finished(
                MonitorResultView { name: state.plan.name },
            ) && ended.1 == seq![MonitorEventView::Stopped { name: state.plan.name }]
        }),
{
}

/// A monitor after several inputs.
pub open spec fn monitor_after(
    state: MonitorStateView,
    inputs: Seq<MonitorInputView>,
) -> MonitorStateView
    decreases inputs.len(),
{
    if inputs.len() == 0 {
        state
    } else {
        monitor_next(monitor_after(state, inputs.drop_last()), inputs.last()).0
    }
}

/// What a monitor reports over several inputs.
pub open spec fn monitor_reports(
    state: MonitorStateView,
    inputs: Seq<MonitorInputView>,
) -> Seq<MonitorEventView>
    decreases inputs.len(),
{
    if inputs.len() == 0 {
        Seq::empty()
    } else {
        monitor_reports(state, inputs.drop_last()) + monitor_next(
            monitor_after(state, inputs.drop_last()),
            inputs.last(),
        ).1
    }
}

/// The reports of a monitor never say that monitoring begins or that the machine
/// is started, and say that it stopped exactly as the last of a monitor that is
/// finished.
proof fn lemma_monitor_reports(state: MonitorStateView, inputs: Seq<MonitorInputView>)
    requires
        !(state.task is Finished),
    ensures
        ({
            let reports = monitor_reports(state, inputs);
            &&& forall|i: int|
                0 <= i < reports.len() ==> !((#[trigger] reports[i]) is Monitoring)
                    && !(reports[i] is Starting)
            &&& forall|i: int|
                0 <= i < reports.len() && (#[trigger] reports[i]) is Stopped ==> i == reports.len()
                    - 1 && monitor_after(state, inputs).task is Finished
            &&& monitor_after(state, inputs).task is Finished ==> reports.len() > 0
                && reports.last() is Stopped
        }),
    decreases inputs.len(),
{
    if inputs.len() > 0 {
        let before = inputs.drop_last();
        lemma_monitor_reports(state, before);
        let earlier = monitor_reports(state, before);
        let step = monitor_next(monitor_after(state, before), inputs.last());
        let reports = monitor_reports(state, inputs);
        assert(reports == earlier + step.1);
        assert(forall|i: int| 0 <= i < step.1.len() ==> reports[earlier.len() + i] == step.1[i]);
        if monitor_after(state, before).task is Finished {
            assert(step.1.len() == 0);
            assert(reports =~= earlier);
        } else {
            assert forall|i: int| 0 <= i < reports.len() && (#[trigger] reports[i])
                is Stopped implies i == reports.len() - 1 && step.0.task is Finished by {
                if i < earlier.len() {
                    assert(reports[i] == earlier[i]);
                } else {
                    assert(reports[i] == step.1[i - earlier.len()]);
                }
            }
        }
    }
}

/// Law: over a whole run, whatever happens, a monitor reports that monitoring
/// begins once, before everything but the start of the machine, and that it
/// stopped at most once, as the last thing, exactly where it has finished.
pub proof fn law_monitor_run_is_framed(
    request: MonitorMachineView,
    setup: MonitorSetupView,
    inputs: Seq<MonitorInputView>,
)
    requires
        setup_step(request, setup) is Ready,
    ensures
        ({
            let state = setup_step(request, setup)->Ready_state;
            let reports = seq![setup_step(request, setup)->Ready_event] + monitor_reports(
                state,
                inputs,
            );
            &&& reports[0] is Monitoring
            &&& forall|i: int|
                0 < i < reports.len() ==> !((#[trigger] reports[i]) is Monitoring)
                    && !(reports[i] is Starting)
            &&& forall|i: int|
                0 <= i < reports.len() && (#[trigger] reports[i]) is Stopped ==> i == reports.len()
                    - 1
            &&& monitor_after(state, inputs).task is Finished <==> reports.last() is Stopped
        }),
{
    let state = setup_step(request, setup)->Ready_state;
    let event = setup_step(request, setup)->Ready_event;
    lemma_monitor_reports(state, inputs);
    let rest = monitor_reports(state, inputs);
    let reports = seq![event] + rest;
    assert forall|i: int| 0 < i < reports.len() implies (#[trigger] reports[i]) == rest[i - 1] by {}
}

/// Law: what is reported while a monitor is set up is only that the machine is
/// started.
pub proof fn law_setup_reports_only_the_start(request: MonitorMachineView, setup: MonitorSetupView)
    requires
        setup_step(request, setup) is Report,
    ensures
        setup_step(request, setup) == SetupStepView::Report(
            MonitorEventView::Starting { name: request.name },
        ),
{
}

/// Law: a wait before a restart that is over, without a word to stop, leads to a
/// start of the watched machine, as it is stored and not from a snapshot. What comes
/// of the start is reported, and then the monitor waits for its next interval.
pub proof fn law_backoff_ends_in_a_start(state: MonitorStateView, result: Result<(), Seq<char>>)
    requires
        state.task is Backoff,
    ensures
        ({
            let restarting = monitor_next(state, MonitorInputView::WaitOver { stop: false });
            let after = monitor_next(restarting.0, MonitorInputView::StartResult(result));
            &&& restarting.0.task matches MonitorTaskView::Restart(start) && start.name
                == state.plan.name && start.snapshot_dir is None && !start.forkable && start.proxy
                is None && start.no_proxy is None
            &&& restarting.1.len() == 0
            &&& restarting.0.plan == state.plan && restarting.0.restart == state.restart
                && restarting.0.consecutive == state.consecutive
            &&& result is Ok ==> after.1 == seq![MonitorEventView::Restarted]
            &&& result is Err ==> after.1 == seq![
                MonitorEventView::RestartFailed { error: result->Err_0 },
            ]
            &&& after.0.task matches MonitorTaskView::Wait { secs } && secs
                == state.plan.interval_secs
        }),
{
}

/// Law: once a restart is chosen it is announced with its number and its wait, the
/// number is noted, that long is waited, and then the watched machine is started,
/// unless the monitor is told to stop. Where no restart is chosen, that is reported
/// with the policy and the counts, and the monitor ends.
pub proof fn law_chosen_restart_is_carried_out(state: MonitorStateView, backoff_secs: u64)
    requires
        state.task is ChooseRestart,
        state.restart.restart_count < u32::MAX,
    ensures
        ({
            let chosen = monitor_next(
                state,
                MonitorInputView::RestartChoice { restart: true, backoff_secs },
            );
            let noted = monitor_next(chosen.0, MonitorInputView::Done);
            let waited = monitor_next(noted.0, MonitorInputView::WaitOver { stop: false });
            &&& chosen.1.len() == 1 && (chosen.1[0] matches MonitorEventView::Restarting {
                attempt,
                backoff_secs: wait,
            } && attempt == state.restart.restart_count + 1 && wait == backoff_secs)
            &&& chosen.0.task matches MonitorTaskView::SaveRestartCount { count, .. } && count
                == state.restart.restart_count + 1
            &&& noted.0.task matches MonitorTaskView::Backoff { secs } && secs == backoff_secs
            &&& noted.1.len() == 0
            &&& waited.0.task matches MonitorTaskView::Restart(start) && start.name
                == state.plan.name && start.snapshot_dir is None
            &&& waited.0.restart.restart_count == state.restart.restart_count + 1
        }),
        ({
            let ended = monitor_next(
                state,
                MonitorInputView::RestartChoice { restart: false, backoff_secs },
            );
            let finished = monitor_next(ended.0, MonitorInputView::Done);
            &&& ended.1.len() == 1 && (ended.1[0] matches MonitorEventView::NotRestarting {
                policy,
                count,
                max_retries,
            } && policy == state.restart.policy && count == state.restart.restart_count
                && max_retries == state.restart.max_retries)
            &&& ended.0.task is SaveUserStopped
            &&& finished.0.task matches MonitorTaskView::Finished(result) && result.name
                == state.plan.name
        }),
{
}

/// Law: a machine that is found ended has its exit code collected, reported and noted,
/// and then its own restart settings and that code decide about a restart.
pub proof fn law_ended_machine_is_judged(
    state: MonitorStateView,
    since_start: TimeSpan,
    exit_code: Option<i32>,
)
    requires
        state.task is Look,
    ensures
        ({
            let ended = monitor_next(
                state,
                MonitorInputView::Looked { alive: false, since_start },
            );
            let told = monitor_next(ended.0, MonitorInputView::Exited { exit_code });
            let noted = monitor_next(told.0, MonitorInputView::Done);
            &&& ended.0.task is CollectExit && ended.1.len() == 0
            &&& told.1.len() == 1 && (told.1[0] matches MonitorEventView::MachineExited {
                exit_code: code,
            } && code == exit_code)
            &&& told.0.task matches MonitorTaskView::SaveExit { exit_code: code } && code
                == exit_code
            &&& noted.0.task matches MonitorTaskView::ChooseRestart { restart, exit_code: code }
                && restart == state.restart && code == exit_code
            &&& noted.1.len() == 0
        }),
{
}

/// Law: a machine that runs is checked with its health command, for as long as its
/// plan allows, unless it has none or was started less than the grace time ago; then
/// the monitor waits for its next interval.
pub proof fn law_running_machine_is_checked(state: MonitorStateView, since_start: TimeSpan)
    requires
        state.task is Look,
    ensures
        ({
            let next = monitor_next(state, MonitorInputView::Looked { alive: true, since_start });
            let young = state.plan.startup_grace_secs > 0 && since_start.secs * 1_000_000_000
                + since_start.nanos < state.plan.startup_grace_secs * 1_000_000_000;
            &&& next.1.len() == 0 && next.0.consecutive == state.consecutive
            &&& young || state.plan.health_cmd is None ==> (
            next.0.task matches MonitorTaskView::Wait { secs } && secs == state.plan.interval_secs)
            &&& !young && state.plan.health_cmd is Some ==> (
            next.0.task matches MonitorTaskView::CheckHealth(command) && command.command
                == state.plan.health_cmd->0 && command.timeout == Some(
                TimeSpan { secs: state.plan.health_timeout_secs, nanos: 0 },
            ) && command.env.len() == 0 && command.workdir is None && command.stdin is None
                && !command.tty)
        }),
{
}

/// Law: a health check counts failures in a row: one that passes ends the row, and is
/// told where there was one; any other adds one and is told with the new count and
/// what went wrong. The machine is stopped, under its own name and as the last thing
/// told, once the row is as long as the plan allows.
pub proof fn law_health_check_counts(state: MonitorStateView, outcome: HealthOutcomeView)
    requires
        state.task is CheckHealth,
        state.consecutive < u32::MAX,
    ensures
        ({
            let next = monitor_next(state, MonitorInputView::Health(outcome));
            let stops = next.0.consecutive >= state.plan.health_retries;
            let told = if stops {
                next.1.drop_last()
            } else {
                next.1
            };
            &&& outcome is Passed ==> next.0.consecutive == 0
            &&& !(outcome is Passed) ==> next.0.consecutive == state.consecutive + 1
            &&& stops ==> (next.0.task matches MonitorTaskView::StopUnhealthy(stop) && stop.name
                == state.plan.name) && next.1.len() > 0 && next.1.last() is UnhealthyStopping
            &&& !stops ==> (next.0.task matches MonitorTaskView::Wait { secs } && secs
                == state.plan.interval_secs)
            &&& outcome is Passed && state.consecutive > 0 ==> told == seq![
                MonitorEventView::HealthRecovered,
            ]
            &&& outcome is Passed && state.consecutive == 0 ==> told.len() == 0
            &&& outcome matches HealthOutcomeView::Failed { exit_code, stderr } ==> told.len() == 1
                && (told[0] matches MonitorEventView::HealthFailed {
                exit_code: code,
                consecutive,
                retries,
                stderr: shown,
            } && code == exit_code && consecutive == state.consecutive + 1 && retries
                == state.plan.health_retries && shown == trimmed(lossy_text(stderr)))
            &&& outcome matches HealthOutcomeView::Broken { error } ==> told.len() == 1 && (
            told[0] matches MonitorEventView::HealthError { consecutive, retries, error: shown }
                && shown == error && consecutive == state.consecutive + 1 && retries
                == state.plan.health_retries)
            &&& outcome is Unreachable ==> told.len() == 1 && (
            told[0] matches MonitorEventView::AgentUnreachable { consecutive, retries }
                && consecutive == state.consecutive + 1 && retries == state.plan.health_retries)
        }),
{
    let next = monitor_next(state, MonitorInputView::Health(outcome));
    let after = failures_after(state.consecutive, outcome) as u32;
    let events = health_events(state.consecutive, after, state.plan.health_retries, outcome);
    if after >= state.plan.health_retries {
        assert(next.1.drop_last() =~= events);
    }
}

/// Law: a health command passes exactly where its exit code is zero; one that fails is
/// told with its code and what it wrote.
pub proof fn law_exit_code_tells_health(result: ExecResultView)
    ensures
        result.exit_code == 0 <==> health_of(result) is Passed,
        result.exit_code != 0 ==> (health_of(result) matches HealthOutcomeView::Failed {
            exit_code,
            stderr,
        } && exit_code == result.exit_code && stderr == result.stderr),
{
}

/// Law: after an interval the machine is looked at, unless the interval took more than
/// three times as long as planned: then the host slept, which is told with how much too
/// long it was, and the next interval is waited for. A machine whose manager cannot be
/// opened is left for the next interval, and so is one that was stopped as unhealthy.
pub proof fn law_interval_leads_to_a_look(state: MonitorStateView, elapsed: TimeSpan, ok: bool)
    ensures
        state.task is Wait ==> ({
            let next = monitor_next(state, MonitorInputView::Woke { stop: false, elapsed });
            let slept = elapsed.secs * 1_000_000_000 + elapsed.nanos > state.plan.interval_secs
                * 3_000_000_000;
            &&& slept ==> next.1.len() == 1 && (
            next.1[0] matches MonitorEventView::SuspendDetected { sleep_secs } && sleep_secs == (
            if elapsed.secs > state.plan.interval_secs {
                elapsed.secs - state.plan.interval_secs
            } else {
                0
            })) && (next.0.task matches MonitorTaskView::Wait { secs } && secs
                == state.plan.interval_secs)
            &&& !slept ==> next.0.task is OpenManager && next.1.len() == 0 && next.0.consecutive
                == state.consecutive
        }),
        state.task is OpenManager ==> ({
            let next = monitor_next(state, MonitorInputView::Opened { ok });
            &&& next.1.len() == 0
            &&& ok ==> next.0.task is Look
            &&& !ok ==> (next.0.task matches MonitorTaskView::Wait { secs } && secs
                == state.plan.interval_secs)
        }),
        state.task is StopUnhealthy ==> ({
            let next = monitor_next(state, MonitorInputView::Done);
            next.1.len() == 0 && (next.0.task matches MonitorTaskView::Wait { secs } && secs
                == state.plan.interval_secs)
        }),
{
}

/// Law: a monitor goes by what the record says and by what the request says where the
/// record says nothing, but the health command and the restart policy of the request
/// go first. The counts of restarts are those of the record.
pub proof fn law_plan_of_a_monitor(request: MonitorMachineView, record: VmRecordView)
    ensures
        ({
            let plan = monitor_plan(request, record);
            let restart = restart_settings(request, record);
            &&& plan.name == request.name
            &&& request.health_cmd is Some ==> plan.health_cmd == request.health_cmd
            &&& request.health_cmd is None ==> plan.health_cmd == record.health_cmd
            &&& record.health_timeout_secs is Some ==> plan.health_timeout_secs
                == record.health_timeout_secs->0
            &&& record.health_timeout_secs is None ==> plan.health_timeout_secs
                == request.health_timeout.secs
            &&& record.health_retries is Some ==> plan.health_retries == record.health_retries->0
            &&& record.health_retries is None ==> plan.health_retries == request.health_retries
            &&& record.health_interval_secs is Some ==> plan.interval_secs
                == record.health_interval_secs->0
            &&& record.health_interval_secs is None ==> plan.interval_secs
                == request.interval.secs
            &&& record.health_startup_grace_secs is Some ==> plan.startup_grace_secs
                == record.health_startup_grace_secs->0
            &&& record.health_startup_grace_secs is None ==> plan.startup_grace_secs == 0
            &&& request.restart_policy is Some ==> restart.policy == request.restart_policy->0
            &&& request.restart_policy is None ==> restart.policy == record.restart.policy
            &&& restart.max_retries == record.restart.max_retries && restart.max_backoff_secs
                == record.restart.max_backoff_secs && restart.restart_count
                == record.restart.restart_count && restart.user_stopped
                == record.restart.user_stopped
        }),
{
}

/// Law: a monitor begins with a machine that runs: one that does not is started first,
/// after that was told, as it is stored. It begins with no failed check, waits for its
/// first interval, and tells by what it goes.
pub proof fn law_monitor_begins_with_a_running_machine(
    request: MonitorMachineView,
    setup: MonitorSetupView,
)
    ensures
        setup_step(request, setup) matches SetupStepView::Start(start) ==> start.name
            == request.name && start.snapshot_dir is None && !start.forkable && start.proxy is None
            && start.no_proxy is None && setup.alive == Some(false) && setup.reported
            && setup.started is None,
        setup_step(request, setup) matches SetupStepView::Ready { state, event } ==> {
            &&& setup.record is Some && setup.record->0 is Ok && setup.record->0->Ok_0 is Some
            &&& setup.alive == Some(true) || (setup.alive == Some(false) && setup.started is Some
                && setup.started->0 is Ok && setup.reloaded is Some && setup.reloaded->0 is Ok
                && setup.reloaded->0->Ok_0 is Some)
            &&& state.plan == monitor_plan(request, setup.record->0->Ok_0->0)
            &&& state.restart == restart_settings(
                request,
                if setup.alive == Some(true) {
                    setup.record->0->Ok_0->0
                } else {
                    setup.reloaded->0->Ok_0->0
                },
            )
            &&& state.consecutive == 0
            &&& state.task matches MonitorTaskView::Wait { secs } && secs
                == state.plan.interval_secs
            &&& event matches MonitorEventView::Monitoring { name, policy, interval_secs, health }
                && name == request.name && policy == state.restart.policy && interval_secs
                == state.plan.interval_secs && (health is Some <==> state.plan.health_cmd is Some)
                && (health is Some ==> health->0.command == state.plan.health_cmd->0
                && health->0.timeout_secs == state.plan.health_timeout_secs && health->0.retries
                == state.plan.health_retries)
        },
{
}

/// Law: setting up a monitor asks for everything once, and fails only with an error
/// that it was given, where there is no machine, or where its manager does not open.
pub proof fn law_setup_asks_once(request: MonitorMachineView, setup: MonitorSetupView)
    ensures
        ({
            let step = setup_step(request, setup);
            &&& step is LoadRecord ==> setup.record is None
            &&& step is OpenManager ==> setup.manager is None
            &&& step is Look ==> setup.alive is None
            &&& step is Report ==> !setup.reported && setup.alive == Some(false)
            &&& step is ReloadRecord ==> setup.reloaded is None
            &&& step matches SetupStepView::Failed(error) ==> {
                ||| setup.record == Some(Err::<Option<VmRecordView>, ErrorView>(error))
                ||| setup.started == Some(Err::<(), ErrorView>(error))
                ||| setup.reloaded == Some(Err::<Option<VmRecordView>, ErrorView>(error))
                ||| error == (ErrorView::VmNotFound { name: request.name }) && (setup.record
                    == Some(Ok::<Option<VmRecordView>, ErrorView>(None)) || setup.reloaded == Some(
                    Ok::<Option<VmRecordView>, ErrorView>(None),
                ))
                ||| setup.manager is Some && setup.manager->0 is Err && (
                error matches ErrorView::Agent { reason, .. } && reason
                    == setup.manager->0->Err_0)
            }
        }),
{
}

/// Law: an answer to something that the monitor did not ask for changes nothing, and
/// nothing that it is told changes what it goes by but the count of restarts.
pub proof fn law_unasked_answers_change_nothing(state: MonitorStateView, input: MonitorInputView)
    ensures
        ({
            let next = monitor_next(state, input);
            let asked = match input {
                MonitorInputView::Woke { .. } => state.task is Wait,
                MonitorInputView::Opened { .. } => state.task is OpenManager,
                MonitorInputView::Looked { .. } => state.task is Look,
                MonitorInputView::Health(_) => state.task is CheckHealth,
                MonitorInputView::Exited { .. } => state.task is CollectExit,
                MonitorInputView::RestartChoice { .. } => state.task is ChooseRestart,
                MonitorInputView::WaitOver { .. } => state.task is Backoff,
                MonitorInputView::StartResult(_) => state.task is Restart,
                MonitorInputView::Done => state.task is StopUnhealthy || state.task is SaveExit
                    || state.task is SaveRestartCount || state.task is SaveUserStopped,
            };
            &&& !asked ==> next.0 == state && next.1.len() == 0
            &&& asked && !(input is Woke) ==> next.0.task != state.task
            &&& next.0.plan == state.plan
            &&& next.0.restart.policy == state.restart.policy && next.0.restart.max_retries
                == state.restart.max_retries && next.0.restart.max_backoff_secs
                == state.restart.max_backoff_secs && next.0.restart.user_stopped
                == state.restart.user_stopped
        }),
{
}

} // verus!
