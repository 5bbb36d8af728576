//! HTTP API: stopping machines when the server ends.

use crate::model::{empty_list, push_to, Model};
use crate::types::{RecordState, VmRecord, VmRecordView};
use vstd::prelude::*;

verus! {

/// A machine when the server ends.
#[derive(Debug, PartialEq, Eq)]
pub struct DrainCandidate {
    pub name: String,
    pub record: VmRecord,
    /// The state that the machine is really in.
    pub state: RecordState,
    /// Whether its process is there.
    pub alive: bool,
}

/// Mathematical model of a [`DrainCandidate`].
pub struct DrainCandidateView {
    pub name: Seq<char>,
    pub record: VmRecordView,
    pub state: RecordState,
    pub alive: bool,
}

impl Model for DrainCandidate {
    type V = DrainCandidateView;

    open spec fn model(&self) -> DrainCandidateView {
        DrainCandidateView {
            name: self.name.model(),
            record: self.record.model(),
            state: self.state.model(),
            alive: self.alive.model(),
        }
    }

    fn dup(&self) -> (copy: Self) {
        DrainCandidate {
            name: self.name.dup(),
            record: self.record.dup(),
            state: self.state.dup(),
            alive: self.alive.dup(),
        }
    }
}

/// A machine that is stopped when the server ends.
#[derive(Debug, PartialEq, Eq)]
pub struct DrainTarget {
    pub name: String,
    pub pid: Option<i32>,
    pub pid_start_time: Option<u64>,
}

/// Mathematical model of a [`DrainTarget`].
pub struct DrainTargetView {
    pub name: Seq<char>,
    pub pid: Option<i32>,
    pub pid_start_time: Option<u64>,
}

impl Model for DrainTarget {
    type V = DrainTargetView;

    open spec fn model(&self) -> DrainTargetView {
        DrainTargetView {
            name: self.name.model(),
            pid: self.pid.model(),
            pid_start_time: self.pid_start_time.model(),
        }
    }

    fn dup(&self) -> (copy: Self) {
        DrainTarget {
            name: self.name.dup(),
            pid: self.pid.dup(),
            pid_start_time: self.pid_start_time.dup(),
        }
    }
}

/// Whether a machine is stopped when the server ends.
pub open spec fn is_drained(machine: DrainCandidateView) -> bool {
    machine.state == RecordState::Running && machine.alive
}

/// A machine as it is stopped.
pub open spec fn target_of(machine: DrainCandidateView) -> DrainTargetView {
    DrainTargetView {
        name: machine.name,
        pid: machine.record.pid,
        pid_start_time: machine.record.pid_start_time,
    }
}

/// The machines that are stopped when the server ends, in their order.
pub open spec fn drained(machines: Seq<DrainCandidateView>) -> Seq<DrainTargetView>
    decreases machines.len(),
{
    if machines.len() == 0 {
        Seq::empty()
    } else if is_drained(machines.last()) {
        drained(machines.drop_last()).push(target_of(machines.last()))
    } else {
        drained(machines.drop_last())
    }
}

/// Selects the machines that are stopped when the server ends.
pub fn select_drained(machines: &Vec<DrainCandidate>) -> (targets: Vec<DrainTarget>)
    ensures
        targets.model() == drained(machines.model()),
{
    let mut targets: Vec<DrainTarget> = empty_list();
    let ghost all = machines.model();
    let mut i: usize = 0;
    while i < machines.len()
        invariant
            i <= machines.len(),
            machines.model() == all,
            targets.model() == drained(all.take(i as int)),
        decreases machines.len() - i,
    {
        assert(all.take(i + 1).drop_last() =~= all.take(i as int));
        assert(all.take(i + 1).last() == machines[i as int].model());
        if machines[i].state == RecordState::Running && machines[i].alive {
            push_to(
                &mut targets,
                DrainTarget {
                    name: machines[i].name.dup(),
                    pid: machines[i].record.pid,
                    pid_start_time: machines[i].record.pid_start_time,
                },
            );
        }
        i += 1;
    }
    assert(all.take(all.len() as int) =~= all);
    targets
}

/// Law: a machine is stopped when the server ends exactly where it runs.
pub proof fn law_running_machines_are_drained(machines: Seq<DrainCandidateView>, name: Seq<char>)
    ensures
        (exists|i: int|
            0 <= i < drained(machines).len() && (#[trigger] drained(machines)[i]).name == name)
            <==> (exists|i: int|
            0 <= i < machines.len() && (#[trigger] machines[i]).name == name && is_drained(
                machines[i],
            )),
    decreases machines.len(),
{
    if machines.len() > 0 {
        let rest = machines.drop_last();
        let last = machines.last();
        law_running_machines_are_drained(rest, name);
        if exists|i: int|
            0 <= i < drained(machines).len() && (#[trigger] drained(machines)[i]).name == name {
            let i = choose|i: int|
                0 <= i < drained(machines).len() && (#[trigger] drained(machines)[i]).name == name;
            if i < drained(rest).len() {
                assert(drained(rest)[i] == drained(machines)[i]);
                let j = choose|j: int|
                    0 <= j < rest.len() && (#[trigger] rest[j]).name == name && is_drained(rest[j]);
                assert(machines[j] == rest[j]);
            } else {
                assert(machines[machines.len() - 1] == last);
            }
        }
        if exists|i: int|
            0 <= i < machines.len() && (#[trigger] machines[i]).name == name && is_drained(
                machines[i],
            ) {
            let i = choose|i: int|
                0 <= i < machines.len() && (#[trigger] machines[i]).name == name && is_drained(
                    machines[i],
                );
            if i < rest.len() {
                assert(rest[i] == machines[i]);
                let j = choose|j: int|
                    0 <= j < drained(rest).len() && (#[trigger] drained(rest)[j]).name == name;
                assert(drained(machines)[j] == drained(rest)[j]);
            } else {
                assert(drained(machines)[drained(rest).len() as int] == target_of(last));
            }
        }
    }
}

/// What is known while the process of a machine is stopped.
#[derive(Debug, PartialEq, Eq)]
pub struct ShutdownProgress {
    /// Whether the machine's manager was found.
    pub manager: Option<bool>,
    /// Whether the guest's agent answered and was asked to shut down.
    pub connected: Option<bool>,
    /// Whether the process with the noted number is still that of the machine.
    pub ours: Option<bool>,
    /// Whether the process was asked to stop.
    pub signalled: bool,
    /// Whether a process with the noted number is still there.
    pub alive: Option<bool>,
    /// Whether the guest's agent still answers.
    pub answers: Option<bool>,
}

/// Mathematical model of a [`ShutdownProgress`].
pub struct ShutdownProgressView {
    pub manager: Option<bool>,
    pub connected: Option<bool>,
    pub ours: Option<bool>,
    pub signalled: bool,
    pub alive: Option<bool>,
    pub answers: Option<bool>,
}

impl Model for ShutdownProgress {
    type V = ShutdownProgressView;

    open spec fn model(&self) -> ShutdownProgressView {
        ShutdownProgressView {
            manager: self.manager.model(),
            connected: self.connected.model(),
            ours: self.ours.model(),
            signalled: self.signalled.model(),
            alive: self.alive.model(),
            answers: self.answers.model(),
        }
    }

    fn dup(&self) -> (copy: Self) {
        ShutdownProgress {
            manager: self.manager.dup(),
            connected: self.connected.dup(),
            ours: self.ours.dup(),
            signalled: self.signalled.dup(),
            alive: self.alive.dup(),
            answers: self.answers.dup(),
        }
    }
}

/// What is done next to stop the process of a machine.
#[derive(Debug, PartialEq, Eq)]
pub enum ShutdownStep {
    /// Find the machine's manager.
    FindManager,
    /// Ask the guest's agent to shut down.
    AskAgent,
    /// See whether the process is still that of the machine.
    CheckIdentity(i32),
    /// Stop the process.
    StopProcess(i32),
    /// See whether the process is still there.
    CheckAlive(i32),
    /// See whether the guest's agent still answers.
    PingAgent,
    /// It is known whether the machine has stopped.
    Done(bool),
}

/// Mathematical model of a [`ShutdownStep`].
pub enum ShutdownStepView {
    FindManager,
    AskAgent,
    CheckIdentity(i32),
    StopProcess(i32),
    CheckAlive(i32),
    PingAgent,
    Done(bool),
}

impl Model for ShutdownStep {
    type V = ShutdownStepView;

    open spec fn model(&self) -> ShutdownStepView {
        match self {
            ShutdownStep::FindManager => ShutdownStepView::FindManager,
            ShutdownStep::AskAgent => ShutdownStepView::AskAgent,
            ShutdownStep::CheckIdentity(value) => ShutdownStepView::CheckIdentity(value.model()),
            ShutdownStep::StopProcess(value) => ShutdownStepView::StopProcess(value.model()),
            ShutdownStep::CheckAlive(value) => ShutdownStepView::CheckAlive(value.model()),
            ShutdownStep::PingAgent => ShutdownStepView::PingAgent,
            ShutdownStep::Done(value) => ShutdownStepView::Done(value.model()),
        }
    }

    fn dup(&self) -> (copy: Self) {
        match self {
            ShutdownStep::FindManager => ShutdownStep::FindManager,
            ShutdownStep::AskAgent => ShutdownStep::AskAgent,
            ShutdownStep::CheckIdentity(value) => ShutdownStep::CheckIdentity(value.dup()),
            ShutdownStep::StopProcess(value) => ShutdownStep::StopProcess(value.dup()),
            ShutdownStep::CheckAlive(value) => ShutdownStep::CheckAlive(value.dup()),
            ShutdownStep::PingAgent => ShutdownStep::PingAgent,
            ShutdownStep::Done(value) => ShutdownStep::Done(value.dup()),
        }
    }
}

/// What is done next to stop the process with this number.
pub open spec fn shutdown_process_step(pid: i32, progress: ShutdownProgressView) -> ShutdownStepView {
    let confirmed = progress.connected == Some(true);
    if !confirmed && progress.ours is None {
        ShutdownStepView::CheckIdentity(pid)
    } else if (confirmed || progress.ours == Some(true)) && !progress.signalled {
        ShutdownStepView::StopProcess(pid)
    } else {
        match progress.alive {
            None => ShutdownStepView::CheckAlive(pid),
            Some(alive) => ShutdownStepView::Done(!alive),
        }
    }
}

/// What is done next to stop the process of a machine.
pub open spec fn shutdown_step(pid: Option<i32>, progress: ShutdownProgressView) -> ShutdownStepView {
    if progress.manager is None {
        ShutdownStepView::FindManager
    } else if progress.manager == Some(true) && progress.connected is None {
        ShutdownStepView::AskAgent
    } else {
        match pid {
            Some(pid) => shutdown_process_step(pid, progress),
            None => if progress.manager == Some(true) {
                match progress.answers {
                    None => ShutdownStepView::PingAgent,
                    Some(answers) => ShutdownStepView::Done(!answers),
                }
            } else {
                ShutdownStepView::Done(true)
            },
        }
    }
}

fn next_shutdown_process_step(pid: i32, progress: &ShutdownProgress) -> (step: ShutdownStep)
    ensures
        step.model() == shutdown_process_step(pid, progress.model()),
{
    let confirmed: bool = match progress.connected {
        Some(connected) => connected,
        None => false,
    };
    let ours: bool = match progress.ours {
        Some(ours) => ours,
        None => false,
    };
    if !confirmed && progress.ours.is_none() {
        return ShutdownStep::CheckIdentity(pid);
    }
    if (confirmed || ours) && !progress.signalled {
        return ShutdownStep::StopProcess(pid);
    }
    match progress.alive {
        None => ShutdownStep::CheckAlive(pid),
        Some(alive) => ShutdownStep::Done(!alive),
    }
}

/// Decides what is done next to stop the process of a machine.
pub fn next_shutdown_step(pid: Option<i32>, progress: &ShutdownProgress) -> (step: ShutdownStep)
    ensures
        step.model() == shutdown_step(pid, progress.model()),
{
    let manager: bool = match progress.manager {
        None => {
            return ShutdownStep::FindManager;
        },
        Some(manager) => manager,
    };
    if manager && progress.connected.is_none() {
        return ShutdownStep::AskAgent;
    }
    match pid {
        Some(pid) => next_shutdown_process_step(pid, progress),
        None => if manager {
            match progress.answers {
                None => ShutdownStep::PingAgent,
                Some(answers) => ShutdownStep::Done(!answers),
            }
        } else {
            ShutdownStep::Done(true)
        },
    }
}

/// Law: a process is stopped only where it is known to be that of the machine,
/// and a machine with a noted process counts as stopped only where no process
/// with that number is left.
pub proof fn law_only_own_process_is_stopped(pid: Option<i32>, progress: ShutdownProgressView)
    ensures
        shutdown_step(pid, progress) is StopProcess ==> pid is Some && shutdown_step(pid, progress)
            == ShutdownStepView::StopProcess(pid->0) && (progress.connected == Some(true)
            || progress.ours == Some(true)),
        pid is Some && shutdown_step(pid, progress) == ShutdownStepView::Done(true)
            ==> progress.alive == Some(false),
{
}

/// Law: when the server ends, each machine that is running and whose process is there is
/// stopped, under its name and by the process in its record, in the order of the machines;
/// no other is.
pub proof fn law_drained_one_by_one(machines: Seq<DrainCandidateView>, machine: DrainCandidateView)
    ensures
        drained(Seq::empty()).len() == 0,
        machine.state == RecordState::Running && machine.alive ==> {
            let after = drained(machines.push(machine));
            &&& after.len() == drained(machines).len() + 1
            &&& after.drop_last() == drained(machines)
            &&& after.last().name == machine.name && after.last().pid == machine.record.pid
                && after.last().pid_start_time == machine.record.pid_start_time
        },
        machine.state != RecordState::Running || !machine.alive ==> drained(machines.push(machine))
            == drained(machines),
{
    assert(machines.push(machine).drop_last() =~= machines);
    if machine.state == RecordState::Running && machine.alive {
        assert(drained(machines.push(machine)).drop_last() =~= drained(machines));
    }
}

/// Law: the process of a machine is asked to stop where it is known to be the machine's: the
/// agent answered, or the process was found to be the one that was noted. The machine counts
/// as stopped exactly where its process is gone; without a noted process, where its agent no
/// longer answers or was never found. Everything is asked for once.
pub proof fn law_shutdown_stops_the_process(pid: Option<i32>, progress: ShutdownProgressView)
    ensures
        ({
            let step = shutdown_step(pid, progress);
            let known = progress.connected == Some(true) || progress.ours == Some(true);
            &&& step is FindManager ==> progress.manager is None
            &&& step is AskAgent ==> progress.connected is None && progress.manager == Some(true)
            &&& step matches ShutdownStepView::CheckIdentity(asked) ==> pid == Some(asked)
                && progress.ours is None && progress.connected != Some(true)
            &&& step matches ShutdownStepView::StopProcess(asked) ==> pid == Some(asked) && known
                && !progress.signalled
            &&& step matches ShutdownStepView::CheckAlive(asked) ==> pid == Some(asked)
                && progress.alive is None && (known ==> progress.signalled)
            &&& step is PingAgent ==> pid is None && progress.answers is None
            &&& step matches ShutdownStepView::Done(stopped) ==> (pid is Some ==> progress.alive
                == Some(!stopped) && (known ==> progress.signalled)) && (pid is None
                && progress.manager == Some(true) ==> progress.answers == Some(!stopped)) && (pid
                is None && progress.manager == Some(false) ==> stopped)
        }),
{
}

/// Law: stopping the process of a machine takes each step that there is: its manager is looked for, the
/// agent of a machine with a manager is asked, a process that the agent did not confirm is identified,
/// one that is known to be that of the machine is stopped, and then it is seen whether it is gone.
pub proof fn law_shutdown_takes_each_step(pid: Option<i32>, progress: ShutdownProgressView)
    ensures
        ({
            let step = shutdown_step(pid, progress);
            let known = progress.connected == Some(true) || progress.ours == Some(true);
            let asked = progress.manager == Some(false) || (progress.manager == Some(true)
                && progress.connected is Some);
            &&& progress.manager is None ==> step is FindManager
            &&& progress.manager == Some(true) && progress.connected is None ==> step is AskAgent
            &&& asked && pid is Some && progress.connected != Some(true) && progress.ours is None
                ==> step is CheckIdentity
            &&& asked && pid is Some && known && !progress.signalled ==> step is StopProcess
                || step is CheckIdentity
            &&& asked && pid is Some && progress.connected == Some(true) && !progress.signalled
                ==> step is StopProcess
            &&& asked && pid is Some && progress.connected != Some(true) && progress.ours == Some(
                true,
            ) && !progress.signalled ==> step is StopProcess
            &&& asked && pid is Some && (progress.signalled || progress.ours == Some(false))
                && progress.connected != Some(true) && progress.ours is Some && progress.alive
                is None ==> step is CheckAlive || step is StopProcess
            &&& asked && pid is None && progress.manager == Some(true) && progress.answers is None
                ==> step is PingAgent
            &&& asked && pid is None && progress.manager == Some(false)
                ==> step == ShutdownStepView::Done(true)
        }),
{
}

} // verus!
