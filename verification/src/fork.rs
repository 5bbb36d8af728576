//! Order of a fork: a running machine is cloned, or everything is undone.

use crate::error::{Error, ErrorView};
use crate::lifecycle::{shell_command, shell_words};
use crate::model::{empty_list, push_to, Model};
use crate::records::{
    clone_of, clone_ports, clone_record, get_record, law_ports_of_a_clone, ports_of_clone,
    record_found,
};
use crate::requests::{
    ForkMachine, ForkMachineView, MachineStatus, MachineStatusView, StartMachine, StartMachineView,
};
use crate::text::{
    cat2, cat3, cat4, cat5, chars_of, find_char, own, position, starts_with, text_of,
};
use crate::types::{GuestCommand, GuestCommandView, TimeSpan, VmRecord, VmRecordView};
use vstd::prelude::*;

verus! {

/// What the control socket says: the first line of its reply.
pub open spec fn reply_line(reply: Seq<char>) -> Seq<char> {
    let at = position(reply, '\n');
    if at >= reply.len() {
        reply
    } else if at > 0 && reply[at - 1] == '\r' {
        reply.take(at - 1)
    } else {
        reply.take(at)
    }
}

/// Reads what the control socket says.
pub fn control_reply(reply: &str) -> (line: String)
    ensures
        line@ == reply_line(reply@),
{
    let chars: Vec<char> = chars_of(reply);
    let at: usize = find_char(&chars, '\n');
    if at >= chars.len() {
        return own(reply);
    }
    let end: usize = if at > 0 && chars[at - 1] == '\r' {
        at - 1
    } else {
        at
    };
    let line: String = text_of(&chars, 0, end);
    assert(line@ =~= reply@.take(end as int));
    line
}

/// The line that asks the control socket for something.
pub fn control_line(command: &str) -> (line: String)
    ensures
        line@ == command@ + "\n"@,
{
    cat2(command, "\n")
}

/// A file name without its extension: what stands before its last dot, where
/// that dot is not its first character.
pub open spec fn stem(name: Seq<char>) -> Seq<char> {
    stem_up_to(name, name.len() as int)
}

/// A file name without its extension, where no dot stands from `end` on.
pub open spec fn stem_up_to(name: Seq<char>, end: int) -> Seq<char>
    decreases end,
{
    if end <= 1 {
        name
    } else if name[end - 1] == '.' {
        name.take(end - 1)
    } else {
        stem_up_to(name, end - 1)
    }
}

/// Gives a file name another extension.
fn with_extension(name: &str, extension: &str) -> (changed: String)
    ensures
        changed@ == stem(name@) + "."@ + extension@,
{
    let chars: Vec<char> = chars_of(name);
    let mut end: usize = chars.len();
    while end > 1 && chars[end - 1] != '.'
        invariant
            chars@ == name@,
            end <= chars.len(),
            stem(name@) == stem_up_to(name@, end as int),
        decreases end,
    {
        end = end - 1;
    }
    if end <= 1 {
        return cat3(name, ".", extension);
    }
    let start: String = text_of(&chars, 0, end - 1);
    assert(start@ =~= name@.take(end - 1));
    cat3(start.as_str(), ".", extension)
}

/// A disk of a machine that is cloned.
#[derive(Debug, PartialEq, Eq)]
pub struct FoundDisk {
    /// The name of its file.
    pub name: String,
    /// Where its image is, where it has one.
    pub image: Option<String>,
    /// Whether it is marked as formatted.
    pub formatted: bool,
}

/// Mathematical model of a [`FoundDisk`].
pub struct FoundDiskView {
    pub name: Seq<char>,
    pub image: Option<Seq<char>>,
    pub formatted: bool,
}

impl Model for FoundDisk {
    type V = FoundDiskView;

    open spec fn model(&self) -> FoundDiskView {
        FoundDiskView {
            name: self.name.model(),
            image: self.image.model(),
            formatted: self.formatted.model(),
        }
    }

    fn dup(&self) -> (copy: Self) {
        FoundDisk {
            name: self.name.dup(),
            image: self.image.dup(),
            formatted: self.formatted.dup(),
        }
    }
}

/// What cloning the disks of a machine takes.
#[derive(Debug, PartialEq, Eq)]
pub struct DiskPlan {
    /// The overlays that are made: their file names and what they lie over.
    pub overlays: Vec<(String, String)>,
    /// The marks that are copied.
    pub marks: Vec<String>,
}

/// Mathematical model of a [`DiskPlan`].
pub struct DiskPlanView {
    pub overlays: Seq<(Seq<char>, Seq<char>)>,
    pub marks: Seq<Seq<char>>,
}

impl Model for DiskPlan {
    type V = DiskPlanView;

    open spec fn model(&self) -> DiskPlanView {
        DiskPlanView {
            overlays: self.overlays.model(),
            marks: self.marks.model(),
        }
    }

    fn dup(&self) -> (copy: Self) {
        DiskPlan {
            overlays: self.overlays.dup(),
            marks: self.marks.dup(),
        }
    }
}

/// The name of the mark that a disk is formatted.
pub open spec fn mark_of(disk: Seq<char>) -> Seq<char> {
    stem(disk) + ".formatted"@
}

/// Names the mark that a disk is formatted.
pub fn disk_mark(disk: &str) -> (mark: String)
    ensures
        mark@ == mark_of(disk@),
{
    let mark: String = with_extension(disk, "formatted");
    proof {
        reveal_strlit(".");
        reveal_strlit("formatted");
        reveal_strlit(".formatted");
    }
    assert(mark@ =~= mark_of(disk@));
    mark
}

/// The overlays over the images of disks.
pub open spec fn overlays_of(disks: Seq<FoundDiskView>) -> Seq<(Seq<char>, Seq<char>)>
    decreases disks.len(),
{
    if disks.len() == 0 {
        seq![]
    } else {
        let rest = overlays_of(disks.drop_last());
        match disks.last().image {
            Some(image) => rest.push((stem(disks.last().name) + ".qcow2"@, image)),
            None => rest,
        }
    }
}

/// The marks of formatted disks.
pub open spec fn marks_of(disks: Seq<FoundDiskView>) -> Seq<Seq<char>>
    decreases disks.len(),
{
    if disks.len() == 0 {
        seq![]
    } else {
        let rest = marks_of(disks.drop_last());
        if disks.last().formatted {
            rest.push(mark_of(disks.last().name))
        } else {
            rest
        }
    }
}

/// Plans the cloning of disks: every image gets an overlay, and every mark is
/// copied.
pub fn clone_disks(disks: &Vec<FoundDisk>) -> (plan: DiskPlan)
    ensures
        plan.model() == (DiskPlanView {
            overlays: overlays_of(disks.model()),
            marks: marks_of(disks.model()),
        }),
{
    let mut overlays: Vec<(String, String)> = empty_list();
    let mut marks: Vec<String> = empty_list();
    let mut i: usize = 0;
    while i < disks.len()
        invariant
            i <= disks.len(),
            overlays.model() == overlays_of(disks.model().take(i as int)),
            marks.model() == marks_of(disks.model().take(i as int)),
        decreases disks.len() - i,
    {
        let ghost part = disks.model().take(i + 1);
        assert(part.drop_last() =~= disks.model().take(i as int));
        assert(part.last() == disks[i as int].model());
        match &disks[i].image {
            Some(image) => {
                let name: String = with_extension(disks[i].name.as_str(), "qcow2");
                proof {
                    reveal_strlit(".");
                    reveal_strlit("qcow2");
                    reveal_strlit(".qcow2");
                }
                assert(name@ =~= stem(part.last().name) + ".qcow2"@);
                push_to(&mut overlays, (name, image.dup()));
            },
            None => {},
        }
        if disks[i].formatted {
            push_to(&mut marks, disk_mark(disks[i].name.as_str()));
        }
        i = i + 1;
    }
    assert(disks.model().take(i as int) =~= disks.model());
    DiskPlan { overlays, marks }
}

/// What a fork has learnt so far.
#[derive(Debug, PartialEq, Eq)]
pub struct ForkProgress {
    /// What checking the clone's name gave.
    pub name: Option<Result<(), String>>,
    /// Whether there is a machine with the clone's name already.
    pub taken: Option<Result<bool, Error>>,
    /// What reading the record of the golden machine gave.
    pub golden: Option<Result<Option<VmRecord>, Error>>,
    /// What the control socket of the golden machine says about its status.
    pub socket_status: Option<Result<String, String>>,
    /// Path of the clone's snapshot directory, once it was made.
    pub snapshot: Option<Result<String, String>>,
    /// For each port of the golden machine a host port that is free, if any.
    pub free_ports: Option<Vec<Option<u16>>>,
    /// What storing the clone's record gave.
    pub inserted: Option<Result<(), Error>>,
    /// What the control socket says about taking the snapshot.
    pub forked: Option<Result<String, Error>>,
    /// What cloning the disks gave.
    pub disks: Option<Result<(), Error>>,
    /// What starting the clone gave.
    pub started: Option<Result<(), Error>>,
    /// Whether the clone was given its own identity.
    pub rejuvenated: bool,
    /// Whether the record of a failed clone was removed.
    pub record_removed: bool,
    /// Whether the directory of a failed clone was removed.
    pub dir_removed: bool,
    /// The status of the clone.
    pub status: Option<Result<Option<MachineStatus>, Error>>,
}

/// Mathematical model of a [`ForkProgress`].
pub struct ForkProgressView {
    pub name: Option<Result<(), Seq<char>>>,
    pub taken: Option<Result<bool, ErrorView>>,
    pub golden: Option<Result<Option<VmRecordView>, ErrorView>>,
    pub socket_status: Option<Result<Seq<char>, Seq<char>>>,
    pub snapshot: Option<Result<Seq<char>, Seq<char>>>,
    pub free_ports: Option<Seq<Option<u16>>>,
    pub inserted: Option<Result<(), ErrorView>>,
    pub forked: Option<Result<Seq<char>, ErrorView>>,
    pub disks: Option<Result<(), ErrorView>>,
    pub started: Option<Result<(), ErrorView>>,
    pub rejuvenated: bool,
    pub record_removed: bool,
    pub dir_removed: bool,
    pub status: Option<Result<Option<MachineStatusView>, ErrorView>>,
}

impl Model for ForkProgress {
    type V = ForkProgressView;

    open spec fn model(&self) -> ForkProgressView {
        ForkProgressView {
            name: self.name.model(),
            taken: self.taken.model(),
            golden: self.golden.model(),
            socket_status: self.socket_status.model(),
            snapshot: self.snapshot.model(),
            free_ports: self.free_ports.model(),
            inserted: self.inserted.model(),
            forked: self.forked.model(),
            disks: self.disks.model(),
            started: self.started.model(),
            rejuvenated: self.rejuvenated.model(),
            record_removed: self.record_removed.model(),
            dir_removed: self.dir_removed.model(),
            status: self.status.model(),
        }
    }

    fn dup(&self) -> (copy: Self) {
        ForkProgress {
            name: self.name.dup(),
            taken: self.taken.dup(),
            golden: self.golden.dup(),
            socket_status: self.socket_status.dup(),
            snapshot: self.snapshot.dup(),
            free_ports: self.free_ports.dup(),
            inserted: self.inserted.dup(),
            forked: self.forked.dup(),
            disks: self.disks.dup(),
            started: self.started.dup(),
            rejuvenated: self.rejuvenated.dup(),
            record_removed: self.record_removed.dup(),
            dir_removed: self.dir_removed.dup(),
            status: self.status.dup(),
        }
    }
}

/// What a fork does next.
#[derive(Debug, PartialEq, Eq)]
pub enum ForkStep {
    /// Check the name of the clone.
    CheckName,
    /// Look whether there is a machine with the clone's name.
    CheckTaken,
    /// Read the record of the golden machine.
    LoadGolden,
    /// Ask the control socket for the status.
    AskStatus,
    /// Make the snapshot directory of the clone.
    MakeSnapshotDir,
    /// Find free host ports for the ports of the golden machine.
    FindPorts,
    /// Store the record of the clone.
    Insert(VmRecord),
    /// Send this line to the control socket.
    Snapshot(String),
    /// Clone the disks.
    CloneDisks,
    /// Start the clone.
    Start(StartMachine),
    /// Give the clone its own identity.
    Rejuvenate(GuestCommand),
    /// Remove the record of the clone.
    RemoveRecord,
    /// Remove the directory of the clone.
    RemoveDir,
    /// Read the status of the clone.
    LoadStatus,
    /// The fork is over.
    Finish(Result<MachineStatus, Error>),
}

/// Mathematical model of a [`ForkStep`].
pub enum ForkStepView {
    CheckName,
    CheckTaken,
    LoadGolden,
    AskStatus,
    MakeSnapshotDir,
    FindPorts,
    Insert(VmRecordView),
    Snapshot(Seq<char>),
    CloneDisks,
    Start(StartMachineView),
    Rejuvenate(GuestCommandView),
    RemoveRecord,
    RemoveDir,
    LoadStatus,
    Finish(Result<MachineStatusView, ErrorView>),
}

impl Model for ForkStep {
    type V = ForkStepView;

    open spec fn model(&self) -> ForkStepView {
        match self {
            ForkStep::CheckName => ForkStepView::CheckName,
            ForkStep::CheckTaken => ForkStepView::CheckTaken,
            ForkStep::LoadGolden => ForkStepView::LoadGolden,
            ForkStep::AskStatus => ForkStepView::AskStatus,
            ForkStep::MakeSnapshotDir => ForkStepView::MakeSnapshotDir,
            ForkStep::FindPorts => ForkStepView::FindPorts,
            ForkStep::Insert(value) => ForkStepView::Insert(value.model()),
            ForkStep::Snapshot(value) => ForkStepView::Snapshot(value.model()),
            ForkStep::CloneDisks => ForkStepView::CloneDisks,
            ForkStep::Start(value) => ForkStepView::Start(value.model()),
            ForkStep::Rejuvenate(value) => ForkStepView::Rejuvenate(value.model()),
            ForkStep::RemoveRecord => ForkStepView::RemoveRecord,
            ForkStep::RemoveDir => ForkStepView::RemoveDir,
            ForkStep::LoadStatus => ForkStepView::LoadStatus,
            ForkStep::Finish(value) => ForkStepView::Finish(value.model()),
        }
    }

    fn dup(&self) -> (copy: Self) {
        match self {
            ForkStep::CheckName => ForkStep::CheckName,
            ForkStep::CheckTaken => ForkStep::CheckTaken,
            ForkStep::LoadGolden => ForkStep::LoadGolden,
            ForkStep::AskStatus => ForkStep::AskStatus,
            ForkStep::MakeSnapshotDir => ForkStep::MakeSnapshotDir,
            ForkStep::FindPorts => ForkStep::FindPorts,
            ForkStep::Insert(value) => ForkStep::Insert(value.dup()),
            ForkStep::Snapshot(value) => ForkStep::Snapshot(value.dup()),
            ForkStep::CloneDisks => ForkStep::CloneDisks,
            ForkStep::Start(value) => ForkStep::Start(value.dup()),
            ForkStep::Rejuvenate(value) => ForkStep::Rejuvenate(value.dup()),
            ForkStep::RemoveRecord => ForkStep::RemoveRecord,
            ForkStep::RemoveDir => ForkStep::RemoveDir,
            ForkStep::LoadStatus => ForkStep::LoadStatus,
            ForkStep::Finish(value) => ForkStep::Finish(value.dup()),
        }
    }
}

/// Whether the control socket agreed.
pub open spec fn agreed(reply: Seq<char>) -> bool {
    ("OK"@).is_prefix_of(reply)
}

/// The command that gives a clone its own name and machine identity.
pub open spec fn rejuvenation(clone: Seq<char>) -> GuestCommandView {
    GuestCommandView {
        command: shell_words(
            "/bin/sh"@,
            "hostname '"@ + clone
                + "' 2>/dev/null || true\nrm -f /etc/machine-id\ndbus-uuidgen --ensure=/etc/machine-id 2>/dev/null || true\n"@,
        ),
        env: Seq::empty(),
        workdir: None,
        timeout: Some(TimeSpan { secs: 10, nanos: 0 }),
        stdin: None,
        tty: false,
    }
}

/// Makes the command that gives a clone its own name and machine identity.
pub fn rejuvenate_clone(clone: &str) -> (command: GuestCommand)
    ensures
        command.model() == rejuvenation(clone@),
{
    let script: String = cat3(
        "hostname '",
        clone,
        "' 2>/dev/null || true\nrm -f /etc/machine-id\ndbus-uuidgen --ensure=/etc/machine-id 2>/dev/null || true\n",
    );
    GuestCommand {
        command: shell_command("/bin/sh", script.as_str()),
        env: empty_list(),
        workdir: None,
        timeout: Some(TimeSpan::from_secs(10)),
        stdin: None,
        tty: false,
    }
}

/// The request that starts a clone from its snapshot.
pub open spec fn clone_start(clone: Seq<char>, snapshot: Seq<char>) -> StartMachineView {
    StartMachineView {
        name: clone,
        forkable: false,
        proxy: None,
        no_proxy: None,
        snapshot_dir: Some(snapshot),
    }
}

/// What bringing up the clone needs next: nothing once it runs, or the error
/// that ends it.
pub open spec fn bring_up_step(
    request: ForkMachineView,
    progress: ForkProgressView,
    snapshot: Seq<char>,
) -> Result<Option<ForkStepView>, ErrorView> {
    match progress.forked {
        None => Ok(Some(ForkStepView::Snapshot("FORK "@ + snapshot))),
        Some(Err(error)) => Err(error),
        Some(Ok(reply)) => if !agreed(reply) {
            Err(
                ErrorView::Agent {
                    operation: "fork"@,
                    reason: "golden FORK failed: "@ + reply,
                },
            )
        } else {
            match progress.disks {
                None => Ok(Some(ForkStepView::CloneDisks)),
                Some(Err(error)) => Err(error),
                Some(Ok(_)) => match progress.started {
                    None => Ok(Some(ForkStepView::Start(clone_start(request.clone, snapshot)))),
                    Some(Err(error)) => Err(error),
                    Some(Ok(_)) => if !progress.rejuvenated {
                        Ok(Some(ForkStepView::Rejuvenate(rejuvenation(request.clone))))
                    } else {
                        Ok(None)
                    },
                },
            }
        },
    }
}

/// What a fork does once the clone's record is stored.
pub open spec fn fork_clone_step(
    request: ForkMachineView,
    progress: ForkProgressView,
    snapshot: Seq<char>,
) -> ForkStepView {
    match bring_up_step(request, progress, snapshot) {
        Ok(Some(step)) => step,
        Err(error) => if !progress.record_removed {
            ForkStepView::RemoveRecord
        } else if !progress.dir_removed {
            ForkStepView::RemoveDir
        } else {
            ForkStepView::Finish(Err(error))
        },
        Ok(None) => match progress.status {
            None => ForkStepView::LoadStatus,
            Some(Err(error)) => ForkStepView::Finish(Err(error)),
            Some(Ok(None)) => ForkStepView::Finish(
                Err(ErrorView::VmNotFound { name: request.clone }),
            ),
            Some(Ok(Some(status))) => ForkStepView::Finish(Ok(status)),
        },
    }
}

/// What a fork of a machine with this record does.
pub open spec fn fork_prepare_step(
    request: ForkMachineView,
    progress: ForkProgressView,
    golden: VmRecordView,
) -> ForkStepView {
    match progress.socket_status {
        None => ForkStepView::AskStatus,
        Some(Err(reason)) => ForkStepView::Finish(
            Err(
                ErrorView::Agent {
                    operation: "fork"@,
                    reason: "golden '"@ + request.golden + "' is not running forkable ("@ + reason
                        + "); start it with forkable=true"@,
                },
            ),
        ),
        Some(Ok(reply)) => if !agreed(reply) {
            ForkStepView::Finish(
                Err(
                    ErrorView::Agent {
                        operation: "fork"@,
                        reason: "golden '"@ + request.golden + "' is not ready to fork: "@ + reply,
                    },
                ),
            )
        } else {
            match progress.snapshot {
                None => ForkStepView::MakeSnapshotDir,
                Some(Err(reason)) => ForkStepView::Finish(
                    Err(ErrorView::Agent { operation: "create clone dir"@, reason }),
                ),
                Some(Ok(snapshot)) => if request.ports.len() == 0 && progress.free_ports is None {
                    ForkStepView::FindPorts
                } else {
                    match progress.inserted {
                        None => ForkStepView::Insert(
                            clone_of(
                                golden,
                                request.golden,
                                request.clone,
                                ports_of_clone(
                                    golden,
                                    request.ports,
                                    if progress.free_ports is Some {
                                        progress.free_ports->0
                                    } else {
                                        Seq::empty()
                                    },
                                ),
                            ),
                        ),
                        Some(Err(error)) => ForkStepView::Finish(Err(error)),
                        Some(Ok(_)) => fork_clone_step(request, progress, snapshot),
                    }
                },
            }
        },
    }
}

/// What a fork does next.
pub open spec fn fork_step(request: ForkMachineView, progress: ForkProgressView) -> ForkStepView {
    match progress.name {
        None => ForkStepView::CheckName,
        Some(Err(reason)) => ForkStepView::Finish(
            Err(ErrorView::Config { operation: "fork machine"@, reason }),
        ),
        Some(Ok(_)) => match progress.taken {
            None => ForkStepView::CheckTaken,
            Some(Err(error)) => ForkStepView::Finish(Err(error)),
            Some(Ok(true)) => ForkStepView::Finish(
                Err(
                    ErrorView::Agent {
                        operation: "fork"@,
                        reason: "machine '"@ + request.clone + "' already exists"@,
                    },
                ),
            ),
            Some(Ok(false)) => match progress.golden {
                None => ForkStepView::LoadGolden,
                Some(loaded) => match record_found(request.golden, loaded) {
                    Err(error) => ForkStepView::Finish(Err(error)),
                    Ok(golden) => fork_prepare_step(request, progress, golden),
                },
            },
        },
    }
}

fn decide_bring_up(request: &ForkMachine, progress: &ForkProgress, snapshot: &String) -> (step:
    Result<Option<ForkStep>, Error>)
    ensures
        step.model() == bring_up_step(request.model(), progress.model(), snapshot@),
{
    match &progress.forked {
        None => {
            return Ok(Some(ForkStep::Snapshot(cat2("FORK ", snapshot.as_str()))));
        },
        Some(Err(error)) => {
            return Err(error.dup());
        },
        Some(Ok(reply)) => {
            if !starts_with(reply.as_str(), "OK") {
                return Err(Error::agent("fork", cat2("golden FORK failed: ", reply.as_str())));
            }
        },
    }
    match &progress.disks {
        None => {
            return Ok(Some(ForkStep::CloneDisks));
        },
        Some(Err(error)) => {
            return Err(error.dup());
        },
        Some(Ok(_)) => {},
    }
    match &progress.started {
        None => Ok(
            Some(
                ForkStep::Start(
                    StartMachine {
                        name: request.clone.dup(),
                        forkable: false,
                        proxy: None,
                        no_proxy: None,
                        snapshot_dir: Some(snapshot.dup()),
                    },
                ),
            ),
        ),
        Some(Err(error)) => Err(error.dup()),
        Some(Ok(_)) => if !progress.rejuvenated {
            Ok(Some(ForkStep::Rejuvenate(rejuvenate_clone(request.clone.as_str()))))
        } else {
            Ok(None)
        },
    }
}

fn decide_fork_clone(request: &ForkMachine, progress: &ForkProgress, snapshot: &String) -> (step:
    ForkStep)
    ensures
        step.model() == fork_clone_step(request.model(), progress.model(), snapshot@),
{
    match decide_bring_up(request, progress, snapshot) {
        Ok(Some(step)) => step,
        Err(error) => if !progress.record_removed {
            ForkStep::RemoveRecord
        } else if !progress.dir_removed {
            ForkStep::RemoveDir
        } else {
            ForkStep::Finish(Err(error))
        },
        Ok(None) => match &progress.status {
            None => ForkStep::LoadStatus,
            Some(Err(error)) => ForkStep::Finish(Err(error.dup())),
            Some(Ok(None)) => ForkStep::Finish(Err(Error::vm_not_found(request.clone.as_str()))),
            Some(Ok(Some(status))) => ForkStep::Finish(Ok(status.dup())),
        },
    }
}

fn decide_fork_prepare(request: &ForkMachine, progress: &ForkProgress, golden: &VmRecord) -> (step:
    ForkStep)
    ensures
        step.model() == fork_prepare_step(request.model(), progress.model(), golden.model()),
{
    match &progress.socket_status {
        None => {
            return ForkStep::AskStatus;
        },
        Some(Err(reason)) => {
            return ForkStep::Finish(
                Err(
                    Error::agent(
                        "fork",
                        cat5(
                            "golden '",
                            request.golden.as_str(),
                            "' is not running forkable (",
                            reason.as_str(),
                            "); start it with forkable=true",
                        ),
                    ),
                ),
            );
        },
        Some(Ok(reply)) => {
            if !starts_with(reply.as_str(), "OK") {
                return ForkStep::Finish(
                    Err(
                        Error::agent(
                            "fork",
                            cat4(
                                "golden '",
                                request.golden.as_str(),
                                "' is not ready to fork: ",
                                reply.as_str(),
                            ),
                        ),
                    ),
                );
            }
        },
    }
    let snapshot: &String = match &progress.snapshot {
        None => {
            return ForkStep::MakeSnapshotDir;
        },
        Some(Err(reason)) => {
            return ForkStep::Finish(Err(Error::agent("create clone dir", reason.dup())));
        },
        Some(Ok(snapshot)) => snapshot,
    };
    if request.ports.len() == 0 && progress.free_ports.is_none() {
        return ForkStep::FindPorts;
    }
    match &progress.inserted {
        None => {
            let free: Vec<Option<u16>> = match &progress.free_ports {
                Some(free) => free.dup(),
                None => empty_list(),
            };
            let ports: Vec<(u16, u16)> = clone_ports(golden, &request.ports, &free);
            ForkStep::Insert(
                clone_record(golden, request.golden.as_str(), request.clone.as_str(), ports),
            )
        },
        Some(Err(error)) => ForkStep::Finish(Err(error.dup())),
        Some(Ok(_)) => decide_fork_clone(request, progress, snapshot),
    }
}

/// Decides what a fork does next.
pub fn next_fork_step(request: &ForkMachine, progress: &ForkProgress) -> (step: ForkStep)
    ensures
        step.model() == fork_step(request.model(), progress.model()),
{
    match &progress.name {
        None => {
            return ForkStep::CheckName;
        },
        Some(Err(reason)) => {
            return ForkStep::Finish(Err(Error::config("fork machine", reason.dup())));
        },
        Some(Ok(_)) => {},
    }
    match &progress.taken {
        None => {
            return ForkStep::CheckTaken;
        },
        Some(Err(error)) => {
            return ForkStep::Finish(Err(error.dup()));
        },
        Some(Ok(taken)) => {
            if *taken {
                return ForkStep::Finish(
                    Err(
                        Error::agent(
                            "fork",
                            cat3("machine '", request.clone.as_str(), "' already exists"),
                        ),
                    ),
                );
            }
        },
    }
    match &progress.golden {
        None => ForkStep::LoadGolden,
        Some(loaded) => match get_record(request.golden.as_str(), loaded) {
            Err(error) => ForkStep::Finish(Err(error)),
            Ok(golden) => decide_fork_prepare(request, progress, &golden),
        },
    }
}

/// Law: a fork that fails after it stored the clone's record ends with that
/// error, and only after the record and the directory of the clone were removed.
pub proof fn law_failed_fork_leaves_nothing(
    request: ForkMachineView,
    progress: ForkProgressView,
    snapshot: Seq<char>,
)
    requires
        bring_up_step(request, progress, snapshot) is Err,
        fork_clone_step(request, progress, snapshot) is Finish,
    ensures
        fork_clone_step(request, progress, snapshot) == ForkStepView::Finish(
            Err(bring_up_step(request, progress, snapshot)->Err_0),
        ),
        progress.record_removed && progress.dir_removed,
{
}

/// Law: a fork never stores a clone over a machine that exists.
pub proof fn law_fork_keeps_existing_machines(
    request: ForkMachineView,
    progress: ForkProgressView,
)
    requires
        fork_step(request, progress) is Insert,
    ensures
        progress.taken == Some(Ok::<bool, ErrorView>(false)),
        fork_step(request, progress)->Insert_0.name == request.clone,
        fork_step(request, progress)->Insert_0.golden == Some(request.golden),
        fork_step(request, progress)->Insert_0.pid is None,
{
}

/// Law: the machine that a fork starts is the clone, from the snapshot directory
/// that was made for it, and only after its record was stored, the golden machine
/// agreed to take the snapshot and the disks were cloned. A fork that succeeds has
/// asked for that start and seen it succeed, and gives the status that was read.
pub proof fn law_fork_starts_the_clone(request: ForkMachineView, progress: ForkProgressView)
    ensures
        fork_step(request, progress) matches ForkStepView::Start(start) ==> {
            &&& start.name == request.clone
            &&& start.snapshot_dir is Some && progress.snapshot == Some(
                Ok::<Seq<char>, Seq<char>>(start.snapshot_dir->0),
            )
            &&& !start.forkable && start.proxy is None && start.no_proxy is None
            &&& (progress.inserted is Some && progress.inserted->0 is Ok)
            &&& progress.forked matches Some(Ok(reply)) && ("OK"@).is_prefix_of(reply)
            &&& (progress.disks is Some && progress.disks->0 is Ok)
            &&& progress.started is None
        },
        fork_step(request, progress) matches ForkStepView::Finish(Ok(status)) ==> {
            &&& (progress.started is Some && progress.started->0 is Ok)
            &&& fork_step(
                request,
                ForkProgressView { started: None, ..progress },
            ) matches ForkStepView::Start(start) && start.name == request.clone
            &&& progress.rejuvenated
            &&& progress.status == Some(Ok::<Option<MachineStatusView>, ErrorView>(Some(status)))
        },
{
}

/// Law: a fork asks the control socket of the golden machine for a snapshot in the
/// directory of the clone, and then gives the clone a name of its own, by a command
/// in the shell of the clone that ends after ten seconds.
pub proof fn law_fork_speaks_of_the_clone(request: ForkMachineView, progress: ForkProgressView)
    ensures
        fork_step(request, progress) matches ForkStepView::Snapshot(line) ==> progress.snapshot
            is Some && progress.snapshot->0 is Ok && line == "FORK "@ + progress.snapshot->0->Ok_0
            && (progress.inserted is Some && progress.inserted->0 is Ok) && progress.forked is None,
        fork_step(request, progress) matches ForkStepView::Rejuvenate(command) ==> {
            &&& command.command.len() == 3 && command.command[0] == "/bin/sh"@
                && command.command[1] == "-c"@
            &&& ("hostname '"@ + request.clone + "'"@).is_prefix_of(command.command[2])
            &&& command.timeout == Some(TimeSpan { secs: 10, nanos: 0 })
            &&& command.workdir is None && command.stdin is None && !command.tty
                && command.env.len() == 0
            &&& (progress.started is Some && progress.started->0 is Ok) && !progress.rejuvenated
        },
{
    reveal_strlit("'");
    reveal_strlit(
        "' 2>/dev/null || true\nrm -f /etc/machine-id\ndbus-uuidgen --ensure=/etc/machine-id 2>/dev/null || true\n",
    );
    let start = "hostname '"@ + request.clone + "'"@;
    let script = "hostname '"@ + request.clone
        + "' 2>/dev/null || true\nrm -f /etc/machine-id\ndbus-uuidgen --ensure=/etc/machine-id 2>/dev/null || true\n"@;
    assert(script.subrange(0, start.len() as int) =~= start);
}

/// Law: the record that a fork stores is that of the golden machine under the
/// clone's name, without its process, with the ports that were asked for or else
/// those of the golden machine on free host ports.
pub proof fn law_fork_stores_a_clone(
    request: ForkMachineView,
    progress: ForkProgressView,
    golden: VmRecordView,
)
    requires
        progress.golden == Some(Ok::<Option<VmRecordView>, ErrorView>(Some(golden))),
    ensures
        fork_step(request, progress) matches ForkStepView::Insert(clone) ==> {
            &&& clone.name == request.clone && clone.golden == Some(request.golden)
            &&& clone.pid is None && clone.pid_start_time is None
            &&& VmRecordView {
                name: golden.name,
                pid: golden.pid,
                pid_start_time: golden.pid_start_time,
                golden: golden.golden,
                ports: golden.ports,
                ..clone
            } == golden
            &&& request.ports.len() > 0 ==> clone.ports.len() == request.ports.len()
            &&& request.ports.len() > 0 ==> forall|i: int|
                0 <= i < request.ports.len() ==> #[trigger] clone.ports[i] == (
                    request.ports[i].host,
                    request.ports[i].guest,
                )
            &&& request.ports.len() == 0 ==> progress.free_ports is Some
            &&& request.ports.len() == 0 ==> forall|pair: (u16, u16)| #[trigger]
                clone.ports.contains(pair) <==> exists|i: int|
                    0 <= i < golden.ports.len() && i < progress.free_ports->0.len() && (
                    #[trigger] progress.free_ports->0[i]) == Some(pair.0) && golden.ports[i].1
                        == pair.1
            &&& progress.snapshot matches Some(Ok(_))
            &&& progress.socket_status matches Some(Ok(reply)) && ("OK"@).is_prefix_of(reply)
        },
{
    law_ports_of_a_clone(
        golden,
        request.ports,
        if progress.free_ports is Some {
            progress.free_ports->0
        } else {
            Seq::empty()
        },
    );
}

/// Whether everything that a fork does before it stores the clone has succeeded, and
/// the clone was stored.
pub open spec fn clone_stored(progress: ForkProgressView) -> bool {
    &&& (progress.name is Some && progress.name->0 is Ok)
    &&& progress.taken == Some(Ok::<bool, ErrorView>(false))
    &&& progress.golden matches Some(Ok(Some(_)))
    &&& progress.socket_status matches Some(Ok(reply)) && ("OK"@).is_prefix_of(reply)
    &&& progress.snapshot matches Some(Ok(_))
    &&& progress.free_ports is Some
    &&& (progress.inserted is Some && progress.inserted->0 is Ok)
}

/// Law: where the snapshot, the disks or the start of a stored clone fail, the record
/// of the clone is removed, then its directory, and then the fork ends with that
/// error. Where the golden machine does not agree to the snapshot, its reply is told.
pub proof fn law_fork_undoes_a_failure(request: ForkMachineView, progress: ForkProgressView)
    requires
        clone_stored(progress),
    ensures
        ({
            let step = fork_step(request, progress);
            let snapshot = progress.forked matches Some(Ok(reply)) && ("OK"@).is_prefix_of(reply);
            let cloned = snapshot && (progress.disks is Some && progress.disks->0 is Ok);
            let fault = if progress.forked is Some && progress.forked->0 is Err {
                Some(progress.forked->0->Err_0)
            } else if progress.forked is Some && !snapshot {
                Some(
                    ErrorView::Agent {
                        operation: "fork"@,
                        reason: "golden FORK failed: "@ + progress.forked->0->Ok_0,
                    },
                )
            } else if snapshot && progress.disks is Some && progress.disks->0 is Err {
                Some(progress.disks->0->Err_0)
            } else if cloned && progress.started is Some && progress.started->0 is Err {
                Some(progress.started->0->Err_0)
            } else {
                None
            };
            &&& fault is Some && !progress.record_removed ==> step is RemoveRecord
            &&& fault is Some && progress.record_removed && !progress.dir_removed ==> step
                is RemoveDir
            &&& fault is Some && progress.record_removed && progress.dir_removed ==> step
                == ForkStepView::Finish(Err(fault->0))
            &&& fault is None ==> !(step is RemoveRecord) && !(step is RemoveDir)
        }),
{
}

/// Law: a fork that is not possible ends before anything is made: a name that may
/// not be used or is taken, a golden machine that does not exist, or one that is not
/// ready, each with its error.
pub proof fn law_impossible_fork_makes_nothing(
    request: ForkMachineView,
    progress: ForkProgressView,
)
    ensures
        progress.name is Some && progress.name->0 is Err ==> fork_step(request, progress)
            == ForkStepView::Finish(
            Err(ErrorView::Config { operation: "fork machine"@, reason: progress.name->0->Err_0 }),
        ),
        (progress.name is Some && progress.name->0 is Ok) && progress.taken == Some(Ok::<bool, ErrorView>(true))
            ==> fork_step(request, progress) matches ForkStepView::Finish(Err(_)),
        (progress.name is Some && progress.name->0 is Ok) && progress.taken == Some(Ok::<bool, ErrorView>(false))
            && progress.golden == Some(Ok::<Option<VmRecordView>, ErrorView>(None)) ==> fork_step(
            request,
            progress,
        ) == ForkStepView::Finish(Err(ErrorView::VmNotFound { name: request.golden })),
        ({
            let step = fork_step(request, progress);
            step is MakeSnapshotDir || step is FindPorts || step is Insert || step is Snapshot
                || step is CloneDisks || step is Start ==> (progress.name is Some && progress.name->0 is Ok) && progress.taken == Some(Ok::<bool, ErrorView>(false)) && (
            progress.golden matches Some(Ok(Some(_)))) && (
            progress.socket_status matches Some(Ok(reply)) && ("OK"@).is_prefix_of(reply))
        }),
{
}

/// Law: a fork asks for everything once: what it asks for next is not known yet.
pub proof fn law_fork_asks_once(request: ForkMachineView, progress: ForkProgressView)
    ensures
        ({
            let step = fork_step(request, progress);
            &&& step is CheckName ==> progress.name is None
            &&& step is CheckTaken ==> progress.taken is None
            &&& step is LoadGolden ==> progress.golden is None
            &&& step is AskStatus ==> progress.socket_status is None
            &&& step is MakeSnapshotDir ==> progress.snapshot is None
            &&& step is FindPorts ==> progress.free_ports is None && request.ports.len() == 0
            &&& step is Insert ==> progress.inserted is None
            &&& step is Snapshot ==> progress.forked is None
            &&& step is CloneDisks ==> progress.disks is None && (
            progress.forked matches Some(Ok(reply)) && ("OK"@).is_prefix_of(reply))
            &&& step is Start ==> progress.started is None
            &&& step is Rejuvenate ==> !progress.rejuvenated
            &&& step is RemoveRecord ==> !progress.record_removed
            &&& step is RemoveDir ==> !progress.dir_removed && progress.record_removed
            &&& step is LoadStatus ==> progress.status is None && progress.rejuvenated
        }),
{
}

/// Law: what the control socket says is the start of its reply up to the end of the
/// first line, without the line end.
pub proof fn law_reply_is_its_first_line(line: Seq<char>, rest: Seq<char>)
    requires
        !line.contains('\n'),
        !line.contains('\r'),
    ensures
        reply_line(line) == line,
        reply_line(line + seq!['\n'] + rest) == line,
        reply_line(line + seq!['\r', '\n'] + rest) == line,
{
    let whole = line;
    assert forall|i: int| 0 <= i < whole.len() implies whole[i] != '\n' by {
        assert(line.contains(line[i]));
    }
    crate::text::lemma_position(whole, '\n');
    let unix = line + seq!['\n'] + rest;
    assert forall|i: int| 0 <= i < line.len() implies unix[i] != '\n' && unix[i] != '\r' by {
        assert(line.contains(line[i]));
    }
    crate::text::lemma_position_is(unix, '\n', line.len() as int);
    assert(unix.take(line.len() as int) =~= line);
    let dos = line + seq!['\r', '\n'] + rest;
    assert forall|i: int| 0 <= i < line.len() + 1 implies dos[i] != '\n' by {
        if i < line.len() {
            assert(line.contains(line[i]));
        }
    }
    crate::text::lemma_position_is(dos, '\n', line.len() as int + 1);
    assert(dos.take(line.len() as int) =~= line);
}

/// Law: a file name of a stem and an extension has that stem; a name without a dot is
/// its own stem.
pub proof fn law_stem_drops_the_extension(base: Seq<char>, extension: Seq<char>)
    requires
        base.len() > 0,
        !extension.contains('.'),
    ensures
        stem(base + seq!['.'] + extension) == base,
        !base.contains('.') ==> stem(base) == base,
{
    let name = base + seq!['.'] + extension;
    assert forall|i: int| base.len() < i < name.len() implies name[i] != '.' by {
        assert(name[i] == extension[i - base.len() - 1]);
        assert(extension.contains(extension[i - base.len() - 1]));
    }
    lemma_stem_at(name, base.len() as int, name.len() as int);
    assert(name.take(base.len() as int) =~= base);
    if !base.contains('.') {
        assert forall|i: int| 0 <= i < base.len() implies base[i] != '.' by {
            assert(base.contains(base[i]));
        }
        lemma_no_stem(base, base.len() as int);
    }
}

proof fn lemma_stem_at(name: Seq<char>, at: int, end: int)
    requires
        0 < at < end <= name.len(),
        name[at] == '.',
        forall|i: int| at < i < end ==> #[trigger] name[i] != '.',
    ensures
        stem_up_to(name, end) == name.take(at),
    decreases end - at,
{
    if end - 1 > at {
        lemma_stem_at(name, at, end - 1);
    }
}

proof fn lemma_no_stem(name: Seq<char>, end: int)
    requires
        0 <= end <= name.len(),
        forall|i: int| 0 <= i < end ==> #[trigger] name[i] != '.',
    ensures
        stem_up_to(name, end) == name,
    decreases end,
{
    if end > 1 {
        lemma_no_stem(name, end - 1);
    }
}

/// Law: cloning disks makes one overlay for each disk with an image, over that image
/// and under the disk's name as a copy-on-write file, and copies the mark of each
/// formatted disk; a disk without an image gets no overlay.
pub proof fn law_disks_are_cloned_one_by_one(disks: Seq<FoundDiskView>, disk: FoundDiskView)
    ensures
        overlays_of(Seq::empty()).len() == 0 && marks_of(Seq::empty()).len() == 0,
        disk.image is None ==> overlays_of(disks.push(disk)) == overlays_of(disks),
        disk.image is Some ==> overlays_of(disks.push(disk)).len() == overlays_of(disks).len() + 1
            && overlays_of(disks.push(disk)).last() == (stem(disk.name) + ".qcow2"@, disk.image->0)
            && overlays_of(disks.push(disk)).drop_last() == overlays_of(disks),
        !disk.formatted ==> marks_of(disks.push(disk)) == marks_of(disks),
        disk.formatted ==> marks_of(disks.push(disk)).len() == marks_of(disks).len() + 1
            && marks_of(disks.push(disk)).last() == stem(disk.name) + ".formatted"@ && marks_of(
            disks.push(disk),
        ).drop_last() == marks_of(disks),
{
    assert(disks.push(disk).drop_last() =~= disks);
    assert(overlays_of(disks.push(disk)).drop_last() =~= overlays_of(disks) || disk.image is None);
    assert(marks_of(disks.push(disk)).drop_last() =~= marks_of(disks) || !disk.formatted);
}

/// Law: where the golden machine cannot be cloned, the error names it and tells what it answered.
pub proof fn law_refused_fork_names_the_golden(
    request: ForkMachineView,
    progress: ForkProgressView,
    golden: VmRecordView,
)
    requires
        progress.socket_status is Some,
        progress.socket_status->0 is Ok ==> !("OK"@).is_prefix_of(progress.socket_status->0->Ok_0),
    ensures
        fork_prepare_step(request, progress, golden) matches ForkStepView::Finish(Err(error))
            && error is Agent && error->Agent_operation == "fork"@ && crate::text::has_part(
            error->Agent_reason,
            request.golden,
        ) && crate::text::has_part(
            error->Agent_reason,
            if progress.socket_status->0 is Ok {
                progress.socket_status->0->Ok_0
            } else {
                progress.socket_status->0->Err_0
            },
        ),
{
    let step = fork_prepare_step(request, progress, golden);
    let text = step->Finish_0->Err_0->Agent_reason;
    let at = ("golden '"@).len() as int;
    assert(text.subrange(at, at + request.golden.len()) =~= request.golden);
    assert(crate::text::stands_at(text, request.golden, at));
    if progress.socket_status->0 is Ok {
        let reply = progress.socket_status->0->Ok_0;
        let then = at + request.golden.len() + ("' is not ready to fork: "@).len();
        assert(text.subrange(then, then + reply.len()) =~= reply);
        assert(crate::text::stands_at(text, reply, then));
    } else {
        let reason = progress.socket_status->0->Err_0;
        let then = at + request.golden.len() + ("' is not running forkable ("@).len();
        assert(text.subrange(then, then + reason.len()) =~= reason);
        assert(crate::text::stands_at(text, reason, then));
    }
}

} // verus!
