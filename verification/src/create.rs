//! Order of a create: the name is reserved, packed layers are unpacked, and the
//! record is committed or everything is undone.

use crate::error::{Error, ErrorView};
use crate::model::Model;
use crate::requests::{MachineStatus, MachineStatusView};
use crate::text::{cat2, cat3};
use crate::types::{VmRecord, VmRecordView};
use vstd::prelude::*;

verus! {

/// What a create has learnt so far.
#[derive(Debug, PartialEq, Eq)]
pub struct CreateProgress {
    /// Whether the name could be reserved.
    pub reserved: Option<Result<bool, Error>>,
    /// Whether the packed machine file is there.
    pub sidecar_exists: Option<bool>,
    /// What opening the machine's manager gave.
    pub manager: Option<Result<(), String>>,
    /// What clearing the layer cache gave.
    pub cleared: Option<Result<(), String>>,
    /// What reading the footer of the packed machine gave.
    pub footer: Option<Result<(), String>>,
    /// What unpacking the packed machine gave.
    pub extracted: Option<Result<(), String>>,
    /// Whether the layer cache was detached after unpacking.
    pub detached: bool,
    /// Whether the reserved name could be turned into the record.
    pub committed: Option<Result<bool, Error>>,
    /// Whether the reservation of a failed create was given up.
    pub released: bool,
    /// Whether the data of a failed create was removed.
    pub rolled_back: bool,
}

/// Mathematical model of a [`CreateProgress`].
pub struct CreateProgressView {
    pub reserved: Option<Result<bool, ErrorView>>,
    pub sidecar_exists: Option<bool>,
    pub manager: Option<Result<(), Seq<char>>>,
    pub cleared: Option<Result<(), Seq<char>>>,
    pub footer: Option<Result<(), Seq<char>>>,
    pub extracted: Option<Result<(), Seq<char>>>,
    pub detached: bool,
    pub committed: Option<Result<bool, ErrorView>>,
    pub released: bool,
    pub rolled_back: bool,
}

impl Model for CreateProgress {
    type V = CreateProgressView;

    open spec fn model(&self) -> CreateProgressView {
        CreateProgressView {
            reserved: self.reserved.model(),
            sidecar_exists: self.sidecar_exists.model(),
            manager: self.manager.model(),
            cleared: self.cleared.model(),
            footer: self.footer.model(),
            extracted: self.extracted.model(),
            detached: self.detached.model(),
            committed: self.committed.model(),
            released: self.released.model(),
            rolled_back: self.rolled_back.model(),
        }
    }

    fn dup(&self) -> (copy: Self) {
        CreateProgress {
            reserved: self.reserved.dup(),
            sidecar_exists: self.sidecar_exists.dup(),
            manager: self.manager.dup(),
            cleared: self.cleared.dup(),
            footer: self.footer.dup(),
            extracted: self.extracted.dup(),
            detached: self.detached.dup(),
            committed: self.committed.dup(),
            released: self.released.dup(),
            rolled_back: self.rolled_back.dup(),
        }
    }
}

/// What a create does next.
#[derive(Debug, PartialEq, Eq)]
pub enum CreateStep {
    /// Reserve the name.
    Reserve,
    /// Look whether the packed machine file is there.
    CheckSidecar(String),
    /// Open the manager of the machine with these disk sizes.
    OpenManager { storage_gb: Option<u64>, overlay_gb: Option<u64> },
    /// Detach and clear the layer cache.
    ClearCache,
    /// Read the footer of the packed machine.
    ReadFooter,
    /// Unpack the packed machine.
    Extract,
    /// Detach the layer cache.
    DetachLayers,
    /// Turn the reserved name into this record.
    Commit(VmRecord),
    /// Give up the reservation.
    Release,
    /// Remove the data of the machine.
    RollBack,
    /// The create is over.
    Finish(Result<MachineStatus, Error>),
}

/// Mathematical model of a [`CreateStep`].
pub enum CreateStepView {
    Reserve,
    CheckSidecar(Seq<char>),
    OpenManager { storage_gb: Option<u64>, overlay_gb: Option<u64> },
    ClearCache,
    ReadFooter,
    Extract,
    DetachLayers,
    Commit(VmRecordView),
    Release,
    RollBack,
    Finish(Result<MachineStatusView, ErrorView>),
}

impl Model for CreateStep {
    type V = CreateStepView;

    open spec fn model(&self) -> CreateStepView {
        match self {
            CreateStep::Reserve => CreateStepView::Reserve,
            CreateStep::CheckSidecar(value) => CreateStepView::CheckSidecar(value.model()),
            CreateStep::OpenManager { storage_gb, overlay_gb } => CreateStepView::OpenManager { storage_gb: storage_gb.model(), overlay_gb: overlay_gb.model() },
            CreateStep::ClearCache => CreateStepView::ClearCache,
            CreateStep::ReadFooter => CreateStepView::ReadFooter,
            CreateStep::Extract => CreateStepView::Extract,
            CreateStep::DetachLayers => CreateStepView::DetachLayers,
            CreateStep::Commit(value) => CreateStepView::Commit(value.model()),
            CreateStep::Release => CreateStepView::Release,
            CreateStep::RollBack => CreateStepView::RollBack,
            CreateStep::Finish(value) => CreateStepView::Finish(value.model()),
        }
    }

    fn dup(&self) -> (copy: Self) {
        match self {
            CreateStep::Reserve => CreateStep::Reserve,
            CreateStep::CheckSidecar(value) => CreateStep::CheckSidecar(value.dup()),
            CreateStep::OpenManager { storage_gb, overlay_gb } => CreateStep::OpenManager { storage_gb: storage_gb.dup(), overlay_gb: overlay_gb.dup() },
            CreateStep::ClearCache => CreateStep::ClearCache,
            CreateStep::ReadFooter => CreateStep::ReadFooter,
            CreateStep::Extract => CreateStep::Extract,
            CreateStep::DetachLayers => CreateStep::DetachLayers,
            CreateStep::Commit(value) => CreateStep::Commit(value.dup()),
            CreateStep::Release => CreateStep::Release,
            CreateStep::RollBack => CreateStep::RollBack,
            CreateStep::Finish(value) => CreateStep::Finish(value.dup()),
        }
    }
}

/// The error of a helper.
pub open spec fn helper_error(operation: Seq<char>, reason: Seq<char>) -> ErrorView {
    ErrorView::Agent { operation, reason }
}

/// What unpacking the layers of a new machine needs next: nothing once they
/// are ready, or the error that ends it.
pub open spec fn layers_step(
    record: VmRecordView,
    progress: CreateProgressView,
) -> Result<Option<CreateStepView>, ErrorView> {
    match record.source_smolmachine {
        None => Ok(None),
        Some(path) => match progress.sidecar_exists {
            None => Ok(Some(CreateStepView::CheckSidecar(path))),
            Some(false) => Err(
                ErrorView::Config {
                    operation: "create machine"@,
                    reason: "sidecar file not found: "@ + path,
                },
            ),
            Some(true) => match progress.manager {
                None => Ok(
                    Some(
                        CreateStepView::OpenManager {
                            storage_gb: record.storage_gb,
                            overlay_gb: record.overlay_gb,
                        },
                    ),
                ),
                Some(Err(reason)) => Err(helper_error("create agent manager"@, reason)),
                Some(Ok(_)) => match progress.cleared {
                    None => Ok(Some(CreateStepView::ClearCache)),
                    Some(Err(reason)) => Err(helper_error("clear packed layers cache"@, reason)),
                    Some(Ok(_)) => match progress.footer {
                        None => Ok(Some(CreateStepView::ReadFooter)),
                        Some(Err(reason)) => if !progress.detached {
                            Ok(Some(CreateStepView::DetachLayers))
                        } else {
                            Err(helper_error("read sidecar footer"@, reason))
                        },
                        Some(Ok(_)) => match progress.extracted {
                            None => Ok(Some(CreateStepView::Extract)),
                            Some(extracted) => if !progress.detached {
                                Ok(Some(CreateStepView::DetachLayers))
                            } else {
                                match extracted {
                                    Err(reason) => Err(helper_error("extract sidecar"@, reason)),
                                    Ok(_) => Ok(None),
                                }
                            },
                        },
                    },
                },
            },
        },
    }
}

/// What a create that failed with `error` does next.
pub open spec fn create_undone(error: ErrorView, progress: CreateProgressView) -> CreateStepView {
    if !progress.released {
        CreateStepView::Release
    } else if !progress.rolled_back {
        CreateStepView::RollBack
    } else {
        CreateStepView::Finish(Err(error))
    }
}

/// What a create does next.
pub open spec fn create_step(record: VmRecordView, progress: CreateProgressView) -> CreateStepView {
    match progress.reserved {
        None => CreateStepView::Reserve,
        Some(Err(error)) => CreateStepView::Finish(Err(error)),
        Some(Ok(false)) => CreateStepView::Finish(
            Err(
                ErrorView::Config {
                    operation: "create machine"@,
                    reason: "machine '"@ + record.name + "' already exists or is being created"@,
                },
            ),
        ),
        Some(Ok(true)) => match layers_step(record, progress) {
            Err(error) => create_undone(error, progress),
            Ok(Some(step)) => step,
            Ok(None) => match progress.committed {
                None => CreateStepView::Commit(record),
                Some(Err(error)) => create_undone(error, progress),
                Some(Ok(false)) => create_undone(
                    ErrorView::Config {
                        operation: "create machine"@,
                        reason: "machine '"@ + record.name
                            + "' already exists or is no longer reserved"@,
                    },
                    progress,
                ),
                Some(Ok(true)) => CreateStepView::Finish(
                    Ok(MachineStatusView { name: record.name, state: record.state, record }),
                ),
            },
        },
    }
}

fn decide_layers(record: &VmRecord, progress: &CreateProgress) -> (step: Result<
    Option<CreateStep>,
    Error,
>)
    ensures
        step.model() == layers_step(record.model(), progress.model()),
{
    let path: &String = match &record.source_smolmachine {
        None => {
            return Ok(None);
        },
        Some(path) => path,
    };
    match progress.sidecar_exists {
        None => {
            return Ok(Some(CreateStep::CheckSidecar(path.dup())));
        },
        Some(exists) => {
            if !exists {
                return Err(
                    Error::config(
                        "create machine",
                        cat2("sidecar file not found: ", path.as_str()),
                    ),
                );
            }
        },
    }
    match &progress.manager {
        None => {
            return Ok(
                Some(
                    CreateStep::OpenManager {
                        storage_gb: record.storage_gb,
                        overlay_gb: record.overlay_gb,
                    },
                ),
            );
        },
        Some(Err(reason)) => {
            return Err(Error::agent("create agent manager", reason.dup()));
        },
        Some(Ok(_)) => {},
    }
    match &progress.cleared {
        None => {
            return Ok(Some(CreateStep::ClearCache));
        },
        Some(Err(reason)) => {
            return Err(Error::agent("clear packed layers cache", reason.dup()));
        },
        Some(Ok(_)) => {},
    }
    match &progress.footer {
        None => {
            return Ok(Some(CreateStep::ReadFooter));
        },
        Some(Err(reason)) => {
            return if !progress.detached {
                Ok(Some(CreateStep::DetachLayers))
            } else {
                Err(Error::agent("read sidecar footer", reason.dup()))
            };
        },
        Some(Ok(_)) => {},
    }
    match &progress.extracted {
        None => Ok(Some(CreateStep::Extract)),
        Some(extracted) => if !progress.detached {
            Ok(Some(CreateStep::DetachLayers))
        } else {
            match extracted {
                Err(reason) => Err(Error::agent("extract sidecar", reason.dup())),
                Ok(_) => Ok(None),
            }
        },
    }
}

fn undo_create(error: Error, progress: &CreateProgress) -> (step: CreateStep)
    ensures
        step.model() == create_undone(error.model(), progress.model()),
{
    if !progress.released {
        CreateStep::Release
    } else if !progress.rolled_back {
        CreateStep::RollBack
    } else {
        CreateStep::Finish(Err(error))
    }
}

/// Decides what a create does next.
pub fn next_create_step(record: &VmRecord, progress: &CreateProgress) -> (step: CreateStep)
    ensures
        step.model() == create_step(record.model(), progress.model()),
{
    match &progress.reserved {
        None => {
            return CreateStep::Reserve;
        },
        Some(Err(error)) => {
            return CreateStep::Finish(Err(error.dup()));
        },
        Some(Ok(reserved)) => {
            if !*reserved {
                return CreateStep::Finish(
                    Err(
                        Error::config(
                            "create machine",
                            cat3(
                                "machine '",
                                record.name.as_str(),
                                "' already exists or is being created",
                            ),
                        ),
                    ),
                );
            }
        },
    }
    match decide_layers(record, progress) {
        Err(error) => undo_create(error, progress),
        Ok(Some(step)) => step,
        Ok(None) => match &progress.committed {
            None => CreateStep::Commit(record.dup()),
            Some(Err(error)) => undo_create(error.dup(), progress),
            Some(Ok(committed)) => if *committed {
                CreateStep::Finish(
                    Ok(
                        MachineStatus {
                            name: record.name.dup(),
                            state: record.state,
                            record: record.dup(),
                        },
                    ),
                )
            } else {
                undo_create(
                    Error::config(
                        "create machine",
                        cat3(
                            "machine '",
                            record.name.as_str(),
                            "' already exists or is no longer reserved",
                        ),
                    ),
                    progress,
                )
            },
        },
    }
}

/// Law: a create whose name is taken or being created ends at once, with an
/// error and without touching anything.
pub proof fn law_taken_name_is_refused(record: VmRecordView, progress: CreateProgressView)
    requires
        progress.reserved == Some(Ok::<bool, ErrorView>(false)),
    ensures
        create_step(record, progress) matches CreateStepView::Finish(Err(_)),
{
}

/// Law: once its name is reserved, a create ends with success only after the
/// record was committed, and with an error only after the reservation was given
/// up and the data was removed.
pub proof fn law_create_is_all_or_nothing(record: VmRecordView, progress: CreateProgressView)
    requires
        progress.reserved == Some(Ok::<bool, ErrorView>(true)),
        create_step(record, progress) is Finish,
    ensures
        create_step(record, progress) matches CreateStepView::Finish(Ok(status)) ==> status.record
            == record && status.name == record.name && progress.committed == Some(
            Ok::<bool, ErrorView>(true),
        ),
        create_step(record, progress) matches CreateStepView::Finish(Err(_)) ==> progress.released
            && progress.rolled_back,
{
}

/// Law: a create commits the record that it was given, under its reserved name. Where the
/// machine comes from a packed one, that happens only after the file was found, the cache
/// was cleared, its layers were unpacked and the cache was detached; where it does not,
/// nothing of the kind is touched. A create that succeeds gives that record and its state.
pub proof fn law_create_commits_the_record(record: VmRecordView, progress: CreateProgressView)
    ensures
        ({
            let step = create_step(record, progress);
            &&& step matches CreateStepView::Commit(stored) ==> {
                &&& stored == record
                &&& progress.reserved == Some(Ok::<bool, ErrorView>(true))
                &&& progress.committed is None
                &&& record.source_smolmachine is Some ==> progress.sidecar_exists == Some(true)
                    && progress.manager is Some && progress.manager->0 is Ok && progress.cleared
                    is Some && progress.cleared->0 is Ok && progress.footer is Some
                    && progress.footer->0 is Ok && progress.extracted is Some
                    && progress.extracted->0 is Ok && progress.detached
            }
            &&& record.source_smolmachine is None ==> !(step is CheckSidecar) && !(step
                is OpenManager) && !(step is ClearCache) && !(step is ReadFooter) && !(step
                is Extract) && !(step is DetachLayers)
            &&& step matches CreateStepView::CheckSidecar(path) ==> record.source_smolmachine
                == Some(path)
            &&& step matches CreateStepView::OpenManager { storage_gb, overlay_gb } ==> storage_gb
                == record.storage_gb && overlay_gb == record.overlay_gb
            &&& step matches CreateStepView::Finish(Ok(status)) ==> status.name == record.name
                && status.state == record.state && status.record == record && progress.committed
                == Some(Ok::<bool, ErrorView>(true))
        }),
{
}

/// Law: a create asks for everything once and in its order, and gives up the reservation
/// before it removes the data, only after something failed.
pub proof fn law_create_asks_once(record: VmRecordView, progress: CreateProgressView)
    ensures
        ({
            let step = create_step(record, progress);
            let failed = progress.sidecar_exists == Some(false) || (progress.manager is Some
                && progress.manager->0 is Err) || (progress.cleared is Some && progress.cleared->0
                is Err) || (progress.footer is Some && progress.footer->0 is Err) || (
            progress.extracted is Some && progress.extracted->0 is Err) || (progress.committed
                is Some && (progress.committed->0 is Err || !progress.committed->0->Ok_0));
            &&& step is Reserve ==> progress.reserved is None
            &&& step is CheckSidecar ==> progress.sidecar_exists is None
            &&& step is OpenManager ==> progress.manager is None && progress.sidecar_exists == Some(
                true,
            )
            &&& step is ClearCache ==> progress.cleared is None && progress.manager is Some
                && progress.manager->0 is Ok
            &&& step is ReadFooter ==> progress.footer is None && progress.cleared is Some
                && progress.cleared->0 is Ok
            &&& step is Extract ==> progress.extracted is None && progress.footer is Some
                && progress.footer->0 is Ok
            &&& step is DetachLayers ==> !progress.detached && progress.footer is Some
            &&& step is Release ==> !progress.released && failed
            &&& step is RollBack ==> progress.released && !progress.rolled_back && failed
        }),
{
}

/// Law: a create that fails tells the error that it was given, or what was missing or refused.
pub proof fn law_failed_create_tells_why(
    record: VmRecordView,
    progress: CreateProgressView,
    error: ErrorView,
)
    requires
        create_step(record, progress) == CreateStepView::Finish(Err(error)),
    ensures
        ({
            ||| progress.reserved == Some(Err::<bool, ErrorView>(error))
            ||| progress.committed == Some(Err::<bool, ErrorView>(error))
            ||| error is Config && (progress.reserved == Some(Ok::<bool, ErrorView>(false))
                || progress.committed == Some(Ok::<bool, ErrorView>(false))
                || progress.sidecar_exists == Some(false))
            ||| error matches ErrorView::Agent { reason, .. } && (progress.manager == Some(
                Err::<(), Seq<char>>(reason),
            ) || progress.cleared == Some(Err::<(), Seq<char>>(reason)) || progress.footer == Some(
                Err::<(), Seq<char>>(reason),
            ) || progress.extracted == Some(Err::<(), Seq<char>>(reason)))
        }),
{
}

} // verus!
