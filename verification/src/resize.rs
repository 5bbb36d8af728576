//! Command line: enlarging the disks of a machine.

use crate::error::{Error, ErrorView};
use crate::model::{empty_list, extend_from, one_of, push_to, Model};
use crate::text::{cat3, cat5, decimal, number, own};
use crate::types::{
    RecordState, ResourceDefaults, ResourceDefaultsView, VmRecord, VmRecordView,
};
use crate::update_flow::{current_disk_size, disk_size, grows, shrinks};
use vstd::prelude::*;

verus! {

/// The error for a disk that would shrink.
pub open spec fn shrink_error(disk: Seq<char>, current: u64, requested: u64) -> ErrorView {
    ErrorView::Config {
        operation: "resize"@,
        reason: disk + " disk cannot be shrunk from "@ + decimal(current as nat) + " GiB to "@
            + decimal(requested as nat)
            + " GiB. Only expanding is supported to prevent data loss."@,
    }
}

/// The sizes of the disks of a machine.
pub open spec fn sizes_of(record: VmRecordView, defaults: ResourceDefaultsView) -> (u64, u64) {
    (
        disk_size(record.storage_gb, defaults.storage_gib),
        disk_size(record.overlay_gb, defaults.overlay_gib),
    )
}

/// Why the disks of a machine may not be resized so, if so.
pub open spec fn resize_fault(
    sizes: (u64, u64),
    storage: Option<u64>,
    overlay: Option<u64>,
) -> Option<ErrorView> {
    if shrinks(storage, sizes.0) {
        Some(shrink_error("storage"@, sizes.0, storage->0))
    } else if shrinks(overlay, sizes.1) {
        Some(shrink_error("overlay"@, sizes.1, overlay->0))
    } else {
        None
    }
}

/// What is said of a disk that grows.
pub open spec fn growth_line(disk: Seq<char>, current: u64, requested: Option<u64>) -> Seq<Seq<char>> {
    if grows(requested, current) {
        seq![
            "  "@ + disk + ": "@ + decimal(current as nat) + " GiB → "@ + decimal(
                requested->0 as nat,
            ) + " GiB"@,
        ]
    } else {
        Seq::empty()
    }
}

/// What is said of the disks that grow.
pub open spec fn growth_lines(
    sizes: (u64, u64),
    storage: Option<u64>,
    overlay: Option<u64>,
) -> Seq<Seq<char>> {
    growth_line("storage"@, sizes.0, storage) + growth_line("overlay"@, sizes.1, overlay)
}

/// What is shown once the disks were resized.
pub open spec fn resized_lines(name: Seq<char>, changes: Seq<Seq<char>>) -> Seq<Seq<char>> {
    if changes.len() == 0 {
        seq!["No disk changes needed."@]
    } else {
        seq!["Resized machine '"@ + name + "':"@] + changes + seq![
            "Filesystem will expand on next boot."@,
        ]
    }
}

/// The record of a machine after its disks were resized.
pub open spec fn resized_record(
    record: VmRecordView,
    storage: Option<u64>,
    overlay: Option<u64>,
) -> VmRecordView {
    VmRecordView {
        storage_gb: crate::model::first_some(storage, record.storage_gb),
        overlay_gb: crate::model::first_some(overlay, record.overlay_gb),
        ..record
    }
}

/// Notes the new sizes of the disks in a record.
pub fn set_disk_sizes(record: &mut VmRecord, storage: Option<u64>, overlay: Option<u64>)
    ensures
        final(record).model() == resized_record(old(record).model(), storage, overlay),
{
    if let Some(size) = storage {
        record.storage_gb = Some(size);
    }
    if let Some(size) = overlay {
        record.overlay_gb = Some(size);
    }
}

/// What is known while disks are resized.
#[derive(Debug, PartialEq, Eq)]
pub struct ResizeProgress {
    /// The machine's record and the state it is really in.
    pub loaded: Option<Result<Option<(VmRecord, RecordState)>, Error>>,
    /// Whether the machine's disks were found, or the text of an error.
    pub manager: Option<Result<(), String>>,
    /// What enlarging the storage disk gave.
    pub storage: Option<Result<(), String>>,
    /// What enlarging the overlay disk gave.
    pub overlay: Option<Result<(), String>>,
    /// What noting the new sizes gave.
    pub saved: Option<Result<(), Error>>,
}

/// Mathematical model of a [`ResizeProgress`].
pub struct ResizeProgressView {
    pub loaded: Option<Result<Option<(VmRecordView, RecordState)>, ErrorView>>,
    pub manager: Option<Result<(), Seq<char>>>,
    pub storage: Option<Result<(), Seq<char>>>,
    pub overlay: Option<Result<(), Seq<char>>>,
    pub saved: Option<Result<(), ErrorView>>,
}

impl Model for ResizeProgress {
    type V = ResizeProgressView;

    open spec fn model(&self) -> ResizeProgressView {
        ResizeProgressView {
            loaded: self.loaded.model(),
            manager: self.manager.model(),
            storage: self.storage.model(),
            overlay: self.overlay.model(),
            saved: self.saved.model(),
        }
    }

    fn dup(&self) -> (copy: Self) {
        ResizeProgress {
            loaded: self.loaded.dup(),
            manager: self.manager.dup(),
            storage: self.storage.dup(),
            overlay: self.overlay.dup(),
            saved: self.saved.dup(),
        }
    }
}

/// What is done next to resize disks.
#[derive(Debug, PartialEq, Eq)]
pub enum ResizeStep {
    /// Load the machine's record.
    Load,
    /// Find the machine's disks.
    FindDisks,
    /// Enlarge the storage disk to this size.
    ExpandStorage(u64),
    /// Enlarge the overlay disk to this size.
    ExpandOverlay(u64),
    /// Note the new sizes.
    Save,
    /// The command has ended: with these lines, or an error.
    Done(Result<Vec<String>, Error>),
}

/// Mathematical model of a [`ResizeStep`].
pub enum ResizeStepView {
    Load,
    FindDisks,
    ExpandStorage(u64),
    ExpandOverlay(u64),
    Save,
    Done(Result<Seq<Seq<char>>, ErrorView>),
}

impl Model for ResizeStep {
    type V = ResizeStepView;

    open spec fn model(&self) -> ResizeStepView {
        match self {
            ResizeStep::Load => ResizeStepView::Load,
            ResizeStep::FindDisks => ResizeStepView::FindDisks,
            ResizeStep::ExpandStorage(value) => ResizeStepView::ExpandStorage(value.model()),
            ResizeStep::ExpandOverlay(value) => ResizeStepView::ExpandOverlay(value.model()),
            ResizeStep::Save => ResizeStepView::Save,
            ResizeStep::Done(value) => ResizeStepView::Done(value.model()),
        }
    }

    fn dup(&self) -> (copy: Self) {
        match self {
            ResizeStep::Load => ResizeStep::Load,
            ResizeStep::FindDisks => ResizeStep::FindDisks,
            ResizeStep::ExpandStorage(value) => ResizeStep::ExpandStorage(value.dup()),
            ResizeStep::ExpandOverlay(value) => ResizeStep::ExpandOverlay(value.dup()),
            ResizeStep::Save => ResizeStep::Save,
            ResizeStep::Done(value) => ResizeStep::Done(value.dup()),
        }
    }
}

/// The step that ends the command with an error.
pub open spec fn resize_failed(error: ErrorView) -> ResizeStepView {
    ResizeStepView::Done(Err(error))
}

/// How a state of a machine is called in an error.
pub open spec fn state_in_error(state: RecordState) -> Seq<char> {
    match state {
        RecordState::Running => "Running"@,
        RecordState::Unreachable => "Unreachable"@,
        RecordState::Stopped => "Stopped"@,
        RecordState::Created => "Created"@,
        RecordState::Failed => "Failed"@,
    }
}

fn name_in_error(state: RecordState) -> (name: &'static str)
    ensures
        name@ == state_in_error(state),
{
    match state {
        RecordState::Running => "Running",
        RecordState::Unreachable => "Unreachable",
        RecordState::Stopped => "Stopped",
        RecordState::Created => "Created",
        RecordState::Failed => "Failed",
    }
}

/// What is done once the disks may be enlarged.
pub open spec fn expand_step(
    name: Seq<char>,
    sizes: (u64, u64),
    storage: Option<u64>,
    overlay: Option<u64>,
    progress: ResizeProgressView,
) -> ResizeStepView {
    if progress.manager is None {
        ResizeStepView::FindDisks
    } else if progress.manager->0 is Err {
        resize_failed(
            ErrorView::Agent {
                operation: "get agent manager"@,
                reason: progress.manager->0->Err_0,
            },
        )
    } else if grows(storage, sizes.0) && progress.storage is None {
        ResizeStepView::ExpandStorage(storage->0)
    } else if grows(storage, sizes.0) && progress.storage->0 is Err {
        resize_failed(
            ErrorView::Storage {
                operation: "expand storage disk"@,
                reason: progress.storage->0->Err_0,
            },
        )
    } else if grows(overlay, sizes.1) && progress.overlay is None {
        ResizeStepView::ExpandOverlay(overlay->0)
    } else if grows(overlay, sizes.1) && progress.overlay->0 is Err {
        resize_failed(
            ErrorView::Storage {
                operation: "expand overlay disk"@,
                reason: progress.overlay->0->Err_0,
            },
        )
    } else {
        match progress.saved {
            None => ResizeStepView::Save,
            Some(Err(error)) => resize_failed(error),
            Some(Ok(_)) => ResizeStepView::Done(
                Ok(resized_lines(name, growth_lines(sizes, storage, overlay))),
            ),
        }
    }
}

/// What is done next to resize the disks of a machine.
pub open spec fn resize_step(
    name: Seq<char>,
    storage: Option<u64>,
    overlay: Option<u64>,
    progress: ResizeProgressView,
    defaults: ResourceDefaultsView,
) -> ResizeStepView {
    match progress.loaded {
        None => ResizeStepView::Load,
        Some(Err(error)) => resize_failed(error),
        Some(Ok(None)) => resize_failed(ErrorView::VmNotFound { name }),
        Some(Ok(Some(machine))) => if machine.1 != RecordState::Stopped && machine.1
            != RecordState::Created {
            resize_failed(
                ErrorView::InvalidState {
                    expected: "stopped"@,
                    actual: state_in_error(machine.1),
                },
            )
        } else {
            let sizes = sizes_of(machine.0, defaults);
            match resize_fault(sizes, storage, overlay) {
                Some(error) => resize_failed(error),
                None => expand_step(name, sizes, storage, overlay, progress),
            }
        },
    }
}

fn fail_resize(error: Error) -> (step: ResizeStep)
    ensures
        step.model() == resize_failed(error.model()),
{
    ResizeStep::Done(Err(error))
}

fn make_shrink_error(disk: &str, current: u64, requested: u64) -> (error: Error)
    ensures
        error.model() == shrink_error(disk@, current, requested),
{
    let from: String = cat3(disk, " disk cannot be shrunk from ", number(current).as_str());
    Error::config(
        "resize",
        crate::text::cat4(
            from.as_str(),
            " GiB to ",
            number(requested).as_str(),
            " GiB. Only expanding is supported to prevent data loss.",
        ),
    )
}

fn make_growth_line(disk: &str, current: u64, requested: Option<u64>) -> (lines: Vec<String>)
    ensures
        lines.model() == growth_line(disk@, current, requested),
{
    match requested {
        Some(requested) => if requested > current {
            let head: String = cat3("  ", disk, ": ");
            one_of(
                cat5(
                    head.as_str(),
                    number(current).as_str(),
                    " GiB → ",
                    number(requested).as_str(),
                    " GiB",
                ),
            )
        } else {
            empty_list()
        },
        None => empty_list(),
    }
}

fn make_resized_lines(name: &str, sizes: (u64, u64), storage: Option<u64>, overlay: Option<u64>) -> (lines:
    Vec<String>)
    ensures
        lines.model() == resized_lines(name@, growth_lines(sizes, storage, overlay)),
{
    let mut changes: Vec<String> = make_growth_line("storage", sizes.0, storage);
    extend_from(&mut changes, &make_growth_line("overlay", sizes.1, overlay));
    if changes.is_empty() {
        return one_of(own("No disk changes needed."));
    }
    let mut lines: Vec<String> = one_of(cat3("Resized machine '", name, "':"));
    extend_from(&mut lines, &changes);
    push_to(&mut lines, own("Filesystem will expand on next boot."));
    assert(lines.model() =~= resized_lines(name@, growth_lines(sizes, storage, overlay)));
    lines
}

/// Decides what is done once the disks may be enlarged.
pub fn expand_disks(
    name: &str,
    sizes: (u64, u64),
    storage: Option<u64>,
    overlay: Option<u64>,
    progress: &ResizeProgress,
) -> (step: ResizeStep)
    ensures
        step.model() == expand_step(name@, sizes, storage, overlay, progress.model()),
{
    match &progress.manager {
        None => {
            return ResizeStep::FindDisks;
        },
        Some(Err(reason)) => {
            return fail_resize(Error::agent("get agent manager", reason.dup()));
        },
        Some(Ok(_)) => {},
    }
    if let Some(size) = storage {
        if size > sizes.0 {
            match &progress.storage {
                None => {
                    return ResizeStep::ExpandStorage(size);
                },
                Some(Err(reason)) => {
                    return fail_resize(Error::storage("expand storage disk", reason.dup()));
                },
                Some(Ok(_)) => {},
            }
        }
    }
    if let Some(size) = overlay {
        if size > sizes.1 {
            match &progress.overlay {
                None => {
                    return ResizeStep::ExpandOverlay(size);
                },
                Some(Err(reason)) => {
                    return fail_resize(Error::storage("expand overlay disk", reason.dup()));
                },
                Some(Ok(_)) => {},
            }
        }
    }
    match &progress.saved {
        None => ResizeStep::Save,
        Some(Err(error)) => fail_resize(error.dup()),
        Some(Ok(_)) => ResizeStep::Done(Ok(make_resized_lines(name, sizes, storage, overlay))),
    }
}

/// Decides what is done next to resize the disks of a machine.
pub fn resize_vm(
    name: &str,
    storage: Option<u64>,
    overlay: Option<u64>,
    progress: &ResizeProgress,
    defaults: &ResourceDefaults,
) -> (step: ResizeStep)
    ensures
        step.model() == resize_step(name@, storage, overlay, progress.model(), defaults.model()),
{
    let machine: &(VmRecord, RecordState) = match &progress.loaded {
        None => {
            return ResizeStep::Load;
        },
        Some(Err(error)) => {
            return fail_resize(error.dup());
        },
        Some(Ok(None)) => {
            return fail_resize(Error::vm_not_found(name));
        },
        Some(Ok(Some(machine))) => machine,
    };
    if machine.1 != RecordState::Stopped && machine.1 != RecordState::Created {
        return fail_resize(Error::invalid_state("stopped", name_in_error(machine.1)));
    }
    let sizes: (u64, u64) = (
        current_disk_size(machine.0.storage_gb, defaults.storage_gib),
        current_disk_size(machine.0.overlay_gb, defaults.overlay_gib),
    );
    if let Some(size) = storage {
        if size < sizes.0 {
            return fail_resize(make_shrink_error("storage", sizes.0, size));
        }
    }
    if let Some(size) = overlay {
        if size < sizes.1 {
            return fail_resize(make_shrink_error("overlay", sizes.1, size));
        }
    }
    expand_disks(name, sizes, storage, overlay, progress)
}

/// Tells what is shown of a failed resize: a running machine must be stopped
/// first.
pub fn explain_resize_error(name: &str, error: Error) -> (explained: Error)
    ensures
        explained.model() == (if error.model() is InvalidState {
            ErrorView::Agent {
                operation: "resize"@,
                reason: "VM '"@ + name@
                    + "' is running. Stop it first with: smolvm machine stop --name "@ + name@,
            }
        } else {
            error.model()
        }),
{
    match error {
        Error::InvalidState { .. } => Error::agent(
            "resize",
            crate::text::cat4(
                "VM '",
                name,
                "' is running. Stop it first with: smolvm machine stop --name ",
                name,
            ),
        ),
        other => other,
    }
}

/// Law: a disk is only ever enlarged, a running machine's disks are not touched,
/// and new sizes are noted only where none is smaller than before and each disk
/// that grows was enlarged.
pub proof fn law_resize_is_safe(
    name: Seq<char>,
    storage: Option<u64>,
    overlay: Option<u64>,
    progress: ResizeProgressView,
    defaults: ResourceDefaultsView,
)
    requires
        ({
            let step = resize_step(name, storage, overlay, progress, defaults);
            step is ExpandStorage || step is ExpandOverlay || step is Save
        }),
    ensures
        progress.loaded is Some && progress.loaded->0 is Ok && progress.loaded->0->Ok_0 is Some,
        ({
            let machine = progress.loaded->0->Ok_0->0;
            let sizes = sizes_of(machine.0, defaults);
            let step = resize_step(name, storage, overlay, progress, defaults);
            &&& machine.1 == RecordState::Stopped || machine.1 == RecordState::Created
            &&& !shrinks(storage, sizes.0) && !shrinks(overlay, sizes.1)
            &&& step is ExpandStorage ==> step->ExpandStorage_0 > sizes.0
            &&& step is ExpandOverlay ==> step->ExpandOverlay_0 > sizes.1
            &&& step is Save ==> (grows(storage, sizes.0) ==> progress.storage is Some
                && progress.storage->0 is Ok) && (grows(overlay, sizes.1) ==> progress.overlay
                is Some && progress.overlay->0 is Ok)
        }),
{
}

/// Law: disks are resized to the sizes that were asked for, and those are what is noted: each
/// disk that was named gets its size, and the record stays otherwise as it is.
pub proof fn law_resize_sets_the_sizes(
    record: VmRecordView,
    storage: Option<u64>,
    overlay: Option<u64>,
)
    ensures
        ({
            let after = resized_record(record, storage, overlay);
            &&& storage is Some ==> after.storage_gb == storage
            &&& storage is None ==> after.storage_gb == record.storage_gb
            &&& overlay is Some ==> after.overlay_gb == overlay
            &&& overlay is None ==> after.overlay_gb == record.overlay_gb
            &&& VmRecordView {
                storage_gb: record.storage_gb,
                overlay_gb: record.overlay_gb,
                ..after
            } == record
        }),
{
}

/// Law: a resize enlarges the storage disk exactly where more was asked for than it has, to that
/// size, and likewise the overlay disk; one that would shrink a disk, or whose machine runs or
/// is missing, ends with an error before any disk is touched. Everything is asked for once, and
/// the end tells of each disk that grew.
pub proof fn law_resize_does_what_was_asked(
    name: Seq<char>,
    storage: Option<u64>,
    overlay: Option<u64>,
    progress: ResizeProgressView,
    defaults: ResourceDefaultsView,
    record: VmRecordView,
    state: RecordState,
)
    requires
        progress.loaded == Some(
            Ok::<Option<(VmRecordView, RecordState)>, ErrorView>(Some((record, state))),
        ),
    ensures
        ({
            let step = resize_step(name, storage, overlay, progress, defaults);
            let has_storage = if record.storage_gb is Some {
                record.storage_gb->0
            } else {
                defaults.storage_gib
            };
            let has_overlay = if record.overlay_gb is Some {
                record.overlay_gb->0
            } else {
                defaults.overlay_gib
            };
            let stopped = state == RecordState::Stopped || state == RecordState::Created;
            let shrinks = (storage is Some && storage->0 < has_storage) || (overlay is Some
                && overlay->0 < has_overlay);
            let more_storage = storage is Some && storage->0 > has_storage;
            let more_overlay = overlay is Some && overlay->0 > has_overlay;
            &&& !stopped ==> (step matches ResizeStepView::Done(Err(error)) && error
                is InvalidState)
            &&& stopped && shrinks ==> (step matches ResizeStepView::Done(Err(error)) && error
                is Config)
            &&& step is FindDisks ==> progress.manager is None
            &&& step matches ResizeStepView::ExpandStorage(size) ==> more_storage && size
                == storage->0 && progress.storage is None
            &&& step matches ResizeStepView::ExpandOverlay(size) ==> more_overlay && size
                == overlay->0 && progress.overlay is None
            &&& step is Save ==> progress.saved is None
            &&& step is Save || (step matches ResizeStepView::Done(Ok(_))) ==> stopped && !shrinks
                && (more_storage ==> progress.storage is Some && progress.storage->0 is Ok) && (
            more_overlay ==> progress.overlay is Some && progress.overlay->0 is Ok)
            &&& step matches ResizeStepView::Done(Ok(lines)) ==> progress.saved is Some
                && progress.saved->0 is Ok && (!more_storage && !more_overlay ==> lines.len() == 1)
                && (more_storage && more_overlay ==> lines.len() == 4) && ((more_storage
                || more_overlay) && !(more_storage && more_overlay) ==> lines.len() == 3)
            &&& stopped && !shrinks ==> (step matches ResizeStepView::Done(Err(error)) ==> {
                ||| progress.saved == Some(Err::<(), ErrorView>(error))
                ||| error matches ErrorView::Storage { reason, .. } && (progress.storage == Some(
                    Err::<(), Seq<char>>(reason),
                ) || progress.overlay == Some(Err::<(), Seq<char>>(reason)))
                ||| error matches ErrorView::Agent { reason, .. } && progress.manager == Some(
                    Err::<(), Seq<char>>(reason),
                )
            })
        }),
{
}

} // verus!
