//! Order of an update: what is checked, what is done to the disks, and when
//! the record is saved.

use crate::env::{law_overrides_win, occurrences, overridden, value_of, EnvView};
use crate::error::{Error, ErrorView};
use crate::model::{dup_first_some, empty_list, first_some, push_to, Model};
use crate::requests::{
    MachineStatus, MachineStatusView, UpdateMachine, UpdateMachineView, UpdateResult,
    UpdateResultView,
};
use crate::text::{cat2, cat3, cat5, decimal, number, own};
use crate::types::{
    port_pairs, HostMountView, PortMapping, RecordState, ResourceDefaults, ResourceDefaultsView,
    RestartConfigView, VmRecord, VmRecordView, VmResources, VmResourcesView,
};
use crate::update::{
    has_mount, mounts_added, mounts_removed, noted, ports_added, ports_removed, update_notes,
    updated_record, variables_removed, variables_set, without_mount, without_port, MountsView,
    NotesView,
};
use vstd::prelude::*;

verus! {

/// The resources that a machine would have after an update.
pub open spec fn resources_after(
    record: VmRecordView,
    request: UpdateMachineView,
) -> VmResourcesView {
    VmResourcesView {
        cpus: if request.cpus is Some {
            request.cpus->0
        } else {
            record.cpus
        },
        memory_mib: if request.memory_mib is Some {
            request.memory_mib->0
        } else {
            record.mem
        },
        network: !request.disable_network && (request.enable_network || record.network),
        network_backend: first_some(request.network_backend, record.network_backend),
        gpu: !request.disable_gpu && (request.enable_gpu || record.gpu == Some(true)),
        gpu_vram_mib: first_some(request.gpu_vram_mib, record.gpu_vram_mib),
        storage_gib: first_some(request.storage_gb, record.storage_gb),
        overlay_gib: first_some(request.overlay_gb, record.overlay_gb),
        allowed_cidrs: if request.disable_network || request.clear_allowed_cidrs {
            None
        } else {
            first_some(request.allowed_cidrs, record.allowed_cidrs)
        },
    }
}

/// Computes the resources that a machine would have after an update.
pub fn proposed_resources(record: &VmRecord, request: &UpdateMachine) -> (resources: VmResources)
    ensures
        resources.model() == resources_after(record.model(), request.model()),
{
    VmResources {
        cpus: match request.cpus {
            Some(cpus) => cpus,
            None => record.cpus,
        },
        memory_mib: match request.memory_mib {
            Some(memory_mib) => memory_mib,
            None => record.mem,
        },
        network: !request.disable_network && (request.enable_network || record.network),
        network_backend: dup_first_some(&request.network_backend, &record.network_backend),
        gpu: !request.disable_gpu && (request.enable_gpu || match record.gpu {
            Some(gpu) => gpu,
            None => false,
        }),
        gpu_vram_mib: dup_first_some(&request.gpu_vram_mib, &record.gpu_vram_mib),
        storage_gib: dup_first_some(&request.storage_gb, &record.storage_gb),
        overlay_gib: dup_first_some(&request.overlay_gb, &record.overlay_gb),
        allowed_cidrs: if request.disable_network || request.clear_allowed_cidrs {
            None
        } else {
            dup_first_some(&request.allowed_cidrs, &record.allowed_cidrs)
        },
    }
}

/// The ports of which none is removed.
pub open spec fn ports_kept(
    ports: Seq<(u16, u16)>,
    removed: Seq<PortMapping>,
) -> Seq<(u16, u16)> {
    ports.filter(|pair: (u16, u16)| !removed.contains(PortMapping { host: pair.0, guest: pair.1 }))
}

/// The ports that a machine would have after an update.
pub open spec fn ports_after(
    record: VmRecordView,
    request: UpdateMachineView,
) -> Seq<(u16, u16)> {
    ports_added((ports_kept(record.ports, request.remove_ports), Seq::empty()), request.add_ports).0
}

/// Port mappings from their stored form.
pub open spec fn mappings(pairs: Seq<(u16, u16)>) -> Seq<PortMapping> {
    Seq::new(pairs.len(), |i: int| PortMapping { host: pairs[i].0, guest: pairs[i].1 })
}

fn holds_port(ports: &Vec<PortMapping>, host: u16, guest: u16) -> (found: bool)
    ensures
        found == ports.model().contains(PortMapping { host, guest }),
        found == port_pairs(ports.model()).contains((host, guest)),
{
    let mut i: usize = 0;
    while i < ports.len()
        invariant
            i <= ports.len(),
            forall|j: int|
                0 <= j < i ==> #[trigger] ports.model()[j] != (PortMapping { host, guest }),
        decreases ports.len() - i,
    {
        assert(ports.model()[i as int] == ports[i as int]);
        if ports[i].host == host && ports[i].guest == guest {
            assert(port_pairs(ports.model())[i as int] == (host, guest));
            return true;
        }
        i += 1;
    }
    assert forall|j: int| 0 <= j < ports.len() implies #[trigger] port_pairs(ports.model())[j] != (
        host,
        guest,
    ) by {
        assert(ports.model()[j] != (PortMapping { host, guest }));
    }
    false
}

fn push_port(ports: &mut Vec<PortMapping>, port: PortMapping)
    ensures
        port_pairs(final(ports).model()) == port_pairs(old(ports).model()).push(
            (port.host, port.guest),
        ),
{
    let ghost before = ports.model();
    push_to(ports, port);
    assert(port_pairs(ports.model()) =~= port_pairs(before).push((port.host, port.guest)));
}

/// Lists the ports that a machine would have after an update.
pub fn proposed_port_list(record: &VmRecord, request: &UpdateMachine) -> (ports: Vec<PortMapping>)
    ensures
        ports.model() == mappings(ports_after(record.model(), request.model())),
{
    let mut ports: Vec<PortMapping> = empty_list();
    let ghost all = record.ports.model();
    let mut i: usize = 0;
    assert(port_pairs(ports.model()) =~= Seq::<(u16, u16)>::empty());
    while i < record.ports.len()
        invariant
            i <= record.ports.len(),
            record.ports.model() == all,
            port_pairs(ports.model()) == ports_kept(
                all.take(i as int),
                request.remove_ports.model(),
            ),
        decreases record.ports.len() - i,
    {
        let pair: (u16, u16) = record.ports[i];
        assert(all.take(i + 1).drop_last() =~= all.take(i as int));
        assert(all.take(i + 1).last() == pair);
        reveal(Seq::filter);
        if !holds_port(&request.remove_ports, pair.0, pair.1) {
            push_port(&mut ports, PortMapping { host: pair.0, guest: pair.1 });
        }
        i += 1;
    }
    assert(all.take(all.len() as int) =~= all);
    let ghost kept = port_pairs(ports.model());
    let ghost add = request.add_ports.model();
    let mut k: usize = 0;
    while k < request.add_ports.len()
        invariant
            k <= request.add_ports.len(),
            request.add_ports.model() == add,
            port_pairs(ports.model()) == ports_added((kept, Seq::empty()), add.take(k as int)).0,
        decreases request.add_ports.len() - k,
    {
        let port: PortMapping = request.add_ports[k];
        assert(add.take(k + 1).drop_last() =~= add.take(k as int));
        assert(add.take(k + 1).last() == port);
        if !holds_port(&ports, port.host, port.guest) {
            push_port(&mut ports, port);
        }
        k += 1;
    }
    assert(add.take(add.len() as int) =~= add);
    assert(ports.model() =~= mappings(port_pairs(ports.model())));
    ports
}

/// What checking port mappings gives. `duplicates` is what looking for
/// conflicting mappings gave.
pub open spec fn ports_checked(
    ports: Seq<PortMapping>,
    duplicates: Result<(), Seq<char>>,
) -> Result<(), ErrorView> {
    if duplicates is Err {
        Err(ErrorView::Config { operation: "create machine"@, reason: duplicates->Err_0 })
    } else if exists|i: int|
        0 <= i < ports.len() && ((#[trigger] ports[i]).host == 0 || ports[i].guest == 0) {
        Err(
            ErrorView::Config {
                operation: "create machine"@,
                reason: "port 0 is not valid for VM port forwarding"@,
            },
        )
    } else {
        Ok(())
    }
}

/// Checks port mappings.
pub fn validate_ports(
    ports: &Vec<PortMapping>,
    duplicates: &Result<(), String>,
) -> (checked: Result<(), Error>)
    ensures
        checked.model() == ports_checked(ports.model(), duplicates.model()),
{
    match duplicates {
        Err(reason) => {
            return Err(Error::config("create machine", reason.dup()));
        },
        Ok(_) => {},
    }
    let mut i: usize = 0;
    while i < ports.len()
        invariant
            i <= ports.len(),
            duplicates is Ok,
            forall|j: int|
                0 <= j < i ==> (#[trigger] ports.model()[j]).host != 0 && ports.model()[j].guest
                    != 0,
        decreases ports.len() - i,
    {
        let ghost port = ports.model()[i as int];
        assert(port == ports[i as int]);
        if ports[i].host == 0 || ports[i].guest == 0 {
            assert(port.host == 0 || port.guest == 0);
            return Err(
                Error::config("create machine", own("port 0 is not valid for VM port forwarding")),
            );
        }
        i += 1;
    }
    Ok(())
}

/// Whether a variable without a name is to be set.
pub open spec fn sets_unnamed(set: EnvView) -> bool {
    exists|i: int| 0 <= i < set.len() && (#[trigger] set[i]).0.len() == 0
}

fn has_unnamed(set: &Vec<(String, String)>) -> (found: bool)
    ensures
        found == sets_unnamed(set.model()),
{
    let mut i: usize = 0;
    while i < set.len()
        invariant
            i <= set.len(),
            forall|j: int| 0 <= j < i ==> (#[trigger] set.model()[j]).0.len() != 0,
        decreases set.len() - i,
    {
        assert(set.model()[i as int] == set[i as int].model());
        if set[i].0.as_str().is_empty() {
            return true;
        }
        i += 1;
    }
    false
}

/// Size of a disk, where its record leaves it out.
pub open spec fn disk_size(size: Option<u64>, default_size: u64) -> u64 {
    match size {
        Some(size) => size,
        None => default_size,
    }
}

/// Size of a disk, where its record leaves it out.
pub fn current_disk_size(size: Option<u64>, default_size: u64) -> (current: u64)
    ensures
        current == disk_size(size, default_size),
{
    match size {
        Some(size) => size,
        None => default_size,
    }
}

/// Whether a request would make a disk smaller.
pub open spec fn shrinks(requested: Option<u64>, current: u64) -> bool {
    requested is Some && requested->0 < current
}

/// Whether a request would make a disk larger.
pub open spec fn grows(requested: Option<u64>, current: u64) -> bool {
    requested is Some && requested->0 > current
}

/// Why the disks may not be changed as requested, if so.
pub open spec fn disk_fault(
    record: VmRecordView,
    request: UpdateMachineView,
    defaults: ResourceDefaultsView,
) -> Option<ErrorView> {
    let storage = disk_size(record.storage_gb, defaults.storage_gib);
    let overlay = disk_size(record.overlay_gb, defaults.overlay_gib);
    if shrinks(request.storage_gb, storage) {
        Some(
            ErrorView::Config {
                operation: "update"@,
                reason: "storage cannot be smaller than current size ("@ + decimal(storage as nat)
                    + " GiB)"@,
            },
        )
    } else if shrinks(request.overlay_gb, overlay) {
        Some(
            ErrorView::Config {
                operation: "update"@,
                reason: "overlay cannot be smaller than current size ("@ + decimal(overlay as nat)
                    + " GiB)"@,
            },
        )
    } else {
        None
    }
}

/// What an update says about the disks.
pub open spec fn disk_notes(
    record: VmRecordView,
    request: UpdateMachineView,
    defaults: ResourceDefaultsView,
) -> NotesView {
    let storage = disk_size(record.storage_gb, defaults.storage_gib);
    let overlay = disk_size(record.overlay_gb, defaults.overlay_gib);
    let n = noted(
        Seq::empty(),
        grows(request.storage_gb, storage),
        "storage: "@ + decimal(storage as nat) + " GiB → "@ + decimal(request.storage_gb->0 as nat)
            + " GiB"@,
    );
    noted(
        n,
        grows(request.overlay_gb, overlay),
        "overlay: "@ + decimal(overlay as nat) + " GiB → "@ + decimal(request.overlay_gb->0 as nat)
            + " GiB"@,
    )
}

fn find_disk_fault(
    record: &VmRecord,
    request: &UpdateMachine,
    defaults: &ResourceDefaults,
) -> (fault: Option<Error>)
    ensures
        fault.model() == disk_fault(record.model(), request.model(), defaults.model()),
{
    let storage: u64 = current_disk_size(record.storage_gb, defaults.storage_gib);
    let overlay: u64 = current_disk_size(record.overlay_gb, defaults.overlay_gib);
    if let Some(size) = request.storage_gb {
        if size < storage {
            return Some(
                Error::config(
                    "update",
                    cat3(
                        "storage cannot be smaller than current size (",
                        number(storage).as_str(),
                        " GiB)",
                    ),
                ),
            );
        }
    }
    if let Some(size) = request.overlay_gb {
        if size < overlay {
            return Some(
                Error::config(
                    "update",
                    cat3(
                        "overlay cannot be smaller than current size (",
                        number(overlay).as_str(),
                        " GiB)",
                    ),
                ),
            );
        }
    }
    None
}

fn list_disk_notes(
    record: &VmRecord,
    request: &UpdateMachine,
    defaults: &ResourceDefaults,
) -> (notes: Vec<String>)
    ensures
        notes.model() == disk_notes(record.model(), request.model(), defaults.model()),
{
    let storage: u64 = current_disk_size(record.storage_gb, defaults.storage_gib);
    let overlay: u64 = current_disk_size(record.overlay_gb, defaults.overlay_gib);
    let mut notes: Vec<String> = empty_list();
    if let Some(size) = request.storage_gb {
        if size > storage {
            push_to(
                &mut notes,
                cat5(
                    "storage: ",
                    number(storage).as_str(),
                    " GiB → ",
                    number(size).as_str(),
                    " GiB",
                ),
            );
        }
    }
    if let Some(size) = request.overlay_gb {
        if size > overlay {
            push_to(
                &mut notes,
                cat5(
                    "overlay: ",
                    number(overlay).as_str(),
                    " GiB → ",
                    number(size).as_str(),
                    " GiB",
                ),
            );
        }
    }
    notes
}

/// What an update has learnt so far.
#[derive(Debug, PartialEq, Eq)]
pub struct UpdateProgress {
    /// What reading the record gave.
    pub record: Option<Result<Option<VmRecord>, Error>>,
    /// The state that the machine was found in.
    pub state: Option<RecordState>,
    /// What checking the proposed resources gave.
    pub resources: Option<Result<(), Error>>,
    /// What looking for conflicting ports gave.
    pub duplicates: Option<Result<(), String>>,
    /// What checking the network backend gave.
    pub backend: Option<Result<(), Error>>,
    /// What checking the video memory gave.
    pub vram: Option<Result<Option<u32>, String>>,
    /// What opening the machine's manager gave.
    pub manager: Option<Result<(), String>>,
    /// What expanding the storage disk gave.
    pub storage: Option<Result<(), Error>>,
    /// What expanding the overlay disk gave.
    pub overlay: Option<Result<(), Error>>,
    /// The record after it was saved, if it was still there.
    pub saved: Option<Result<Option<VmRecord>, Error>>,
    /// Every note once the record was saved.
    pub changes: Vec<String>,
    /// The state that the updated machine was found in.
    pub updated_state: Option<RecordState>,
}

/// Mathematical model of a [`UpdateProgress`].
pub struct UpdateProgressView {
    pub record: Option<Result<Option<VmRecordView>, ErrorView>>,
    pub state: Option<RecordState>,
    pub resources: Option<Result<(), ErrorView>>,
    pub duplicates: Option<Result<(), Seq<char>>>,
    pub backend: Option<Result<(), ErrorView>>,
    pub vram: Option<Result<Option<u32>, Seq<char>>>,
    pub manager: Option<Result<(), Seq<char>>>,
    pub storage: Option<Result<(), ErrorView>>,
    pub overlay: Option<Result<(), ErrorView>>,
    pub saved: Option<Result<Option<VmRecordView>, ErrorView>>,
    pub changes: Seq<Seq<char>>,
    pub updated_state: Option<RecordState>,
}

impl Model for UpdateProgress {
    type V = UpdateProgressView;

    open spec fn model(&self) -> UpdateProgressView {
        UpdateProgressView {
            record: self.record.model(),
            state: self.state.model(),
            resources: self.resources.model(),
            duplicates: self.duplicates.model(),
            backend: self.backend.model(),
            vram: self.vram.model(),
            manager: self.manager.model(),
            storage: self.storage.model(),
            overlay: self.overlay.model(),
            saved: self.saved.model(),
            changes: self.changes.model(),
            updated_state: self.updated_state.model(),
        }
    }

    fn dup(&self) -> (copy: Self) {
        UpdateProgress {
            record: self.record.dup(),
            state: self.state.dup(),
            resources: self.resources.dup(),
            duplicates: self.duplicates.dup(),
            backend: self.backend.dup(),
            vram: self.vram.dup(),
            manager: self.manager.dup(),
            storage: self.storage.dup(),
            overlay: self.overlay.dup(),
            saved: self.saved.dup(),
            changes: self.changes.dup(),
            updated_state: self.updated_state.dup(),
        }
    }
}

/// What an update does next.
#[derive(Debug, PartialEq, Eq)]
pub enum UpdateStep {
    /// Read the record of the machine.
    LoadRecord,
    /// Find out the state of the machine.
    ProbeState,
    /// Check these resources.
    CheckResources(VmResources),
    /// Look for conflicts among these ports.
    CheckDuplicates(Vec<PortMapping>),
    /// Check that the network backend can serve these settings.
    CheckBackend { resources: VmResources, dns_filter_hosts: Option<Vec<String>>, ports: usize },
    /// Check this amount of video memory.
    CheckVram(Option<u32>),
    /// Open the manager of the machine.
    OpenManager,
    /// Expand the storage disk to this many GiB.
    ExpandStorage(u64),
    /// Expand the overlay disk to this many GiB.
    ExpandOverlay(u64),
    /// Apply the request to the stored record, noting changes after these.
    Save { gpu_vram_mib: Option<u32>, changes: Vec<String> },
    /// Find out the state of the updated machine.
    ProbeUpdated,
    /// The update is over.
    Finish(Result<UpdateResult, Error>),
}

/// Mathematical model of a [`UpdateStep`].
pub enum UpdateStepView {
    LoadRecord,
    ProbeState,
    CheckResources(VmResourcesView),
    CheckDuplicates(Seq<PortMapping>),
    CheckBackend { resources: VmResourcesView, dns_filter_hosts: Option<Seq<Seq<char>>>, ports: usize },
    CheckVram(Option<u32>),
    OpenManager,
    ExpandStorage(u64),
    ExpandOverlay(u64),
    Save { gpu_vram_mib: Option<u32>, changes: Seq<Seq<char>> },
    ProbeUpdated,
    Finish(Result<UpdateResultView, ErrorView>),
}

impl Model for UpdateStep {
    type V = UpdateStepView;

    open spec fn model(&self) -> UpdateStepView {
        match self {
            UpdateStep::LoadRecord => UpdateStepView::LoadRecord,
            UpdateStep::ProbeState => UpdateStepView::ProbeState,
            UpdateStep::CheckResources(value) => UpdateStepView::CheckResources(value.model()),
            UpdateStep::CheckDuplicates(value) => UpdateStepView::CheckDuplicates(value.model()),
            UpdateStep::CheckBackend { resources, dns_filter_hosts, ports } => UpdateStepView::CheckBackend { resources: resources.model(), dns_filter_hosts: dns_filter_hosts.model(), ports: ports.model() },
            UpdateStep::CheckVram(value) => UpdateStepView::CheckVram(value.model()),
            UpdateStep::OpenManager => UpdateStepView::OpenManager,
            UpdateStep::ExpandStorage(value) => UpdateStepView::ExpandStorage(value.model()),
            UpdateStep::ExpandOverlay(value) => UpdateStepView::ExpandOverlay(value.model()),
            UpdateStep::Save { gpu_vram_mib, changes } => UpdateStepView::Save { gpu_vram_mib: gpu_vram_mib.model(), changes: changes.model() },
            UpdateStep::ProbeUpdated => UpdateStepView::ProbeUpdated,
            UpdateStep::Finish(value) => UpdateStepView::Finish(value.model()),
        }
    }

    fn dup(&self) -> (copy: Self) {
        match self {
            UpdateStep::LoadRecord => UpdateStep::LoadRecord,
            UpdateStep::ProbeState => UpdateStep::ProbeState,
            UpdateStep::CheckResources(value) => UpdateStep::CheckResources(value.dup()),
            UpdateStep::CheckDuplicates(value) => UpdateStep::CheckDuplicates(value.dup()),
            UpdateStep::CheckBackend { resources, dns_filter_hosts, ports } => UpdateStep::CheckBackend { resources: resources.dup(), dns_filter_hosts: dns_filter_hosts.dup(), ports: ports.dup() },
            UpdateStep::CheckVram(value) => UpdateStep::CheckVram(value.dup()),
            UpdateStep::OpenManager => UpdateStep::OpenManager,
            UpdateStep::ExpandStorage(value) => UpdateStep::ExpandStorage(value.dup()),
            UpdateStep::ExpandOverlay(value) => UpdateStep::ExpandOverlay(value.dup()),
            UpdateStep::Save { gpu_vram_mib, changes } => UpdateStep::Save { gpu_vram_mib: gpu_vram_mib.dup(), changes: changes.dup() },
            UpdateStep::ProbeUpdated => UpdateStep::ProbeUpdated,
            UpdateStep::Finish(value) => UpdateStep::Finish(value.dup()),
        }
    }
}

/// What an update that must end with an error does.
pub open spec fn update_failed(error: ErrorView) -> UpdateStepView {
    UpdateStepView::Finish(Err(error))
}

/// The last part of an update, once every check has passed.
pub open spec fn update_save_step(
    request: UpdateMachineView,
    progress: UpdateProgressView,
    record: VmRecordView,
    gpu_vram_mib: Option<u32>,
    defaults: ResourceDefaultsView,
) -> UpdateStepView {
    let storage = disk_size(record.storage_gb, defaults.storage_gib);
    let overlay = disk_size(record.overlay_gb, defaults.overlay_gib);
    if disk_fault(record, request, defaults) is Some {
        update_failed(disk_fault(record, request, defaults)->0)
    } else if progress.manager is None {
        UpdateStepView::OpenManager
    } else if progress.manager->0 is Err {
        update_failed(
            ErrorView::Agent {
                operation: "create agent manager"@,
                reason: progress.manager->0->Err_0,
            },
        )
    } else if grows(request.storage_gb, storage) && progress.storage is None {
        UpdateStepView::ExpandStorage(request.storage_gb->0)
    } else if grows(request.storage_gb, storage) && progress.storage->0 is Err {
        update_failed(progress.storage->0->Err_0)
    } else if grows(request.overlay_gb, overlay) && progress.overlay is None {
        UpdateStepView::ExpandOverlay(request.overlay_gb->0)
    } else if grows(request.overlay_gb, overlay) && progress.overlay->0 is Err {
        update_failed(progress.overlay->0->Err_0)
    } else {
        match progress.saved {
            None => UpdateStepView::Save {
                gpu_vram_mib,
                changes: disk_notes(record, request, defaults),
            },
            Some(Err(error)) => update_failed(error),
            Some(Ok(None)) => update_failed(ErrorView::VmNotFound { name: request.name }),
            Some(Ok(Some(updated))) => match progress.updated_state {
                None => UpdateStepView::ProbeUpdated,
                Some(state) => UpdateStepView::Finish(
                    Ok(
                        UpdateResultView {
                            status: MachineStatusView {
                                name: request.name,
                                state,
                                record: updated,
                            },
                            changes: progress.changes,
                        },
                    ),
                ),
            },
        }
    }
}

/// The middle part of an update: the checks on a stopped machine.
pub open spec fn update_check_step(
    request: UpdateMachineView,
    progress: UpdateProgressView,
    record: VmRecordView,
    defaults: ResourceDefaultsView,
) -> UpdateStepView {
    let ports = mappings(ports_after(record, request));
    if progress.resources is None {
        UpdateStepView::CheckResources(resources_after(record, request))
    } else if progress.resources->0 is Err {
        update_failed(progress.resources->0->Err_0)
    } else if progress.duplicates is None {
        UpdateStepView::CheckDuplicates(ports)
    } else if ports_checked(ports, progress.duplicates->0) is Err {
        update_failed(ports_checked(ports, progress.duplicates->0)->Err_0)
    } else if progress.backend is None {
        UpdateStepView::CheckBackend {
            resources: resources_after(record, request),
            dns_filter_hosts: first_some(request.dns_filter_hosts, record.dns_filter_hosts),
            ports: ports.len() as usize,
        }
    } else if progress.backend->0 is Err {
        update_failed(progress.backend->0->Err_0)
    } else {
        match progress.vram {
            None => UpdateStepView::CheckVram(request.gpu_vram_mib),
            Some(Err(reason)) => update_failed(
                ErrorView::Config { operation: "update"@, reason: "gpu_vram: "@ + reason },
            ),
            Some(Ok(gpu_vram_mib)) => update_save_step(
                request,
                progress,
                record,
                gpu_vram_mib,
                defaults,
            ),
        }
    }
}

/// What an update does next.
pub open spec fn update_step(
    request: UpdateMachineView,
    progress: UpdateProgressView,
    defaults: ResourceDefaultsView,
) -> UpdateStepView {
    match progress.record {
        None => UpdateStepView::LoadRecord,
        Some(Err(error)) => update_failed(error),
        Some(Ok(None)) => update_failed(ErrorView::VmNotFound { name: request.name }),
        Some(Ok(Some(record))) => match progress.state {
            None => UpdateStepView::ProbeState,
            Some(state) => if state != RecordState::Stopped && state != RecordState::Created {
                update_failed(
                    ErrorView::InvalidState { expected: "stopped"@, actual: state.name() },
                )
            } else if sets_unnamed(request.set_env) {
                update_failed(
                    ErrorView::Config {
                        operation: "update"@,
                        reason: "env key must not be empty"@,
                    },
                )
            } else {
                update_check_step(request, progress, record, defaults)
            },
        },
    }
}

fn decide_save(
    request: &UpdateMachine,
    progress: &UpdateProgress,
    record: &VmRecord,
    gpu_vram_mib: Option<u32>,
    defaults: &ResourceDefaults,
) -> (step: UpdateStep)
    ensures
        step.model() == update_save_step(
            request.model(),
            progress.model(),
            record.model(),
            gpu_vram_mib,
            defaults.model(),
        ),
{
    let storage: u64 = current_disk_size(record.storage_gb, defaults.storage_gib);
    let overlay: u64 = current_disk_size(record.overlay_gb, defaults.overlay_gib);
    if let Some(error) = find_disk_fault(record, request, defaults) {
        return UpdateStep::Finish(Err(error));
    }
    match &progress.manager {
        None => {
            return UpdateStep::OpenManager;
        },
        Some(Err(reason)) => {
            return UpdateStep::Finish(Err(Error::agent("create agent manager", reason.dup())));
        },
        Some(Ok(_)) => {},
    }
    if let Some(size) = request.storage_gb {
        if size > storage {
            match &progress.storage {
                None => {
                    return UpdateStep::ExpandStorage(size);
                },
                Some(Err(error)) => {
                    return UpdateStep::Finish(Err(error.dup()));
                },
                Some(Ok(_)) => {},
            }
        }
    }
    if let Some(size) = request.overlay_gb {
        if size > overlay {
            match &progress.overlay {
                None => {
                    return UpdateStep::ExpandOverlay(size);
                },
                Some(Err(error)) => {
                    return UpdateStep::Finish(Err(error.dup()));
                },
                Some(Ok(_)) => {},
            }
        }
    }
    match &progress.saved {
        None => UpdateStep::Save {
            gpu_vram_mib,
            changes: list_disk_notes(record, request, defaults),
        },
        Some(Err(error)) => UpdateStep::Finish(Err(error.dup())),
        Some(Ok(None)) => UpdateStep::Finish(Err(Error::vm_not_found(request.name.as_str()))),
        Some(Ok(Some(updated))) => match progress.updated_state {
            None => UpdateStep::ProbeUpdated,
            Some(state) => UpdateStep::Finish(
                Ok(
                    UpdateResult {
                        status: MachineStatus {
                            name: request.name.dup(),
                            state,
                            record: updated.dup(),
                        },
                        changes: progress.changes.dup(),
                    },
                ),
            ),
        },
    }
}

fn decide_checks(
    request: &UpdateMachine,
    progress: &UpdateProgress,
    record: &VmRecord,
    defaults: &ResourceDefaults,
) -> (step: UpdateStep)
    ensures
        step.model() == update_check_step(
            request.model(),
            progress.model(),
            record.model(),
            defaults.model(),
        ),
{
    let ports: Vec<PortMapping> = proposed_port_list(record, request);
    match &progress.resources {
        None => {
            return UpdateStep::CheckResources(proposed_resources(record, request));
        },
        Some(Err(error)) => {
            return UpdateStep::Finish(Err(error.dup()));
        },
        Some(Ok(_)) => {},
    }
    match &progress.duplicates {
        None => {
            return UpdateStep::CheckDuplicates(ports);
        },
        Some(duplicates) => {
            if let Err(error) = validate_ports(&ports, duplicates) {
                return UpdateStep::Finish(Err(error));
            }
        },
    }
    match &progress.backend {
        None => {
            return UpdateStep::CheckBackend {
                resources: proposed_resources(record, request),
                dns_filter_hosts: dup_first_some(
                    &request.dns_filter_hosts,
                    &record.dns_filter_hosts,
                ),
                ports: ports.len(),
            };
        },
        Some(Err(error)) => {
            return UpdateStep::Finish(Err(error.dup()));
        },
        Some(Ok(_)) => {},
    }
    match &progress.vram {
        None => UpdateStep::CheckVram(request.gpu_vram_mib),
        Some(Err(reason)) => UpdateStep::Finish(
            Err(Error::config("update", cat2("gpu_vram: ", reason.as_str()))),
        ),
        Some(Ok(gpu_vram_mib)) => decide_save(request, progress, record, *gpu_vram_mib, defaults),
    }
}

/// Decides what an update does next.
pub fn next_update_step(
    request: &UpdateMachine,
    progress: &UpdateProgress,
    defaults: &ResourceDefaults,
) -> (step: UpdateStep)
    ensures
        step.model() == update_step(request.model(), progress.model(), defaults.model()),
{
    match &progress.record {
        None => UpdateStep::LoadRecord,
        Some(Err(error)) => UpdateStep::Finish(Err(error.dup())),
        Some(Ok(None)) => UpdateStep::Finish(Err(Error::vm_not_found(request.name.as_str()))),
        Some(Ok(Some(record))) => match progress.state {
            None => UpdateStep::ProbeState,
            Some(state) => if state != RecordState::Stopped && state != RecordState::Created {
                UpdateStep::Finish(Err(Error::invalid_state("stopped", state.label())))
            } else if has_unnamed(&request.set_env) {
                UpdateStep::Finish(Err(Error::config("update", own("env key must not be empty"))))
            } else {
                decide_checks(request, progress, record, defaults)
            },
        },
    }
}

/// Law: an update that asks for nothing changes nothing and notes nothing.
pub proof fn law_empty_update(
    record: VmRecordView,
    request: UpdateMachineView,
    gpu_vram_mib: Option<u32>,
    notes: NotesView,
)
    requires
        request == (UpdateMachineView {
            name: request.name,
            add_mounts: Seq::empty(),
            remove_mounts: Seq::empty(),
            add_ports: Seq::empty(),
            remove_ports: Seq::empty(),
            cpus: None,
            memory_mib: None,
            enable_network: false,
            disable_network: false,
            network_backend: None,
            allowed_cidrs: None,
            clear_allowed_cidrs: false,
            dns_filter_hosts: None,
            clear_dns_filter_hosts: false,
            set_env: Seq::empty(),
            remove_env: Seq::empty(),
            workdir: None,
            clear_workdir: false,
            enable_gpu: false,
            disable_gpu: false,
            gpu_vram_mib: None,
            storage_gb: None,
            overlay_gb: None,
            restart_policy: None,
            restart_max_retries: None,
            restart_max_backoff_secs: None,
            health_cmd: None,
            clear_health_cmd: false,
            health_interval_secs: None,
            health_timeout_secs: None,
            health_retries: None,
            health_startup_grace_secs: None,
            enable_ssh_agent: false,
            disable_ssh_agent: false,
        }),
    ensures
        updated_record(record, request, gpu_vram_mib) == record,
        update_notes(record, request, gpu_vram_mib, notes) == notes,
{
}

/// Law: an update leaves alone everything that it has no setting for: what
/// identifies a machine, what runs in it and as whom, its process and its past.
pub proof fn law_update_keeps_identity(
    record: VmRecordView,
    request: UpdateMachineView,
    gpu_vram_mib: Option<u32>,
)
    ensures
        ({
            let after = updated_record(record, request, gpu_vram_mib);
            after == VmRecordView {
                storage_gb: after.storage_gb,
                overlay_gb: after.overlay_gb,
                mounts: after.mounts,
                ports: after.ports,
                env: after.env,
                cpus: after.cpus,
                mem: after.mem,
                network: after.network,
                network_backend: after.network_backend,
                allowed_cidrs: after.allowed_cidrs,
                dns_filter_hosts: after.dns_filter_hosts,
                workdir: after.workdir,
                gpu: after.gpu,
                gpu_vram_mib: after.gpu_vram_mib,
                health_cmd: after.health_cmd,
                health_interval_secs: after.health_interval_secs,
                health_timeout_secs: after.health_timeout_secs,
                health_retries: after.health_retries,
                health_startup_grace_secs: after.health_startup_grace_secs,
                ssh_agent: after.ssh_agent,
                restart: RestartConfigView {
                    policy: after.restart.policy,
                    max_retries: after.restart.max_retries,
                    max_backoff_secs: after.restart.max_backoff_secs,
                    ..record.restart
                },
                ..record
            }
        }),
{
}

/// Law: an update saves the record only of a stopped machine, and never with a
/// smaller disk.
pub proof fn law_update_is_safe(
    request: UpdateMachineView,
    progress: UpdateProgressView,
    defaults: ResourceDefaultsView,
)
    requires
        update_step(request, progress, defaults) is Save,
    ensures
        progress.state == Some(RecordState::Stopped) || progress.state == Some(
            RecordState::Created,
        ),
        progress.record matches Some(Ok(Some(record))) && !shrinks(
            request.storage_gb,
            disk_size(record.storage_gb, defaults.storage_gib),
        ) && !shrinks(request.overlay_gb, disk_size(record.overlay_gb, defaults.overlay_gib)),
        !sets_unnamed(request.set_env),
        progress.resources matches Some(Ok(_)),
        progress.backend matches Some(Ok(_)),
{
}

proof fn lemma_kept_all(ports: Seq<(u16, u16)>, removed: Seq<PortMapping>)
    requires
        removed.len() == 0,
    ensures
        ports_kept(ports, removed) == ports,
    decreases ports.len(),
{
    reveal(Seq::filter);
    if ports.len() > 0 {
        lemma_kept_all(ports.drop_last(), removed);
        assert(ports =~= ports.drop_last().push(ports.last()));
    } else {
        assert(ports_kept(ports, removed) =~= ports);
    }
}

proof fn lemma_kept_step(ports: Seq<(u16, u16)>, removed: Seq<PortMapping>)
    requires
        removed.len() > 0,
    ensures
        ports_kept(ports, removed) == without_port(
            ports_kept(ports, removed.drop_last()),
            removed.last().host,
            removed.last().guest,
        ),
    decreases ports.len(),
{
    reveal(Seq::filter);
    if ports.len() > 0 {
        lemma_kept_step(ports.drop_last(), removed);
        let pair = ports.last();
        let port = PortMapping { host: pair.0, guest: pair.1 };
        let fewer = removed.drop_last();
        let kept = ports_kept(ports.drop_last(), fewer);
        if removed.contains(port) {
            let i = choose|i: int| 0 <= i < removed.len() && removed[i] == port;
            if i < removed.len() - 1 {
                assert(fewer[i] == port);
            } else {
                assert(removed.last() == port);
            }
        } else {
            assert forall|i: int| 0 <= i < fewer.len() implies fewer[i] != port by {
                assert(removed[i] == fewer[i]);
            }
            assert(removed[removed.len() - 1] != port);
        }
        assert(kept.push(pair).drop_last() =~= kept);
    }
}

proof fn lemma_ports_removed(
    ports: Seq<(u16, u16)>,
    notes: NotesView,
    removed: Seq<PortMapping>,
)
    ensures
        ports_removed((ports, notes), removed).0 == ports_kept(ports, removed),
    decreases removed.len(),
{
    if removed.len() == 0 {
        lemma_kept_all(ports, removed);
    } else {
        lemma_ports_removed(ports, notes, removed.drop_last());
        lemma_kept_step(ports, removed);
    }
}

proof fn lemma_added_apart(
    ports: Seq<(u16, u16)>,
    a: NotesView,
    b: NotesView,
    added: Seq<PortMapping>,
)
    ensures
        ports_added((ports, a), added).0 == ports_added((ports, b), added).0,
    decreases added.len(),
{
    if added.len() > 0 {
        lemma_added_apart(ports, a, b, added.drop_last());
    }
}

/// Law: the ports that an update checks are the ports that it stores.
pub proof fn law_checked_ports_are_stored(
    record: VmRecordView,
    request: UpdateMachineView,
    gpu_vram_mib: Option<u32>,
)
    ensures
        updated_record(record, request, gpu_vram_mib).ports == ports_after(record, request),
{
    lemma_ports_removed(record.ports, Seq::empty(), request.remove_ports);
    lemma_added_apart(
        ports_kept(record.ports, request.remove_ports),
        ports_removed((record.ports, Seq::empty()), request.remove_ports).1,
        Seq::empty(),
        request.add_ports,
    );
}

proof fn lemma_ports_added(ports: Seq<(u16, u16)>, added: Seq<PortMapping>, pair: (u16, u16))
    ensures
        ports_added((ports, Seq::empty()), added).0.contains(pair) <==> (ports.contains(pair)
            || added.contains(PortMapping { host: pair.0, guest: pair.1 })),
    decreases added.len(),
{
    let port = PortMapping { host: pair.0, guest: pair.1 };
    if added.len() > 0 {
        let fewer = added.drop_last();
        lemma_ports_added(ports, fewer, pair);
        let before = ports_added((ports, Seq::empty()), fewer).0;
        let last = (added.last().host, added.last().guest);
        if added.contains(port) {
            let i = choose|i: int| 0 <= i < added.len() && added[i] == port;
            if i < added.len() - 1 {
                assert(fewer[i] == port);
            }
        }
        if fewer.contains(port) {
            let i = choose|i: int| 0 <= i < fewer.len() && fewer[i] == port;
            assert(added[i] == port);
        }
        if !before.contains(last) {
            let after = before.push(last);
            if before.contains(pair) {
                let i = choose|i: int| 0 <= i < before.len() && before[i] == pair;
                assert(after[i] == pair);
            }
            if after.contains(pair) {
                let i = choose|i: int| 0 <= i < after.len() && after[i] == pair;
                if i < before.len() {
                    assert(before[i] == pair);
                } else {
                    assert(added[added.len() - 1] == port);
                }
            }
            assert(after[before.len() as int] == last);
        }
        if added.last() == port {
            assert(added[added.len() - 1] == port);
        }
    }
}

proof fn lemma_ports_kept(ports: Seq<(u16, u16)>, removed: Seq<PortMapping>, pair: (u16, u16))
    ensures
        ports_kept(ports, removed).contains(pair) <==> (ports.contains(pair) && !removed.contains(
            PortMapping { host: pair.0, guest: pair.1 },
        )),
    decreases ports.len(),
{
    reveal(Seq::filter);
    if ports.len() > 0 {
        lemma_ports_kept(ports.drop_last(), removed, pair);
        let rest = ports_kept(ports.drop_last(), removed);
        let all = ports_kept(ports, removed);
        assert(ports.contains(pair) <==> (ports.drop_last().contains(pair) || ports.last() == pair))
            by {
            if ports.contains(pair) {
                let i = choose|i: int| 0 <= i < ports.len() && ports[i] == pair;
                if i < ports.len() - 1 {
                    assert(ports.drop_last()[i] == pair);
                }
            }
            if ports.drop_last().contains(pair) {
                let i = choose|i: int|
                    0 <= i < ports.drop_last().len() && ports.drop_last()[i] == pair;
                assert(ports[i] == pair);
            }
            if ports.last() == pair {
                assert(ports[ports.len() - 1] == pair);
            }
        }
        assert(rest.push(ports.last()).contains(pair) <==> (rest.contains(pair) || ports.last()
            == pair)) by {
            let more = rest.push(ports.last());
            if more.contains(pair) {
                let i = choose|i: int| 0 <= i < more.len() && more[i] == pair;
                if i < rest.len() {
                    assert(rest[i] == pair);
                }
            }
            if rest.contains(pair) {
                let i = choose|i: int| 0 <= i < rest.len() && rest[i] == pair;
                assert(more[i] == pair);
            }
            assert(more[rest.len() as int] == ports.last());
        }
    }
}

/// Law: after an update a machine forwards the ports that were added, and of
/// the ports it forwarded before those that were not removed.
pub proof fn law_ports_after_update(
    record: VmRecordView,
    request: UpdateMachineView,
    gpu_vram_mib: Option<u32>,
    pair: (u16, u16),
)
    ensures
        updated_record(record, request, gpu_vram_mib).ports.contains(pair) <==> ({
            let port = PortMapping { host: pair.0, guest: pair.1 };
            request.add_ports.contains(port) || (record.ports.contains(pair)
                && !request.remove_ports.contains(port))
        }),
{
    law_checked_ports_are_stored(record, request, gpu_vram_mib);
    lemma_ports_kept(record.ports, request.remove_ports, pair);
    lemma_ports_added(ports_kept(record.ports, request.remove_ports), request.add_ports, pair);
}

/// Whether a list of mounts names `source` and `target`.
pub open spec fn names_mount(
    mounts: Seq<HostMountView>,
    source: Seq<char>,
    target: Seq<char>,
) -> bool {
    exists|i: int|
        0 <= i < mounts.len() && (#[trigger] mounts[i]).source == source && mounts[i].target
            == target
}

proof fn lemma_has_mount_last(mounts: MountsView, source: Seq<char>, target: Seq<char>)
    requires
        mounts.len() > 0,
    ensures
        has_mount(mounts, source, target) <==> (has_mount(mounts.drop_last(), source, target) || (
        mounts.last().0 == source && mounts.last().1 == target)),
{
    if has_mount(mounts, source, target) {
        let i = choose|i: int|
            0 <= i < mounts.len() && (#[trigger] mounts[i]).0 == source && mounts[i].1 == target;
        if i < mounts.len() - 1 {
            assert(mounts.drop_last()[i] == mounts[i]);
        }
    }
    if has_mount(mounts.drop_last(), source, target) {
        let i = choose|i: int|
            0 <= i < mounts.drop_last().len() && (#[trigger] mounts.drop_last()[i]).0 == source
                && mounts.drop_last()[i].1 == target;
        assert(mounts[i] == mounts.drop_last()[i]);
    }
    assert(mounts[mounts.len() - 1] == mounts.last());
}

proof fn lemma_names_mount_last(mounts: Seq<HostMountView>, source: Seq<char>, target: Seq<char>)
    requires
        mounts.len() > 0,
    ensures
        names_mount(mounts, source, target) <==> (names_mount(mounts.drop_last(), source, target)
            || (mounts.last().source == source && mounts.last().target == target)),
{
    if names_mount(mounts, source, target) {
        let i = choose|i: int|
            0 <= i < mounts.len() && (#[trigger] mounts[i]).source == source && mounts[i].target
                == target;
        if i < mounts.len() - 1 {
            assert(mounts.drop_last()[i] == mounts[i]);
        }
    }
    if names_mount(mounts.drop_last(), source, target) {
        let i = choose|i: int|
            0 <= i < mounts.drop_last().len() && (#[trigger] mounts.drop_last()[i]).source == source
                && mounts.drop_last()[i].target == target;
        assert(mounts[i] == mounts.drop_last()[i]);
    }
    assert(mounts[mounts.len() - 1] == mounts.last());
}

proof fn lemma_without_mount(
    mounts: MountsView,
    gone: (Seq<char>, Seq<char>),
    source: Seq<char>,
    target: Seq<char>,
)
    ensures
        has_mount(without_mount(mounts, gone.0, gone.1), source, target) <==> (has_mount(
            mounts,
            source,
            target,
        ) && !(source == gone.0 && target == gone.1)),
    decreases mounts.len(),
{
    reveal(Seq::filter);
    if mounts.len() > 0 {
        lemma_without_mount(mounts.drop_last(), gone, source, target);
        lemma_has_mount_last(mounts, source, target);
        let rest = without_mount(mounts.drop_last(), gone.0, gone.1);
        lemma_has_mount_last(rest.push(mounts.last()), source, target);
        assert(rest.push(mounts.last()).drop_last() =~= rest);
    }
}

proof fn lemma_mounts_removed(
    mounts: MountsView,
    notes: NotesView,
    removed: Seq<HostMountView>,
    source: Seq<char>,
    target: Seq<char>,
)
    ensures
        has_mount(mounts_removed((mounts, notes), removed).0, source, target) <==> (has_mount(
            mounts,
            source,
            target,
        ) && !names_mount(removed, source, target)),
    decreases removed.len(),
{
    if removed.len() > 0 {
        lemma_mounts_removed(mounts, notes, removed.drop_last(), source, target);
        lemma_names_mount_last(removed, source, target);
        lemma_without_mount(
            mounts_removed((mounts, notes), removed.drop_last()).0,
            (removed.last().source, removed.last().target),
            source,
            target,
        );
    }
}

proof fn lemma_mounts_added(
    mounts: MountsView,
    notes: NotesView,
    added: Seq<HostMountView>,
    source: Seq<char>,
    target: Seq<char>,
)
    ensures
        has_mount(mounts_added((mounts, notes), added).0, source, target) <==> (has_mount(
            mounts,
            source,
            target,
        ) || names_mount(added, source, target)),
    decreases added.len(),
{
    if added.len() > 0 {
        lemma_mounts_added(mounts, notes, added.drop_last(), source, target);
        lemma_names_mount_last(added, source, target);
        let before = mounts_added((mounts, notes), added.drop_last()).0;
        let last = added.last();
        if !has_mount(before, last.source, last.target) {
            let after = before.push(crate::types::mount_entry(last));
            lemma_has_mount_last(after, source, target);
            assert(after.drop_last() =~= before);
        }
    }
}

/// Law: after an update a machine mounts what was added, and of what it mounted
/// before what was not removed.
pub proof fn law_mounts_after_update(
    record: VmRecordView,
    request: UpdateMachineView,
    gpu_vram_mib: Option<u32>,
    source: Seq<char>,
    target: Seq<char>,
)
    ensures
        has_mount(updated_record(record, request, gpu_vram_mib).mounts, source, target) <==> (
        names_mount(request.add_mounts, source, target) || (has_mount(
            record.mounts,
            source,
            target,
        ) && !names_mount(request.remove_mounts, source, target))),
{
    lemma_mounts_removed(record.mounts, Seq::empty(), request.remove_mounts, source, target);
    lemma_mounts_added(
        mounts_removed((record.mounts, Seq::empty()), request.remove_mounts).0,
        mounts_removed((record.mounts, Seq::empty()), request.remove_mounts).1,
        request.add_mounts,
        source,
        target,
    );
}

proof fn lemma_variables_set(env: EnvView, notes: NotesView, set: EnvView)
    ensures
        variables_set((env, notes), set).0 == overridden(env, set),
    decreases set.len(),
{
    if set.len() > 0 {
        lemma_variables_set(env, notes, set.drop_last());
    }
}

proof fn lemma_variables_removed(
    env: EnvView,
    notes: NotesView,
    removed: Seq<Seq<char>>,
    key: Seq<char>,
)
    ensures
        value_of(variables_removed((env, notes), removed).0, key) == (if removed.contains(key) {
            None
        } else {
            value_of(env, key)
        }),
    decreases removed.len(),
{
    if removed.len() > 0 {
        let fewer = removed.drop_last();
        lemma_variables_removed(env, notes, fewer, key);
        let before = variables_removed((env, notes), fewer).0;
        crate::env::law_set_variable(before, removed.last(), Seq::empty(), key);
        let with = crate::env::with_variable(before, removed.last(), Seq::empty());
        let without = crate::env::without_key(before, removed.last());
        assert(with.drop_last() =~= without);
        if key == removed.last() {
            assert(removed[removed.len() - 1] == key);
            assert(occurrences(without, key) == 0);
            lemma_absent(without, key);
        } else if removed.contains(key) {
            let i = choose|i: int| 0 <= i < removed.len() && removed[i] == key;
            assert(fewer[i] == key);
        } else if fewer.contains(key) {
            let i = choose|i: int| 0 <= i < fewer.len() && fewer[i] == key;
            assert(removed[i] == key);
        }
    }
}

proof fn lemma_absent(env: EnvView, key: Seq<char>)
    requires
        occurrences(env, key) == 0,
    ensures
        value_of(env, key) is None,
    decreases env.len(),
{
    if env.len() > 0 {
        lemma_absent(env.drop_last(), key);
    }
}

/// Law: after an update a variable has the value that was set last, or none if
/// it was removed, or else the value it had.
pub proof fn law_env_after_update(
    record: VmRecordView,
    request: UpdateMachineView,
    gpu_vram_mib: Option<u32>,
    key: Seq<char>,
)
    ensures
        value_of(updated_record(record, request, gpu_vram_mib).env, key) == first_some(
            value_of(request.set_env, key),
            if request.remove_env.contains(key) {
                None
            } else {
                value_of(record.env, key)
            },
        ),
{
    let removed = variables_removed((record.env, Seq::empty()), request.remove_env);
    lemma_variables_removed(record.env, Seq::empty(), request.remove_env, key);
    lemma_variables_set(removed.0, removed.1, request.set_env);
    law_overrides_win(removed.0, request.set_env, key);
}

/// Law: switching the network off leaves no permission to reach anything,
/// whatever else the request asks for, and what is checked of the network is
/// what is stored.
pub proof fn law_disabled_network(
    record: VmRecordView,
    request: UpdateMachineView,
    gpu_vram_mib: Option<u32>,
)
    requires
        request.disable_network,
    ensures
        !updated_record(record, request, gpu_vram_mib).network,
        updated_record(record, request, gpu_vram_mib).allowed_cidrs is None,
        updated_record(record, request, gpu_vram_mib).dns_filter_hosts is None,
        resources_after(record, request).network == updated_record(
            record,
            request,
            gpu_vram_mib,
        ).network,
        resources_after(record, request).allowed_cidrs == updated_record(
            record,
            request,
            gpu_vram_mib,
        ).allowed_cidrs,
{
}

/// Law: what an update checks is what it would leave: the resources with each setting that the
/// request names, and the ports without those that it removes and with those that it adds.
pub proof fn law_update_checks_the_outcome(record: VmRecordView, request: UpdateMachineView)
    ensures
        ({
            let after = resources_after(record, request);
            &&& request.cpus is Some ==> after.cpus == request.cpus->0
            &&& request.cpus is None ==> after.cpus == record.cpus
            &&& request.memory_mib is Some ==> after.memory_mib == request.memory_mib->0
            &&& request.memory_mib is None ==> after.memory_mib == record.mem
            &&& after.network <==> !request.disable_network && (request.enable_network
                || record.network)
            &&& request.network_backend is Some ==> after.network_backend
                == request.network_backend
            &&& request.network_backend is None ==> after.network_backend
                == record.network_backend
            &&& after.gpu <==> !request.disable_gpu && (request.enable_gpu || record.gpu == Some(
                true,
            ))
            &&& request.gpu_vram_mib is Some ==> after.gpu_vram_mib == request.gpu_vram_mib
            &&& request.gpu_vram_mib is None ==> after.gpu_vram_mib == record.gpu_vram_mib
            &&& request.storage_gb is Some ==> after.storage_gib == request.storage_gb
            &&& request.storage_gb is None ==> after.storage_gib == record.storage_gb
            &&& request.overlay_gb is Some ==> after.overlay_gib == request.overlay_gb
            &&& request.overlay_gb is None ==> after.overlay_gib == record.overlay_gb
            &&& request.disable_network || request.clear_allowed_cidrs ==> after.allowed_cidrs
                is None
            &&& !request.disable_network && !request.clear_allowed_cidrs && request.allowed_cidrs
                is Some ==> after.allowed_cidrs == request.allowed_cidrs
            &&& !request.disable_network && !request.clear_allowed_cidrs && request.allowed_cidrs
                is None ==> after.allowed_cidrs == record.allowed_cidrs
        }),
{
}

/// Law: ports pass the check exactly where none conflicts with another and none is zero.
pub proof fn law_ports_are_checked(ports: Seq<PortMapping>, duplicates: Result<(), Seq<char>>)
    ensures
        ports_checked(ports, duplicates) is Ok <==> duplicates is Ok && forall|i: int|
            0 <= i < ports.len() ==> (#[trigger] ports[i]).host != 0 && ports[i].guest != 0,
        duplicates is Err ==> (ports_checked(ports, duplicates) matches Err(error) && (
        error matches ErrorView::Config { reason, .. } && reason == duplicates->Err_0)),
        ports_checked(ports, duplicates) matches Err(error) ==> error is Config,
{
}

/// Law: an update asks for everything once, checks before it touches a disk, enlarges a disk
/// exactly where more was asked for than it has and to that size, and saves last.
pub proof fn law_update_does_what_was_asked(
    request: UpdateMachineView,
    progress: UpdateProgressView,
    defaults: ResourceDefaultsView,
    record: VmRecordView,
)
    requires
        progress.record == Some(Ok::<Option<VmRecordView>, ErrorView>(Some(record))),
    ensures
        ({
            let step = update_step(request, progress, defaults);
            let has_storage = if record.storage_gb is Some {
                record.storage_gb->0
            } else {
                defaults.storage_gib
            };
            let has_overlay = if record.overlay_gb is Some {
                record.overlay_gb->0
            } else {
                defaults.overlay_gib
            };
            let more_storage = request.storage_gb is Some && request.storage_gb->0 > has_storage;
            let more_overlay = request.overlay_gb is Some && request.overlay_gb->0 > has_overlay;
            let shrinks = (request.storage_gb is Some && request.storage_gb->0 < has_storage) || (
            request.overlay_gb is Some && request.overlay_gb->0 < has_overlay);
            let checked = progress.resources is Some && progress.resources->0 is Ok
                && progress.backend is Some && progress.backend->0 is Ok && progress.duplicates
                is Some && progress.duplicates->0 is Ok && progress.vram is Some
                && progress.vram->0 is Ok && (progress.state == Some(RecordState::Stopped)
                || progress.state == Some(RecordState::Created));
            &&& step is ProbeState ==> progress.state is None
            &&& step matches UpdateStepView::CheckResources(resources) ==> progress.resources
                is None && resources == resources_after(record, request)
            &&& step is CheckDuplicates ==> progress.duplicates is None
            &&& step matches UpdateStepView::CheckBackend { resources, dns_filter_hosts, .. }
                ==> progress.backend is None && resources == resources_after(record, request) && (
            request.dns_filter_hosts is Some ==> dns_filter_hosts == request.dns_filter_hosts) && (
            request.dns_filter_hosts is None ==> dns_filter_hosts == record.dns_filter_hosts)
            &&& step matches UpdateStepView::CheckVram(vram) ==> progress.vram is None && vram
                == request.gpu_vram_mib
            &&& step is OpenManager ==> progress.manager is None && checked && !shrinks
            &&& step matches UpdateStepView::ExpandStorage(size) ==> more_storage && size
                == request.storage_gb->0 && progress.storage is None && checked && !shrinks
            &&& step matches UpdateStepView::ExpandOverlay(size) ==> more_overlay && size
                == request.overlay_gb->0 && progress.overlay is None && checked && !shrinks
            &&& step matches UpdateStepView::Save { gpu_vram_mib, changes } ==> checked && !shrinks
                && progress.saved is None && progress.vram == Some(
                Ok::<Option<u32>, Seq<char>>(gpu_vram_mib),
            ) && (more_storage ==> progress.storage is Some && progress.storage->0 is Ok) && (
            more_overlay ==> progress.overlay is Some && progress.overlay->0 is Ok)
                && changes.len() == (if more_storage {
                1int
            } else {
                0int
            }) + (if more_overlay {
                1int
            } else {
                0int
            })
            &&& step is ProbeUpdated ==> progress.updated_state is None
        }),
{
}

/// Law: an update that succeeds gives the record as it was saved, the state that the machine was
/// then found in, and what was noted. It saves only a machine that is stopped.
pub proof fn law_successful_update(
    request: UpdateMachineView,
    progress: UpdateProgressView,
    defaults: ResourceDefaultsView,
    result: UpdateResultView,
)
    requires
        update_step(request, progress, defaults) == UpdateStepView::Finish(Ok(result)),
    ensures
        result.status.name == request.name,
        progress.saved == Some(
            Ok::<Option<VmRecordView>, ErrorView>(Some(result.status.record)),
        ),
        progress.updated_state == Some(result.status.state),
        result.changes == progress.changes,
        progress.state == Some(RecordState::Stopped) || progress.state == Some(
            RecordState::Created,
        ),
        progress.resources is Some && progress.resources->0 is Ok && progress.backend is Some
            && progress.backend->0 is Ok,
        progress.manager is Some && progress.manager->0 is Ok,
        progress.record is Some && progress.record->0 is Ok && progress.record->0->Ok_0 is Some,
        ({
            let record = progress.record->0->Ok_0->0;
            let storage = if record.storage_gb is Some {
                record.storage_gb->0
            } else {
                defaults.storage_gib
            };
            let overlay = if record.overlay_gb is Some {
                record.overlay_gb->0
            } else {
                defaults.overlay_gib
            };
            &&& request.storage_gb is Some ==> request.storage_gb->0 >= storage
            &&& request.overlay_gb is Some ==> request.overlay_gb->0 >= overlay
            &&& request.storage_gb is Some && request.storage_gb->0 > storage ==> progress.storage
                is Some && progress.storage->0 is Ok
            &&& request.overlay_gb is Some && request.overlay_gb->0 > overlay ==> progress.overlay
                is Some && progress.overlay->0 is Ok
        }),
{
}

/// Law: an update of a machine that is not stopped, that is missing, that would name a variable
/// nothing, or that would shrink a disk is refused; any other failure is an error that it was
/// given.
pub proof fn law_failed_update_tells_why(
    request: UpdateMachineView,
    progress: UpdateProgressView,
    defaults: ResourceDefaultsView,
    error: ErrorView,
)
    requires
        update_step(request, progress, defaults) == UpdateStepView::Finish(Err(error)),
    ensures
        ({
            ||| progress.record == Some(Err::<Option<VmRecordView>, ErrorView>(error))
            ||| error == (ErrorView::VmNotFound { name: request.name })
            ||| error is InvalidState && progress.state is Some && progress.state != Some(
                RecordState::Stopped,
            ) && progress.state != Some(RecordState::Created)
            ||| error is Config && exists|i: int|
                0 <= i < request.set_env.len() && (#[trigger] request.set_env[i]).0.len() == 0
            ||| error is Config && (request.storage_gb is Some || request.overlay_gb is Some)
            ||| error is Config && progress.duplicates is Some
            ||| error is Config && progress.vram is Some && progress.vram->0 is Err
            ||| progress.resources == Some(Err::<(), ErrorView>(error))
            ||| progress.backend == Some(Err::<(), ErrorView>(error))
            ||| progress.manager is Some && progress.manager->0 is Err && error == (
            ErrorView::Agent {
                operation: "create agent manager"@,
                reason: progress.manager->0->Err_0,
            })
            ||| progress.storage == Some(Err::<(), ErrorView>(error))
            ||| progress.overlay == Some(Err::<(), ErrorView>(error))
            ||| progress.saved == Some(Err::<Option<VmRecordView>, ErrorView>(error))
        }),
{
}

} // verus!
