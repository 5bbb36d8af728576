//! Records of new machines, run sessions and clones, and their life cycle.

use crate::env::{
    check_secret_refs, law_secrets_are_checked_one_by_one, refs_checked, EnvView,
};
use crate::error::{Error, ErrorView};
use crate::model::{empty_list, push_to, Model};
use crate::requests::{
    CreateMachine, CreateMachineView, MachineRun, MachineRunView, MachineStatus, MachineStatusView,
};
use crate::secrets::{ref_fault, ResolutionScope};
use crate::text::{cat2, own};
use crate::types::{
    fresh_record, mount_entries, no_restart, port_pairs, HostMount, PortMapping, RecordState,
    RestartConfig, RestartConfigView, RestartPolicy, VmRecord, VmRecordView, VmResources,
    VmResourcesView,
};
use crate::update_flow::{ports_checked, validate_ports};
use vstd::prelude::*;

verus! {

/// The record that reading the database gave, or why there is none.
pub open spec fn record_found(
    name: Seq<char>,
    loaded: Result<Option<VmRecordView>, ErrorView>,
) -> Result<VmRecordView, ErrorView> {
    match loaded {
        Err(error) => Err(error),
        Ok(None) => Err(ErrorView::VmNotFound { name }),
        Ok(Some(record)) => Ok(record),
    }
}

/// Takes the record that reading the database gave.
pub fn get_record(name: &str, loaded: &Result<Option<VmRecord>, Error>) -> (record: Result<
    VmRecord,
    Error,
>)
    ensures
        record.model() == record_found(name@, loaded.model()),
{
    match loaded {
        Err(error) => Err(error.dup()),
        Ok(None) => Err(Error::vm_not_found(name)),
        Ok(Some(record)) => Ok(record.dup()),
    }
}

/// The status of a machine that was found in `state`.
pub fn status_from_record(name: &str, record: VmRecord, state: RecordState) -> (status:
    MachineStatus)
    ensures
        status.model() == (MachineStatusView { name: name@, state, record: record.model() }),
{
    MachineStatus { name: own(name), state, record }
}

/// A record whose machine runs.
pub open spec fn as_running(
    record: VmRecordView,
    pid: Option<i32>,
    pid_start_time: Option<u64>,
) -> VmRecordView {
    VmRecordView { state: RecordState::Running, pid, pid_start_time, ..record }
}

/// A record whose machine is stopped.
pub open spec fn as_stopped(record: VmRecordView) -> VmRecordView {
    VmRecordView { state: RecordState::Stopped, pid: None, pid_start_time: None, ..record }
}

/// A record whose machine was seen to end.
pub open spec fn as_exited(record: VmRecordView, exit_code: Option<i32>) -> VmRecordView {
    VmRecordView { state: RecordState::Stopped, pid: None, last_exit_code: exit_code, ..record }
}

/// Notes in a record that its machine runs.
pub fn mark_running(record: &mut VmRecord, pid: Option<i32>, pid_start_time: Option<u64>)
    ensures
        final(record).model() == as_running(old(record).model(), pid, pid_start_time),
{
    record.state = RecordState::Running;
    record.pid = pid;
    record.pid_start_time = pid_start_time;
}

/// Notes in a record that its machine is stopped.
pub fn mark_stopped(record: &mut VmRecord)
    ensures
        final(record).model() == as_stopped(old(record).model()),
{
    record.state = RecordState::Stopped;
    record.pid = None;
    record.pid_start_time = None;
}

/// Notes in a record that its machine was seen to end.
pub fn mark_exited(record: &mut VmRecord, exit_code: Option<i32>)
    ensures
        final(record).model() == as_exited(old(record).model(), exit_code),
{
    record.state = RecordState::Stopped;
    record.pid = None;
    record.last_exit_code = exit_code;
}

/// Notes in a record that its first start is complete.
pub fn mark_init_completed(record: &mut VmRecord)
    ensures
        final(record).model() == (VmRecordView { init_completed: true, ..old(record).model() }),
{
    record.init_completed = true;
}

/// Notes in a record how often its machine was restarted.
pub fn set_restart_count(record: &mut VmRecord, restart_count: u32)
    ensures
        final(record).model() == (VmRecordView {
            restart: RestartConfigView { restart_count, ..old(record).model().restart },
            ..old(record).model()
        }),
{
    record.restart.restart_count = restart_count;
}

/// Notes in a record that the user ended its monitor.
pub fn mark_user_stopped(record: &mut VmRecord)
    ensures
        final(record).model() == (VmRecordView {
            restart: RestartConfigView { user_stopped: true, ..old(record).model().restart },
            ..old(record).model()
        }),
{
    record.restart.user_stopped = true;
}

/// Law: a machine that was started and then stopped has no process, and its
/// record is otherwise as before.
pub proof fn law_stop_undoes_start(
    record: VmRecordView,
    pid: Option<i32>,
    pid_start_time: Option<u64>,
)
    ensures
        as_stopped(as_running(record, pid, pid_start_time)) == as_stopped(record),
        as_stopped(record).pid is None,
        as_stopped(as_stopped(record)) == as_stopped(record),
{
}

/// What was found out about a new machine before its record is made.
#[derive(Debug, PartialEq, Eq)]
pub struct CreateChecks {
    /// What checking the name gave.
    pub name: Result<(), String>,
    /// What looking for conflicting ports gave.
    pub duplicates: Result<(), String>,
    /// What checking the network backend gave.
    pub backend: Result<(), Error>,
    /// What checking the video memory gave.
    pub vram: Result<Option<u32>, String>,
    /// The environment, as the parser of `KEY=VALUE` entries gave it.
    pub env: Vec<(String, String)>,
    /// Now, in seconds since the epoch.
    pub created_at: u64,
}

/// Mathematical model of a [`CreateChecks`].
pub struct CreateChecksView {
    pub name: Result<(), Seq<char>>,
    pub duplicates: Result<(), Seq<char>>,
    pub backend: Result<(), ErrorView>,
    pub vram: Result<Option<u32>, Seq<char>>,
    pub env: Seq<(Seq<char>, Seq<char>)>,
    pub created_at: u64,
}

impl Model for CreateChecks {
    type V = CreateChecksView;

    open spec fn model(&self) -> CreateChecksView {
        CreateChecksView {
            name: self.name.model(),
            duplicates: self.duplicates.model(),
            backend: self.backend.model(),
            vram: self.vram.model(),
            env: self.env.model(),
            created_at: self.created_at.model(),
        }
    }

    fn dup(&self) -> (copy: Self) {
        CreateChecks {
            name: self.name.dup(),
            duplicates: self.duplicates.dup(),
            backend: self.backend.dup(),
            vram: self.vram.dup(),
            env: self.env.dup(),
            created_at: self.created_at.dup(),
        }
    }
}

/// The record of a new machine whose settings are acceptable.
pub open spec fn record_of_request(
    request: CreateMachineView,
    env: EnvView,
    gpu_vram_mib: Option<u32>,
    created_at: u64,
) -> VmRecordView {
    VmRecordView {
        image: request.image,
        entrypoint: request.entrypoint,
        cmd: request.cmd,
        init: request.init,
        env,
        workdir: request.workdir,
        user: request.user,
        storage_gb: request.storage_gb,
        overlay_gb: request.overlay_gb,
        allowed_cidrs: request.allowed_cidrs,
        network_backend: request.network_backend,
        gpu: if request.gpu {
            Some(true)
        } else {
            None
        },
        gpu_vram_mib,
        health_cmd: request.health_cmd,
        health_interval_secs: request.health_interval_secs,
        health_timeout_secs: request.health_timeout_secs,
        health_retries: request.health_retries,
        health_startup_grace_secs: request.health_startup_grace_secs,
        ssh_agent: request.ssh_agent,
        dns_filter_hosts: request.dns_filter_hosts,
        source_smolmachine: request.source_smolmachine,
        secret_refs: request.secret_refs,
        ..fresh_record(
            request.name,
            request.cpus,
            request.memory_mib,
            mount_entries(request.mounts),
            port_pairs(request.ports),
            request.net,
            RestartConfigView {
                policy: if request.restart_policy is Some {
                    request.restart_policy->0
                } else {
                    RestartPolicy::Never
                },
                max_retries: if request.restart_max_retries is Some {
                    request.restart_max_retries->0
                } else {
                    0
                },
                max_backoff_secs: if request.restart_max_backoff_secs is Some {
                    request.restart_max_backoff_secs->0
                } else {
                    0
                },
                restart_count: 0,
                user_stopped: false,
            },
            created_at,
        )
    }
}

/// The record of a new machine, or why its settings are not acceptable.
pub open spec fn record_checked(
    request: CreateMachineView,
    checks: CreateChecksView,
) -> Result<VmRecordView, ErrorView> {
    if checks.name is Err {
        Err(ErrorView::Config { operation: "create machine"@, reason: checks.name->Err_0 })
    } else if ports_checked(request.ports, checks.duplicates) is Err {
        Err(ports_checked(request.ports, checks.duplicates)->Err_0)
    } else if checks.backend is Err {
        Err(checks.backend->Err_0)
    } else if refs_checked("create machine"@, request.secret_refs, ResolutionScope::TrustedLocal)
        is Err {
        Err(
            refs_checked(
                "create machine"@,
                request.secret_refs,
                ResolutionScope::TrustedLocal,
            )->Err_0,
        )
    } else {
        match checks.vram {
            Err(reason) => Err(
                ErrorView::Config { operation: "create machine"@, reason: "gpu_vram: "@ + reason },
            ),
            Ok(gpu_vram_mib) => Ok(
                record_of_request(request, checks.env, gpu_vram_mib, checks.created_at),
            ),
        }
    }
}

impl CreateMachine {
    /// Makes the record of a new machine.
    pub fn into_record(self, checks: CreateChecks) -> (record: Result<VmRecord, Error>)
        ensures
            record.model() == record_checked(self.model(), checks.model()),
    {
        match &checks.name {
            Err(reason) => {
                return Err(Error::config("create machine", reason.dup()));
            },
            Ok(_) => {},
        }
        if let Err(error) = validate_ports(&self.ports, &checks.duplicates) {
            return Err(error);
        }
        match checks.backend {
            Err(error) => {
                return Err(error);
            },
            Ok(_) => {},
        }
        if let Err(error) = check_secret_refs(
            "create machine",
            &self.secret_refs,
            ResolutionScope::TrustedLocal,
        ) {
            return Err(error);
        }
        let gpu_vram_mib: Option<u32> = match checks.vram {
            Err(reason) => {
                return Err(Error::config("create machine", cat2("gpu_vram: ", reason.as_str())));
            },
            Ok(gpu_vram_mib) => gpu_vram_mib,
        };
        let restart: RestartConfig = RestartConfig {
            policy: match self.restart_policy {
                Some(policy) => policy,
                None => RestartPolicy::Never,
            },
            max_retries: match self.restart_max_retries {
                Some(max_retries) => max_retries,
                None => 0,
            },
            max_backoff_secs: match self.restart_max_backoff_secs {
                Some(max_backoff_secs) => max_backoff_secs,
                None => 0,
            },
            restart_count: 0,
            user_stopped: false,
        };
        let mut record: VmRecord = VmRecord::new_with_restart(
            self.name,
            self.cpus,
            self.memory_mib,
            HostMount::to_storage_tuples(&self.mounts),
            PortMapping::to_tuples(&self.ports),
            self.net,
            restart,
            checks.created_at,
        );
        record.image = self.image;
        record.entrypoint = self.entrypoint;
        record.cmd = self.cmd;
        record.init = self.init;
        record.env = checks.env;
        record.workdir = self.workdir;
        record.user = self.user;
        record.storage_gb = self.storage_gb;
        record.overlay_gb = self.overlay_gb;
        record.allowed_cidrs = self.allowed_cidrs;
        record.network_backend = self.network_backend;
        record.gpu = if self.gpu {
            Some(true)
        } else {
            None
        };
        record.gpu_vram_mib = gpu_vram_mib;
        record.health_cmd = self.health_cmd;
        record.health_interval_secs = self.health_interval_secs;
        record.health_timeout_secs = self.health_timeout_secs;
        record.health_retries = self.health_retries;
        record.health_startup_grace_secs = self.health_startup_grace_secs;
        record.ssh_agent = self.ssh_agent;
        record.dns_filter_hosts = self.dns_filter_hosts;
        record.source_smolmachine = self.source_smolmachine;
        record.secret_refs = self.secret_refs;
        Ok(record)
    }

    /// The resources that the new machine asks for.
    pub fn vm_resources(&self) -> (resources: VmResources)
        ensures
            resources.model() == (VmResourcesView {
                cpus: self.cpus,
                memory_mib: self.memory_mib,
                network: self.net,
                network_backend: self.network_backend.model(),
                gpu: self.gpu,
                gpu_vram_mib: self.gpu_vram_mib,
                storage_gib: self.storage_gb,
                overlay_gib: self.overlay_gb,
                allowed_cidrs: self.allowed_cidrs.model(),
            }),
    {
        VmResources {
            cpus: self.cpus,
            memory_mib: self.memory_mib,
            network: self.net,
            network_backend: self.network_backend.dup(),
            gpu: self.gpu,
            gpu_vram_mib: self.gpu_vram_mib,
            storage_gib: self.storage_gb,
            overlay_gib: self.overlay_gb,
            allowed_cidrs: self.allowed_cidrs.dup(),
        }
    }
}

/// What a detached run session leaves running.
#[derive(Debug, PartialEq, Eq)]
pub struct DetachedRunRecord {
    pub pid: Option<i32>,
    pub image: Option<String>,
    pub entrypoint: Vec<String>,
    pub cmd: Vec<String>,
    pub env: Vec<(String, String)>,
    pub workdir: Option<String>,
    pub user: Option<String>,
}

/// Mathematical model of a [`DetachedRunRecord`].
pub struct DetachedRunRecordView {
    pub pid: Option<i32>,
    pub image: Option<Seq<char>>,
    pub entrypoint: Seq<Seq<char>>,
    pub cmd: Seq<Seq<char>>,
    pub env: Seq<(Seq<char>, Seq<char>)>,
    pub workdir: Option<Seq<char>>,
    pub user: Option<Seq<char>>,
}

impl Model for DetachedRunRecord {
    type V = DetachedRunRecordView;

    open spec fn model(&self) -> DetachedRunRecordView {
        DetachedRunRecordView {
            pid: self.pid.model(),
            image: self.image.model(),
            entrypoint: self.entrypoint.model(),
            cmd: self.cmd.model(),
            env: self.env.model(),
            workdir: self.workdir.model(),
            user: self.user.model(),
        }
    }

    fn dup(&self) -> (copy: Self) {
        DetachedRunRecord {
            pid: self.pid.dup(),
            image: self.image.dup(),
            entrypoint: self.entrypoint.dup(),
            cmd: self.cmd.dup(),
            env: self.env.dup(),
            workdir: self.workdir.dup(),
            user: self.user.dup(),
        }
    }
}

/// The record of a detached run session.
pub open spec fn detached_record(
    request: MachineRunView,
    detached: DetachedRunRecordView,
    pid_start_time: Option<u64>,
    created_at: u64,
) -> VmRecordView {
    VmRecordView {
        state: RecordState::Running,
        pid: detached.pid,
        pid_start_time: if detached.pid is Some {
            pid_start_time
        } else {
            None
        },
        network_backend: request.resources.network_backend,
        storage_gb: request.resources.storage_gib,
        overlay_gb: request.resources.overlay_gib,
        allowed_cidrs: request.resources.allowed_cidrs,
        init: request.init,
        init_completed: false,
        env: detached.env,
        secret_refs: request.secret_refs,
        workdir: detached.workdir,
        user: detached.user,
        image: detached.image,
        entrypoint: detached.entrypoint,
        cmd: detached.cmd,
        ssh_agent: request.ssh_agent,
        dns_filter_hosts: request.dns_filter_hosts,
        gpu: if request.resources.gpu {
            Some(true)
        } else {
            None
        },
        gpu_vram_mib: request.resources.gpu_vram_mib,
        ..fresh_record(
            request.name,
            request.resources.cpus,
            request.resources.memory_mib,
            mount_entries(request.mounts),
            port_pairs(request.ports),
            request.resources.network,
            no_restart(),
            created_at,
        )
    }
}

/// Makes the record of a detached run session. `pid_start_time` is when the
/// process of the machine started, if it has one.
pub fn persist_detached_run(
    request: &MachineRun,
    detached: DetachedRunRecord,
    pid_start_time: Option<u64>,
    created_at: u64,
) -> (record: VmRecord)
    ensures
        record.model() == detached_record(
            request.model(),
            detached.model(),
            pid_start_time,
            created_at,
        ),
{
    let mut record: VmRecord = VmRecord::new(
        request.name.dup(),
        request.resources.cpus,
        request.resources.memory_mib,
        HostMount::to_storage_tuples(&request.mounts),
        PortMapping::to_tuples(&request.ports),
        request.resources.network,
        created_at,
    );
    record.state = RecordState::Running;
    record.pid = detached.pid;
    record.pid_start_time = if detached.pid.is_some() {
        pid_start_time
    } else {
        None
    };
    record.network_backend = request.resources.network_backend.dup();
    record.storage_gb = request.resources.storage_gib;
    record.overlay_gb = request.resources.overlay_gib;
    record.allowed_cidrs = request.resources.allowed_cidrs.dup();
    record.init = request.init.dup();
    record.init_completed = false;
    record.env = detached.env;
    record.secret_refs = request.secret_refs.dup();
    record.workdir = detached.workdir;
    record.user = detached.user;
    record.image = detached.image;
    record.entrypoint = detached.entrypoint;
    record.cmd = detached.cmd;
    record.ssh_agent = request.ssh_agent;
    record.dns_filter_hosts = request.dns_filter_hosts.dup();
    record.gpu = if request.resources.gpu {
        Some(true)
    } else {
        None
    };
    record.gpu_vram_mib = request.resources.gpu_vram_mib;
    record
}

/// The record of a foreground run session, which lasts as long as the session.
pub open spec fn ephemeral_record(
    request: MachineRunView,
    pid: Option<i32>,
    created_at: u64,
) -> VmRecordView {
    VmRecordView {
        ephemeral: true,
        state: RecordState::Running,
        pid,
        image: request.image,
        ..fresh_record(
            request.name,
            request.resources.cpus,
            request.resources.memory_mib,
            Seq::empty(),
            Seq::empty(),
            request.resources.network,
            no_restart(),
            created_at,
        )
    }
}

/// Makes the record of a foreground run session.
pub fn register_ephemeral_run(request: &MachineRun, pid: Option<i32>, created_at: u64) -> (record:
    VmRecord)
    ensures
        record.model() == ephemeral_record(request.model(), pid, created_at),
{
    let mut record: VmRecord = VmRecord::new(
        request.name.dup(),
        request.resources.cpus,
        request.resources.memory_mib,
        empty_list(),
        empty_list(),
        request.resources.network,
        created_at,
    );
    record.ephemeral = true;
    record.state = RecordState::Running;
    record.pid = pid;
    record.image = request.image.dup();
    record
}

/// Guest ports of a machine with the host ports that were found free for them,
/// leaving out those for which none was.
pub open spec fn paired_ports(ports: Seq<(u16, u16)>, free: Seq<Option<u16>>) -> Seq<(u16, u16)>
    decreases ports.len(),
{
    if ports.len() == 0 {
        Seq::empty()
    } else {
        let before = paired_ports(ports.drop_last(), free);
        let at = ports.len() - 1;
        if at < free.len() && free[at] is Some {
            before.push((free[at]->0, ports.last().1))
        } else {
            before
        }
    }
}

/// The ports of a clone: those asked for, or else the golden machine's guest
/// ports on free host ports.
pub open spec fn ports_of_clone(
    golden: VmRecordView,
    pinned: Seq<PortMapping>,
    free: Seq<Option<u16>>,
) -> Seq<(u16, u16)> {
    if pinned.len() > 0 {
        port_pairs(pinned)
    } else {
        paired_ports(golden.ports, free)
    }
}

/// Chooses the ports of a clone. `free` holds, for each port of the golden
/// machine, a host port that is free, if one was found.
pub fn clone_ports(golden: &VmRecord, pinned: &Vec<PortMapping>, free: &Vec<Option<u16>>) -> (ports:
    Vec<(u16, u16)>)
    ensures
        ports.model() == ports_of_clone(golden.model(), pinned.model(), free.model()),
{
    if pinned.len() > 0 {
        return PortMapping::to_tuples(pinned);
    }
    let mut ports: Vec<(u16, u16)> = empty_list();
    let mut i: usize = 0;
    let ghost all = golden.ports.model();
    while i < golden.ports.len()
        invariant
            i <= golden.ports.len(),
            golden.ports.model() == all,
            ports.model() == paired_ports(all.take(i as int), free.model()),
        decreases golden.ports.len() - i,
    {
        assert(all.take(i + 1).drop_last() =~= all.take(i as int));
        assert(all.take(i + 1).last() == golden.ports[i as int]);
        if i < free.len() {
            assert(free.model()[i as int] == free[i as int].model());
            if let Some(host) = free[i] {
                push_to(&mut ports, (host, golden.ports[i].1));
            }
        }
        i += 1;
    }
    assert(all.take(all.len() as int) =~= all);
    ports
}

/// The record of a clone.
pub open spec fn clone_of(
    golden: VmRecordView,
    golden_name: Seq<char>,
    clone_name: Seq<char>,
    ports: Seq<(u16, u16)>,
) -> VmRecordView {
    VmRecordView {
        name: clone_name,
        pid: None,
        pid_start_time: None,
        golden: Some(golden_name),
        ports,
        ..golden
    }
}

/// Makes the record of a clone.
pub fn clone_record(
    golden: &VmRecord,
    golden_name: &str,
    clone_name: &str,
    ports: Vec<(u16, u16)>,
) -> (record: VmRecord)
    ensures
        record.model() == clone_of(golden.model(), golden_name@, clone_name@, ports.model()),
{
    let mut record: VmRecord = golden.dup();
    record.name = own(clone_name);
    record.pid = None;
    record.pid_start_time = None;
    record.golden = Some(own(golden_name));
    record.ports = ports;
    record
}

/// The names of the machines whose fork base is `name`.
pub open spec fn clones_of(machines: Seq<(Seq<char>, VmRecordView)>, name: Seq<char>) -> Seq<
    Seq<char>,
>
    decreases machines.len(),
{
    if machines.len() == 0 {
        Seq::empty()
    } else {
        let before = clones_of(machines.drop_last(), name);
        if machines.last().1.golden == Some(name) {
            before.push(machines.last().0)
        } else {
            before
        }
    }
}

/// Lists the machines whose fork base is `name`.
pub fn dependent_clones(machines: &Vec<(String, VmRecord)>, name: &str) -> (clones: Vec<String>)
    ensures
        clones.model() == clones_of(machines.model(), name@),
{
    let mut clones: Vec<String> = empty_list();
    let mut i: usize = 0;
    while i < machines.len()
        invariant
            i <= machines.len(),
            clones.model() == clones_of(machines.model().take(i as int), name@),
        decreases machines.len() - i,
    {
        let ghost next = machines.model().take(i + 1);
        assert(next.drop_last() =~= machines.model().take(i as int));
        assert(next.last() == machines[i as int].model());
        if let Some(golden) = &machines[i].1.golden {
            if crate::text::same_text(golden.as_str(), name) {
                push_to(&mut clones, machines[i].0.dup());
            }
        }
        i += 1;
    }
    assert(machines.model().take(machines.len() as int) =~= machines.model());
    clones
}

/// Law: a clone is found under its fork base.
pub proof fn law_clone_depends_on_golden(
    machines: Seq<(Seq<char>, VmRecordView)>,
    golden: VmRecordView,
    golden_name: Seq<char>,
    clone_name: Seq<char>,
    ports: Seq<(u16, u16)>,
)
    ensures
        clones_of(
            machines.push((clone_name, clone_of(golden, golden_name, clone_name, ports))),
            golden_name,
        ) == clones_of(machines, golden_name).push(clone_name),
{
    let more = machines.push((clone_name, clone_of(golden, golden_name, clone_name, ports)));
    assert(more.drop_last() =~= machines);
}

/// Law: a record is found exactly where one was read; a machine without a record is
/// reported by its name, and an error of the database as it is.
pub proof fn law_record_is_found_or_reported(
    name: Seq<char>,
    loaded: Result<Option<VmRecordView>, ErrorView>,
)
    ensures
        forall|record: VmRecordView|
            record_found(name, loaded) == Ok::<VmRecordView, ErrorView>(record) <==> loaded == Ok::<
                Option<VmRecordView>,
                ErrorView,
            >(Some(record)),
        loaded is Err ==> record_found(name, loaded) is Err && record_found(name, loaded)->Err_0
            == loaded->Err_0,
        loaded is Ok && loaded->Ok_0 is None ==> record_found(name, loaded) is Err && (
        record_found(name, loaded)->Err_0 matches ErrorView::VmNotFound { name: missing } && missing
            == name),
{
}

/// Law: noting that a machine runs, stopped or ended sets its state and its
/// process, and the exit code where it ended, and nothing else.
pub proof fn law_notes_of_state(
    record: VmRecordView,
    pid: Option<i32>,
    pid_start_time: Option<u64>,
    exit_code: Option<i32>,
)
    ensures
        ({
            let running = as_running(record, pid, pid_start_time);
            let stopped = as_stopped(record);
            let ended = as_exited(record, exit_code);
            &&& running.state == RecordState::Running && running.pid == pid
                && running.pid_start_time == pid_start_time
            &&& stopped.state == RecordState::Stopped && stopped.pid is None
                && stopped.pid_start_time is None
            &&& ended.state == RecordState::Stopped && ended.pid is None && ended.last_exit_code
                == exit_code
            &&& VmRecordView {
                state: record.state,
                pid: record.pid,
                pid_start_time: record.pid_start_time,
                ..running
            } == record
            &&& VmRecordView {
                state: record.state,
                pid: record.pid,
                pid_start_time: record.pid_start_time,
                ..stopped
            } == record
            &&& VmRecordView {
                state: record.state,
                pid: record.pid,
                last_exit_code: record.last_exit_code,
                ..ended
            } == record
        }),
{
}

/// Law: the record of a new machine holds what was asked for, is not running, was
/// never started, and belongs to no other machine.
pub proof fn law_new_record_holds_the_request(
    request: CreateMachineView,
    checks: CreateChecksView,
    record: VmRecordView,
)
    requires
        record_checked(request, checks) == Ok::<VmRecordView, ErrorView>(record),
    ensures
        record.name == request.name,
        record.created_at == checks.created_at,
        record.state == RecordState::Created && record.pid is None && record.pid_start_time is None
            && record.last_exit_code is None,
        !record.init_completed && !record.ephemeral && record.golden is None,
        record.cpus == request.cpus && record.mem == request.memory_mib,
        record.mounts.len() == request.mounts.len() && forall|i: int|
            0 <= i < request.mounts.len() ==> #[trigger] record.mounts[i] == (
                request.mounts[i].source,
                request.mounts[i].target,
                request.mounts[i].read_only,
            ),
        record.ports.len() == request.ports.len() && forall|i: int|
            0 <= i < request.ports.len() ==> #[trigger] record.ports[i] == (
                request.ports[i].host,
                request.ports[i].guest,
            ),
        record.network == request.net && record.network_backend == request.network_backend
            && record.allowed_cidrs == request.allowed_cidrs && record.dns_filter_hosts
            == request.dns_filter_hosts,
        record.image == request.image && record.entrypoint == request.entrypoint && record.cmd
            == request.cmd && record.init == request.init,
        record.env == checks.env && record.workdir == request.workdir && record.user
            == request.user,
        record.secret_refs == request.secret_refs,
        record.storage_gb == request.storage_gb && record.overlay_gb == request.overlay_gb,
        record.gpu == Some(true) <==> request.gpu,
        Ok::<Option<u32>, Seq<char>>(record.gpu_vram_mib) == checks.vram,
        record.health_cmd == request.health_cmd && record.health_interval_secs
            == request.health_interval_secs && record.health_timeout_secs
            == request.health_timeout_secs && record.health_retries == request.health_retries
            && record.health_startup_grace_secs == request.health_startup_grace_secs,
        record.ssh_agent == request.ssh_agent && record.source_smolmachine
            == request.source_smolmachine,
        request.restart_policy is Some ==> record.restart.policy == request.restart_policy->0,
        request.restart_policy is None ==> record.restart.policy == RestartPolicy::Never,
        request.restart_max_retries is Some ==> record.restart.max_retries
            == request.restart_max_retries->0,
        request.restart_max_retries is None ==> record.restart.max_retries == 0,
        request.restart_max_backoff_secs is Some ==> record.restart.max_backoff_secs
            == request.restart_max_backoff_secs->0,
        request.restart_max_backoff_secs is None ==> record.restart.max_backoff_secs == 0,
        record.restart.restart_count == 0 && !record.restart.user_stopped,
{
}

/// Law: a new machine gets a record exactly where its name, its ports, its network
/// backend, its secrets and its video memory are all acceptable.
pub proof fn law_new_machine_is_checked(request: CreateMachineView, checks: CreateChecksView)
    ensures
        record_checked(request, checks) is Ok <==> checks.name is Ok && checks.duplicates is Ok
            && checks.backend is Ok && checks.vram is Ok && (forall|i: int|
            0 <= i < request.ports.len() ==> (#[trigger] request.ports[i]).host != 0
                && request.ports[i].guest != 0) && (forall|i: int|
            0 <= i < request.secret_refs.len() ==> ref_fault(
                (#[trigger] request.secret_refs[i]).1,
                ResolutionScope::TrustedLocal,
            ) is None),
        checks.name is Ok && checks.duplicates is Ok && (forall|i: int|
            0 <= i < request.ports.len() ==> (#[trigger] request.ports[i]).host != 0
                && request.ports[i].guest != 0) && checks.backend is Err ==> record_checked(
            request,
            checks,
        ) is Err && record_checked(request, checks)->Err_0 == checks.backend->Err_0,
{
    law_secrets_are_checked_one_by_one(
        "create machine"@,
        request.secret_refs,
        ResolutionScope::TrustedLocal,
    );
}

/// Law: the record of a detached session tells how its machine runs: the settings
/// of the request, and what the session left running.
pub proof fn law_detached_record_holds_the_session(
    request: MachineRunView,
    detached: DetachedRunRecordView,
    pid_start_time: Option<u64>,
    created_at: u64,
)
    ensures
        ({
            let record = detached_record(request, detached, pid_start_time, created_at);
            &&& record.name == request.name && record.created_at == created_at
            &&& record.state == RecordState::Running && record.pid == detached.pid
            &&& detached.pid is Some ==> record.pid_start_time == pid_start_time
            &&& detached.pid is None ==> record.pid_start_time is None
            &&& !record.ephemeral && record.golden is None && !record.init_completed
            &&& record.cpus == request.resources.cpus && record.mem == request.resources.memory_mib
            &&& record.network == request.resources.network && record.network_backend
                == request.resources.network_backend && record.allowed_cidrs
                == request.resources.allowed_cidrs && record.dns_filter_hosts
                == request.dns_filter_hosts
            &&& record.storage_gb == request.resources.storage_gib && record.overlay_gb
                == request.resources.overlay_gib
            &&& record.gpu == Some(true) <==> request.resources.gpu
            &&& record.gpu_vram_mib == request.resources.gpu_vram_mib
            &&& record.init == request.init && record.secret_refs == request.secret_refs
                && record.ssh_agent == request.ssh_agent
            &&& record.image == detached.image && record.entrypoint == detached.entrypoint
                && record.cmd == detached.cmd && record.env == detached.env && record.workdir
                == detached.workdir && record.user == detached.user
            &&& record.mounts.len() == request.mounts.len() && record.ports.len()
                == request.ports.len()
            &&& forall|i: int|
                0 <= i < request.mounts.len() ==> #[trigger] record.mounts[i] == (
                    request.mounts[i].source,
                    request.mounts[i].target,
                    request.mounts[i].read_only,
                )
            &&& forall|i: int|
                0 <= i < request.ports.len() ==> #[trigger] record.ports[i] == (
                    request.ports[i].host,
                    request.ports[i].guest,
                )
            &&& record.restart.policy == RestartPolicy::Never
        }),
{
}

/// Law: the record of a foreground session is marked as one that lasts only as
/// long as its process, and names that process.
pub proof fn law_foreground_record_is_ephemeral(
    request: MachineRunView,
    pid: Option<i32>,
    created_at: u64,
)
    ensures
        ({
            let record = ephemeral_record(request, pid, created_at);
            &&& record.ephemeral && record.state == RecordState::Running && record.pid == pid
            &&& record.name == request.name && record.image == request.image && record.created_at
                == created_at
            &&& record.cpus == request.resources.cpus && record.mem == request.resources.memory_mib
                && record.network == request.resources.network
            &&& record.secret_refs.len() == 0
        }),
{
}

/// Law: a clone is what its golden machine is, but for its name, its process and
/// its ports, and it names the golden machine as its base.
pub proof fn law_clone_is_like_its_golden(
    golden: VmRecordView,
    golden_name: Seq<char>,
    clone_name: Seq<char>,
    ports: Seq<(u16, u16)>,
)
    ensures
        ({
            let clone = clone_of(golden, golden_name, clone_name, ports);
            &&& clone.name == clone_name && clone.golden == Some(golden_name) && clone.ports
                == ports
            &&& clone.pid is None && clone.pid_start_time is None
            &&& VmRecordView {
                name: golden.name,
                pid: golden.pid,
                pid_start_time: golden.pid_start_time,
                golden: golden.golden,
                ports: golden.ports,
                ..clone
            } == golden
        }),
{
}

/// Law: a clone has exactly the ports that were asked for. Where none were, each of
/// its ports leads to a guest port of the golden machine from a host port that was
/// found free for it, and none is left out for which one was found.
pub proof fn law_ports_of_a_clone(
    golden: VmRecordView,
    pinned: Seq<PortMapping>,
    free: Seq<Option<u16>>,
)
    ensures
        pinned.len() > 0 ==> ports_of_clone(golden, pinned, free).len() == pinned.len(),
        pinned.len() > 0 ==> forall|i: int|
            0 <= i < pinned.len() ==> #[trigger] ports_of_clone(golden, pinned, free)[i] == (
                pinned[i].host,
                pinned[i].guest,
            ),
        pinned.len() == 0 ==> forall|pair: (u16, u16)| #[trigger]
            ports_of_clone(golden, pinned, free).contains(pair) <==> exists|i: int|
                0 <= i < golden.ports.len() && i < free.len() && (#[trigger] free[i]) == Some(
                    pair.0,
                ) && golden.ports[i].1 == pair.1,
{
    if pinned.len() == 0 {
        assert forall|pair: (u16, u16)| #[trigger]
            ports_of_clone(golden, pinned, free).contains(pair) <==> exists|i: int|
                0 <= i < golden.ports.len() && i < free.len() && (#[trigger] free[i]) == Some(
                    pair.0,
                ) && golden.ports[i].1 == pair.1 by {
            lemma_paired_ports(golden.ports, free, pair);
        }
    }
}

proof fn lemma_paired_ports(ports: Seq<(u16, u16)>, free: Seq<Option<u16>>, pair: (u16, u16))
    ensures
        paired_ports(ports, free).contains(pair) <==> exists|i: int|
            0 <= i < ports.len() && i < free.len() && (#[trigger] free[i]) == Some(pair.0)
                && ports[i].1 == pair.1,
    decreases ports.len(),
{
    if ports.len() > 0 {
        let rest = ports.drop_last();
        let at = ports.len() - 1;
        let before = paired_ports(rest, free);
        let all = paired_ports(ports, free);
        lemma_paired_ports(rest, free, pair);
        let added = at < free.len() && free[at] is Some;
        if all.contains(pair) {
            let k = all.index_of(pair);
            if k < before.len() {
                assert(before[k] == pair);
                let i = choose|i: int|
                    0 <= i < rest.len() && i < free.len() && (#[trigger] free[i]) == Some(pair.0)
                        && rest[i].1 == pair.1;
                assert(ports[i] == rest[i]);
            } else {
                assert(free[at] == Some(pair.0));
            }
        }
        if exists|i: int|
            0 <= i < ports.len() && i < free.len() && (#[trigger] free[i]) == Some(pair.0)
                && ports[i].1 == pair.1 {
            let i = choose|i: int|
                0 <= i < ports.len() && i < free.len() && (#[trigger] free[i]) == Some(pair.0)
                    && ports[i].1 == pair.1;
            if i < rest.len() {
                assert(rest[i] == ports[i]);
                let k = before.index_of(pair);
                assert(all[k] == pair);
            } else {
                assert(all[before.len() as int] == pair);
            }
        }
    }
}

/// Law: the clones of a machine are exactly the machines that name it as their
/// base.
pub proof fn law_clones_name_their_base(
    machines: Seq<(Seq<char>, VmRecordView)>,
    base: Seq<char>,
    name: Seq<char>,
)
    ensures
        clones_of(machines, base).contains(name) <==> exists|i: int|
            0 <= i < machines.len() && (#[trigger] machines[i]).0 == name && machines[i].1.golden
                == Some(base),
    decreases machines.len(),
{
    if machines.len() > 0 {
        let rest = machines.drop_last();
        let before = clones_of(rest, base);
        let all = clones_of(machines, base);
        law_clones_name_their_base(rest, base, name);
        if all.contains(name) {
            let k = all.index_of(name);
            if k < before.len() {
                assert(before[k] == name);
                let i = choose|i: int|
                    0 <= i < rest.len() && (#[trigger] rest[i]).0 == name && rest[i].1.golden
                        == Some(base);
                assert(machines[i] == rest[i]);
            } else {
                assert(machines[machines.len() - 1].0 == name);
            }
        }
        if exists|i: int|
            0 <= i < machines.len() && (#[trigger] machines[i]).0 == name && machines[i].1.golden
                == Some(base) {
            let i = choose|i: int|
                0 <= i < machines.len() && (#[trigger] machines[i]).0 == name
                    && machines[i].1.golden == Some(base);
            if i < rest.len() {
                assert(rest[i] == machines[i]);
                let k = before.index_of(name);
                assert(all[k] == name);
            } else {
                assert(all[before.len() as int] == name);
            }
        }
    }
}

/// Law: the status of a machine holds its name, its record and the state that was found, and the
/// resources of a new machine are those that were asked for.
pub proof fn law_status_and_resources_are_those_given(
    name: &str,
    record: VmRecord,
    state: RecordState,
    status: MachineStatus,
    request: &CreateMachine,
    resources: VmResources,
)
    requires
        call_ensures(status_from_record, (name, record, state), status),
        call_ensures(CreateMachine::vm_resources, (request,), resources),
    ensures
        status.name@ == name@ && status.state == state && status.record.model() == record.model(),
        resources.cpus == request.cpus && resources.memory_mib == request.memory_mib
            && resources.network == request.net && resources.gpu == request.gpu
            && resources.gpu_vram_mib == request.gpu_vram_mib && resources.storage_gib
            == request.storage_gb && resources.overlay_gib == request.overlay_gb,
        resources.network_backend.model() == request.network_backend.model(),
        resources.allowed_cidrs.model() == request.allowed_cidrs.model(),
{
    assert(status.model().name == status.name@);
    assert(resources.model().cpus == resources.cpus);
}

/// Law: a new machine that is refused is refused for the first of these reasons, which is told: its
/// name, ports that are given twice, its network backend, its secrets, and the memory of its graphics
/// device.
pub proof fn law_refused_machine_tells_why(request: CreateMachineView, checks: CreateChecksView)
    ensures
        checks.name is Err ==> record_checked(request, checks) == Err::<VmRecordView, ErrorView>(
            ErrorView::Config { operation: "create machine"@, reason: checks.name->Err_0 },
        ),
        checks.name is Ok && checks.duplicates is Err ==> record_checked(request, checks) == Err::<
            VmRecordView,
            ErrorView,
        >(ErrorView::Config { operation: "create machine"@, reason: checks.duplicates->Err_0 }),
        record_checked(request, checks) is Err && checks.name is Ok && checks.duplicates is Ok
            && checks.backend is Ok ==> record_checked(request, checks)->Err_0 is Config,
        record_checked(request, checks) is Err && checks.name is Ok && checks.duplicates is Ok
            && checks.backend is Ok && request.secret_refs.len() == 0 && request.ports.len() == 0
            ==> checks.vram is Err && checks.vram->Err_0.is_suffix_of(
            record_checked(request, checks)->Err_0->Config_reason,
        ),
{
    law_secrets_are_checked_one_by_one(
        "create machine"@,
        request.secret_refs,
        ResolutionScope::TrustedLocal,
    );
    if checks.vram is Err {
        let reason = checks.vram->Err_0;
        let text = "gpu_vram: "@ + reason;
        assert(text.subrange(text.len() - reason.len(), text.len() as int) =~= reason);
    }
}

} // verus!
