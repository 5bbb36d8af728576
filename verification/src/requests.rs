//! Requests of the machine service and their results.

use crate::model::{empty_list, Model};
use crate::secrets::{ResolutionScope, SecretMap, SecretMapView};
use crate::types::{
    HostMount, HostMountView, NetworkBackend, NetworkBackendView, PortMapping, RecordState,
    ResourceDefaults, RestartPolicy, TimeSpan, VmRecord, VmRecordView, VmResources,
    VmResourcesView,
};
use vstd::prelude::*;

verus! {

/// Asks for a new machine.
#[derive(Debug, PartialEq, Eq)]
pub struct CreateMachine {
    pub name: String,
    pub image: Option<String>,
    pub entrypoint: Vec<String>,
    pub cmd: Vec<String>,
    pub cpus: u8,
    pub memory_mib: u32,
    pub mounts: Vec<HostMount>,
    pub ports: Vec<PortMapping>,
    pub net: bool,
    pub network_backend: Option<NetworkBackend>,
    pub init: Vec<String>,
    pub env: Vec<String>,
    pub workdir: Option<String>,
    pub user: Option<String>,
    pub storage_gb: Option<u64>,
    pub overlay_gb: Option<u64>,
    pub allowed_cidrs: Option<Vec<String>>,
    pub restart_policy: Option<RestartPolicy>,
    pub restart_max_retries: Option<u32>,
    pub restart_max_backoff_secs: Option<u64>,
    pub health_cmd: Option<Vec<String>>,
    pub health_interval_secs: Option<u64>,
    pub health_timeout_secs: Option<u64>,
    pub health_retries: Option<u32>,
    pub health_startup_grace_secs: Option<u64>,
    pub ssh_agent: bool,
    pub gpu: bool,
    pub gpu_vram_mib: Option<u32>,
    pub dns_filter_hosts: Option<Vec<String>>,
    pub source_smolmachine: Option<String>,
    pub secret_refs: SecretMap,
}

/// Mathematical model of a [`CreateMachine`].
pub struct CreateMachineView {
    pub name: Seq<char>,
    pub image: Option<Seq<char>>,
    pub entrypoint: Seq<Seq<char>>,
    pub cmd: Seq<Seq<char>>,
    pub cpus: u8,
    pub memory_mib: u32,
    pub mounts: Seq<HostMountView>,
    pub ports: Seq<PortMapping>,
    pub net: bool,
    pub network_backend: Option<NetworkBackendView>,
    pub init: Seq<Seq<char>>,
    pub env: Seq<Seq<char>>,
    pub workdir: Option<Seq<char>>,
    pub user: Option<Seq<char>>,
    pub storage_gb: Option<u64>,
    pub overlay_gb: Option<u64>,
    pub allowed_cidrs: Option<Seq<Seq<char>>>,
    pub restart_policy: Option<RestartPolicy>,
    pub restart_max_retries: Option<u32>,
    pub restart_max_backoff_secs: Option<u64>,
    pub health_cmd: Option<Seq<Seq<char>>>,
    pub health_interval_secs: Option<u64>,
    pub health_timeout_secs: Option<u64>,
    pub health_retries: Option<u32>,
    pub health_startup_grace_secs: Option<u64>,
    pub ssh_agent: bool,
    pub gpu: bool,
    pub gpu_vram_mib: Option<u32>,
    pub dns_filter_hosts: Option<Seq<Seq<char>>>,
    pub source_smolmachine: Option<Seq<char>>,
    pub secret_refs: SecretMapView,
}

impl Model for CreateMachine {
    type V = CreateMachineView;

    open spec fn model(&self) -> CreateMachineView {
        CreateMachineView {
            name: self.name.model(),
            image: self.image.model(),
            entrypoint: self.entrypoint.model(),
            cmd: self.cmd.model(),
            cpus: self.cpus.model(),
            memory_mib: self.memory_mib.model(),
            mounts: self.mounts.model(),
            ports: self.ports.model(),
            net: self.net.model(),
            network_backend: self.network_backend.model(),
            init: self.init.model(),
            env: self.env.model(),
            workdir: self.workdir.model(),
            user: self.user.model(),
            storage_gb: self.storage_gb.model(),
            overlay_gb: self.overlay_gb.model(),
            allowed_cidrs: self.allowed_cidrs.model(),
            restart_policy: self.restart_policy.model(),
            restart_max_retries: self.restart_max_retries.model(),
            restart_max_backoff_secs: self.restart_max_backoff_secs.model(),
            health_cmd: self.health_cmd.model(),
            health_interval_secs: self.health_interval_secs.model(),
            health_timeout_secs: self.health_timeout_secs.model(),
            health_retries: self.health_retries.model(),
            health_startup_grace_secs: self.health_startup_grace_secs.model(),
            ssh_agent: self.ssh_agent.model(),
            gpu: self.gpu.model(),
            gpu_vram_mib: self.gpu_vram_mib.model(),
            dns_filter_hosts: self.dns_filter_hosts.model(),
            source_smolmachine: self.source_smolmachine.model(),
            secret_refs: self.secret_refs.model(),
        }
    }

    fn dup(&self) -> (copy: Self) {
        CreateMachine {
            name: self.name.dup(),
            image: self.image.dup(),
            entrypoint: self.entrypoint.dup(),
            cmd: self.cmd.dup(),
            cpus: self.cpus.dup(),
            memory_mib: self.memory_mib.dup(),
            mounts: self.mounts.dup(),
            ports: self.ports.dup(),
            net: self.net.dup(),
            network_backend: self.network_backend.dup(),
            init: self.init.dup(),
            env: self.env.dup(),
            workdir: self.workdir.dup(),
            user: self.user.dup(),
            storage_gb: self.storage_gb.dup(),
            overlay_gb: self.overlay_gb.dup(),
            allowed_cidrs: self.allowed_cidrs.dup(),
            restart_policy: self.restart_policy.dup(),
            restart_max_retries: self.restart_max_retries.dup(),
            restart_max_backoff_secs: self.restart_max_backoff_secs.dup(),
            health_cmd: self.health_cmd.dup(),
            health_interval_secs: self.health_interval_secs.dup(),
            health_timeout_secs: self.health_timeout_secs.dup(),
            health_retries: self.health_retries.dup(),
            health_startup_grace_secs: self.health_startup_grace_secs.dup(),
            ssh_agent: self.ssh_agent.dup(),
            gpu: self.gpu.dup(),
            gpu_vram_mib: self.gpu_vram_mib.dup(),
            dns_filter_hosts: self.dns_filter_hosts.dup(),
            source_smolmachine: self.source_smolmachine.dup(),
            secret_refs: self.secret_refs.dup(),
        }
    }
}

impl CreateMachine {
    /// A request with every optional setting left at its default.
    pub fn new(name: String, defaults: &ResourceDefaults) -> (request: CreateMachine)
        ensures
            request.model() == (CreateMachineView {
                name: name@,
                image: None,
                entrypoint: Seq::empty(),
                cmd: Seq::empty(),
                cpus: defaults.cpus,
                memory_mib: defaults.memory_mib,
                mounts: Seq::empty(),
                ports: Seq::empty(),
                net: false,
                network_backend: None,
                init: Seq::empty(),
                env: Seq::empty(),
                workdir: None,
                user: None,
                storage_gb: Some(defaults.storage_gib),
                overlay_gb: Some(defaults.overlay_gib),
                allowed_cidrs: None,
                restart_policy: None,
                restart_max_retries: None,
                restart_max_backoff_secs: None,
                health_cmd: None,
                health_interval_secs: None,
                health_timeout_secs: None,
                health_retries: None,
                health_startup_grace_secs: None,
                ssh_agent: false,
                gpu: false,
                gpu_vram_mib: None,
                dns_filter_hosts: None,
                source_smolmachine: None,
                secret_refs: Seq::empty(),
            }),
    {
        CreateMachine {
            name,
            image: None,
            entrypoint: empty_list(),
            cmd: empty_list(),
            cpus: defaults.cpus,
            memory_mib: defaults.memory_mib,
            mounts: empty_list(),
            ports: empty_list(),
            net: false,
            network_backend: None,
            init: empty_list(),
            env: empty_list(),
            workdir: None,
            user: None,
            storage_gb: Some(defaults.storage_gib),
            overlay_gb: Some(defaults.overlay_gib),
            allowed_cidrs: None,
            restart_policy: None,
            restart_max_retries: None,
            restart_max_backoff_secs: None,
            health_cmd: None,
            health_interval_secs: None,
            health_timeout_secs: None,
            health_retries: None,
            health_startup_grace_secs: None,
            ssh_agent: false,
            gpu: false,
            gpu_vram_mib: None,
            dns_filter_hosts: None,
            source_smolmachine: None,
            secret_refs: SecretMap::new(),
        }
    }
}

/// Asks for the status of a machine.
#[derive(Debug, PartialEq, Eq)]
pub struct GetMachine {
    pub name: String,
}

/// Mathematical model of a [`GetMachine`].
pub struct GetMachineView {
    pub name: Seq<char>,
}

impl Model for GetMachine {
    type V = GetMachineView;

    open spec fn model(&self) -> GetMachineView {
        GetMachineView {
            name: self.name.model(),
        }
    }

    fn dup(&self) -> (copy: Self) {
        GetMachine {
            name: self.name.dup(),
        }
    }
}

impl GetMachine {
    /// A request with every optional setting left at its default.
    pub fn new(name: String) -> (request: GetMachine)
        ensures
            request.model() == (GetMachineView {
                name: name@,
            }),
    {
        GetMachine {
            name,
        }
    }
}

/// Asks to start a machine.
#[derive(Debug, PartialEq, Eq)]
pub struct StartMachine {
    pub name: String,
    pub forkable: bool,
    pub proxy: Option<String>,
    pub no_proxy: Option<String>,
    pub snapshot_dir: Option<String>,
}

/// Mathematical model of a [`StartMachine`].
pub struct StartMachineView {
    pub name: Seq<char>,
    pub forkable: bool,
    pub proxy: Option<Seq<char>>,
    pub no_proxy: Option<Seq<char>>,
    pub snapshot_dir: Option<Seq<char>>,
}

impl Model for StartMachine {
    type V = StartMachineView;

    open spec fn model(&self) -> StartMachineView {
        StartMachineView {
            name: self.name.model(),
            forkable: self.forkable.model(),
            proxy: self.proxy.model(),
            no_proxy: self.no_proxy.model(),
            snapshot_dir: self.snapshot_dir.model(),
        }
    }

    fn dup(&self) -> (copy: Self) {
        StartMachine {
            name: self.name.dup(),
            forkable: self.forkable.dup(),
            proxy: self.proxy.dup(),
            no_proxy: self.no_proxy.dup(),
            snapshot_dir: self.snapshot_dir.dup(),
        }
    }
}

impl StartMachine {
    /// A request with every optional setting left at its default.
    pub fn new(name: String) -> (request: StartMachine)
        ensures
            request.model() == (StartMachineView {
                name: name@,
                forkable: false,
                proxy: None,
                no_proxy: None,
                snapshot_dir: None,
            }),
    {
        StartMachine {
            name,
            forkable: false,
            proxy: None,
            no_proxy: None,
            snapshot_dir: None,
        }
    }
}

/// Asks to stop a machine.
#[derive(Debug, PartialEq, Eq)]
pub struct StopMachine {
    pub name: String,
}

/// Mathematical model of a [`StopMachine`].
pub struct StopMachineView {
    pub name: Seq<char>,
}

impl Model for StopMachine {
    type V = StopMachineView;

    open spec fn model(&self) -> StopMachineView {
        StopMachineView {
            name: self.name.model(),
        }
    }

    fn dup(&self) -> (copy: Self) {
        StopMachine {
            name: self.name.dup(),
        }
    }
}

impl StopMachine {
    /// A request with every optional setting left at its default.
    pub fn new(name: String) -> (request: StopMachine)
        ensures
            request.model() == (StopMachineView {
                name: name@,
            }),
    {
        StopMachine {
            name,
        }
    }
}

/// Asks to delete a machine, with its data unless that is to be kept.
#[derive(Debug, PartialEq, Eq)]
pub struct DeleteMachine {
    pub name: String,
    pub break_dependent_clones: bool,
    pub keep_data: bool,
}

/// Mathematical model of a [`DeleteMachine`].
pub struct DeleteMachineView {
    pub name: Seq<char>,
    pub break_dependent_clones: bool,
    pub keep_data: bool,
}

impl Model for DeleteMachine {
    type V = DeleteMachineView;

    open spec fn model(&self) -> DeleteMachineView {
        DeleteMachineView {
            name: self.name.model(),
            break_dependent_clones: self.break_dependent_clones.model(),
            keep_data: self.keep_data.model(),
        }
    }

    fn dup(&self) -> (copy: Self) {
        DeleteMachine {
            name: self.name.dup(),
            break_dependent_clones: self.break_dependent_clones.dup(),
            keep_data: self.keep_data.dup(),
        }
    }
}

impl DeleteMachine {
    /// A request with every optional setting left at its default.
    pub fn new(name: String) -> (request: DeleteMachine)
        ensures
            request.model() == (DeleteMachineView {
                name: name@,
                break_dependent_clones: false,
                keep_data: false,
            }),
    {
        DeleteMachine {
            name,
            break_dependent_clones: false,
            keep_data: false,
        }
    }
}

/// Asks for a clone of a running machine.
#[derive(Debug, PartialEq, Eq)]
pub struct ForkMachine {
    pub golden: String,
    pub clone: String,
    pub ports: Vec<PortMapping>,
}

/// Mathematical model of a [`ForkMachine`].
pub struct ForkMachineView {
    pub golden: Seq<char>,
    pub clone: Seq<char>,
    pub ports: Seq<PortMapping>,
}

impl Model for ForkMachine {
    type V = ForkMachineView;

    open spec fn model(&self) -> ForkMachineView {
        ForkMachineView {
            golden: self.golden.model(),
            clone: self.clone.model(),
            ports: self.ports.model(),
        }
    }

    fn dup(&self) -> (copy: Self) {
        ForkMachine {
            golden: self.golden.dup(),
            clone: self.clone.dup(),
            ports: self.ports.dup(),
        }
    }
}

impl ForkMachine {
    /// A request with every optional setting left at its default.
    pub fn new(golden: String, clone: String) -> (request: ForkMachine)
        ensures
            request.model() == (ForkMachineView {
                golden: golden@,
                clone: clone@,
                ports: Seq::empty(),
            }),
    {
        ForkMachine {
            golden,
            clone,
            ports: empty_list(),
        }
    }
}

/// A machine and the state it is in.
#[derive(Debug, PartialEq, Eq)]
pub struct MachineStatus {
    pub name: String,
    pub state: RecordState,
    pub record: VmRecord,
}

/// Mathematical model of a [`MachineStatus`].
pub struct MachineStatusView {
    pub name: Seq<char>,
    pub state: RecordState,
    pub record: VmRecordView,
}

impl Model for MachineStatus {
    type V = MachineStatusView;

    open spec fn model(&self) -> MachineStatusView {
        MachineStatusView {
            name: self.name.model(),
            state: self.state.model(),
            record: self.record.model(),
        }
    }

    fn dup(&self) -> (copy: Self) {
        MachineStatus {
            name: self.name.dup(),
            state: self.state.dup(),
            record: self.record.dup(),
        }
    }
}

/// Asks to change the settings of a stopped machine.
#[derive(Debug, PartialEq, Eq)]
pub struct UpdateMachine {
    pub name: String,
    pub add_mounts: Vec<HostMount>,
    pub remove_mounts: Vec<HostMount>,
    pub add_ports: Vec<PortMapping>,
    pub remove_ports: Vec<PortMapping>,
    pub cpus: Option<u8>,
    pub memory_mib: Option<u32>,
    pub enable_network: bool,
    pub disable_network: bool,
    pub network_backend: Option<NetworkBackend>,
    pub allowed_cidrs: Option<Vec<String>>,
    pub clear_allowed_cidrs: bool,
    pub dns_filter_hosts: Option<Vec<String>>,
    pub clear_dns_filter_hosts: bool,
    pub set_env: Vec<(String, String)>,
    pub remove_env: Vec<String>,
    pub workdir: Option<String>,
    pub clear_workdir: bool,
    pub enable_gpu: bool,
    pub disable_gpu: bool,
    pub gpu_vram_mib: Option<u32>,
    pub storage_gb: Option<u64>,
    pub overlay_gb: Option<u64>,
    pub restart_policy: Option<RestartPolicy>,
    pub restart_max_retries: Option<u32>,
    pub restart_max_backoff_secs: Option<u64>,
    pub health_cmd: Option<Vec<String>>,
    pub clear_health_cmd: bool,
    pub health_interval_secs: Option<u64>,
    pub health_timeout_secs: Option<u64>,
    pub health_retries: Option<u32>,
    pub health_startup_grace_secs: Option<u64>,
    pub enable_ssh_agent: bool,
    pub disable_ssh_agent: bool,
}

/// Mathematical model of a [`UpdateMachine`].
pub struct UpdateMachineView {
    pub name: Seq<char>,
    pub add_mounts: Seq<HostMountView>,
    pub remove_mounts: Seq<HostMountView>,
    pub add_ports: Seq<PortMapping>,
    pub remove_ports: Seq<PortMapping>,
    pub cpus: Option<u8>,
    pub memory_mib: Option<u32>,
    pub enable_network: bool,
    pub disable_network: bool,
    pub network_backend: Option<NetworkBackendView>,
    pub allowed_cidrs: Option<Seq<Seq<char>>>,
    pub clear_allowed_cidrs: bool,
    pub dns_filter_hosts: Option<Seq<Seq<char>>>,
    pub clear_dns_filter_hosts: bool,
    pub set_env: Seq<(Seq<char>, Seq<char>)>,
    pub remove_env: Seq<Seq<char>>,
    pub workdir: Option<Seq<char>>,
    pub clear_workdir: bool,
    pub enable_gpu: bool,
    pub disable_gpu: bool,
    pub gpu_vram_mib: Option<u32>,
    pub storage_gb: Option<u64>,
    pub overlay_gb: Option<u64>,
    pub restart_policy: Option<RestartPolicy>,
    pub restart_max_retries: Option<u32>,
    pub restart_max_backoff_secs: Option<u64>,
    pub health_cmd: Option<Seq<Seq<char>>>,
    pub clear_health_cmd: bool,
    pub health_interval_secs: Option<u64>,
    pub health_timeout_secs: Option<u64>,
    pub health_retries: Option<u32>,
    pub health_startup_grace_secs: Option<u64>,
    pub enable_ssh_agent: bool,
    pub disable_ssh_agent: bool,
}

impl Model for UpdateMachine {
    type V = UpdateMachineView;

    open spec fn model(&self) -> UpdateMachineView {
        UpdateMachineView {
            name: self.name.model(),
            add_mounts: self.add_mounts.model(),
            remove_mounts: self.remove_mounts.model(),
            add_ports: self.add_ports.model(),
            remove_ports: self.remove_ports.model(),
            cpus: self.cpus.model(),
            memory_mib: self.memory_mib.model(),
            enable_network: self.enable_network.model(),
            disable_network: self.disable_network.model(),
            network_backend: self.network_backend.model(),
            allowed_cidrs: self.allowed_cidrs.model(),
            clear_allowed_cidrs: self.clear_allowed_cidrs.model(),
            dns_filter_hosts: self.dns_filter_hosts.model(),
            clear_dns_filter_hosts: self.clear_dns_filter_hosts.model(),
            set_env: self.set_env.model(),
            remove_env: self.remove_env.model(),
            workdir: self.workdir.model(),
            clear_workdir: self.clear_workdir.model(),
            enable_gpu: self.enable_gpu.model(),
            disable_gpu: self.disable_gpu.model(),
            gpu_vram_mib: self.gpu_vram_mib.model(),
            storage_gb: self.storage_gb.model(),
            overlay_gb: self.overlay_gb.model(),
            restart_policy: self.restart_policy.model(),
            restart_max_retries: self.restart_max_retries.model(),
            restart_max_backoff_secs: self.restart_max_backoff_secs.model(),
            health_cmd: self.health_cmd.model(),
            clear_health_cmd: self.clear_health_cmd.model(),
            health_interval_secs: self.health_interval_secs.model(),
            health_timeout_secs: self.health_timeout_secs.model(),
            health_retries: self.health_retries.model(),
            health_startup_grace_secs: self.health_startup_grace_secs.model(),
            enable_ssh_agent: self.enable_ssh_agent.model(),
            disable_ssh_agent: self.disable_ssh_agent.model(),
        }
    }

    fn dup(&self) -> (copy: Self) {
        UpdateMachine {
            name: self.name.dup(),
            add_mounts: self.add_mounts.dup(),
            remove_mounts: self.remove_mounts.dup(),
            add_ports: self.add_ports.dup(),
            remove_ports: self.remove_ports.dup(),
            cpus: self.cpus.dup(),
            memory_mib: self.memory_mib.dup(),
            enable_network: self.enable_network.dup(),
            disable_network: self.disable_network.dup(),
            network_backend: self.network_backend.dup(),
            allowed_cidrs: self.allowed_cidrs.dup(),
            clear_allowed_cidrs: self.clear_allowed_cidrs.dup(),
            dns_filter_hosts: self.dns_filter_hosts.dup(),
            clear_dns_filter_hosts: self.clear_dns_filter_hosts.dup(),
            set_env: self.set_env.dup(),
            remove_env: self.remove_env.dup(),
            workdir: self.workdir.dup(),
            clear_workdir: self.clear_workdir.dup(),
            enable_gpu: self.enable_gpu.dup(),
            disable_gpu: self.disable_gpu.dup(),
            gpu_vram_mib: self.gpu_vram_mib.dup(),
            storage_gb: self.storage_gb.dup(),
            overlay_gb: self.overlay_gb.dup(),
            restart_policy: self.restart_policy.dup(),
            restart_max_retries: self.restart_max_retries.dup(),
            restart_max_backoff_secs: self.restart_max_backoff_secs.dup(),
            health_cmd: self.health_cmd.dup(),
            clear_health_cmd: self.clear_health_cmd.dup(),
            health_interval_secs: self.health_interval_secs.dup(),
            health_timeout_secs: self.health_timeout_secs.dup(),
            health_retries: self.health_retries.dup(),
            health_startup_grace_secs: self.health_startup_grace_secs.dup(),
            enable_ssh_agent: self.enable_ssh_agent.dup(),
            disable_ssh_agent: self.disable_ssh_agent.dup(),
        }
    }
}

impl UpdateMachine {
    /// A request with every optional setting left at its default.
    pub fn new(name: String) -> (request: UpdateMachine)
        ensures
            request.model() == (UpdateMachineView {
                name: name@,
                add_mounts: Seq::empty(),
                remove_mounts: Seq::empty(),
                add_ports: Seq::empty(),
                remove_ports: Seq::empty(),
                cpus: None,
                memory_mib: None,
                enable_network: false,
                disable_network: false,
                network_backend: None,
                allowed_cidrs: None,
                clear_allowed_cidrs: false,
                dns_filter_hosts: None,
                clear_dns_filter_hosts: false,
                set_env: Seq::empty(),
                remove_env: Seq::empty(),
                workdir: None,
                clear_workdir: false,
                enable_gpu: false,
                disable_gpu: false,
                gpu_vram_mib: None,
                storage_gb: None,
                overlay_gb: None,
                restart_policy: None,
                restart_max_retries: None,
                restart_max_backoff_secs: None,
                health_cmd: None,
                clear_health_cmd: false,
                health_interval_secs: None,
                health_timeout_secs: None,
                health_retries: None,
                health_startup_grace_secs: None,
                enable_ssh_agent: false,
                disable_ssh_agent: false,
            }),
    {
        UpdateMachine {
            name,
            add_mounts: empty_list(),
            remove_mounts: empty_list(),
            add_ports: empty_list(),
            remove_ports: empty_list(),
            cpus: None,
            memory_mib: None,
            enable_network: false,
            disable_network: false,
            network_backend: None,
            allowed_cidrs: None,
            clear_allowed_cidrs: false,
            dns_filter_hosts: None,
            clear_dns_filter_hosts: false,
            set_env: empty_list(),
            remove_env: empty_list(),
            workdir: None,
            clear_workdir: false,
            enable_gpu: false,
            disable_gpu: false,
            gpu_vram_mib: None,
            storage_gb: None,
            overlay_gb: None,
            restart_policy: None,
            restart_max_retries: None,
            restart_max_backoff_secs: None,
            health_cmd: None,
            clear_health_cmd: false,
            health_interval_secs: None,
            health_timeout_secs: None,
            health_retries: None,
            health_startup_grace_secs: None,
            enable_ssh_agent: false,
            disable_ssh_agent: false,
        }
    }
}

/// The machine after an update, and what changed.
#[derive(Debug, PartialEq, Eq)]
pub struct UpdateResult {
    pub status: MachineStatus,
    pub changes: Vec<String>,
}

/// Mathematical model of a [`UpdateResult`].
pub struct UpdateResultView {
    pub status: MachineStatusView,
    pub changes: Seq<Seq<char>>,
}

impl Model for UpdateResult {
    type V = UpdateResultView;

    open spec fn model(&self) -> UpdateResultView {
        UpdateResultView {
            status: self.status.model(),
            changes: self.changes.model(),
        }
    }

    fn dup(&self) -> (copy: Self) {
        UpdateResult {
            status: self.status.dup(),
            changes: self.changes.dup(),
        }
    }
}

/// Asks to run a command in a machine.
#[derive(Debug, PartialEq, Eq)]
pub struct ExecMachine {
    pub name: String,
    pub command: Vec<String>,
    pub env: Vec<(String, String)>,
    pub secret_refs: SecretMap,
    pub secret_scope: ResolutionScope,
    pub workdir: Option<String>,
    pub timeout: Option<TimeSpan>,
    pub stdin: Option<String>,
    pub background: bool,
    pub tty: bool,
    pub start_if_needed: bool,
    pub include_record_env: bool,
    pub trace_id: Option<String>,
}

/// Mathematical model of a [`ExecMachine`].
pub struct ExecMachineView {
    pub name: Seq<char>,
    pub command: Seq<Seq<char>>,
    pub env: Seq<(Seq<char>, Seq<char>)>,
    pub secret_refs: SecretMapView,
    pub secret_scope: ResolutionScope,
    pub workdir: Option<Seq<char>>,
    pub timeout: Option<TimeSpan>,
    pub stdin: Option<Seq<char>>,
    pub background: bool,
    pub tty: bool,
    pub start_if_needed: bool,
    pub include_record_env: bool,
    pub trace_id: Option<Seq<char>>,
}

impl Model for ExecMachine {
    type V = ExecMachineView;

    open spec fn model(&self) -> ExecMachineView {
        ExecMachineView {
            name: self.name.model(),
            command: self.command.model(),
            env: self.env.model(),
            secret_refs: self.secret_refs.model(),
            secret_scope: self.secret_scope.model(),
            workdir: self.workdir.model(),
            timeout: self.timeout.model(),
            stdin: self.stdin.model(),
            background: self.background.model(),
            tty: self.tty.model(),
            start_if_needed: self.start_if_needed.model(),
            include_record_env: self.include_record_env.model(),
            trace_id: self.trace_id.model(),
        }
    }

    fn dup(&self) -> (copy: Self) {
        ExecMachine {
            name: self.name.dup(),
            command: self.command.dup(),
            env: self.env.dup(),
            secret_refs: self.secret_refs.dup(),
            secret_scope: self.secret_scope.dup(),
            workdir: self.workdir.dup(),
            timeout: self.timeout.dup(),
            stdin: self.stdin.dup(),
            background: self.background.dup(),
            tty: self.tty.dup(),
            start_if_needed: self.start_if_needed.dup(),
            include_record_env: self.include_record_env.dup(),
            trace_id: self.trace_id.dup(),
        }
    }
}

impl ExecMachine {
    /// A request with every optional setting left at its default.
    pub fn new(name: String, command: Vec<String>) -> (request: ExecMachine)
        ensures
            request.model() == (ExecMachineView {
                name: name@,
                command: command.model(),
                env: Seq::empty(),
                secret_refs: Seq::empty(),
                secret_scope: ResolutionScope::TrustedLocal,
                workdir: None,
                timeout: None,
                stdin: None,
                background: false,
                tty: false,
                start_if_needed: false,
                include_record_env: true,
                trace_id: None,
            }),
    {
        ExecMachine {
            name,
            command,
            env: empty_list(),
            secret_refs: SecretMap::new(),
            secret_scope: ResolutionScope::TrustedLocal,
            workdir: None,
            timeout: None,
            stdin: None,
            background: false,
            tty: false,
            start_if_needed: false,
            include_record_env: true,
            trace_id: None,
        }
    }
}

/// Asks to run a command in a container of an image.
#[derive(Debug, PartialEq, Eq)]
pub struct RunMachine {
    pub name: String,
    pub image: String,
    pub command: Vec<String>,
    pub env: Vec<(String, String)>,
    pub secret_refs: SecretMap,
    pub secret_scope: ResolutionScope,
    pub workdir: Option<String>,
    pub timeout: Option<TimeSpan>,
    pub persistent_overlay_id: Option<String>,
    pub start_if_needed: bool,
    pub trace_id: Option<String>,
}

/// Mathematical model of a [`RunMachine`].
pub struct RunMachineView {
    pub name: Seq<char>,
    pub image: Seq<char>,
    pub command: Seq<Seq<char>>,
    pub env: Seq<(Seq<char>, Seq<char>)>,
    pub secret_refs: SecretMapView,
    pub secret_scope: ResolutionScope,
    pub workdir: Option<Seq<char>>,
    pub timeout: Option<TimeSpan>,
    pub persistent_overlay_id: Option<Seq<char>>,
    pub start_if_needed: bool,
    pub trace_id: Option<Seq<char>>,
}

impl Model for RunMachine {
    type V = RunMachineView;

    open spec fn model(&self) -> RunMachineView {
        RunMachineView {
            name: self.name.model(),
            image: self.image.model(),
            command: self.command.model(),
            env: self.env.model(),
            secret_refs: self.secret_refs.model(),
            secret_scope: self.secret_scope.model(),
            workdir: self.workdir.model(),
            timeout: self.timeout.model(),
            persistent_overlay_id: self.persistent_overlay_id.model(),
            start_if_needed: self.start_if_needed.model(),
            trace_id: self.trace_id.model(),
        }
    }

    fn dup(&self) -> (copy: Self) {
        RunMachine {
            name: self.name.dup(),
            image: self.image.dup(),
            command: self.command.dup(),
            env: self.env.dup(),
            secret_refs: self.secret_refs.dup(),
            secret_scope: self.secret_scope.dup(),
            workdir: self.workdir.dup(),
            timeout: self.timeout.dup(),
            persistent_overlay_id: self.persistent_overlay_id.dup(),
            start_if_needed: self.start_if_needed.dup(),
            trace_id: self.trace_id.dup(),
        }
    }
}

impl RunMachine {
    /// A request with every optional setting left at its default.
    pub fn new(name: String, image: String, command: Vec<String>) -> (request: RunMachine)
        ensures
            request.model() == (RunMachineView {
                name: name@,
                image: image@,
                command: command.model(),
                env: Seq::empty(),
                secret_refs: Seq::empty(),
                secret_scope: ResolutionScope::TrustedLocal,
                workdir: None,
                timeout: None,
                persistent_overlay_id: None,
                start_if_needed: false,
                trace_id: None,
            }),
    {
        RunMachine {
            name,
            image,
            command,
            env: empty_list(),
            secret_refs: SecretMap::new(),
            secret_scope: ResolutionScope::TrustedLocal,
            workdir: None,
            timeout: None,
            persistent_overlay_id: None,
            start_if_needed: false,
            trace_id: None,
        }
    }
}

/// A run session is about to start its machine.
#[derive(Debug, PartialEq, Eq)]
pub struct MachineRunStarting {
    pub name: String,
    pub detached: bool,
}

/// Mathematical model of a [`MachineRunStarting`].
pub struct MachineRunStartingView {
    pub name: Seq<char>,
    pub detached: bool,
}

impl Model for MachineRunStarting {
    type V = MachineRunStartingView;

    open spec fn model(&self) -> MachineRunStartingView {
        MachineRunStartingView {
            name: self.name.model(),
            detached: self.detached.model(),
        }
    }

    fn dup(&self) -> (copy: Self) {
        MachineRunStarting {
            name: self.name.dup(),
            detached: self.detached.dup(),
        }
    }
}

/// Progress of an image pull.
#[derive(Debug, PartialEq, Eq)]
pub struct MachineRunPullProgress {
    pub image: String,
    pub current: usize,
    pub total: usize,
    pub layer: String,
}

/// Mathematical model of a [`MachineRunPullProgress`].
pub struct MachineRunPullProgressView {
    pub image: Seq<char>,
    pub current: usize,
    pub total: usize,
    pub layer: Seq<char>,
}

impl Model for MachineRunPullProgress {
    type V = MachineRunPullProgressView;

    open spec fn model(&self) -> MachineRunPullProgressView {
        MachineRunPullProgressView {
            image: self.image.model(),
            current: self.current.model(),
            total: self.total.model(),
            layer: self.layer.model(),
        }
    }

    fn dup(&self) -> (copy: Self) {
        MachineRunPullProgress {
            image: self.image.dup(),
            current: self.current.dup(),
            total: self.total.dup(),
            layer: self.layer.dup(),
        }
    }
}

/// Asks for a run session: a machine started for one command.
#[derive(Debug, PartialEq, Eq)]
pub struct MachineRun {
    pub name: String,
    pub detached: bool,
    pub allow_existing_record: bool,
    pub image: Option<String>,
    pub command: Vec<String>,
    pub entrypoint: Vec<String>,
    pub cmd: Vec<String>,
    pub env: Vec<(String, String)>,
    pub secret_refs: SecretMap,
    pub secret_scope: ResolutionScope,
    pub workdir: Option<String>,
    pub user: Option<String>,
    pub mounts: Vec<HostMount>,
    pub ports: Vec<PortMapping>,
    pub resources: VmResources,
    pub init: Vec<String>,
    pub ssh_agent: bool,
    pub dns_filter_hosts: Option<Vec<String>>,
    pub oci_platform: Option<String>,
    pub proxy: Option<String>,
    pub no_proxy: Option<String>,
    pub timeout: Option<TimeSpan>,
    pub interactive: bool,
    pub tty: bool,
    pub kill_on_sigint: bool,
}

/// Mathematical model of a [`MachineRun`].
pub struct MachineRunView {
    pub name: Seq<char>,
    pub detached: bool,
    pub allow_existing_record: bool,
    pub image: Option<Seq<char>>,
    pub command: Seq<Seq<char>>,
    pub entrypoint: Seq<Seq<char>>,
    pub cmd: Seq<Seq<char>>,
    pub env: Seq<(Seq<char>, Seq<char>)>,
    pub secret_refs: SecretMapView,
    pub secret_scope: ResolutionScope,
    pub workdir: Option<Seq<char>>,
    pub user: Option<Seq<char>>,
    pub mounts: Seq<HostMountView>,
    pub ports: Seq<PortMapping>,
    pub resources: VmResourcesView,
    pub init: Seq<Seq<char>>,
    pub ssh_agent: bool,
    pub dns_filter_hosts: Option<Seq<Seq<char>>>,
    pub oci_platform: Option<Seq<char>>,
    pub proxy: Option<Seq<char>>,
    pub no_proxy: Option<Seq<char>>,
    pub timeout: Option<TimeSpan>,
    pub interactive: bool,
    pub tty: bool,
    pub kill_on_sigint: bool,
}

impl Model for MachineRun {
    type V = MachineRunView;

    open spec fn model(&self) -> MachineRunView {
        MachineRunView {
            name: self.name.model(),
            detached: self.detached.model(),
            allow_existing_record: self.allow_existing_record.model(),
            image: self.image.model(),
            command: self.command.model(),
            entrypoint: self.entrypoint.model(),
            cmd: self.cmd.model(),
            env: self.env.model(),
            secret_refs: self.secret_refs.model(),
            secret_scope: self.secret_scope.model(),
            workdir: self.workdir.model(),
            user: self.user.model(),
            mounts: self.mounts.model(),
            ports: self.ports.model(),
            resources: self.resources.model(),
            init: self.init.model(),
            ssh_agent: self.ssh_agent.model(),
            dns_filter_hosts: self.dns_filter_hosts.model(),
            oci_platform: self.oci_platform.model(),
            proxy: self.proxy.model(),
            no_proxy: self.no_proxy.model(),
            timeout: self.timeout.model(),
            interactive: self.interactive.model(),
            tty: self.tty.model(),
            kill_on_sigint: self.kill_on_sigint.model(),
        }
    }

    fn dup(&self) -> (copy: Self) {
        MachineRun {
            name: self.name.dup(),
            detached: self.detached.dup(),
            allow_existing_record: self.allow_existing_record.dup(),
            image: self.image.dup(),
            command: self.command.dup(),
            entrypoint: self.entrypoint.dup(),
            cmd: self.cmd.dup(),
            env: self.env.dup(),
            secret_refs: self.secret_refs.dup(),
            secret_scope: self.secret_scope.dup(),
            workdir: self.workdir.dup(),
            user: self.user.dup(),
            mounts: self.mounts.dup(),
            ports: self.ports.dup(),
            resources: self.resources.dup(),
            init: self.init.dup(),
            ssh_agent: self.ssh_agent.dup(),
            dns_filter_hosts: self.dns_filter_hosts.dup(),
            oci_platform: self.oci_platform.dup(),
            proxy: self.proxy.dup(),
            no_proxy: self.no_proxy.dup(),
            timeout: self.timeout.dup(),
            interactive: self.interactive.dup(),
            tty: self.tty.dup(),
            kill_on_sigint: self.kill_on_sigint.dup(),
        }
    }
}

impl MachineRun {
    /// A request with every optional setting left at its default.
    pub fn new(name: String, resources: VmResources) -> (request: MachineRun)
        ensures
            request.model() == (MachineRunView {
                name: name@,
                detached: false,
                allow_existing_record: false,
                image: None,
                command: Seq::empty(),
                entrypoint: Seq::empty(),
                cmd: Seq::empty(),
                env: Seq::empty(),
                secret_refs: Seq::empty(),
                secret_scope: ResolutionScope::TrustedLocal,
                workdir: None,
                user: None,
                mounts: Seq::empty(),
                ports: Seq::empty(),
                resources: resources.model(),
                init: Seq::empty(),
                ssh_agent: false,
                dns_filter_hosts: None,
                oci_platform: None,
                proxy: None,
                no_proxy: None,
                timeout: None,
                interactive: false,
                tty: false,
                kill_on_sigint: false,
            }),
    {
        MachineRun {
            name,
            detached: false,
            allow_existing_record: false,
            image: None,
            command: empty_list(),
            entrypoint: empty_list(),
            cmd: empty_list(),
            env: empty_list(),
            secret_refs: SecretMap::new(),
            secret_scope: ResolutionScope::TrustedLocal,
            workdir: None,
            user: None,
            mounts: empty_list(),
            ports: empty_list(),
            resources,
            init: empty_list(),
            ssh_agent: false,
            dns_filter_hosts: None,
            oci_platform: None,
            proxy: None,
            no_proxy: None,
            timeout: None,
            interactive: false,
            tty: false,
            kill_on_sigint: false,
        }
    }
}

/// How the health of a watched machine is checked.
#[derive(Debug, PartialEq, Eq)]
pub struct MonitorHealthConfig {
    pub command: Vec<String>,
    pub timeout_secs: u64,
    pub retries: u32,
}

/// Mathematical model of a [`MonitorHealthConfig`].
pub struct MonitorHealthConfigView {
    pub command: Seq<Seq<char>>,
    pub timeout_secs: u64,
    pub retries: u32,
}

impl Model for MonitorHealthConfig {
    type V = MonitorHealthConfigView;

    open spec fn model(&self) -> MonitorHealthConfigView {
        MonitorHealthConfigView {
            command: self.command.model(),
            timeout_secs: self.timeout_secs.model(),
            retries: self.retries.model(),
        }
    }

    fn dup(&self) -> (copy: Self) {
        MonitorHealthConfig {
            command: self.command.dup(),
            timeout_secs: self.timeout_secs.dup(),
            retries: self.retries.dup(),
        }
    }
}

/// What a command produced.
#[derive(Debug, PartialEq, Eq)]
pub struct ExecResult {
    pub exit_code: i32,
    pub stdout: Vec<u8>,
    pub stderr: Vec<u8>,
}

/// Mathematical model of a [`ExecResult`].
pub struct ExecResultView {
    pub exit_code: i32,
    pub stdout: Seq<u8>,
    pub stderr: Seq<u8>,
}

impl Model for ExecResult {
    type V = ExecResultView;

    open spec fn model(&self) -> ExecResultView {
        ExecResultView {
            exit_code: self.exit_code.model(),
            stdout: self.stdout.model(),
            stderr: self.stderr.model(),
        }
    }

    fn dup(&self) -> (copy: Self) {
        ExecResult {
            exit_code: self.exit_code.dup(),
            stdout: self.stdout.dup(),
            stderr: self.stderr.dup(),
        }
    }
}

/// Asks to write a guest file.
#[derive(Debug, PartialEq, Eq)]
pub struct WriteMachineFile {
    pub name: String,
    pub guest_path: String,
    pub data: Vec<u8>,
    pub mode: Option<u32>,
    pub start_if_needed: bool,
    pub trace_id: Option<String>,
}

/// Mathematical model of a [`WriteMachineFile`].
pub struct WriteMachineFileView {
    pub name: Seq<char>,
    pub guest_path: Seq<char>,
    pub data: Seq<u8>,
    pub mode: Option<u32>,
    pub start_if_needed: bool,
    pub trace_id: Option<Seq<char>>,
}

impl Model for WriteMachineFile {
    type V = WriteMachineFileView;

    open spec fn model(&self) -> WriteMachineFileView {
        WriteMachineFileView {
            name: self.name.model(),
            guest_path: self.guest_path.model(),
            data: self.data.model(),
            mode: self.mode.model(),
            start_if_needed: self.start_if_needed.model(),
            trace_id: self.trace_id.model(),
        }
    }

    fn dup(&self) -> (copy: Self) {
        WriteMachineFile {
            name: self.name.dup(),
            guest_path: self.guest_path.dup(),
            data: self.data.dup(),
            mode: self.mode.dup(),
            start_if_needed: self.start_if_needed.dup(),
            trace_id: self.trace_id.dup(),
        }
    }
}

impl WriteMachineFile {
    /// A request with every optional setting left at its default.
    pub fn new(name: String, guest_path: String, data: Vec<u8>) -> (request: WriteMachineFile)
        ensures
            request.model() == (WriteMachineFileView {
                name: name@,
                guest_path: guest_path@,
                data: data.model(),
                mode: None,
                start_if_needed: false,
                trace_id: None,
            }),
    {
        WriteMachineFile {
            name,
            guest_path,
            data,
            mode: None,
            start_if_needed: false,
            trace_id: None,
        }
    }
}

/// Asks to copy a host file to the guest.
#[derive(Debug, PartialEq, Eq)]
pub struct UploadMachineFile {
    pub name: String,
    pub local_path: String,
    pub guest_path: String,
    pub mode: Option<u32>,
    pub start_if_needed: bool,
    pub trace_id: Option<String>,
}

/// Mathematical model of a [`UploadMachineFile`].
pub struct UploadMachineFileView {
    pub name: Seq<char>,
    pub local_path: Seq<char>,
    pub guest_path: Seq<char>,
    pub mode: Option<u32>,
    pub start_if_needed: bool,
    pub trace_id: Option<Seq<char>>,
}

impl Model for UploadMachineFile {
    type V = UploadMachineFileView;

    open spec fn model(&self) -> UploadMachineFileView {
        UploadMachineFileView {
            name: self.name.model(),
            local_path: self.local_path.model(),
            guest_path: self.guest_path.model(),
            mode: self.mode.model(),
            start_if_needed: self.start_if_needed.model(),
            trace_id: self.trace_id.model(),
        }
    }

    fn dup(&self) -> (copy: Self) {
        UploadMachineFile {
            name: self.name.dup(),
            local_path: self.local_path.dup(),
            guest_path: self.guest_path.dup(),
            mode: self.mode.dup(),
            start_if_needed: self.start_if_needed.dup(),
            trace_id: self.trace_id.dup(),
        }
    }
}

impl UploadMachineFile {
    /// A request with every optional setting left at its default.
    pub fn new(name: String, local_path: String, guest_path: String) -> (request: UploadMachineFile)
        ensures
            request.model() == (UploadMachineFileView {
                name: name@,
                local_path: local_path@,
                guest_path: guest_path@,
                mode: None,
                start_if_needed: false,
                trace_id: None,
            }),
    {
        UploadMachineFile {
            name,
            local_path,
            guest_path,
            mode: None,
            start_if_needed: false,
            trace_id: None,
        }
    }
}

/// Asks to read a guest file.
#[derive(Debug, PartialEq, Eq)]
pub struct ReadMachineFile {
    pub name: String,
    pub guest_path: String,
    pub start_if_needed: bool,
    pub trace_id: Option<String>,
}

/// Mathematical model of a [`ReadMachineFile`].
pub struct ReadMachineFileView {
    pub name: Seq<char>,
    pub guest_path: Seq<char>,
    pub start_if_needed: bool,
    pub trace_id: Option<Seq<char>>,
}

impl Model for ReadMachineFile {
    type V = ReadMachineFileView;

    open spec fn model(&self) -> ReadMachineFileView {
        ReadMachineFileView {
            name: self.name.model(),
            guest_path: self.guest_path.model(),
            start_if_needed: self.start_if_needed.model(),
            trace_id: self.trace_id.model(),
        }
    }

    fn dup(&self) -> (copy: Self) {
        ReadMachineFile {
            name: self.name.dup(),
            guest_path: self.guest_path.dup(),
            start_if_needed: self.start_if_needed.dup(),
            trace_id: self.trace_id.dup(),
        }
    }
}

impl ReadMachineFile {
    /// A request with every optional setting left at its default.
    pub fn new(name: String, guest_path: String) -> (request: ReadMachineFile)
        ensures
            request.model() == (ReadMachineFileView {
                name: name@,
                guest_path: guest_path@,
                start_if_needed: false,
                trace_id: None,
            }),
    {
        ReadMachineFile {
            name,
            guest_path,
            start_if_needed: false,
            trace_id: None,
        }
    }
}

/// Asks to copy a guest file to the host.
#[derive(Debug, PartialEq, Eq)]
pub struct DownloadMachineFile {
    pub name: String,
    pub guest_path: String,
    pub local_path: String,
    pub start_if_needed: bool,
    pub trace_id: Option<String>,
}

/// Mathematical model of a [`DownloadMachineFile`].
pub struct DownloadMachineFileView {
    pub name: Seq<char>,
    pub guest_path: Seq<char>,
    pub local_path: Seq<char>,
    pub start_if_needed: bool,
    pub trace_id: Option<Seq<char>>,
}

impl Model for DownloadMachineFile {
    type V = DownloadMachineFileView;

    open spec fn model(&self) -> DownloadMachineFileView {
        DownloadMachineFileView {
            name: self.name.model(),
            guest_path: self.guest_path.model(),
            local_path: self.local_path.model(),
            start_if_needed: self.start_if_needed.model(),
            trace_id: self.trace_id.model(),
        }
    }

    fn dup(&self) -> (copy: Self) {
        DownloadMachineFile {
            name: self.name.dup(),
            guest_path: self.guest_path.dup(),
            local_path: self.local_path.dup(),
            start_if_needed: self.start_if_needed.dup(),
            trace_id: self.trace_id.dup(),
        }
    }
}

impl DownloadMachineFile {
    /// A request with every optional setting left at its default.
    pub fn new(name: String, guest_path: String, local_path: String) -> (request: DownloadMachineFile)
        ensures
            request.model() == (DownloadMachineFileView {
                name: name@,
                guest_path: guest_path@,
                local_path: local_path@,
                start_if_needed: false,
                trace_id: None,
            }),
    {
        DownloadMachineFile {
            name,
            guest_path,
            local_path,
            start_if_needed: false,
            trace_id: None,
        }
    }
}

/// A finished copy.
#[derive(Debug, PartialEq, Eq)]
pub struct FileTransfer {
    pub bytes: u64,
}

/// Mathematical model of a [`FileTransfer`].
pub struct FileTransferView {
    pub bytes: u64,
}

impl Model for FileTransfer {
    type V = FileTransferView;

    open spec fn model(&self) -> FileTransferView {
        FileTransferView {
            bytes: self.bytes.model(),
        }
    }

    fn dup(&self) -> (copy: Self) {
        FileTransfer {
            bytes: self.bytes.dup(),
        }
    }
}

/// Asks for the use of the image storage.
#[derive(Debug, PartialEq, Eq)]
pub struct StorageStatusRequest {
    pub name: String,
    pub start_if_needed: bool,
    pub trace_id: Option<String>,
}

/// Mathematical model of a [`StorageStatusRequest`].
pub struct StorageStatusRequestView {
    pub name: Seq<char>,
    pub start_if_needed: bool,
    pub trace_id: Option<Seq<char>>,
}

impl Model for StorageStatusRequest {
    type V = StorageStatusRequestView;

    open spec fn model(&self) -> StorageStatusRequestView {
        StorageStatusRequestView {
            name: self.name.model(),
            start_if_needed: self.start_if_needed.model(),
            trace_id: self.trace_id.model(),
        }
    }

    fn dup(&self) -> (copy: Self) {
        StorageStatusRequest {
            name: self.name.dup(),
            start_if_needed: self.start_if_needed.dup(),
            trace_id: self.trace_id.dup(),
        }
    }
}

impl StorageStatusRequest {
    /// A request with every optional setting left at its default.
    pub fn new(name: String) -> (request: StorageStatusRequest)
        ensures
            request.model() == (StorageStatusRequestView {
                name: name@,
                start_if_needed: false,
                trace_id: None,
            }),
    {
        StorageStatusRequest {
            name,
            start_if_needed: false,
            trace_id: None,
        }
    }
}

/// Asks for the cached images.
#[derive(Debug, PartialEq, Eq)]
pub struct ListMachineImages {
    pub name: String,
    pub start_if_needed: bool,
    pub stop_after_start: bool,
    pub empty_when_stopped: bool,
    pub trace_id: Option<String>,
}

/// Mathematical model of a [`ListMachineImages`].
pub struct ListMachineImagesView {
    pub name: Seq<char>,
    pub start_if_needed: bool,
    pub stop_after_start: bool,
    pub empty_when_stopped: bool,
    pub trace_id: Option<Seq<char>>,
}

impl Model for ListMachineImages {
    type V = ListMachineImagesView;

    open spec fn model(&self) -> ListMachineImagesView {
        ListMachineImagesView {
            name: self.name.model(),
            start_if_needed: self.start_if_needed.model(),
            stop_after_start: self.stop_after_start.model(),
            empty_when_stopped: self.empty_when_stopped.model(),
            trace_id: self.trace_id.model(),
        }
    }

    fn dup(&self) -> (copy: Self) {
        ListMachineImages {
            name: self.name.dup(),
            start_if_needed: self.start_if_needed.dup(),
            stop_after_start: self.stop_after_start.dup(),
            empty_when_stopped: self.empty_when_stopped.dup(),
            trace_id: self.trace_id.dup(),
        }
    }
}

impl ListMachineImages {
    /// A request with every optional setting left at its default.
    pub fn new(name: String) -> (request: ListMachineImages)
        ensures
            request.model() == (ListMachineImagesView {
                name: name@,
                start_if_needed: false,
                stop_after_start: false,
                empty_when_stopped: false,
                trace_id: None,
            }),
    {
        ListMachineImages {
            name,
            start_if_needed: false,
            stop_after_start: false,
            empty_when_stopped: false,
            trace_id: None,
        }
    }
}

/// Asks to pull an image.
#[derive(Debug, PartialEq, Eq)]
pub struct PullMachineImage {
    pub name: String,
    pub image: String,
    pub oci_platform: Option<String>,
    pub proxy: Option<String>,
    pub no_proxy: Option<String>,
    pub start_if_needed: bool,
    pub trace_id: Option<String>,
}

/// Mathematical model of a [`PullMachineImage`].
pub struct PullMachineImageView {
    pub name: Seq<char>,
    pub image: Seq<char>,
    pub oci_platform: Option<Seq<char>>,
    pub proxy: Option<Seq<char>>,
    pub no_proxy: Option<Seq<char>>,
    pub start_if_needed: bool,
    pub trace_id: Option<Seq<char>>,
}

impl Model for PullMachineImage {
    type V = PullMachineImageView;

    open spec fn model(&self) -> PullMachineImageView {
        PullMachineImageView {
            name: self.name.model(),
            image: self.image.model(),
            oci_platform: self.oci_platform.model(),
            proxy: self.proxy.model(),
            no_proxy: self.no_proxy.model(),
            start_if_needed: self.start_if_needed.model(),
            trace_id: self.trace_id.model(),
        }
    }

    fn dup(&self) -> (copy: Self) {
        PullMachineImage {
            name: self.name.dup(),
            image: self.image.dup(),
            oci_platform: self.oci_platform.dup(),
            proxy: self.proxy.dup(),
            no_proxy: self.no_proxy.dup(),
            start_if_needed: self.start_if_needed.dup(),
            trace_id: self.trace_id.dup(),
        }
    }
}

impl PullMachineImage {
    /// A request with every optional setting left at its default.
    pub fn new(name: String, image: String) -> (request: PullMachineImage)
        ensures
            request.model() == (PullMachineImageView {
                name: name@,
                image: image@,
                oci_platform: None,
                proxy: None,
                no_proxy: None,
                start_if_needed: false,
                trace_id: None,
            }),
    {
        PullMachineImage {
            name,
            image,
            oci_platform: None,
            proxy: None,
            no_proxy: None,
            start_if_needed: false,
            trace_id: None,
        }
    }
}

/// Asks to remove cached images or layers.
#[derive(Debug, PartialEq, Eq)]
pub struct PruneMachineImages {
    pub name: String,
    pub dry_run: bool,
    pub all: bool,
    pub stop_after_start: bool,
    pub trace_id: Option<String>,
}

/// Mathematical model of a [`PruneMachineImages`].
pub struct PruneMachineImagesView {
    pub name: Seq<char>,
    pub dry_run: bool,
    pub all: bool,
    pub stop_after_start: bool,
    pub trace_id: Option<Seq<char>>,
}

impl Model for PruneMachineImages {
    type V = PruneMachineImagesView;

    open spec fn model(&self) -> PruneMachineImagesView {
        PruneMachineImagesView {
            name: self.name.model(),
            dry_run: self.dry_run.model(),
            all: self.all.model(),
            stop_after_start: self.stop_after_start.model(),
            trace_id: self.trace_id.model(),
        }
    }

    fn dup(&self) -> (copy: Self) {
        PruneMachineImages {
            name: self.name.dup(),
            dry_run: self.dry_run.dup(),
            all: self.all.dup(),
            stop_after_start: self.stop_after_start.dup(),
            trace_id: self.trace_id.dup(),
        }
    }
}

impl PruneMachineImages {
    /// A request with every optional setting left at its default.
    pub fn new(name: String) -> (request: PruneMachineImages)
        ensures
            request.model() == (PruneMachineImagesView {
                name: name@,
                dry_run: false,
                all: false,
                stop_after_start: false,
                trace_id: None,
            }),
    {
        PruneMachineImages {
            name,
            dry_run: false,
            all: false,
            stop_after_start: false,
            trace_id: None,
        }
    }
}

/// What a prune removed.
#[derive(Debug, PartialEq, Eq)]
pub struct PruneImagesResult {
    pub freed_bytes: u64,
    pub removed_images: usize,
    pub dry_run: bool,
}

/// Mathematical model of a [`PruneImagesResult`].
pub struct PruneImagesResultView {
    pub freed_bytes: u64,
    pub removed_images: usize,
    pub dry_run: bool,
}

impl Model for PruneImagesResult {
    type V = PruneImagesResultView;

    open spec fn model(&self) -> PruneImagesResultView {
        PruneImagesResultView {
            freed_bytes: self.freed_bytes.model(),
            removed_images: self.removed_images.model(),
            dry_run: self.dry_run.model(),
        }
    }

    fn dup(&self) -> (copy: Self) {
        PruneImagesResult {
            freed_bytes: self.freed_bytes.dup(),
            removed_images: self.removed_images.dup(),
            dry_run: self.dry_run.dup(),
        }
    }
}

/// Asks to test the guest network.
#[derive(Debug, PartialEq, Eq)]
pub struct NetworkTestMachine {
    pub name: String,
    pub url: String,
    pub start_if_needed: bool,
    pub trace_id: Option<String>,
}

/// Mathematical model of a [`NetworkTestMachine`].
pub struct NetworkTestMachineView {
    pub name: Seq<char>,
    pub url: Seq<char>,
    pub start_if_needed: bool,
    pub trace_id: Option<Seq<char>>,
}

impl Model for NetworkTestMachine {
    type V = NetworkTestMachineView;

    open spec fn model(&self) -> NetworkTestMachineView {
        NetworkTestMachineView {
            name: self.name.model(),
            url: self.url.model(),
            start_if_needed: self.start_if_needed.model(),
            trace_id: self.trace_id.model(),
        }
    }

    fn dup(&self) -> (copy: Self) {
        NetworkTestMachine {
            name: self.name.dup(),
            url: self.url.dup(),
            start_if_needed: self.start_if_needed.dup(),
            trace_id: self.trace_id.dup(),
        }
    }
}

impl NetworkTestMachine {
    /// A request with every optional setting left at its default.
    pub fn new(name: String, url: String) -> (request: NetworkTestMachine)
        ensures
            request.model() == (NetworkTestMachineView {
                name: name@,
                url: url@,
                start_if_needed: false,
                trace_id: None,
            }),
    {
        NetworkTestMachine {
            name,
            url,
            start_if_needed: false,
            trace_id: None,
        }
    }
}

/// Asks for the data directory of a machine.
#[derive(Debug, PartialEq, Eq)]
pub struct DataDirMachine {
    pub name: String,
    pub require_existing: bool,
}

/// Mathematical model of a [`DataDirMachine`].
pub struct DataDirMachineView {
    pub name: Seq<char>,
    pub require_existing: bool,
}

impl Model for DataDirMachine {
    type V = DataDirMachineView;

    open spec fn model(&self) -> DataDirMachineView {
        DataDirMachineView {
            name: self.name.model(),
            require_existing: self.require_existing.model(),
        }
    }

    fn dup(&self) -> (copy: Self) {
        DataDirMachine {
            name: self.name.dup(),
            require_existing: self.require_existing.dup(),
        }
    }
}

impl DataDirMachine {
    /// A request with every optional setting left at its default.
    pub fn new(name: String) -> (request: DataDirMachine)
        ensures
            request.model() == (DataDirMachineView {
                name: name@,
                require_existing: true,
            }),
    {
        DataDirMachine {
            name,
            require_existing: true,
        }
    }
}

/// Asks to watch a machine.
#[derive(Debug, PartialEq, Eq)]
pub struct MonitorMachine {
    pub name: String,
    pub restart_policy: Option<RestartPolicy>,
    pub health_cmd: Option<Vec<String>>,
    pub health_timeout: TimeSpan,
    pub interval: TimeSpan,
    pub health_retries: u32,
}

/// Mathematical model of a [`MonitorMachine`].
pub struct MonitorMachineView {
    pub name: Seq<char>,
    pub restart_policy: Option<RestartPolicy>,
    pub health_cmd: Option<Seq<Seq<char>>>,
    pub health_timeout: TimeSpan,
    pub interval: TimeSpan,
    pub health_retries: u32,
}

impl Model for MonitorMachine {
    type V = MonitorMachineView;

    open spec fn model(&self) -> MonitorMachineView {
        MonitorMachineView {
            name: self.name.model(),
            restart_policy: self.restart_policy.model(),
            health_cmd: self.health_cmd.model(),
            health_timeout: self.health_timeout.model(),
            interval: self.interval.model(),
            health_retries: self.health_retries.model(),
        }
    }

    fn dup(&self) -> (copy: Self) {
        MonitorMachine {
            name: self.name.dup(),
            restart_policy: self.restart_policy.dup(),
            health_cmd: self.health_cmd.dup(),
            health_timeout: self.health_timeout.dup(),
            interval: self.interval.dup(),
            health_retries: self.health_retries.dup(),
        }
    }
}

impl MonitorMachine {
    /// A request with every optional setting left at its default.
    pub fn new(name: String) -> (request: MonitorMachine)
        ensures
            request.model() == (MonitorMachineView {
                name: name@,
                restart_policy: None,
                health_cmd: None,
                health_timeout: TimeSpan { secs: 5, nanos: 0 },
                interval: TimeSpan { secs: 5, nanos: 0 },
                health_retries: 3,
            }),
    {
        MonitorMachine {
            name,
            restart_policy: None,
            health_cmd: None,
            health_timeout: TimeSpan::from_secs(5),
            interval: TimeSpan::from_secs(5),
            health_retries: 3,
        }
    }
}

/// A monitor that has ended.
#[derive(Debug, PartialEq, Eq)]
pub struct MonitorResult {
    pub name: String,
}

/// Mathematical model of a [`MonitorResult`].
pub struct MonitorResultView {
    pub name: Seq<char>,
}

impl Model for MonitorResult {
    type V = MonitorResultView;

    open spec fn model(&self) -> MonitorResultView {
        MonitorResultView {
            name: self.name.model(),
        }
    }

    fn dup(&self) -> (copy: Self) {
        MonitorResult {
            name: self.name.dup(),
        }
    }
}

/// Asks for every machine.
#[derive(Debug, Clone, Copy, PartialEq, Eq)]
pub struct ListMachines;

/// How a run session ended.
#[derive(Debug, PartialEq, Eq)]
pub enum MachineRunResult {
    /// The command ran to its end.
    Foreground { exit_code: i32, stdout: Vec<u8>, stderr: Vec<u8> },
    /// The machine runs on in the background.
    Detached { name: String, pid: Option<i32> },
}

/// Mathematical model of a [`MachineRunResult`].
pub enum MachineRunResultView {
    Foreground { exit_code: i32, stdout: Seq<u8>, stderr: Seq<u8> },
    Detached { name: Seq<char>, pid: Option<i32> },
}

impl Model for MachineRunResult {
    type V = MachineRunResultView;

    open spec fn model(&self) -> MachineRunResultView {
        match self {
            MachineRunResult::Foreground { exit_code, stdout, stderr } => MachineRunResultView::Foreground { exit_code: exit_code.model(), stdout: stdout.model(), stderr: stderr.model() },
            MachineRunResult::Detached { name, pid } => MachineRunResultView::Detached { name: name.model(), pid: pid.model() },
        }
    }

    fn dup(&self) -> (copy: Self) {
        match self {
            MachineRunResult::Foreground { exit_code, stdout, stderr } => MachineRunResult::Foreground { exit_code: exit_code.dup(), stdout: stdout.dup(), stderr: stderr.dup() },
            MachineRunResult::Detached { name, pid } => MachineRunResult::Detached { name: name.dup(), pid: pid.dup() },
        }
    }
}

/// What a run session shows while it works.
pub trait MachineRunIo {
    /// The machine is about to start.
    fn starting(&mut self, _event: &MachineRunStarting) {
    }

    /// An image pull has moved on.
    fn pull_progress(&mut self, _event: &MachineRunPullProgress) {
    }

    /// The command wrote to its standard output.
    fn stdout(&mut self, _bytes: &[u8]) {
    }

    /// The command wrote to its standard error.
    fn stderr(&mut self, _bytes: &[u8]) {
    }
}

impl MachineRunIo for () {

}

} // verus!
