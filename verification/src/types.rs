//! Machine records and the values they are made of.

use crate::model::{empty_list, push_to, Model};
use crate::secrets::{SecretMap, SecretMapView};
use vstd::prelude::*;

verus! {

/// State of a machine.
#[derive(Debug, Clone, Copy, PartialEq, Eq, Structural)]
pub enum RecordState {
    /// The machine process runs and its agent answers.
    Running,
    /// The machine process runs but its agent does not answer.
    Unreachable,
    /// The machine has run and is stopped.
    Stopped,
    /// The machine has been created and never started.
    Created,
    /// The machine could not be started.
    Failed,
}

impl Model for RecordState {
    type V = RecordState;

    open spec fn model(&self) -> RecordState {
        *self
    }

    fn dup(&self) -> (copy: Self) {
        *self
    }
}

impl RecordState {
    /// Name of the state.
    pub open spec fn name(self) -> Seq<char> {
        match self {
            RecordState::Running => "running"@,
            RecordState::Unreachable => "unreachable"@,
            RecordState::Stopped => "stopped"@,
            RecordState::Created => "created"@,
            RecordState::Failed => "failed"@,
        }
    }

    /// Name of the state, as shown to users.
    pub fn label(self) -> (label: &'static str)
        ensures
            label@ == self.name(),
    {
        match self {
            RecordState::Running => "running",
            RecordState::Unreachable => "unreachable",
            RecordState::Stopped => "stopped",
            RecordState::Created => "created",
            RecordState::Failed => "failed",
        }
    }
}

/// When a stopped machine is started again.
#[derive(Debug, Clone, Copy, PartialEq, Eq, Structural)]
pub enum RestartPolicy {
    /// Never.
    Never,
    /// Always.
    Always,
    /// After a failure.
    OnFailure,
    /// Unless the user stopped it.
    UnlessStopped,
}

impl Model for RestartPolicy {
    type V = RestartPolicy;

    open spec fn model(&self) -> RestartPolicy {
        *self
    }

    fn dup(&self) -> (copy: Self) {
        *self
    }
}

impl RestartPolicy {
    /// Name of the policy.
    pub open spec fn name(self) -> Seq<char> {
        match self {
            RestartPolicy::Never => "never"@,
            RestartPolicy::Always => "always"@,
            RestartPolicy::OnFailure => "on-failure"@,
            RestartPolicy::UnlessStopped => "unless-stopped"@,
        }
    }

    /// Name of the policy, as shown to users.
    pub fn label(self) -> (label: &'static str)
        ensures
            label@ == self.name(),
    {
        match self {
            RestartPolicy::Never => "never",
            RestartPolicy::Always => "always",
            RestartPolicy::OnFailure => "on-failure",
            RestartPolicy::UnlessStopped => "unless-stopped",
        }
    }
}

/// Restart settings of a machine and how often it was restarted.
#[derive(Debug, PartialEq, Eq)]
pub struct RestartConfig {
    pub policy: RestartPolicy,
    pub max_retries: u32,
    pub max_backoff_secs: u64,
    pub restart_count: u32,
    pub user_stopped: bool,
}

/// Mathematical model of a [`RestartConfig`].
pub struct RestartConfigView {
    pub policy: RestartPolicy,
    pub max_retries: u32,
    pub max_backoff_secs: u64,
    pub restart_count: u32,
    pub user_stopped: bool,
}

impl Model for RestartConfig {
    type V = RestartConfigView;

    open spec fn model(&self) -> RestartConfigView {
        RestartConfigView {
            policy: self.policy.model(),
            max_retries: self.max_retries.model(),
            max_backoff_secs: self.max_backoff_secs.model(),
            restart_count: self.restart_count.model(),
            user_stopped: self.user_stopped.model(),
        }
    }

    fn dup(&self) -> (copy: Self) {
        RestartConfig {
            policy: self.policy.dup(),
            max_retries: self.max_retries.dup(),
            max_backoff_secs: self.max_backoff_secs.dup(),
            restart_count: self.restart_count.dup(),
            user_stopped: self.user_stopped.dup(),
        }
    }
}

/// A length of time.
#[derive(Debug, Clone, Copy, PartialEq, Eq, Structural)]
pub struct TimeSpan {
    /// Whole seconds.
    pub secs: u64,
    /// Nanoseconds beyond the whole seconds.
    pub nanos: u32,
}

impl Model for TimeSpan {
    type V = TimeSpan;

    open spec fn model(&self) -> TimeSpan {
        *self
    }

    fn dup(&self) -> (copy: Self) {
        *self
    }
}

impl TimeSpan {
    /// A whole number of seconds.
    pub fn from_secs(secs: u64) -> (span: TimeSpan)
        ensures
            span == (TimeSpan { secs, nanos: 0 }),
    {
        TimeSpan { secs, nanos: 0 }
    }
}

/// A whole number of seconds, if one is given.
pub open spec fn seconds(secs: Option<u64>) -> Option<TimeSpan> {
    match secs {
        Some(secs) => Some(TimeSpan { secs, nanos: 0 }),
        None => None,
    }
}

/// A whole number of seconds, if one is given.
pub fn optional_secs(secs: Option<u64>) -> (span: Option<TimeSpan>)
    ensures
        span == seconds(secs),
        span.model() == seconds(secs),
{
    match secs {
        Some(secs) => Some(TimeSpan { secs, nanos: 0 }),
        None => None,
    }
}

/// A guest port that a host port forwards to.
#[derive(Debug, Clone, Copy, PartialEq, Eq, Structural)]
pub struct PortMapping {
    pub host: u16,
    pub guest: u16,
}

impl Model for PortMapping {
    type V = PortMapping;

    open spec fn model(&self) -> PortMapping {
        *self
    }

    fn dup(&self) -> (copy: Self) {
        *self
    }
}

/// The stored form of port mappings.
pub open spec fn port_pairs(ports: Seq<PortMapping>) -> Seq<(u16, u16)> {
    Seq::new(ports.len(), |i: int| (ports[i].host, ports[i].guest))
}

impl PortMapping {
    /// The stored form of one mapping.
    pub fn to_tuple(&self) -> (pair: (u16, u16))
        ensures
            pair == (self.host, self.guest),
    {
        (self.host, self.guest)
    }

    /// The stored form of several mappings.
    pub fn to_tuples(ports: &Vec<PortMapping>) -> (pairs: Vec<(u16, u16)>)
        ensures
            pairs.model() == port_pairs(ports.model()),
    {
        let mut pairs: Vec<(u16, u16)> = empty_list();
        let mut i: usize = 0;
        while i < ports.len()
            invariant
                i <= ports.len(),
                pairs.model() == port_pairs(ports.model()).take(i as int),
            decreases ports.len() - i,
        {
            push_to(&mut pairs, ports[i].to_tuple());
            assert(port_pairs(ports.model()).take(i + 1) =~= port_pairs(ports.model()).take(
                i as int,
            ).push(port_pairs(ports.model())[i as int]));
            i += 1;
        }
        assert(port_pairs(ports.model()).take(ports.len() as int) =~= port_pairs(ports.model()));
        pairs
    }
}

/// A host directory that is mounted in the guest.
#[derive(Debug, PartialEq, Eq)]
pub struct HostMount {
    pub source: String,
    pub target: String,
    pub read_only: bool,
}

/// Mathematical model of a [`HostMount`].
pub struct HostMountView {
    pub source: Seq<char>,
    pub target: Seq<char>,
    pub read_only: bool,
}

impl Model for HostMount {
    type V = HostMountView;

    open spec fn model(&self) -> HostMountView {
        HostMountView {
            source: self.source.model(),
            target: self.target.model(),
            read_only: self.read_only.model(),
        }
    }

    fn dup(&self) -> (copy: Self) {
        HostMount {
            source: self.source.dup(),
            target: self.target.dup(),
            read_only: self.read_only.dup(),
        }
    }
}

/// The stored form of one mount.
pub open spec fn mount_entry(mount: HostMountView) -> (Seq<char>, Seq<char>, bool) {
    (mount.source, mount.target, mount.read_only)
}

/// The stored form of mounts.
pub open spec fn mount_entries(mounts: Seq<HostMountView>) -> Seq<(Seq<char>, Seq<char>, bool)> {
    Seq::new(mounts.len(), |i: int| mount_entry(mounts[i]))
}

impl HostMount {
    /// The stored form of this mount.
    pub fn to_storage_tuple(&self) -> (entry: (String, String, bool))
        ensures
            entry.model() == mount_entry(self.model()),
    {
        (self.source.dup(), self.target.dup(), self.read_only)
    }

    /// The stored form of several mounts.
    pub fn to_storage_tuples(mounts: &Vec<HostMount>) -> (entries: Vec<(String, String, bool)>)
        ensures
            entries.model() == mount_entries(mounts.model()),
    {
        let mut entries: Vec<(String, String, bool)> = empty_list();
        let mut i: usize = 0;
        while i < mounts.len()
            invariant
                i <= mounts.len(),
                entries.model() == mount_entries(mounts.model()).take(i as int),
            decreases mounts.len() - i,
        {
            push_to(&mut entries, mounts[i].to_storage_tuple());
            assert(mount_entries(mounts.model()).take(i + 1) =~= mount_entries(mounts.model()).take(
                i as int,
            ).push(mount_entries(mounts.model())[i as int]));
            i += 1;
        }
        assert(mount_entries(mounts.model()).take(mounts.len() as int) =~= mount_entries(
            mounts.model(),
        ));
        entries
    }
}

/// Implementation of the guest network, known by its name.
#[derive(Debug, PartialEq, Eq)]
pub struct NetworkBackend {
    pub label: String,
}

/// Mathematical model of a [`NetworkBackend`].
pub struct NetworkBackendView {
    pub label: Seq<char>,
}

impl Model for NetworkBackend {
    type V = NetworkBackendView;

    open spec fn model(&self) -> NetworkBackendView {
        NetworkBackendView {
            label: self.label.model(),
        }
    }

    fn dup(&self) -> (copy: Self) {
        NetworkBackend {
            label: self.label.dup(),
        }
    }
}

/// Resources of a running machine.
#[derive(Debug, PartialEq, Eq)]
pub struct VmResources {
    pub cpus: u8,
    pub memory_mib: u32,
    pub network: bool,
    pub network_backend: Option<NetworkBackend>,
    pub gpu: bool,
    pub gpu_vram_mib: Option<u32>,
    pub storage_gib: Option<u64>,
    pub overlay_gib: Option<u64>,
    pub allowed_cidrs: Option<Vec<String>>,
}

/// Mathematical model of a [`VmResources`].
pub struct VmResourcesView {
    pub cpus: u8,
    pub memory_mib: u32,
    pub network: bool,
    pub network_backend: Option<NetworkBackendView>,
    pub gpu: bool,
    pub gpu_vram_mib: Option<u32>,
    pub storage_gib: Option<u64>,
    pub overlay_gib: Option<u64>,
    pub allowed_cidrs: Option<Seq<Seq<char>>>,
}

impl Model for VmResources {
    type V = VmResourcesView;

    open spec fn model(&self) -> VmResourcesView {
        VmResourcesView {
            cpus: self.cpus.model(),
            memory_mib: self.memory_mib.model(),
            network: self.network.model(),
            network_backend: self.network_backend.model(),
            gpu: self.gpu.model(),
            gpu_vram_mib: self.gpu_vram_mib.model(),
            storage_gib: self.storage_gib.model(),
            overlay_gib: self.overlay_gib.model(),
            allowed_cidrs: self.allowed_cidrs.model(),
        }
    }

    fn dup(&self) -> (copy: Self) {
        VmResources {
            cpus: self.cpus.dup(),
            memory_mib: self.memory_mib.dup(),
            network: self.network.dup(),
            network_backend: self.network_backend.dup(),
            gpu: self.gpu.dup(),
            gpu_vram_mib: self.gpu_vram_mib.dup(),
            storage_gib: self.storage_gib.dup(),
            overlay_gib: self.overlay_gib.dup(),
            allowed_cidrs: self.allowed_cidrs.dup(),
        }
    }
}

/// Resource settings of a machine whose creator leaves them out.
#[derive(Debug, PartialEq, Eq)]
pub struct ResourceDefaults {
    pub cpus: u8,
    pub memory_mib: u32,
    pub storage_gib: u64,
    pub overlay_gib: u64,
}

/// Mathematical model of a [`ResourceDefaults`].
pub struct ResourceDefaultsView {
    pub cpus: u8,
    pub memory_mib: u32,
    pub storage_gib: u64,
    pub overlay_gib: u64,
}

impl Model for ResourceDefaults {
    type V = ResourceDefaultsView;

    open spec fn model(&self) -> ResourceDefaultsView {
        ResourceDefaultsView {
            cpus: self.cpus.model(),
            memory_mib: self.memory_mib.model(),
            storage_gib: self.storage_gib.model(),
            overlay_gib: self.overlay_gib.model(),
        }
    }

    fn dup(&self) -> (copy: Self) {
        ResourceDefaults {
            cpus: self.cpus.dup(),
            memory_mib: self.memory_mib.dup(),
            storage_gib: self.storage_gib.dup(),
            overlay_gib: self.overlay_gib.dup(),
        }
    }
}

/// What is stored about a machine.
#[derive(Debug, PartialEq, Eq)]
pub struct VmRecord {
    pub name: String,
    pub created_at: u64,
    pub state: RecordState,
    pub pid: Option<i32>,
    pub pid_start_time: Option<u64>,
    pub last_exit_code: Option<i32>,
    pub cpus: u8,
    pub mem: u32,
    pub mounts: Vec<(String, String, bool)>,
    pub ports: Vec<(u16, u16)>,
    pub network: bool,
    pub network_backend: Option<NetworkBackend>,
    pub allowed_cidrs: Option<Vec<String>>,
    pub dns_filter_hosts: Option<Vec<String>>,
    pub restart: RestartConfig,
    pub image: Option<String>,
    pub entrypoint: Vec<String>,
    pub cmd: Vec<String>,
    pub init: Vec<String>,
    pub init_completed: bool,
    pub env: Vec<(String, String)>,
    pub secret_refs: SecretMap,
    pub workdir: Option<String>,
    pub user: Option<String>,
    pub storage_gb: Option<u64>,
    pub overlay_gb: Option<u64>,
    pub gpu: Option<bool>,
    pub gpu_vram_mib: Option<u32>,
    pub health_cmd: Option<Vec<String>>,
    pub health_interval_secs: Option<u64>,
    pub health_timeout_secs: Option<u64>,
    pub health_retries: Option<u32>,
    pub health_startup_grace_secs: Option<u64>,
    pub ssh_agent: bool,
    pub source_smolmachine: Option<String>,
    pub golden: Option<String>,
    pub ephemeral: bool,
}

/// Mathematical model of a [`VmRecord`].
pub struct VmRecordView {
    pub name: Seq<char>,
    pub created_at: u64,
    pub state: RecordState,
    pub pid: Option<i32>,
    pub pid_start_time: Option<u64>,
    pub last_exit_code: Option<i32>,
    pub cpus: u8,
    pub mem: u32,
    pub mounts: Seq<(Seq<char>, Seq<char>, bool)>,
    pub ports: Seq<(u16, u16)>,
    pub network: bool,
    pub network_backend: Option<NetworkBackendView>,
    pub allowed_cidrs: Option<Seq<Seq<char>>>,
    pub dns_filter_hosts: Option<Seq<Seq<char>>>,
    pub restart: RestartConfigView,
    pub image: Option<Seq<char>>,
    pub entrypoint: Seq<Seq<char>>,
    pub cmd: Seq<Seq<char>>,
    pub init: Seq<Seq<char>>,
    pub init_completed: bool,
    pub env: Seq<(Seq<char>, Seq<char>)>,
    pub secret_refs: SecretMapView,
    pub workdir: Option<Seq<char>>,
    pub user: Option<Seq<char>>,
    pub storage_gb: Option<u64>,
    pub overlay_gb: Option<u64>,
    pub gpu: Option<bool>,
    pub gpu_vram_mib: Option<u32>,
    pub health_cmd: Option<Seq<Seq<char>>>,
    pub health_interval_secs: Option<u64>,
    pub health_timeout_secs: Option<u64>,
    pub health_retries: Option<u32>,
    pub health_startup_grace_secs: Option<u64>,
    pub ssh_agent: bool,
    pub source_smolmachine: Option<Seq<char>>,
    pub golden: Option<Seq<char>>,
    pub ephemeral: bool,
}

impl Model for VmRecord {
    type V = VmRecordView;

    open spec fn model(&self) -> VmRecordView {
        VmRecordView {
            name: self.name.model(),
            created_at: self.created_at.model(),
            state: self.state.model(),
            pid: self.pid.model(),
            pid_start_time: self.pid_start_time.model(),
            last_exit_code: self.last_exit_code.model(),
            cpus: self.cpus.model(),
            mem: self.mem.model(),
            mounts: self.mounts.model(),
            ports: self.ports.model(),
            network: self.network.model(),
            network_backend: self.network_backend.model(),
            allowed_cidrs: self.allowed_cidrs.model(),
            dns_filter_hosts: self.dns_filter_hosts.model(),
            restart: self.restart.model(),
            image: self.image.model(),
            entrypoint: self.entrypoint.model(),
            cmd: self.cmd.model(),
            init: self.init.model(),
            init_completed: self.init_completed.model(),
            env: self.env.model(),
            secret_refs: self.secret_refs.model(),
            workdir: self.workdir.model(),
            user: self.user.model(),
            storage_gb: self.storage_gb.model(),
            overlay_gb: self.overlay_gb.model(),
            gpu: self.gpu.model(),
            gpu_vram_mib: self.gpu_vram_mib.model(),
            health_cmd: self.health_cmd.model(),
            health_interval_secs: self.health_interval_secs.model(),
            health_timeout_secs: self.health_timeout_secs.model(),
            health_retries: self.health_retries.model(),
            health_startup_grace_secs: self.health_startup_grace_secs.model(),
            ssh_agent: self.ssh_agent.model(),
            source_smolmachine: self.source_smolmachine.model(),
            golden: self.golden.model(),
            ephemeral: self.ephemeral.model(),
        }
    }

    fn dup(&self) -> (copy: Self) {
        VmRecord {
            name: self.name.dup(),
            created_at: self.created_at.dup(),
            state: self.state.dup(),
            pid: self.pid.dup(),
            pid_start_time: self.pid_start_time.dup(),
            last_exit_code: self.last_exit_code.dup(),
            cpus: self.cpus.dup(),
            mem: self.mem.dup(),
            mounts: self.mounts.dup(),
            ports: self.ports.dup(),
            network: self.network.dup(),
            network_backend: self.network_backend.dup(),
            allowed_cidrs: self.allowed_cidrs.dup(),
            dns_filter_hosts: self.dns_filter_hosts.dup(),
            restart: self.restart.dup(),
            image: self.image.dup(),
            entrypoint: self.entrypoint.dup(),
            cmd: self.cmd.dup(),
            init: self.init.dup(),
            init_completed: self.init_completed.dup(),
            env: self.env.dup(),
            secret_refs: self.secret_refs.dup(),
            workdir: self.workdir.dup(),
            user: self.user.dup(),
            storage_gb: self.storage_gb.dup(),
            overlay_gb: self.overlay_gb.dup(),
            gpu: self.gpu.dup(),
            gpu_vram_mib: self.gpu_vram_mib.dup(),
            health_cmd: self.health_cmd.dup(),
            health_interval_secs: self.health_interval_secs.dup(),
            health_timeout_secs: self.health_timeout_secs.dup(),
            health_retries: self.health_retries.dup(),
            health_startup_grace_secs: self.health_startup_grace_secs.dup(),
            ssh_agent: self.ssh_agent.dup(),
            source_smolmachine: self.source_smolmachine.dup(),
            golden: self.golden.dup(),
            ephemeral: self.ephemeral.dup(),
        }
    }
}

/// Restart settings that restart nothing.
pub open spec fn no_restart() -> RestartConfigView {
    RestartConfigView {
        policy: RestartPolicy::Never,
        max_retries: 0,
        max_backoff_secs: 0,
        restart_count: 0,
        user_stopped: false,
    }
}

impl RestartConfig {
    /// Restart settings that restart nothing.
    pub fn none() -> (config: RestartConfig)
        ensures
            config.model() == no_restart(),
    {
        RestartConfig {
            policy: RestartPolicy::Never,
            max_retries: 0,
            max_backoff_secs: 0,
            restart_count: 0,
            user_stopped: false,
        }
    }
}

/// The record of a machine that was just created, with nothing else set.
pub open spec fn fresh_record(
    name: Seq<char>,
    cpus: u8,
    mem: u32,
    mounts: Seq<(Seq<char>, Seq<char>, bool)>,
    ports: Seq<(u16, u16)>,
    network: bool,
    restart: RestartConfigView,
    created_at: u64,
) -> VmRecordView {
    VmRecordView {
        name,
        created_at,
        state: RecordState::Created,
        pid: None,
        pid_start_time: None,
        last_exit_code: None,
        cpus,
        mem,
        mounts,
        ports,
        network,
        network_backend: None,
        allowed_cidrs: None,
        dns_filter_hosts: None,
        restart,
        image: None,
        entrypoint: Seq::empty(),
        cmd: Seq::empty(),
        init: Seq::empty(),
        init_completed: false,
        env: Seq::empty(),
        secret_refs: Seq::empty(),
        workdir: None,
        user: None,
        storage_gb: None,
        overlay_gb: None,
        gpu: None,
        gpu_vram_mib: None,
        health_cmd: None,
        health_interval_secs: None,
        health_timeout_secs: None,
        health_retries: None,
        health_startup_grace_secs: None,
        ssh_agent: false,
        source_smolmachine: None,
        golden: None,
        ephemeral: false,
    }
}

impl VmRecord {
    /// The record of a machine that is created at `created_at` (seconds since
    /// the epoch) and never restarts by itself.
    pub fn new(
        name: String,
        cpus: u8,
        mem: u32,
        mounts: Vec<(String, String, bool)>,
        ports: Vec<(u16, u16)>,
        network: bool,
        created_at: u64,
    ) -> (record: VmRecord)
        ensures
            record.model() == fresh_record(
                name@,
                cpus,
                mem,
                mounts.model(),
                ports.model(),
                network,
                no_restart(),
                created_at,
            ),
    {
        Self::new_with_restart(
            name,
            cpus,
            mem,
            mounts,
            ports,
            network,
            RestartConfig::none(),
            created_at,
        )
    }

    /// The record of a machine that is created at `created_at` (seconds since
    /// the epoch) with these restart settings.
    pub fn new_with_restart(
        name: String,
        cpus: u8,
        mem: u32,
        mounts: Vec<(String, String, bool)>,
        ports: Vec<(u16, u16)>,
        network: bool,
        restart: RestartConfig,
        created_at: u64,
    ) -> (record: VmRecord)
        ensures
            record.model() == fresh_record(
                name@,
                cpus,
                mem,
                mounts.model(),
                ports.model(),
                network,
                restart.model(),
                created_at,
            ),
    {
        VmRecord {
            name,
            created_at,
            state: RecordState::Created,
            pid: None,
            pid_start_time: None,
            last_exit_code: None,
            cpus,
            mem,
            mounts,
            ports,
            network,
            network_backend: None,
            allowed_cidrs: None,
            dns_filter_hosts: None,
            restart,
            image: None,
            entrypoint: empty_list(),
            cmd: empty_list(),
            init: empty_list(),
            init_completed: false,
            env: empty_list(),
            secret_refs: SecretMap::new(),
            workdir: None,
            user: None,
            storage_gb: None,
            overlay_gb: None,
            gpu: None,
            gpu_vram_mib: None,
            health_cmd: None,
            health_interval_secs: None,
            health_timeout_secs: None,
            health_retries: None,
            health_startup_grace_secs: None,
            ssh_agent: false,
            source_smolmachine: None,
            golden: None,
            ephemeral: false,
        }
    }
}

/// What the guest knows about an image.
#[derive(Debug, PartialEq, Eq)]
pub struct ImageInfo {
    pub reference: String,
    pub digest: String,
    pub size: u64,
    pub created: Option<String>,
    pub architecture: String,
    pub os: String,
    pub layer_count: usize,
    pub layers: Vec<String>,
    pub entrypoint: Vec<String>,
    pub cmd: Vec<String>,
    pub env: Vec<String>,
    pub workdir: Option<String>,
    pub user: Option<String>,
}

/// Mathematical model of a [`ImageInfo`].
pub struct ImageInfoView {
    pub reference: Seq<char>,
    pub digest: Seq<char>,
    pub size: u64,
    pub created: Option<Seq<char>>,
    pub architecture: Seq<char>,
    pub os: Seq<char>,
    pub layer_count: usize,
    pub layers: Seq<Seq<char>>,
    pub entrypoint: Seq<Seq<char>>,
    pub cmd: Seq<Seq<char>>,
    pub env: Seq<Seq<char>>,
    pub workdir: Option<Seq<char>>,
    pub user: Option<Seq<char>>,
}

impl Model for ImageInfo {
    type V = ImageInfoView;

    open spec fn model(&self) -> ImageInfoView {
        ImageInfoView {
            reference: self.reference.model(),
            digest: self.digest.model(),
            size: self.size.model(),
            created: self.created.model(),
            architecture: self.architecture.model(),
            os: self.os.model(),
            layer_count: self.layer_count.model(),
            layers: self.layers.model(),
            entrypoint: self.entrypoint.model(),
            cmd: self.cmd.model(),
            env: self.env.model(),
            workdir: self.workdir.model(),
            user: self.user.model(),
        }
    }

    fn dup(&self) -> (copy: Self) {
        ImageInfo {
            reference: self.reference.dup(),
            digest: self.digest.dup(),
            size: self.size.dup(),
            created: self.created.dup(),
            architecture: self.architecture.dup(),
            os: self.os.dup(),
            layer_count: self.layer_count.dup(),
            layers: self.layers.dup(),
            entrypoint: self.entrypoint.dup(),
            cmd: self.cmd.dup(),
            env: self.env.dup(),
            workdir: self.workdir.dup(),
            user: self.user.dup(),
        }
    }
}

/// Use of the image storage in the guest.
#[derive(Debug, PartialEq, Eq)]
pub struct StorageStatus {
    pub ready: bool,
    pub total_bytes: u64,
    pub used_bytes: u64,
    pub layer_count: usize,
    pub image_count: usize,
}

/// Mathematical model of a [`StorageStatus`].
pub struct StorageStatusView {
    pub ready: bool,
    pub total_bytes: u64,
    pub used_bytes: u64,
    pub layer_count: usize,
    pub image_count: usize,
}

impl Model for StorageStatus {
    type V = StorageStatusView;

    open spec fn model(&self) -> StorageStatusView {
        StorageStatusView {
            ready: self.ready.model(),
            total_bytes: self.total_bytes.model(),
            used_bytes: self.used_bytes.model(),
            layer_count: self.layer_count.model(),
            image_count: self.image_count.model(),
        }
    }

    fn dup(&self) -> (copy: Self) {
        StorageStatus {
            ready: self.ready.dup(),
            total_bytes: self.total_bytes.dup(),
            used_bytes: self.used_bytes.dup(),
            layer_count: self.layer_count.dup(),
            image_count: self.image_count.dup(),
        }
    }
}

/// The mounts of a container: the place of each mount in the list, which names
/// its tag, then its target and whether it is read-only.
pub type BindingsView = Seq<(usize, Seq<char>, bool)>;

/// The mounts that a container sees of stored mounts.
pub open spec fn bindings_of(mounts: Seq<(Seq<char>, Seq<char>, bool)>) -> BindingsView {
    Seq::new(mounts.len(), |i: int| (i as usize, mounts[i].1, mounts[i].2))
}

/// The mounts that a container sees of a machine's stored mounts.
pub fn record_mounts_to_runconfig_bindings(mounts: &Vec<(String, String, bool)>) -> (bindings: Vec<
    (usize, String, bool),
>)
    ensures
        bindings.model() == bindings_of(mounts.model()),
{
    let mut bindings: Vec<(usize, String, bool)> = empty_list();
    let mut i: usize = 0;
    while i < mounts.len()
        invariant
            i <= mounts.len(),
            bindings.model() == bindings_of(mounts.model()).take(i as int),
        decreases mounts.len() - i,
    {
        push_to(&mut bindings, (i, mounts[i].1.dup(), mounts[i].2));
        assert(bindings_of(mounts.model()).take(i + 1) =~= bindings_of(mounts.model()).take(
            i as int,
        ).push(bindings_of(mounts.model())[i as int]));
        i += 1;
    }
    assert(bindings_of(mounts.model()).take(mounts.len() as int) =~= bindings_of(mounts.model()));
    bindings
}

/// The mounts that a container sees of a session's mounts.
pub fn host_mounts_to_runconfig_bindings(mounts: &Vec<HostMount>) -> (bindings: Vec<
    (usize, String, bool),
>)
    ensures
        bindings.model() == bindings_of(mount_entries(mounts.model())),
{
    let entries: Vec<(String, String, bool)> = HostMount::to_storage_tuples(mounts);
    record_mounts_to_runconfig_bindings(&entries)
}

/// A command to run in a container of an image.
#[derive(Debug, PartialEq, Eq)]
pub struct RunConfig {
    pub image: String,
    pub command: Vec<String>,
    pub env: Vec<(String, String)>,
    pub workdir: Option<String>,
    pub user: Option<String>,
    pub mounts: Vec<(usize, String, bool)>,
    pub timeout: Option<TimeSpan>,
    pub tty: bool,
    pub persistent_overlay: Option<String>,
}

/// Mathematical model of a [`RunConfig`].
pub struct RunConfigView {
    pub image: Seq<char>,
    pub command: Seq<Seq<char>>,
    pub env: Seq<(Seq<char>, Seq<char>)>,
    pub workdir: Option<Seq<char>>,
    pub user: Option<Seq<char>>,
    pub mounts: Seq<(usize, Seq<char>, bool)>,
    pub timeout: Option<TimeSpan>,
    pub tty: bool,
    pub persistent_overlay: Option<Seq<char>>,
}

impl Model for RunConfig {
    type V = RunConfigView;

    open spec fn model(&self) -> RunConfigView {
        RunConfigView {
            image: self.image.model(),
            command: self.command.model(),
            env: self.env.model(),
            workdir: self.workdir.model(),
            user: self.user.model(),
            mounts: self.mounts.model(),
            timeout: self.timeout.model(),
            tty: self.tty.model(),
            persistent_overlay: self.persistent_overlay.model(),
        }
    }

    fn dup(&self) -> (copy: Self) {
        RunConfig {
            image: self.image.dup(),
            command: self.command.dup(),
            env: self.env.dup(),
            workdir: self.workdir.dup(),
            user: self.user.dup(),
            mounts: self.mounts.dup(),
            timeout: self.timeout.dup(),
            tty: self.tty.dup(),
            persistent_overlay: self.persistent_overlay.dup(),
        }
    }
}

/// A command to run directly in the guest.
#[derive(Debug, PartialEq, Eq)]
pub struct GuestCommand {
    pub command: Vec<String>,
    pub env: Vec<(String, String)>,
    pub workdir: Option<String>,
    pub timeout: Option<TimeSpan>,
    pub stdin: Option<String>,
    pub tty: bool,
}

/// Mathematical model of a [`GuestCommand`].
pub struct GuestCommandView {
    pub command: Seq<Seq<char>>,
    pub env: Seq<(Seq<char>, Seq<char>)>,
    pub workdir: Option<Seq<char>>,
    pub timeout: Option<TimeSpan>,
    pub stdin: Option<Seq<char>>,
    pub tty: bool,
}

impl Model for GuestCommand {
    type V = GuestCommandView;

    open spec fn model(&self) -> GuestCommandView {
        GuestCommandView {
            command: self.command.model(),
            env: self.env.model(),
            workdir: self.workdir.model(),
            timeout: self.timeout.model(),
            stdin: self.stdin.model(),
            tty: self.tty.model(),
        }
    }

    fn dup(&self) -> (copy: Self) {
        GuestCommand {
            command: self.command.dup(),
            env: self.env.dup(),
            workdir: self.workdir.dup(),
            timeout: self.timeout.dup(),
            stdin: self.stdin.dup(),
            tty: self.tty.dup(),
        }
    }
}

/// A command, in a container or directly in the guest.
#[derive(Debug, PartialEq, Eq)]
pub enum Job {
    Container(RunConfig),
    Guest(GuestCommand),
}

/// Mathematical model of a [`Job`].
pub enum JobView {
    Container(RunConfigView),
    Guest(GuestCommandView),
}

impl Model for Job {
    type V = JobView;

    open spec fn model(&self) -> JobView {
        match self {
            Job::Container(value) => JobView::Container(value.model()),
            Job::Guest(value) => JobView::Guest(value.model()),
        }
    }

    fn dup(&self) -> (copy: Self) {
        match self {
            Job::Container(value) => Job::Container(value.dup()),
            Job::Guest(value) => Job::Guest(value.dup()),
        }
    }
}

/// How an image is pulled.
#[derive(Debug, PartialEq, Eq)]
pub struct PullOptions {
    pub use_registry_config: bool,
    pub oci_platform: Option<String>,
    pub proxy: Option<String>,
    pub no_proxy: Option<String>,
}

/// Mathematical model of a [`PullOptions`].
pub struct PullOptionsView {
    pub use_registry_config: bool,
    pub oci_platform: Option<Seq<char>>,
    pub proxy: Option<Seq<char>>,
    pub no_proxy: Option<Seq<char>>,
}

impl Model for PullOptions {
    type V = PullOptionsView;

    open spec fn model(&self) -> PullOptionsView {
        PullOptionsView {
            use_registry_config: self.use_registry_config.model(),
            oci_platform: self.oci_platform.model(),
            proxy: self.proxy.model(),
            no_proxy: self.no_proxy.model(),
        }
    }

    fn dup(&self) -> (copy: Self) {
        PullOptions {
            use_registry_config: self.use_registry_config.dup(),
            oci_platform: self.oci_platform.dup(),
            proxy: self.proxy.dup(),
            no_proxy: self.no_proxy.dup(),
        }
    }
}

/// What a streamed command produced.
#[derive(Debug, PartialEq, Eq)]
pub enum ExecEvent {
    Stdout(Vec<u8>),
    Stderr(Vec<u8>),
    Exit(i32),
    Error(String),
}

/// Mathematical model of a [`ExecEvent`].
pub enum ExecEventView {
    Stdout(Seq<u8>),
    Stderr(Seq<u8>),
    Exit(i32),
    Error(Seq<char>),
}

impl Model for ExecEvent {
    type V = ExecEventView;

    open spec fn model(&self) -> ExecEventView {
        match self {
            ExecEvent::Stdout(value) => ExecEventView::Stdout(value.model()),
            ExecEvent::Stderr(value) => ExecEventView::Stderr(value.model()),
            ExecEvent::Exit(value) => ExecEventView::Exit(value.model()),
            ExecEvent::Error(value) => ExecEventView::Error(value.model()),
        }
    }

    fn dup(&self) -> (copy: Self) {
        match self {
            ExecEvent::Stdout(value) => ExecEvent::Stdout(value.dup()),
            ExecEvent::Stderr(value) => ExecEvent::Stderr(value.dup()),
            ExecEvent::Exit(value) => ExecEvent::Exit(value.dup()),
            ExecEvent::Error(value) => ExecEvent::Error(value.dup()),
        }
    }
}

/// Law: a container sees every mount of its machine once, in their order: each
/// under its place in the list, at its target, and writable only if it was.
pub proof fn law_containers_see_every_mount(mounts: Seq<(Seq<char>, Seq<char>, bool)>)
    ensures
        bindings_of(mounts).len() == mounts.len(),
        forall|i: int|
            0 <= i < mounts.len() ==> (#[trigger] bindings_of(mounts)[i]).0 == i as usize
                && bindings_of(mounts)[i].1 == mounts[i].1 && bindings_of(mounts)[i].2
                == mounts[i].2,
{
}

/// Law: mounts and ports are stored as they were asked for, in their order.
pub proof fn law_stored_forms_lose_nothing(mounts: Seq<HostMountView>, ports: Seq<PortMapping>)
    ensures
        mount_entries(mounts).len() == mounts.len(),
        forall|i: int|
            0 <= i < mounts.len() ==> (#[trigger] mount_entries(mounts)[i]).0 == mounts[i].source
                && mount_entries(mounts)[i].1 == mounts[i].target && mount_entries(mounts)[i].2
                == mounts[i].read_only,
        port_pairs(ports).len() == ports.len(),
        forall|i: int|
            0 <= i < ports.len() ==> (#[trigger] port_pairs(ports)[i]).0 == ports[i].host
                && port_pairs(ports)[i].1 == ports[i].guest,
{
}

/// Law: a number of seconds is that length of time, and no number is none.
pub proof fn law_seconds_are_whole(secs: Option<u64>)
    ensures
        seconds(secs) is Some <==> secs is Some,
        secs is Some ==> seconds(secs)->0.secs == secs->0 && seconds(secs)->0.nanos == 0,
{
}

/// Law: restart settings that restart nothing count nothing and limit nothing, and the user has stopped
/// nothing.
pub proof fn law_nothing_is_restarted(config: RestartConfig)
    requires
        call_ensures(RestartConfig::none, (), config),
    ensures
        config.model() == no_restart(),
        no_restart().policy is Never,
        no_restart().max_retries == 0 && no_restart().max_backoff_secs == 0
            && no_restart().restart_count == 0,
        !no_restart().user_stopped,
{
}

/// Law: a fresh record holds what it was made of, is in the state of a machine that was just created,
/// and holds nothing else.
pub proof fn law_fresh_record_holds_what_was_given(
    name: Seq<char>,
    cpus: u8,
    mem: u32,
    mounts: Seq<(Seq<char>, Seq<char>, bool)>,
    ports: Seq<(u16, u16)>,
    network: bool,
    restart: RestartConfigView,
    created_at: u64,
)
    ensures
        ({
            let record = fresh_record(
                name,
                cpus,
                mem,
                mounts,
                ports,
                network,
                restart,
                created_at,
            );
            &&& record.name == name && record.cpus == cpus && record.mem == mem && record.mounts
                == mounts && record.ports == ports && record.network == network && record.restart
                == restart && record.created_at == created_at
            &&& record.state is Created && record.pid is None && record.pid_start_time is None
                && record.last_exit_code is None
            &&& record.image is None && record.entrypoint.len() == 0 && record.cmd.len() == 0
                && record.init.len() == 0 && record.env.len() == 0 && record.secret_refs.len() == 0
            &&& record.workdir is None && record.user is None && record.storage_gb is None
                && record.overlay_gb is None && record.gpu is None && record.gpu_vram_mib is None
            &&& record.network_backend is None && record.allowed_cidrs is None
                && record.dns_filter_hosts is None && record.source_smolmachine is None
                && record.golden is None
            &&& record.health_cmd is None && record.health_interval_secs is None
                && record.health_timeout_secs is None && record.health_retries is None
                && record.health_startup_grace_secs is None
            &&& !record.init_completed && !record.ssh_agent && !record.ephemeral
        }),
{
}

} // verus!
