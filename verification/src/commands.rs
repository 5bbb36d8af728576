//! Commands of the command line, as they are given.

use crate::model::Model;
use crate::operation::MachineOperation;
use crate::secrets::{SecretMap, SecretMapView};
use crate::types::{NetworkBackend, NetworkBackendView, PortMapping, RestartPolicy, TimeSpan};
use vstd::prelude::*;

verus! {

/// Proxy settings of an image pull.
#[derive(Debug, PartialEq, Eq)]
pub struct ProxyOpts {
    pub proxy: Option<String>,
    pub no_proxy: Option<String>,
}

/// Mathematical model of a [`ProxyOpts`].
pub struct ProxyOptsView {
    pub proxy: Option<Seq<char>>,
    pub no_proxy: Option<Seq<char>>,
}

impl Model for ProxyOpts {
    type V = ProxyOptsView;

    open spec fn model(&self) -> ProxyOptsView {
        ProxyOptsView {
            proxy: self.proxy.model(),
            no_proxy: self.no_proxy.model(),
        }
    }

    fn dup(&self) -> (copy: Self) {
        ProxyOpts {
            proxy: self.proxy.dup(),
            no_proxy: self.no_proxy.dup(),
        }
    }
}

/// Runs a command in a machine that is started for it.
#[derive(Debug, PartialEq, Eq)]
pub struct RunCmd {
    pub image: Option<String>,
    pub from: Option<String>,
    pub name: Option<String>,
    pub command: Vec<String>,
    pub detach: bool,
    pub interactive: bool,
    pub tty: bool,
    pub timeout: Option<TimeSpan>,
    pub workdir: Option<String>,
    pub env: Vec<String>,
    pub oci_platform: Option<String>,
    pub volume: Vec<String>,
    pub port: Vec<PortMapping>,
    pub net: bool,
    pub net_backend: Option<NetworkBackend>,
    pub allow_cidr: Vec<String>,
    pub allow_host: Vec<String>,
    pub outbound_localhost_only: bool,
    pub gpu: bool,
    pub gpu_vram_mib: Option<u32>,
    pub cpus: u8,
    pub mem: u32,
    pub storage: Option<u64>,
    pub overlay: Option<u64>,
    pub smolfile: Option<String>,
    pub ssh_agent: bool,
    pub docker_config: bool,
    pub secret_env: Vec<String>,
    pub secret_file: Vec<String>,
    pub proxy_opts: ProxyOpts,
}

/// Mathematical model of a [`RunCmd`].
pub struct RunCmdView {
    pub image: Option<Seq<char>>,
    pub from: Option<Seq<char>>,
    pub name: Option<Seq<char>>,
    pub command: Seq<Seq<char>>,
    pub detach: bool,
    pub interactive: bool,
    pub tty: bool,
    pub timeout: Option<TimeSpan>,
    pub workdir: Option<Seq<char>>,
    pub env: Seq<Seq<char>>,
    pub oci_platform: Option<Seq<char>>,
    pub volume: Seq<Seq<char>>,
    pub port: Seq<PortMapping>,
    pub net: bool,
    pub net_backend: Option<NetworkBackendView>,
    pub allow_cidr: Seq<Seq<char>>,
    pub allow_host: Seq<Seq<char>>,
    pub outbound_localhost_only: bool,
    pub gpu: bool,
    pub gpu_vram_mib: Option<u32>,
    pub cpus: u8,
    pub mem: u32,
    pub storage: Option<u64>,
    pub overlay: Option<u64>,
    pub smolfile: Option<Seq<char>>,
    pub ssh_agent: bool,
    pub docker_config: bool,
    pub secret_env: Seq<Seq<char>>,
    pub secret_file: Seq<Seq<char>>,
    pub proxy_opts: ProxyOptsView,
}

impl Model for RunCmd {
    type V = RunCmdView;

    open spec fn model(&self) -> RunCmdView {
        RunCmdView {
            image: self.image.model(),
            from: self.from.model(),
            name: self.name.model(),
            command: self.command.model(),
            detach: self.detach.model(),
            interactive: self.interactive.model(),
            tty: self.tty.model(),
            timeout: self.timeout.model(),
            workdir: self.workdir.model(),
            env: self.env.model(),
            oci_platform: self.oci_platform.model(),
            volume: self.volume.model(),
            port: self.port.model(),
            net: self.net.model(),
            net_backend: self.net_backend.model(),
            allow_cidr: self.allow_cidr.model(),
            allow_host: self.allow_host.model(),
            outbound_localhost_only: self.outbound_localhost_only.model(),
            gpu: self.gpu.model(),
            gpu_vram_mib: self.gpu_vram_mib.model(),
            cpus: self.cpus.model(),
            mem: self.mem.model(),
            storage: self.storage.model(),
            overlay: self.overlay.model(),
            smolfile: self.smolfile.model(),
            ssh_agent: self.ssh_agent.model(),
            docker_config: self.docker_config.model(),
            secret_env: self.secret_env.model(),
            secret_file: self.secret_file.model(),
            proxy_opts: self.proxy_opts.model(),
        }
    }

    fn dup(&self) -> (copy: Self) {
        RunCmd {
            image: self.image.dup(),
            from: self.from.dup(),
            name: self.name.dup(),
            command: self.command.dup(),
            detach: self.detach.dup(),
            interactive: self.interactive.dup(),
            tty: self.tty.dup(),
            timeout: self.timeout.dup(),
            workdir: self.workdir.dup(),
            env: self.env.dup(),
            oci_platform: self.oci_platform.dup(),
            volume: self.volume.dup(),
            port: self.port.dup(),
            net: self.net.dup(),
            net_backend: self.net_backend.dup(),
            allow_cidr: self.allow_cidr.dup(),
            allow_host: self.allow_host.dup(),
            outbound_localhost_only: self.outbound_localhost_only.dup(),
            gpu: self.gpu.dup(),
            gpu_vram_mib: self.gpu_vram_mib.dup(),
            cpus: self.cpus.dup(),
            mem: self.mem.dup(),
            storage: self.storage.dup(),
            overlay: self.overlay.dup(),
            smolfile: self.smolfile.dup(),
            ssh_agent: self.ssh_agent.dup(),
            docker_config: self.docker_config.dup(),
            secret_env: self.secret_env.dup(),
            secret_file: self.secret_file.dup(),
            proxy_opts: self.proxy_opts.dup(),
        }
    }
}

/// Runs a command in a machine.
#[derive(Debug, PartialEq, Eq)]
pub struct ExecCmd {
    pub command: Vec<String>,
    pub name: Option<String>,
    pub workdir: Option<String>,
    pub env: Vec<String>,
    pub secret_env: Vec<String>,
    pub secret_file: Vec<String>,
    pub timeout: Option<TimeSpan>,
    pub interactive: bool,
    pub tty: bool,
    pub stream: bool,
}

/// Mathematical model of a [`ExecCmd`].
pub struct ExecCmdView {
    pub command: Seq<Seq<char>>,
    pub name: Option<Seq<char>>,
    pub workdir: Option<Seq<char>>,
    pub env: Seq<Seq<char>>,
    pub secret_env: Seq<Seq<char>>,
    pub secret_file: Seq<Seq<char>>,
    pub timeout: Option<TimeSpan>,
    pub interactive: bool,
    pub tty: bool,
    pub stream: bool,
}

impl Model for ExecCmd {
    type V = ExecCmdView;

    open spec fn model(&self) -> ExecCmdView {
        ExecCmdView {
            command: self.command.model(),
            name: self.name.model(),
            workdir: self.workdir.model(),
            env: self.env.model(),
            secret_env: self.secret_env.model(),
            secret_file: self.secret_file.model(),
            timeout: self.timeout.model(),
            interactive: self.interactive.model(),
            tty: self.tty.model(),
            stream: self.stream.model(),
        }
    }

    fn dup(&self) -> (copy: Self) {
        ExecCmd {
            command: self.command.dup(),
            name: self.name.dup(),
            workdir: self.workdir.dup(),
            env: self.env.dup(),
            secret_env: self.secret_env.dup(),
            secret_file: self.secret_file.dup(),
            timeout: self.timeout.dup(),
            interactive: self.interactive.dup(),
            tty: self.tty.dup(),
            stream: self.stream.dup(),
        }
    }
}

/// Opens a shell in a machine.
#[derive(Debug, PartialEq, Eq)]
pub struct ShellCmd {
    pub name: Option<String>,
}

/// Mathematical model of a [`ShellCmd`].
pub struct ShellCmdView {
    pub name: Option<Seq<char>>,
}

impl Model for ShellCmd {
    type V = ShellCmdView;

    open spec fn model(&self) -> ShellCmdView {
        ShellCmdView {
            name: self.name.model(),
        }
    }

    fn dup(&self) -> (copy: Self) {
        ShellCmd {
            name: self.name.dup(),
        }
    }
}

/// The command in a machine that opening a shell is short for.
pub open spec fn shell_of(cmd: ShellCmdView) -> ExecCmdView {
    ExecCmdView {
        command: seq!["/bin/sh"@],
        name: cmd.name,
        workdir: None,
        env: Seq::empty(),
        secret_env: Seq::empty(),
        secret_file: Seq::empty(),
        timeout: None,
        interactive: true,
        tty: true,
        stream: false,
    }
}

/// Creates a machine.
#[derive(Debug, PartialEq, Eq)]
pub struct CreateCmd {
    pub name: Option<String>,
    pub image: Option<String>,
    pub cpus: u8,
    pub mem: u32,
    pub storage: Option<u64>,
    pub overlay: Option<u64>,
    pub volume: Vec<String>,
    pub port: Vec<PortMapping>,
    pub net: bool,
    pub net_backend: Option<NetworkBackend>,
    pub allow_cidr: Vec<String>,
    pub allow_host: Vec<String>,
    pub outbound_localhost_only: bool,
    pub gpu: bool,
    pub gpu_vram_mib: Option<u32>,
    pub init: Vec<String>,
    pub env: Vec<String>,
    pub workdir: Option<String>,
    pub ssh_agent: bool,
    pub secret_env: Vec<String>,
    pub secret_file: Vec<String>,
    pub smolfile: Option<String>,
    pub from: Option<String>,
    pub command: Vec<String>,
}

/// Mathematical model of a [`CreateCmd`].
pub struct CreateCmdView {
    pub name: Option<Seq<char>>,
    pub image: Option<Seq<char>>,
    pub cpus: u8,
    pub mem: u32,
    pub storage: Option<u64>,
    pub overlay: Option<u64>,
    pub volume: Seq<Seq<char>>,
    pub port: Seq<PortMapping>,
    pub net: bool,
    pub net_backend: Option<NetworkBackendView>,
    pub allow_cidr: Seq<Seq<char>>,
    pub allow_host: Seq<Seq<char>>,
    pub outbound_localhost_only: bool,
    pub gpu: bool,
    pub gpu_vram_mib: Option<u32>,
    pub init: Seq<Seq<char>>,
    pub env: Seq<Seq<char>>,
    pub workdir: Option<Seq<char>>,
    pub ssh_agent: bool,
    pub secret_env: Seq<Seq<char>>,
    pub secret_file: Seq<Seq<char>>,
    pub smolfile: Option<Seq<char>>,
    pub from: Option<Seq<char>>,
    pub command: Seq<Seq<char>>,
}

impl Model for CreateCmd {
    type V = CreateCmdView;

    open spec fn model(&self) -> CreateCmdView {
        CreateCmdView {
            name: self.name.model(),
            image: self.image.model(),
            cpus: self.cpus.model(),
            mem: self.mem.model(),
            storage: self.storage.model(),
            overlay: self.overlay.model(),
            volume: self.volume.model(),
            port: self.port.model(),
            net: self.net.model(),
            net_backend: self.net_backend.model(),
            allow_cidr: self.allow_cidr.model(),
            allow_host: self.allow_host.model(),
            outbound_localhost_only: self.outbound_localhost_only.model(),
            gpu: self.gpu.model(),
            gpu_vram_mib: self.gpu_vram_mib.model(),
            init: self.init.model(),
            env: self.env.model(),
            workdir: self.workdir.model(),
            ssh_agent: self.ssh_agent.model(),
            secret_env: self.secret_env.model(),
            secret_file: self.secret_file.model(),
            smolfile: self.smolfile.model(),
            from: self.from.model(),
            command: self.command.model(),
        }
    }

    fn dup(&self) -> (copy: Self) {
        CreateCmd {
            name: self.name.dup(),
            image: self.image.dup(),
            cpus: self.cpus.dup(),
            mem: self.mem.dup(),
            storage: self.storage.dup(),
            overlay: self.overlay.dup(),
            volume: self.volume.dup(),
            port: self.port.dup(),
            net: self.net.dup(),
            net_backend: self.net_backend.dup(),
            allow_cidr: self.allow_cidr.dup(),
            allow_host: self.allow_host.dup(),
            outbound_localhost_only: self.outbound_localhost_only.dup(),
            gpu: self.gpu.dup(),
            gpu_vram_mib: self.gpu_vram_mib.dup(),
            init: self.init.dup(),
            env: self.env.dup(),
            workdir: self.workdir.dup(),
            ssh_agent: self.ssh_agent.dup(),
            secret_env: self.secret_env.dup(),
            secret_file: self.secret_file.dup(),
            smolfile: self.smolfile.dup(),
            from: self.from.dup(),
            command: self.command.dup(),
        }
    }
}

/// Starts a machine.
#[derive(Debug, PartialEq, Eq)]
pub struct StartCmd {
    pub name: Option<String>,
    pub forkable: bool,
    pub proxy_opts: ProxyOpts,
}

/// Mathematical model of a [`StartCmd`].
pub struct StartCmdView {
    pub name: Option<Seq<char>>,
    pub forkable: bool,
    pub proxy_opts: ProxyOptsView,
}

impl Model for StartCmd {
    type V = StartCmdView;

    open spec fn model(&self) -> StartCmdView {
        StartCmdView {
            name: self.name.model(),
            forkable: self.forkable.model(),
            proxy_opts: self.proxy_opts.model(),
        }
    }

    fn dup(&self) -> (copy: Self) {
        StartCmd {
            name: self.name.dup(),
            forkable: self.forkable.dup(),
            proxy_opts: self.proxy_opts.dup(),
        }
    }
}

/// Clones a running machine.
#[derive(Debug, PartialEq, Eq)]
pub struct ForkCmd {
    pub golden: String,
    pub clone: String,
    pub forkable: bool,
    pub port: Vec<PortMapping>,
}

/// Mathematical model of a [`ForkCmd`].
pub struct ForkCmdView {
    pub golden: Seq<char>,
    pub clone: Seq<char>,
    pub forkable: bool,
    pub port: Seq<PortMapping>,
}

impl Model for ForkCmd {
    type V = ForkCmdView;

    open spec fn model(&self) -> ForkCmdView {
        ForkCmdView {
            golden: self.golden.model(),
            clone: self.clone.model(),
            forkable: self.forkable.model(),
            port: self.port.model(),
        }
    }

    fn dup(&self) -> (copy: Self) {
        ForkCmd {
            golden: self.golden.dup(),
            clone: self.clone.dup(),
            forkable: self.forkable.dup(),
            port: self.port.dup(),
        }
    }
}

/// Stops a machine.
#[derive(Debug, PartialEq, Eq)]
pub struct StopCmd {
    pub name: Option<String>,
}

/// Mathematical model of a [`StopCmd`].
pub struct StopCmdView {
    pub name: Option<Seq<char>>,
}

impl Model for StopCmd {
    type V = StopCmdView;

    open spec fn model(&self) -> StopCmdView {
        StopCmdView {
            name: self.name.model(),
        }
    }

    fn dup(&self) -> (copy: Self) {
        StopCmd {
            name: self.name.dup(),
        }
    }
}

/// Deletes a machine.
#[derive(Debug, PartialEq, Eq)]
pub struct DeleteCmd {
    pub name: String,
    pub force: bool,
}

/// Mathematical model of a [`DeleteCmd`].
pub struct DeleteCmdView {
    pub name: Seq<char>,
    pub force: bool,
}

impl Model for DeleteCmd {
    type V = DeleteCmdView;

    open spec fn model(&self) -> DeleteCmdView {
        DeleteCmdView {
            name: self.name.model(),
            force: self.force.model(),
        }
    }

    fn dup(&self) -> (copy: Self) {
        DeleteCmd {
            name: self.name.dup(),
            force: self.force.dup(),
        }
    }
}

/// Shows a machine.
#[derive(Debug, PartialEq, Eq)]
pub struct StatusCmd {
    pub name: Option<String>,
    pub json: bool,
}

/// Mathematical model of a [`StatusCmd`].
pub struct StatusCmdView {
    pub name: Option<Seq<char>>,
    pub json: bool,
}

impl Model for StatusCmd {
    type V = StatusCmdView;

    open spec fn model(&self) -> StatusCmdView {
        StatusCmdView {
            name: self.name.model(),
            json: self.json.model(),
        }
    }

    fn dup(&self) -> (copy: Self) {
        StatusCmd {
            name: self.name.dup(),
            json: self.json.dup(),
        }
    }
}

/// Lists machines.
#[derive(Debug, PartialEq, Eq)]
pub struct LsCmd {
    pub verbose: bool,
    pub json: bool,
}

/// Mathematical model of a [`LsCmd`].
pub struct LsCmdView {
    pub verbose: bool,
    pub json: bool,
}

impl Model for LsCmd {
    type V = LsCmdView;

    open spec fn model(&self) -> LsCmdView {
        LsCmdView {
            verbose: self.verbose.model(),
            json: self.json.model(),
        }
    }

    fn dup(&self) -> (copy: Self) {
        LsCmd {
            verbose: self.verbose.dup(),
            json: self.json.dup(),
        }
    }
}

/// Enlarges the disks of a machine.
#[derive(Debug, PartialEq, Eq)]
pub struct ResizeCmd {
    pub name: Option<String>,
    pub storage: Option<u64>,
    pub overlay: Option<u64>,
}

/// Mathematical model of a [`ResizeCmd`].
pub struct ResizeCmdView {
    pub name: Option<Seq<char>>,
    pub storage: Option<u64>,
    pub overlay: Option<u64>,
}

impl Model for ResizeCmd {
    type V = ResizeCmdView;

    open spec fn model(&self) -> ResizeCmdView {
        ResizeCmdView {
            name: self.name.model(),
            storage: self.storage.model(),
            overlay: self.overlay.model(),
        }
    }

    fn dup(&self) -> (copy: Self) {
        ResizeCmd {
            name: self.name.dup(),
            storage: self.storage.dup(),
            overlay: self.overlay.dup(),
        }
    }
}

/// Changes the settings of a machine.
#[derive(Debug, PartialEq, Eq)]
pub struct UpdateCmd {
    pub name: String,
    pub volume: Vec<String>,
    pub remove_volume: Vec<String>,
    pub port: Vec<PortMapping>,
    pub remove_port: Vec<PortMapping>,
    pub cpus: Option<u8>,
    pub mem: Option<u32>,
    pub net: bool,
    pub no_net: bool,
    pub env: Vec<String>,
    pub remove_env: Vec<String>,
    pub workdir: Option<String>,
    pub gpu: bool,
    pub no_gpu: bool,
    pub storage: Option<u64>,
    pub overlay: Option<u64>,
}

/// Mathematical model of a [`UpdateCmd`].
pub struct UpdateCmdView {
    pub name: Seq<char>,
    pub volume: Seq<Seq<char>>,
    pub remove_volume: Seq<Seq<char>>,
    pub port: Seq<PortMapping>,
    pub remove_port: Seq<PortMapping>,
    pub cpus: Option<u8>,
    pub mem: Option<u32>,
    pub net: bool,
    pub no_net: bool,
    pub env: Seq<Seq<char>>,
    pub remove_env: Seq<Seq<char>>,
    pub workdir: Option<Seq<char>>,
    pub gpu: bool,
    pub no_gpu: bool,
    pub storage: Option<u64>,
    pub overlay: Option<u64>,
}

impl Model for UpdateCmd {
    type V = UpdateCmdView;

    open spec fn model(&self) -> UpdateCmdView {
        UpdateCmdView {
            name: self.name.model(),
            volume: self.volume.model(),
            remove_volume: self.remove_volume.model(),
            port: self.port.model(),
            remove_port: self.remove_port.model(),
            cpus: self.cpus.model(),
            mem: self.mem.model(),
            net: self.net.model(),
            no_net: self.no_net.model(),
            env: self.env.model(),
            remove_env: self.remove_env.model(),
            workdir: self.workdir.model(),
            gpu: self.gpu.model(),
            no_gpu: self.no_gpu.model(),
            storage: self.storage.model(),
            overlay: self.overlay.model(),
        }
    }

    fn dup(&self) -> (copy: Self) {
        UpdateCmd {
            name: self.name.dup(),
            volume: self.volume.dup(),
            remove_volume: self.remove_volume.dup(),
            port: self.port.dup(),
            remove_port: self.remove_port.dup(),
            cpus: self.cpus.dup(),
            mem: self.mem.dup(),
            net: self.net.dup(),
            no_net: self.no_net.dup(),
            env: self.env.dup(),
            remove_env: self.remove_env.dup(),
            workdir: self.workdir.dup(),
            gpu: self.gpu.dup(),
            no_gpu: self.no_gpu.dup(),
            storage: self.storage.dup(),
            overlay: self.overlay.dup(),
        }
    }
}

/// Shows the data directory of a machine.
#[derive(Debug, PartialEq, Eq)]
pub struct DataDirCmd {
    pub name: String,
}

/// Mathematical model of a [`DataDirCmd`].
pub struct DataDirCmdView {
    pub name: Seq<char>,
}

impl Model for DataDirCmd {
    type V = DataDirCmdView;

    open spec fn model(&self) -> DataDirCmdView {
        DataDirCmdView {
            name: self.name.model(),
        }
    }

    fn dup(&self) -> (copy: Self) {
        DataDirCmd {
            name: self.name.dup(),
        }
    }
}

/// Tests the network of a machine.
#[derive(Debug, PartialEq, Eq)]
pub struct NetworkTestCmd {
    pub name: Option<String>,
    pub url: String,
}

/// Mathematical model of a [`NetworkTestCmd`].
pub struct NetworkTestCmdView {
    pub name: Option<Seq<char>>,
    pub url: Seq<char>,
}

impl Model for NetworkTestCmd {
    type V = NetworkTestCmdView;

    open spec fn model(&self) -> NetworkTestCmdView {
        NetworkTestCmdView {
            name: self.name.model(),
            url: self.url.model(),
        }
    }

    fn dup(&self) -> (copy: Self) {
        NetworkTestCmd {
            name: self.name.dup(),
            url: self.url.dup(),
        }
    }
}

/// Shows the image storage of a machine.
#[derive(Debug, PartialEq, Eq)]
pub struct ImagesCmd {
    pub name: String,
    pub json: bool,
}

/// Mathematical model of a [`ImagesCmd`].
pub struct ImagesCmdView {
    pub name: Seq<char>,
    pub json: bool,
}

impl Model for ImagesCmd {
    type V = ImagesCmdView;

    open spec fn model(&self) -> ImagesCmdView {
        ImagesCmdView {
            name: self.name.model(),
            json: self.json.model(),
        }
    }

    fn dup(&self) -> (copy: Self) {
        ImagesCmd {
            name: self.name.dup(),
            json: self.json.dup(),
        }
    }
}

/// Removes cached images or layers.
#[derive(Debug, PartialEq, Eq)]
pub struct PruneCmd {
    pub name: String,
    pub dry_run: bool,
    pub all: bool,
}

/// Mathematical model of a [`PruneCmd`].
pub struct PruneCmdView {
    pub name: Seq<char>,
    pub dry_run: bool,
    pub all: bool,
}

impl Model for PruneCmd {
    type V = PruneCmdView;

    open spec fn model(&self) -> PruneCmdView {
        PruneCmdView {
            name: self.name.model(),
            dry_run: self.dry_run.model(),
            all: self.all.model(),
        }
    }

    fn dup(&self) -> (copy: Self) {
        PruneCmd {
            name: self.name.dup(),
            dry_run: self.dry_run.dup(),
            all: self.all.dup(),
        }
    }
}

/// Copies a file between the host and a machine.
#[derive(Debug, PartialEq, Eq)]
pub struct CpCmd {
    pub src: String,
    pub dst: String,
}

/// Mathematical model of a [`CpCmd`].
pub struct CpCmdView {
    pub src: Seq<char>,
    pub dst: Seq<char>,
}

impl Model for CpCmd {
    type V = CpCmdView;

    open spec fn model(&self) -> CpCmdView {
        CpCmdView {
            src: self.src.model(),
            dst: self.dst.model(),
        }
    }

    fn dup(&self) -> (copy: Self) {
        CpCmd {
            src: self.src.dup(),
            dst: self.dst.dup(),
        }
    }
}

/// Watches a machine.
#[derive(Debug, PartialEq, Eq)]
pub struct MonitorCmd {
    pub name: Option<String>,
    pub restart: Option<String>,
    pub health_cmd: Option<String>,
    pub health_timeout: u64,
    pub interval: u64,
    pub health_retries: u32,
}

/// Mathematical model of a [`MonitorCmd`].
pub struct MonitorCmdView {
    pub name: Option<Seq<char>>,
    pub restart: Option<Seq<char>>,
    pub health_cmd: Option<Seq<char>>,
    pub health_timeout: u64,
    pub interval: u64,
    pub health_retries: u32,
}

impl Model for MonitorCmd {
    type V = MonitorCmdView;

    open spec fn model(&self) -> MonitorCmdView {
        MonitorCmdView {
            name: self.name.model(),
            restart: self.restart.model(),
            health_cmd: self.health_cmd.model(),
            health_timeout: self.health_timeout.model(),
            interval: self.interval.model(),
            health_retries: self.health_retries.model(),
        }
    }

    fn dup(&self) -> (copy: Self) {
        MonitorCmd {
            name: self.name.dup(),
            restart: self.restart.dup(),
            health_cmd: self.health_cmd.dup(),
            health_timeout: self.health_timeout.dup(),
            interval: self.interval.dup(),
            health_retries: self.health_retries.dup(),
        }
    }
}

/// A command about machines.
#[derive(Debug, PartialEq, Eq)]
pub enum MachineCmd {
    Run(RunCmd),
    Exec(ExecCmd),
    Create(CreateCmd),
    Start(StartCmd),
    Fork(ForkCmd),
    Stop(StopCmd),
    Delete(DeleteCmd),
    Status(StatusCmd),
    Ls(LsCmd),
    Resize(ResizeCmd),
    Update(UpdateCmd),
    Images(ImagesCmd),
    Prune(PruneCmd),
    Shell(ShellCmd),
    Cp(CpCmd),
    Monitor(MonitorCmd),
    NetworkTest(NetworkTestCmd),
    DataDir(DataDirCmd),
}

/// Mathematical model of a [`MachineCmd`].
pub enum MachineCmdView {
    Run(RunCmdView),
    Exec(ExecCmdView),
    Create(CreateCmdView),
    Start(StartCmdView),
    Fork(ForkCmdView),
    Stop(StopCmdView),
    Delete(DeleteCmdView),
    Status(StatusCmdView),
    Ls(LsCmdView),
    Resize(ResizeCmdView),
    Update(UpdateCmdView),
    Images(ImagesCmdView),
    Prune(PruneCmdView),
    Shell(ShellCmdView),
    Cp(CpCmdView),
    Monitor(MonitorCmdView),
    NetworkTest(NetworkTestCmdView),
    DataDir(DataDirCmdView),
}

impl Model for MachineCmd {
    type V = MachineCmdView;

    open spec fn model(&self) -> MachineCmdView {
        match self {
            MachineCmd::Run(value) => MachineCmdView::Run(value.model()),
            MachineCmd::Exec(value) => MachineCmdView::Exec(value.model()),
            MachineCmd::Create(value) => MachineCmdView::Create(value.model()),
            MachineCmd::Start(value) => MachineCmdView::Start(value.model()),
            MachineCmd::Fork(value) => MachineCmdView::Fork(value.model()),
            MachineCmd::Stop(value) => MachineCmdView::Stop(value.model()),
            MachineCmd::Delete(value) => MachineCmdView::Delete(value.model()),
            MachineCmd::Status(value) => MachineCmdView::Status(value.model()),
            MachineCmd::Ls(value) => MachineCmdView::Ls(value.model()),
            MachineCmd::Resize(value) => MachineCmdView::Resize(value.model()),
            MachineCmd::Update(value) => MachineCmdView::Update(value.model()),
            MachineCmd::Images(value) => MachineCmdView::Images(value.model()),
            MachineCmd::Prune(value) => MachineCmdView::Prune(value.model()),
            MachineCmd::Shell(value) => MachineCmdView::Shell(value.model()),
            MachineCmd::Cp(value) => MachineCmdView::Cp(value.model()),
            MachineCmd::Monitor(value) => MachineCmdView::Monitor(value.model()),
            MachineCmd::NetworkTest(value) => MachineCmdView::NetworkTest(value.model()),
            MachineCmd::DataDir(value) => MachineCmdView::DataDir(value.model()),
        }
    }

    fn dup(&self) -> (copy: Self) {
        match self {
            MachineCmd::Run(value) => MachineCmd::Run(value.dup()),
            MachineCmd::Exec(value) => MachineCmd::Exec(value.dup()),
            MachineCmd::Create(value) => MachineCmd::Create(value.dup()),
            MachineCmd::Start(value) => MachineCmd::Start(value.dup()),
            MachineCmd::Fork(value) => MachineCmd::Fork(value.dup()),
            MachineCmd::Stop(value) => MachineCmd::Stop(value.dup()),
            MachineCmd::Delete(value) => MachineCmd::Delete(value.dup()),
            MachineCmd::Status(value) => MachineCmd::Status(value.dup()),
            MachineCmd::Ls(value) => MachineCmd::Ls(value.dup()),
            MachineCmd::Resize(value) => MachineCmd::Resize(value.dup()),
            MachineCmd::Update(value) => MachineCmd::Update(value.dup()),
            MachineCmd::Images(value) => MachineCmd::Images(value.dup()),
            MachineCmd::Prune(value) => MachineCmd::Prune(value.dup()),
            MachineCmd::Shell(value) => MachineCmd::Shell(value.dup()),
            MachineCmd::Cp(value) => MachineCmd::Cp(value.dup()),
            MachineCmd::Monitor(value) => MachineCmd::Monitor(value.dup()),
            MachineCmd::NetworkTest(value) => MachineCmd::NetworkTest(value.dup()),
            MachineCmd::DataDir(value) => MachineCmd::DataDir(value.dup()),
        }
    }
}

/// The operation of the machine service that a command is for.
pub open spec fn operation_of(cmd: MachineCmdView) -> MachineOperation {
    match cmd {
        MachineCmdView::Run(_) => MachineOperation::RunSession,
        MachineCmdView::Exec(cmd) => if cmd.stream {
            MachineOperation::ExecStream
        } else if cmd.interactive || cmd.tty {
            MachineOperation::ExecInteractive
        } else {
            MachineOperation::Exec
        },
        MachineCmdView::Create(_) => MachineOperation::Create,
        MachineCmdView::Start(_) => MachineOperation::Start,
        MachineCmdView::Fork(_) => MachineOperation::Fork,
        MachineCmdView::Stop(_) => MachineOperation::Stop,
        MachineCmdView::Delete(_) => MachineOperation::Delete,
        MachineCmdView::Status(_) => MachineOperation::Status,
        MachineCmdView::Ls(_) => MachineOperation::List,
        MachineCmdView::Resize(_) => MachineOperation::Update,
        MachineCmdView::Update(_) => MachineOperation::Update,
        MachineCmdView::Images(_) => MachineOperation::ListImages,
        MachineCmdView::Prune(_) => MachineOperation::PruneImages,
        MachineCmdView::Shell(_) => MachineOperation::ExecInteractive,
        MachineCmdView::Cp(_) => MachineOperation::DownloadFile,
        MachineCmdView::Monitor(_) => MachineOperation::Monitor,
        MachineCmdView::NetworkTest(_) => MachineOperation::NetworkTest,
        MachineCmdView::DataDir(_) => MachineOperation::DataDir,
    }
}

impl MachineCmd {
    /// Tells the operation of the machine service that a command is for.
    pub fn primary_operation(&self) -> (operation: MachineOperation)
        ensures
            operation == operation_of(self.model()),
    {
        match self {
            MachineCmd::Run(_) => MachineOperation::RunSession,
            MachineCmd::Exec(cmd) => if cmd.stream {
                MachineOperation::ExecStream
            } else if cmd.interactive || cmd.tty {
                MachineOperation::ExecInteractive
            } else {
                MachineOperation::Exec
            },
            MachineCmd::Create(_) => MachineOperation::Create,
            MachineCmd::Start(_) => MachineOperation::Start,
            MachineCmd::Fork(_) => MachineOperation::Fork,
            MachineCmd::Stop(_) => MachineOperation::Stop,
            MachineCmd::Delete(_) => MachineOperation::Delete,
            MachineCmd::Status(_) => MachineOperation::Status,
            MachineCmd::Ls(_) => MachineOperation::List,
            MachineCmd::Resize(_) => MachineOperation::Update,
            MachineCmd::Update(_) => MachineOperation::Update,
            MachineCmd::Images(_) => MachineOperation::ListImages,
            MachineCmd::Prune(_) => MachineOperation::PruneImages,
            MachineCmd::Shell(_) => MachineOperation::ExecInteractive,
            MachineCmd::Cp(_) => MachineOperation::DownloadFile,
            MachineCmd::Monitor(_) => MachineOperation::Monitor,
            MachineCmd::NetworkTest(_) => MachineOperation::NetworkTest,
            MachineCmd::DataDir(_) => MachineOperation::DataDir,
        }
    }

    /// Tells whether left-over machines are cleaned up before a command.
    pub fn cleans_up(&self) -> (cleans: bool)
        ensures
            cleans == !(self.model() is Run),
    {
        match self {
            MachineCmd::Run(_) => false,
            _ => true,
        }
    }
}

/// What the settings of a new machine are made from: flags, and a file of
/// settings.
#[derive(Debug, PartialEq, Eq)]
pub struct ParamsRequest {
    pub name: String,
    pub image: Option<String>,
    pub entrypoint: Option<String>,
    pub command: Vec<String>,
    pub cpus: u8,
    pub mem: u32,
    pub volume: Vec<String>,
    pub port: Vec<PortMapping>,
    pub net: bool,
    pub network_backend: Option<NetworkBackend>,
    pub init: Vec<String>,
    pub env: Vec<String>,
    pub workdir: Option<String>,
    pub smolfile: Option<String>,
    pub storage: Option<u64>,
    pub overlay: Option<u64>,
    pub allow_cidrs: Vec<String>,
}

/// Mathematical model of a [`ParamsRequest`].
pub struct ParamsRequestView {
    pub name: Seq<char>,
    pub image: Option<Seq<char>>,
    pub entrypoint: Option<Seq<char>>,
    pub command: Seq<Seq<char>>,
    pub cpus: u8,
    pub mem: u32,
    pub volume: Seq<Seq<char>>,
    pub port: Seq<PortMapping>,
    pub net: bool,
    pub network_backend: Option<NetworkBackendView>,
    pub init: Seq<Seq<char>>,
    pub env: Seq<Seq<char>>,
    pub workdir: Option<Seq<char>>,
    pub smolfile: Option<Seq<char>>,
    pub storage: Option<u64>,
    pub overlay: Option<u64>,
    pub allow_cidrs: Seq<Seq<char>>,
}

impl Model for ParamsRequest {
    type V = ParamsRequestView;

    open spec fn model(&self) -> ParamsRequestView {
        ParamsRequestView {
            name: self.name.model(),
            image: self.image.model(),
            entrypoint: self.entrypoint.model(),
            command: self.command.model(),
            cpus: self.cpus.model(),
            mem: self.mem.model(),
            volume: self.volume.model(),
            port: self.port.model(),
            net: self.net.model(),
            network_backend: self.network_backend.model(),
            init: self.init.model(),
            env: self.env.model(),
            workdir: self.workdir.model(),
            smolfile: self.smolfile.model(),
            storage: self.storage.model(),
            overlay: self.overlay.model(),
            allow_cidrs: self.allow_cidrs.model(),
        }
    }

    fn dup(&self) -> (copy: Self) {
        ParamsRequest {
            name: self.name.dup(),
            image: self.image.dup(),
            entrypoint: self.entrypoint.dup(),
            command: self.command.dup(),
            cpus: self.cpus.dup(),
            mem: self.mem.dup(),
            volume: self.volume.dup(),
            port: self.port.dup(),
            net: self.net.dup(),
            network_backend: self.network_backend.dup(),
            init: self.init.dup(),
            env: self.env.dup(),
            workdir: self.workdir.dup(),
            smolfile: self.smolfile.dup(),
            storage: self.storage.dup(),
            overlay: self.overlay.dup(),
            allow_cidrs: self.allow_cidrs.dup(),
        }
    }
}

/// The settings of a new machine.
#[derive(Debug, PartialEq, Eq)]
pub struct CreateVmParams {
    pub name: String,
    pub image: Option<String>,
    pub entrypoint: Vec<String>,
    pub cmd: Vec<String>,
    pub cpus: u8,
    pub mem: u32,
    pub volume: Vec<String>,
    pub port: Vec<PortMapping>,
    pub net: bool,
    pub network_backend: Option<NetworkBackend>,
    pub init: Vec<String>,
    pub env: Vec<String>,
    pub workdir: Option<String>,
    pub storage_gb: Option<u64>,
    pub overlay_gb: Option<u64>,
    pub allowed_cidrs: Option<Vec<String>>,
    pub restart_policy: Option<RestartPolicy>,
    pub restart_max_retries: Option<u32>,
    pub restart_max_backoff_secs: Option<u64>,
    pub health_cmd: Option<Vec<String>>,
    pub health_interval_secs: Option<u64>,
    pub health_timeout_secs: Option<u64>,
    pub health_retries: Option<u32>,
    pub health_startup_grace_secs: Option<u64>,
    pub ssh_agent: bool,
    pub gpu: bool,
    pub gpu_vram_mib: Option<u32>,
    pub dns_filter_hosts: Option<Vec<String>>,
    pub source_smolmachine: Option<String>,
    pub secret_refs: SecretMap,
}

/// Mathematical model of a [`CreateVmParams`].
pub struct CreateVmParamsView {
    pub name: Seq<char>,
    pub image: Option<Seq<char>>,
    pub entrypoint: Seq<Seq<char>>,
    pub cmd: Seq<Seq<char>>,
    pub cpus: u8,
    pub mem: u32,
    pub volume: Seq<Seq<char>>,
    pub port: Seq<PortMapping>,
    pub net: bool,
    pub network_backend: Option<NetworkBackendView>,
    pub init: Seq<Seq<char>>,
    pub env: Seq<Seq<char>>,
    pub workdir: Option<Seq<char>>,
    pub storage_gb: Option<u64>,
    pub overlay_gb: Option<u64>,
    pub allowed_cidrs: Option<Seq<Seq<char>>>,
    pub restart_policy: Option<RestartPolicy>,
    pub restart_max_retries: Option<u32>,
    pub restart_max_backoff_secs: Option<u64>,
    pub health_cmd: Option<Seq<Seq<char>>>,
    pub health_interval_secs: Option<u64>,
    pub health_timeout_secs: Option<u64>,
    pub health_retries: Option<u32>,
    pub health_startup_grace_secs: Option<u64>,
    pub ssh_agent: bool,
    pub gpu: bool,
    pub gpu_vram_mib: Option<u32>,
    pub dns_filter_hosts: Option<Seq<Seq<char>>>,
    pub source_smolmachine: Option<Seq<char>>,
    pub secret_refs: SecretMapView,
}

impl Model for CreateVmParams {
    type V = CreateVmParamsView;

    open spec fn model(&self) -> CreateVmParamsView {
        CreateVmParamsView {
            name: self.name.model(),
            image: self.image.model(),
            entrypoint: self.entrypoint.model(),
            cmd: self.cmd.model(),
            cpus: self.cpus.model(),
            mem: self.mem.model(),
            volume: self.volume.model(),
            port: self.port.model(),
            net: self.net.model(),
            network_backend: self.network_backend.model(),
            init: self.init.model(),
            env: self.env.model(),
            workdir: self.workdir.model(),
            storage_gb: self.storage_gb.model(),
            overlay_gb: self.overlay_gb.model(),
            allowed_cidrs: self.allowed_cidrs.model(),
            restart_policy: self.restart_policy.model(),
            restart_max_retries: self.restart_max_retries.model(),
            restart_max_backoff_secs: self.restart_max_backoff_secs.model(),
            health_cmd: self.health_cmd.model(),
            health_interval_secs: self.health_interval_secs.model(),
            health_timeout_secs: self.health_timeout_secs.model(),
            health_retries: self.health_retries.model(),
            health_startup_grace_secs: self.health_startup_grace_secs.model(),
            ssh_agent: self.ssh_agent.model(),
            gpu: self.gpu.model(),
            gpu_vram_mib: self.gpu_vram_mib.model(),
            dns_filter_hosts: self.dns_filter_hosts.model(),
            source_smolmachine: self.source_smolmachine.model(),
            secret_refs: self.secret_refs.model(),
        }
    }

    fn dup(&self) -> (copy: Self) {
        CreateVmParams {
            name: self.name.dup(),
            image: self.image.dup(),
            entrypoint: self.entrypoint.dup(),
            cmd: self.cmd.dup(),
            cpus: self.cpus.dup(),
            mem: self.mem.dup(),
            volume: self.volume.dup(),
            port: self.port.dup(),
            net: self.net.dup(),
            network_backend: self.network_backend.dup(),
            init: self.init.dup(),
            env: self.env.dup(),
            workdir: self.workdir.dup(),
            storage_gb: self.storage_gb.dup(),
            overlay_gb: self.overlay_gb.dup(),
            allowed_cidrs: self.allowed_cidrs.dup(),
            restart_policy: self.restart_policy.dup(),
            restart_max_retries: self.restart_max_retries.dup(),
            restart_max_backoff_secs: self.restart_max_backoff_secs.dup(),
            health_cmd: self.health_cmd.dup(),
            health_interval_secs: self.health_interval_secs.dup(),
            health_timeout_secs: self.health_timeout_secs.dup(),
            health_retries: self.health_retries.dup(),
            health_startup_grace_secs: self.health_startup_grace_secs.dup(),
            ssh_agent: self.ssh_agent.dup(),
            gpu: self.gpu.dup(),
            gpu_vram_mib: self.gpu_vram_mib.dup(),
            dns_filter_hosts: self.dns_filter_hosts.dup(),
            source_smolmachine: self.source_smolmachine.dup(),
            secret_refs: self.secret_refs.dup(),
        }
    }
}

/// Law: a command is for the operation of its name; one in a machine is streamed where that was asked
/// for, else interactive where it has input or a terminal, and a shell is interactive.
pub proof fn law_commands_are_for_their_operation(cmd: MachineCmdView)
    ensures
        cmd is Run <==> operation_of(cmd) is RunSession,
        cmd is Create <==> operation_of(cmd) is Create,
        cmd is Start <==> operation_of(cmd) is Start,
        cmd is Fork <==> operation_of(cmd) is Fork,
        cmd is Stop <==> operation_of(cmd) is Stop,
        cmd is Delete <==> operation_of(cmd) is Delete,
        cmd is Status <==> operation_of(cmd) is Status,
        cmd is Ls <==> operation_of(cmd) is List,
        cmd is Resize || cmd is Update <==> operation_of(cmd) is Update,
        cmd is Images <==> operation_of(cmd) is ListImages,
        cmd is Prune <==> operation_of(cmd) is PruneImages,
        cmd is Cp <==> operation_of(cmd) is DownloadFile,
        cmd is Monitor <==> operation_of(cmd) is Monitor,
        cmd is NetworkTest <==> operation_of(cmd) is NetworkTest,
        cmd is DataDir <==> operation_of(cmd) is DataDir,
        cmd is Shell ==> operation_of(cmd) is ExecInteractive,
        cmd matches MachineCmdView::Exec(exec) ==> {
            &&& operation_of(cmd) is ExecStream <==> exec.stream
            &&& operation_of(cmd) is ExecInteractive <==> !exec.stream && (exec.interactive
                || exec.tty)
            &&& operation_of(cmd) is Exec <==> !exec.stream && !exec.interactive && !exec.tty
        },
{
}

} // verus!
