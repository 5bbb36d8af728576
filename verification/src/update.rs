//! Changes to the settings of a stopped machine.

use crate::env::{apply_env_override, remove_variable, with_variable, without_key, EnvView};
use crate::model::{empty_list, first_some, push_to, Model};
use crate::requests::{UpdateMachine, UpdateMachineView};
use crate::text::{cat2, cat3, cat4, cat5, decimal, number, own, same_text};
use crate::types::{mount_entry, HostMount, HostMountView, PortMapping, VmRecord, VmRecordView};
use vstd::prelude::*;

verus! {

/// Model of stored mounts: source, target and whether it is read-only.
pub type MountsView = Seq<(Seq<char>, Seq<char>, bool)>;

/// Model of a list of messages.
pub type NotesView = Seq<Seq<char>>;

/// `notes`, and `text` after them if `when` holds.
pub open spec fn noted(notes: NotesView, when: bool, text: Seq<char>) -> NotesView {
    if when {
        notes.push(text)
    } else {
        notes
    }
}

/// The mounts without those from `source` to `target`.
pub open spec fn without_mount(
    mounts: MountsView,
    source: Seq<char>,
    target: Seq<char>,
) -> MountsView {
    mounts.filter(|entry: (Seq<char>, Seq<char>, bool)| entry.0 != source || entry.1 != target)
}

/// Whether there is a mount from `source` to `target`.
pub open spec fn has_mount(mounts: MountsView, source: Seq<char>, target: Seq<char>) -> bool {
    exists|i: int|
        0 <= i < mounts.len() && (#[trigger] mounts[i]).0 == source && mounts[i].1 == target
}

/// The mounts, and the notes, after removing one mount.
pub open spec fn one_mount_removed(
    state: (MountsView, NotesView),
    mount: HostMountView,
) -> (MountsView, NotesView) {
    let left = without_mount(state.0, mount.source, mount.target);
    (
        left,
        noted(
            state.1,
            left.len() < state.0.len(),
            "removed volume: "@ + mount.source + ":"@ + mount.target,
        ),
    )
}

/// The mounts, and the notes, after removing several mounts.
pub open spec fn mounts_removed(
    state: (MountsView, NotesView),
    removed: Seq<HostMountView>,
) -> (MountsView, NotesView)
    decreases removed.len(),
{
    if removed.len() == 0 {
        state
    } else {
        one_mount_removed(mounts_removed(state, removed.drop_last()), removed.last())
    }
}

/// The mounts, and the notes, after adding one mount.
pub open spec fn one_mount_added(
    state: (MountsView, NotesView),
    mount: HostMountView,
) -> (MountsView, NotesView) {
    if has_mount(state.0, mount.source, mount.target) {
        state
    } else {
        (
            state.0.push(mount_entry(mount)),
            state.1.push(
                "added volume: "@ + mount.source + ":"@ + mount.target + (if mount.read_only {
                    ":ro"@
                } else {
                    ""@
                }),
            ),
        )
    }
}

/// The mounts, and the notes, after adding several mounts.
pub open spec fn mounts_added(
    state: (MountsView, NotesView),
    added: Seq<HostMountView>,
) -> (MountsView, NotesView)
    decreases added.len(),
{
    if added.len() == 0 {
        state
    } else {
        one_mount_added(mounts_added(state, added.drop_last()), added.last())
    }
}

/// The ports without those from `host` to `guest`.
pub open spec fn without_port(ports: Seq<(u16, u16)>, host: u16, guest: u16) -> Seq<(u16, u16)> {
    ports.filter(|entry: (u16, u16)| entry.0 != host || entry.1 != guest)
}

/// The ports, and the notes, after removing one port.
pub open spec fn one_port_removed(
    state: (Seq<(u16, u16)>, NotesView),
    port: PortMapping,
) -> (Seq<(u16, u16)>, NotesView) {
    let left = without_port(state.0, port.host, port.guest);
    (
        left,
        noted(
            state.1,
            left.len() < state.0.len(),
            "removed port: "@ + decimal(port.host as nat) + ":"@ + decimal(port.guest as nat),
        ),
    )
}

/// The ports, and the notes, after removing several ports.
pub open spec fn ports_removed(
    state: (Seq<(u16, u16)>, NotesView),
    removed: Seq<PortMapping>,
) -> (Seq<(u16, u16)>, NotesView)
    decreases removed.len(),
{
    if removed.len() == 0 {
        state
    } else {
        one_port_removed(ports_removed(state, removed.drop_last()), removed.last())
    }
}

/// The ports, and the notes, after adding one port.
pub open spec fn one_port_added(
    state: (Seq<(u16, u16)>, NotesView),
    port: PortMapping,
) -> (Seq<(u16, u16)>, NotesView) {
    if state.0.contains((port.host, port.guest)) {
        state
    } else {
        (
            state.0.push((port.host, port.guest)),
            state.1.push(
                "added port: "@ + decimal(port.host as nat) + ":"@ + decimal(port.guest as nat),
            ),
        )
    }
}

/// The ports, and the notes, after adding several ports.
pub open spec fn ports_added(
    state: (Seq<(u16, u16)>, NotesView),
    added: Seq<PortMapping>,
) -> (Seq<(u16, u16)>, NotesView)
    decreases added.len(),
{
    if added.len() == 0 {
        state
    } else {
        one_port_added(ports_added(state, added.drop_last()), added.last())
    }
}

/// The environment, and the notes, after removing variables.
pub open spec fn variables_removed(
    state: (EnvView, NotesView),
    removed: Seq<Seq<char>>,
) -> (EnvView, NotesView)
    decreases removed.len(),
{
    if removed.len() == 0 {
        state
    } else {
        let before = variables_removed(state, removed.drop_last());
        let left = without_key(before.0, removed.last());
        (
            left,
            noted(before.1, left.len() < before.0.len(), "removed env: "@ + removed.last()),
        )
    }
}

/// The environment, and the notes, after setting variables.
pub open spec fn variables_set(state: (EnvView, NotesView), set: EnvView) -> (EnvView, NotesView)
    decreases set.len(),
{
    if set.len() == 0 {
        state
    } else {
        let before = variables_set(state, set.drop_last());
        (
            with_variable(before.0, set.last().0, set.last().1),
            before.1.push("env: "@ + set.last().0 + "=<redacted>"@),
        )
    }
}

/// Notation of an optional number in messages.
pub open spec fn optional_number(value: Option<u32>) -> Seq<char> {
    match value {
        Some(value) => "Some("@ + decimal(value as nat) + ")"@,
        None => "None"@,
    }
}

fn show_optional_number(value: Option<u32>) -> (text: String)
    ensures
        text@ == optional_number(value),
{
    match value {
        Some(value) => cat3("Some(", number(value as u64).as_str(), ")"),
        None => own("None"),
    }
}

/// The mounts and the notes that follow from a request.
pub open spec fn mounts_updated(
    record: VmRecordView,
    request: UpdateMachineView,
    notes: NotesView,
) -> (MountsView, NotesView) {
    mounts_added(
        mounts_removed((record.mounts, notes), request.remove_mounts),
        request.add_mounts,
    )
}

/// The ports and the notes that follow from a request.
pub open spec fn ports_updated(
    record: VmRecordView,
    request: UpdateMachineView,
    notes: NotesView,
) -> (Seq<(u16, u16)>, NotesView) {
    ports_added(ports_removed((record.ports, notes), request.remove_ports), request.add_ports)
}

/// The environment and the notes that follow from a request.
pub open spec fn env_updated(
    record: VmRecordView,
    request: UpdateMachineView,
    notes: NotesView,
) -> (EnvView, NotesView) {
    variables_set(variables_removed((record.env, notes), request.remove_env), request.set_env)
}

/// The record after an update. `gpu_vram_mib` is the amount of video memory
/// that was found valid.
pub open spec fn updated_record(
    record: VmRecordView,
    request: UpdateMachineView,
    gpu_vram_mib: Option<u32>,
) -> VmRecordView {
    VmRecordView {
        storage_gb: first_some(request.storage_gb, record.storage_gb),
        overlay_gb: first_some(request.overlay_gb, record.overlay_gb),
        mounts: mounts_updated(record, request, Seq::empty()).0,
        ports: ports_updated(record, request, Seq::empty()).0,
        env: env_updated(record, request, Seq::empty()).0,
        cpus: if request.cpus is Some {
            request.cpus->0
        } else {
            record.cpus
        },
        mem: if request.memory_mib is Some {
            request.memory_mib->0
        } else {
            record.mem
        },
        network: !request.disable_network && (request.enable_network || request.allowed_cidrs
            is Some || request.dns_filter_hosts is Some || record.network),
        network_backend: first_some(request.network_backend, record.network_backend),
        allowed_cidrs: if request.disable_network || request.clear_allowed_cidrs {
            None
        } else {
            first_some(request.allowed_cidrs, record.allowed_cidrs)
        },
        dns_filter_hosts: if request.disable_network || request.clear_dns_filter_hosts {
            None
        } else {
            first_some(request.dns_filter_hosts, record.dns_filter_hosts)
        },
        workdir: if request.workdir is Some {
            request.workdir
        } else if request.clear_workdir {
            None
        } else {
            record.workdir
        },
        gpu: if request.disable_gpu {
            Some(false)
        } else if request.enable_gpu {
            Some(true)
        } else {
            record.gpu
        },
        gpu_vram_mib: if request.gpu_vram_mib is Some {
            gpu_vram_mib
        } else {
            record.gpu_vram_mib
        },
        restart: crate::types::RestartConfigView {
            policy: if request.restart_policy is Some {
                request.restart_policy->0
            } else {
                record.restart.policy
            },
            max_retries: if request.restart_max_retries is Some {
                request.restart_max_retries->0
            } else {
                record.restart.max_retries
            },
            max_backoff_secs: if request.restart_max_backoff_secs is Some {
                request.restart_max_backoff_secs->0
            } else {
                record.restart.max_backoff_secs
            },
            ..record.restart
        },
        health_cmd: if request.health_cmd is Some {
            request.health_cmd
        } else if request.clear_health_cmd {
            None
        } else {
            record.health_cmd
        },
        health_interval_secs: first_some(request.health_interval_secs, record.health_interval_secs),
        health_timeout_secs: first_some(request.health_timeout_secs, record.health_timeout_secs),
        health_retries: first_some(request.health_retries, record.health_retries),
        health_startup_grace_secs: first_some(
            request.health_startup_grace_secs,
            record.health_startup_grace_secs,
        ),
        ssh_agent: if request.disable_ssh_agent {
            false
        } else {
            request.enable_ssh_agent || record.ssh_agent
        },
        ..record
    }
}

/// The notes about mounts and ports, after `notes`.
pub open spec fn attachment_notes(
    record: VmRecordView,
    request: UpdateMachineView,
    notes: NotesView,
) -> NotesView {
    ports_updated(record, request, mounts_updated(record, request, notes).1).1
}

/// The notes about processors and memory, after `notes`.
pub open spec fn size_notes(
    record: VmRecordView,
    request: UpdateMachineView,
    notes: NotesView,
) -> NotesView {
    let n = noted(
        notes,
        request.cpus is Some,
        "cpus: "@ + decimal(record.cpus as nat) + " → "@ + decimal(request.cpus->0 as nat),
    );
    noted(
        n,
        request.memory_mib is Some,
        "memory: "@ + decimal(record.mem as nat) + " MiB → "@ + decimal(
            request.memory_mib->0 as nat,
        ) + " MiB"@,
    )
}

/// The notes about switching the network on or off, after `notes`.
pub open spec fn network_notes(
    record: VmRecordView,
    request: UpdateMachineView,
    notes: NotesView,
) -> NotesView {
    let n = noted(notes, request.enable_network, "network: enabled"@);
    let n = noted(n, request.disable_network, "network: disabled"@);
    let n = noted(
        n,
        request.disable_network && record.allowed_cidrs is Some,
        "cleared allowed_cidrs"@,
    );
    noted(
        n,
        request.disable_network && record.dns_filter_hosts is Some,
        "cleared dns_filter_hosts"@,
    )
}

/// The notes about what the network may reach, after `notes`. A request that
/// switches the network off grants nothing.
pub open spec fn egress_notes(request: UpdateMachineView, notes: NotesView) -> NotesView {
    let n = noted(
        notes,
        request.network_backend is Some,
        "network_backend: "@ + request.network_backend->0.label,
    );
    let n = noted(
        n,
        !request.disable_network && request.allowed_cidrs is Some,
        "allowed_cidrs: replaced"@,
    );
    let n = noted(n, request.clear_allowed_cidrs, "allowed_cidrs: cleared"@);
    let n = noted(
        n,
        !request.disable_network && request.dns_filter_hosts is Some,
        "dns_filter_hosts: replaced"@,
    );
    noted(n, request.clear_dns_filter_hosts, "dns_filter_hosts: cleared"@)
}

/// The notes about environment, directory and GPU, after `notes`.
pub open spec fn guest_notes(
    record: VmRecordView,
    request: UpdateMachineView,
    gpu_vram_mib: Option<u32>,
    notes: NotesView,
) -> NotesView {
    let n = env_updated(record, request, notes).1;
    let n = noted(n, request.clear_workdir, "workdir: cleared"@);
    let n = noted(n, request.workdir is Some, "workdir: "@ + request.workdir->0);
    let n = noted(n, request.enable_gpu, "gpu: enabled"@);
    let n = noted(n, request.disable_gpu, "gpu: disabled"@);
    noted(n, request.gpu_vram_mib is Some, "gpu_vram_mib: "@ + optional_number(gpu_vram_mib))
}

/// The notes about restarts, after `notes`.
pub open spec fn restart_notes(request: UpdateMachineView, notes: NotesView) -> NotesView {
    let n = noted(
        notes,
        request.restart_policy is Some,
        "restart policy: "@ + request.restart_policy->0.name(),
    );
    let n = noted(
        n,
        request.restart_max_retries is Some,
        "restart max_retries: "@ + decimal(request.restart_max_retries->0 as nat),
    );
    noted(
        n,
        request.restart_max_backoff_secs is Some,
        "restart max_backoff_secs: "@ + decimal(request.restart_max_backoff_secs->0 as nat),
    )
}

/// The notes about health checks, after `notes`.
pub open spec fn health_notes(request: UpdateMachineView, notes: NotesView) -> NotesView {
    let n = noted(notes, request.clear_health_cmd, "health command: cleared"@);
    let n = noted(n, request.health_cmd is Some, "health command: replaced"@);
    let n = noted(
        n,
        request.health_interval_secs is Some,
        "health interval: "@ + decimal(request.health_interval_secs->0 as nat) + "s"@,
    );
    let n = noted(
        n,
        request.health_timeout_secs is Some,
        "health timeout: "@ + decimal(request.health_timeout_secs->0 as nat) + "s"@,
    );
    let n = noted(
        n,
        request.health_retries is Some,
        "health retries: "@ + decimal(request.health_retries->0 as nat),
    );
    noted(
        n,
        request.health_startup_grace_secs is Some,
        "health startup grace: "@ + decimal(request.health_startup_grace_secs->0 as nat) + "s"@,
    )
}

/// The notes about the SSH agent, after `notes`.
pub open spec fn agent_notes(request: UpdateMachineView, notes: NotesView) -> NotesView {
    let n = noted(notes, request.enable_ssh_agent, "ssh_agent: enabled"@);
    noted(n, request.disable_ssh_agent, "ssh_agent: disabled"@)
}

/// What an update says it changed, after `notes`.
pub open spec fn update_notes(
    record: VmRecordView,
    request: UpdateMachineView,
    gpu_vram_mib: Option<u32>,
    notes: NotesView,
) -> NotesView {
    let n = attachment_notes(record, request, notes);
    let n = size_notes(record, request, n);
    let n = network_notes(record, request, n);
    let n = egress_notes(request, n);
    let n = guest_notes(record, request, gpu_vram_mib, n);
    let n = restart_notes(request, n);
    let n = health_notes(request, n);
    agent_notes(request, n)
}

/// Appends a note.
fn note(notes: &mut Vec<String>, text: String)
    ensures
        final(notes).model() == old(notes).model().push(text@),
{
    push_to(notes, text);
}

fn remove_mounts(
    mounts: &mut Vec<(String, String, bool)>,
    removed: &Vec<HostMount>,
    notes: &mut Vec<String>,
)
    ensures
        (final(mounts).model(), final(notes).model()) == mounts_removed(
            (old(mounts).model(), old(notes).model()),
            removed.model(),
        ),
{
    let ghost start = (mounts.model(), notes.model());
    let mut k: usize = 0;
    while k < removed.len()
        invariant
            k <= removed.len(),
            (mounts.model(), notes.model()) == mounts_removed(start, removed.model().take(k as int)),
        decreases removed.len() - k,
    {
        let ghost now = (mounts.model(), notes.model());
        let ghost next = removed.model().take(k + 1);
        assert(next.drop_last() =~= removed.model().take(k as int));
        let mount: &HostMount = &removed[k];
        assert(next.last() == mount.model());
        let mut left: Vec<(String, String, bool)> = empty_list();
        let mut i: usize = 0;
        while i < mounts.len()
            invariant
                i <= mounts.len(),
                mounts.model() == now.0,
                left.model() == without_mount(now.0.take(i as int), mount.source@, mount.target@),
            decreases mounts.len() - i,
        {
            assert(now.0.take(i + 1).drop_last() =~= now.0.take(i as int));
            assert(now.0.take(i + 1).last() == mounts[i as int].model());
            reveal(Seq::filter);
            if !same_text(mounts[i].0.as_str(), mount.source.as_str()) || !same_text(
                mounts[i].1.as_str(),
                mount.target.as_str(),
            ) {
                push_to(&mut left, mounts[i].dup());
            }
            i += 1;
        }
        assert(now.0.take(now.0.len() as int) =~= now.0);
        if left.len() < mounts.len() {
            note(
                notes,
                cat4("removed volume: ", mount.source.as_str(), ":", mount.target.as_str()),
            );
        }
        *mounts = left;
        k += 1;
    }
    assert(removed.model().take(removed.len() as int) =~= removed.model());
}

fn mount_exists(mounts: &Vec<(String, String, bool)>, source: &str, target: &str) -> (found: bool)
    ensures
        found == has_mount(mounts.model(), source@, target@),
{
    let mut i: usize = 0;
    while i < mounts.len()
        invariant
            i <= mounts.len(),
            forall|j: int|
                0 <= j < i ==> (#[trigger] mounts.model()[j]).0 != source@ || mounts.model()[j].1
                    != target@,
        decreases mounts.len() - i,
    {
        assert(mounts.model()[i as int] == mounts[i as int].model());
        if same_text(mounts[i].0.as_str(), source) && same_text(mounts[i].1.as_str(), target) {
            return true;
        }
        i += 1;
    }
    false
}

fn add_mounts(
    mounts: &mut Vec<(String, String, bool)>,
    added: &Vec<HostMount>,
    notes: &mut Vec<String>,
)
    ensures
        (final(mounts).model(), final(notes).model()) == mounts_added(
            (old(mounts).model(), old(notes).model()),
            added.model(),
        ),
{
    let ghost start = (mounts.model(), notes.model());
    let mut k: usize = 0;
    while k < added.len()
        invariant
            k <= added.len(),
            (mounts.model(), notes.model()) == mounts_added(start, added.model().take(k as int)),
        decreases added.len() - k,
    {
        let ghost next = added.model().take(k + 1);
        assert(next.drop_last() =~= added.model().take(k as int));
        let mount: &HostMount = &added[k];
        assert(next.last() == mount.model());
        if !mount_exists(mounts, mount.source.as_str(), mount.target.as_str()) {
            let suffix: &str = if mount.read_only {
                ":ro"
            } else {
                ""
            };
            note(
                notes,
                cat5("added volume: ", mount.source.as_str(), ":", mount.target.as_str(), suffix),
            );
            push_to(mounts, mount.to_storage_tuple());
        }
        k += 1;
    }
    assert(added.model().take(added.len() as int) =~= added.model());
}

fn port_text(lead: &str, port: &PortMapping) -> (text: String)
    ensures
        text@ == lead@ + decimal(port.host as nat) + ":"@ + decimal(port.guest as nat),
{
    cat4(lead, number(port.host as u64).as_str(), ":", number(port.guest as u64).as_str())
}

fn remove_ports(
    ports: &mut Vec<(u16, u16)>,
    removed: &Vec<PortMapping>,
    notes: &mut Vec<String>,
)
    ensures
        (final(ports).model(), final(notes).model()) == ports_removed(
            (old(ports).model(), old(notes).model()),
            removed.model(),
        ),
{
    let ghost start = (ports.model(), notes.model());
    let mut k: usize = 0;
    while k < removed.len()
        invariant
            k <= removed.len(),
            (ports.model(), notes.model()) == ports_removed(start, removed.model().take(k as int)),
        decreases removed.len() - k,
    {
        let ghost now = (ports.model(), notes.model());
        let ghost next = removed.model().take(k + 1);
        assert(next.drop_last() =~= removed.model().take(k as int));
        let port: &PortMapping = &removed[k];
        assert(next.last() == port.model());
        let mut left: Vec<(u16, u16)> = empty_list();
        let mut i: usize = 0;
        while i < ports.len()
            invariant
                i <= ports.len(),
                ports.model() == now.0,
                left.model() == without_port(now.0.take(i as int), port.host, port.guest),
            decreases ports.len() - i,
        {
            assert(now.0.take(i + 1).drop_last() =~= now.0.take(i as int));
            assert(now.0.take(i + 1).last() == ports[i as int].model());
            reveal(Seq::filter);
            if ports[i].0 != port.host || ports[i].1 != port.guest {
                push_to(&mut left, ports[i]);
            }
            i += 1;
        }
        assert(now.0.take(now.0.len() as int) =~= now.0);
        if left.len() < ports.len() {
            note(notes, port_text("removed port: ", port));
        }
        *ports = left;
        k += 1;
    }
    assert(removed.model().take(removed.len() as int) =~= removed.model());
}

fn port_exists(ports: &Vec<(u16, u16)>, port: &PortMapping) -> (found: bool)
    ensures
        found == ports.model().contains((port.host, port.guest)),
{
    let mut i: usize = 0;
    while i < ports.len()
        invariant
            i <= ports.len(),
            forall|j: int|
                0 <= j < i ==> #[trigger] ports.model()[j] != (port.host, port.guest),
        decreases ports.len() - i,
    {
        assert(ports.model()[i as int] == ports[i as int]);
        if ports[i].0 == port.host && ports[i].1 == port.guest {
            return true;
        }
        i += 1;
    }
    false
}

fn add_ports(ports: &mut Vec<(u16, u16)>, added: &Vec<PortMapping>, notes: &mut Vec<String>)
    ensures
        (final(ports).model(), final(notes).model()) == ports_added(
            (old(ports).model(), old(notes).model()),
            added.model(),
        ),
{
    let ghost start = (ports.model(), notes.model());
    let mut k: usize = 0;
    while k < added.len()
        invariant
            k <= added.len(),
            (ports.model(), notes.model()) == ports_added(start, added.model().take(k as int)),
        decreases added.len() - k,
    {
        let ghost next = added.model().take(k + 1);
        assert(next.drop_last() =~= added.model().take(k as int));
        let port: &PortMapping = &added[k];
        assert(next.last() == port.model());
        if !port_exists(ports, port) {
            note(notes, port_text("added port: ", port));
            push_to(ports, port.to_tuple());
        }
        k += 1;
    }
    assert(added.model().take(added.len() as int) =~= added.model());
}

fn remove_variables(env: &mut Vec<(String, String)>, removed: &Vec<String>, notes: &mut Vec<String>)
    ensures
        (final(env).model(), final(notes).model()) == variables_removed(
            (old(env).model(), old(notes).model()),
            removed.model(),
        ),
{
    let ghost start = (env.model(), notes.model());
    let mut k: usize = 0;
    while k < removed.len()
        invariant
            k <= removed.len(),
            (env.model(), notes.model()) == variables_removed(
                start,
                removed.model().take(k as int),
            ),
        decreases removed.len() - k,
    {
        let ghost next = removed.model().take(k + 1);
        assert(next.drop_last() =~= removed.model().take(k as int));
        assert(next.last() == removed[k as int]@);
        if remove_variable(env, removed[k].as_str()) {
            note(notes, cat2("removed env: ", removed[k].as_str()));
        }
        k += 1;
    }
    assert(removed.model().take(removed.len() as int) =~= removed.model());
}

fn set_variables(
    env: &mut Vec<(String, String)>,
    set: &Vec<(String, String)>,
    notes: &mut Vec<String>,
)
    ensures
        (final(env).model(), final(notes).model()) == variables_set(
            (old(env).model(), old(notes).model()),
            set.model(),
        ),
{
    let ghost start = (env.model(), notes.model());
    let mut k: usize = 0;
    while k < set.len()
        invariant
            k <= set.len(),
            (env.model(), notes.model()) == variables_set(start, set.model().take(k as int)),
        decreases set.len() - k,
    {
        let ghost next = set.model().take(k + 1);
        assert(next.drop_last() =~= set.model().take(k as int));
        assert(next.last() == set[k as int].model());
        apply_env_override(env, set[k].0.dup(), set[k].1.dup());
        note(notes, cat3("env: ", set[k].0.as_str(), "=<redacted>"));
        k += 1;
    }
    assert(set.model().take(set.len() as int) =~= set.model());
}

/// The notes do not influence what becomes of mounts, ports and variables.
proof fn lemma_notes_apart(record: VmRecordView, request: UpdateMachineView, notes: NotesView)
    ensures
        mounts_updated(record, request, notes).0 == mounts_updated(record, request, Seq::empty()).0,
        ports_updated(record, request, notes).0 == ports_updated(record, request, Seq::empty()).0,
        env_updated(record, request, notes).0 == env_updated(record, request, Seq::empty()).0,
{
    lemma_mounts_removed_apart(record.mounts, notes, Seq::empty(), request.remove_mounts);
    lemma_mounts_added_apart(
        mounts_removed((record.mounts, notes), request.remove_mounts).0,
        mounts_removed((record.mounts, notes), request.remove_mounts).1,
        mounts_removed((record.mounts, Seq::empty()), request.remove_mounts).1,
        request.add_mounts,
    );
    lemma_ports_removed_apart(record.ports, notes, Seq::empty(), request.remove_ports);
    lemma_ports_added_apart(
        ports_removed((record.ports, notes), request.remove_ports).0,
        ports_removed((record.ports, notes), request.remove_ports).1,
        ports_removed((record.ports, Seq::empty()), request.remove_ports).1,
        request.add_ports,
    );
    lemma_variables_removed_apart(record.env, notes, Seq::empty(), request.remove_env);
    lemma_variables_set_apart(
        variables_removed((record.env, notes), request.remove_env).0,
        variables_removed((record.env, notes), request.remove_env).1,
        variables_removed((record.env, Seq::empty()), request.remove_env).1,
        request.set_env,
    );
}

proof fn lemma_mounts_removed_apart(
    mounts: MountsView,
    a: NotesView,
    b: NotesView,
    removed: Seq<HostMountView>,
)
    ensures
        mounts_removed((mounts, a), removed).0 == mounts_removed((mounts, b), removed).0,
    decreases removed.len(),
{
    if removed.len() > 0 {
        lemma_mounts_removed_apart(mounts, a, b, removed.drop_last());
    }
}

proof fn lemma_mounts_added_apart(
    mounts: MountsView,
    a: NotesView,
    b: NotesView,
    added: Seq<HostMountView>,
)
    ensures
        mounts_added((mounts, a), added).0 == mounts_added((mounts, b), added).0,
    decreases added.len(),
{
    if added.len() > 0 {
        lemma_mounts_added_apart(mounts, a, b, added.drop_last());
    }
}

proof fn lemma_ports_removed_apart(
    ports: Seq<(u16, u16)>,
    a: NotesView,
    b: NotesView,
    removed: Seq<PortMapping>,
)
    ensures
        ports_removed((ports, a), removed).0 == ports_removed((ports, b), removed).0,
    decreases removed.len(),
{
    if removed.len() > 0 {
        lemma_ports_removed_apart(ports, a, b, removed.drop_last());
    }
}

proof fn lemma_ports_added_apart(
    ports: Seq<(u16, u16)>,
    a: NotesView,
    b: NotesView,
    added: Seq<PortMapping>,
)
    ensures
        ports_added((ports, a), added).0 == ports_added((ports, b), added).0,
    decreases added.len(),
{
    if added.len() > 0 {
        lemma_ports_added_apart(ports, a, b, added.drop_last());
    }
}

proof fn lemma_variables_removed_apart(
    env: EnvView,
    a: NotesView,
    b: NotesView,
    removed: Seq<Seq<char>>,
)
    ensures
        variables_removed((env, a), removed).0 == variables_removed((env, b), removed).0,
    decreases removed.len(),
{
    if removed.len() > 0 {
        lemma_variables_removed_apart(env, a, b, removed.drop_last());
    }
}

proof fn lemma_variables_set_apart(env: EnvView, a: NotesView, b: NotesView, set: EnvView)
    ensures
        variables_set((env, a), set).0 == variables_set((env, b), set).0,
    decreases set.len(),
{
    if set.len() > 0 {
        lemma_variables_set_apart(env, a, b, set.drop_last());
    }
}

fn apply_attachments(record: &mut VmRecord, request: &UpdateMachine, notes: &mut Vec<String>)
    ensures
        final(notes).model() == attachment_notes(
            old(record).model(),
            request.model(),
            old(notes).model(),
        ),
        final(record).model() == (VmRecordView {
            storage_gb: first_some(request.storage_gb, old(record).storage_gb),
            overlay_gb: first_some(request.overlay_gb, old(record).overlay_gb),
            mounts: mounts_updated(old(record).model(), request.model(), Seq::empty()).0,
            ports: ports_updated(old(record).model(), request.model(), Seq::empty()).0,
            ..old(record).model()
        }),
{
    proof {
        lemma_notes_apart(record.model(), request.model(), notes.model());
        lemma_notes_apart(
            record.model(),
            request.model(),
            mounts_updated(record.model(), request.model(), notes.model()).1,
        );
    }
    if let Some(storage_gb) = request.storage_gb {
        record.storage_gb = Some(storage_gb);
    }
    if let Some(overlay_gb) = request.overlay_gb {
        record.overlay_gb = Some(overlay_gb);
    }
    remove_mounts(&mut record.mounts, &request.remove_mounts, notes);
    add_mounts(&mut record.mounts, &request.add_mounts, notes);
    remove_ports(&mut record.ports, &request.remove_ports, notes);
    add_ports(&mut record.ports, &request.add_ports, notes);
}

fn apply_size(record: &mut VmRecord, request: &UpdateMachine, notes: &mut Vec<String>)
    ensures
        final(notes).model() == size_notes(
            old(record).model(),
            request.model(),
            old(notes).model(),
        ),
        final(record).model() == (VmRecordView {
            cpus: if request.cpus is Some {
                request.cpus->0
            } else {
                old(record).cpus
            },
            mem: if request.memory_mib is Some {
                request.memory_mib->0
            } else {
                old(record).mem
            },
            ..old(record).model()
        }),
{
    if let Some(cpus) = request.cpus {
        note(
            notes,
            cat4("cpus: ", number(record.cpus as u64).as_str(), " → ", number(cpus as u64).as_str()),
        );
        record.cpus = cpus;
    }
    if let Some(memory_mib) = request.memory_mib {
        note(
            notes,
            cat5(
                "memory: ",
                number(record.mem as u64).as_str(),
                " MiB → ",
                number(memory_mib as u64).as_str(),
                " MiB",
            ),
        );
        record.mem = memory_mib;
    }
}

fn apply_network(record: &mut VmRecord, request: &UpdateMachine, notes: &mut Vec<String>)
    ensures
        final(notes).model() == network_notes(
            old(record).model(),
            request.model(),
            old(notes).model(),
        ),
        final(record).model() == (VmRecordView {
            network: !request.disable_network && (request.enable_network || old(record).network),
            allowed_cidrs: if request.disable_network {
                None
            } else {
                old(record).allowed_cidrs.model()
            },
            dns_filter_hosts: if request.disable_network {
                None
            } else {
                old(record).dns_filter_hosts.model()
            },
            ..old(record).model()
        }),
{
    if request.enable_network {
        note(notes, own("network: enabled"));
        record.network = true;
    }
    if request.disable_network {
        note(notes, own("network: disabled"));
        record.network = false;
        if record.allowed_cidrs.is_some() {
            note(notes, own("cleared allowed_cidrs"));
            record.allowed_cidrs = None;
        }
        if record.dns_filter_hosts.is_some() {
            note(notes, own("cleared dns_filter_hosts"));
            record.dns_filter_hosts = None;
        }
    }
}

fn apply_egress(record: &mut VmRecord, request: &UpdateMachine, notes: &mut Vec<String>)
    ensures
        final(notes).model() == egress_notes(request.model(), old(notes).model()),
        final(record).model() == (VmRecordView {
            network: old(record).network || (!request.disable_network && (request.allowed_cidrs
                is Some || request.dns_filter_hosts is Some)),
            network_backend: first_some(
                request.network_backend.model(),
                old(record).network_backend.model(),
            ),
            allowed_cidrs: if request.clear_allowed_cidrs {
                None
            } else if request.disable_network {
                old(record).allowed_cidrs.model()
            } else {
                first_some(request.allowed_cidrs.model(), old(record).allowed_cidrs.model())
            },
            dns_filter_hosts: if request.clear_dns_filter_hosts {
                None
            } else if request.disable_network {
                old(record).dns_filter_hosts.model()
            } else {
                first_some(request.dns_filter_hosts.model(), old(record).dns_filter_hosts.model())
            },
            ..old(record).model()
        }),
{
    if let Some(network_backend) = &request.network_backend {
        note(notes, cat2("network_backend: ", network_backend.label.as_str()));
        record.network_backend = Some(network_backend.dup());
    }
    if !request.disable_network {
        if let Some(allowed_cidrs) = &request.allowed_cidrs {
            note(notes, own("allowed_cidrs: replaced"));
            record.allowed_cidrs = Some(allowed_cidrs.dup());
            record.network = true;
        }
    }
    if request.clear_allowed_cidrs {
        note(notes, own("allowed_cidrs: cleared"));
        record.allowed_cidrs = None;
    }
    if !request.disable_network {
        if let Some(hosts) = &request.dns_filter_hosts {
            note(notes, own("dns_filter_hosts: replaced"));
            record.dns_filter_hosts = Some(hosts.dup());
            record.network = true;
        }
    }
    if request.clear_dns_filter_hosts {
        note(notes, own("dns_filter_hosts: cleared"));
        record.dns_filter_hosts = None;
    }
}

fn apply_guest(
    record: &mut VmRecord,
    request: &UpdateMachine,
    gpu_vram_mib: Option<u32>,
    notes: &mut Vec<String>,
)
    ensures
        final(notes).model() == guest_notes(
            old(record).model(),
            request.model(),
            gpu_vram_mib,
            old(notes).model(),
        ),
        final(record).model() == (VmRecordView {
            env: updated_record(old(record).model(), request.model(), gpu_vram_mib).env,
            workdir: updated_record(old(record).model(), request.model(), gpu_vram_mib).workdir,
            gpu: updated_record(old(record).model(), request.model(), gpu_vram_mib).gpu,
            gpu_vram_mib: updated_record(
                old(record).model(),
                request.model(),
                gpu_vram_mib,
            ).gpu_vram_mib,
            ..old(record).model()
        }),
{
    proof {
        lemma_notes_apart(record.model(), request.model(), notes.model());
    }
    remove_variables(&mut record.env, &request.remove_env, notes);
    set_variables(&mut record.env, &request.set_env, notes);
    if request.clear_workdir {
        note(notes, own("workdir: cleared"));
        record.workdir = None;
    }
    if let Some(workdir) = &request.workdir {
        note(notes, cat2("workdir: ", workdir.as_str()));
        record.workdir = Some(workdir.dup());
    }
    if request.enable_gpu {
        note(notes, own("gpu: enabled"));
        record.gpu = Some(true);
    }
    if request.disable_gpu {
        note(notes, own("gpu: disabled"));
        record.gpu = Some(false);
    }
    if request.gpu_vram_mib.is_some() {
        note(notes, cat2("gpu_vram_mib: ", show_optional_number(gpu_vram_mib).as_str()));
        record.gpu_vram_mib = gpu_vram_mib;
    }
}

fn apply_restart(record: &mut VmRecord, request: &UpdateMachine, notes: &mut Vec<String>)
    ensures
        final(notes).model() == restart_notes(request.model(), old(notes).model()),
        final(record).model() == (VmRecordView {
            restart: updated_record(old(record).model(), request.model(), None).restart,
            ..old(record).model()
        }),
{
    if let Some(policy) = request.restart_policy {
        note(notes, cat2("restart policy: ", policy.label()));
        record.restart.policy = policy;
    }
    if let Some(max_retries) = request.restart_max_retries {
        note(notes, cat2("restart max_retries: ", number(max_retries as u64).as_str()));
        record.restart.max_retries = max_retries;
    }
    if let Some(max_backoff_secs) = request.restart_max_backoff_secs {
        note(notes, cat2("restart max_backoff_secs: ", number(max_backoff_secs).as_str()));
        record.restart.max_backoff_secs = max_backoff_secs;
    }
}

fn apply_health(record: &mut VmRecord, request: &UpdateMachine, notes: &mut Vec<String>)
    ensures
        final(notes).model() == health_notes(request.model(), old(notes).model()),
        final(record).model() == (VmRecordView {
            health_cmd: if request.health_cmd is Some {
                request.health_cmd.model()
            } else if request.clear_health_cmd {
                None
            } else {
                old(record).health_cmd.model()
            },
            health_interval_secs: first_some(
                request.health_interval_secs,
                old(record).health_interval_secs,
            ),
            health_timeout_secs: first_some(
                request.health_timeout_secs,
                old(record).health_timeout_secs,
            ),
            health_retries: first_some(request.health_retries, old(record).health_retries),
            health_startup_grace_secs: first_some(
                request.health_startup_grace_secs,
                old(record).health_startup_grace_secs,
            ),
            ..old(record).model()
        }),
{
    if request.clear_health_cmd {
        note(notes, own("health command: cleared"));
        record.health_cmd = None;
    }
    if let Some(health_cmd) = &request.health_cmd {
        note(notes, own("health command: replaced"));
        record.health_cmd = Some(health_cmd.dup());
    }
    if let Some(value) = request.health_interval_secs {
        note(notes, cat3("health interval: ", number(value).as_str(), "s"));
        record.health_interval_secs = Some(value);
    }
    if let Some(value) = request.health_timeout_secs {
        note(notes, cat3("health timeout: ", number(value).as_str(), "s"));
        record.health_timeout_secs = Some(value);
    }
    if let Some(value) = request.health_retries {
        note(notes, cat2("health retries: ", number(value as u64).as_str()));
        record.health_retries = Some(value);
    }
    if let Some(value) = request.health_startup_grace_secs {
        note(notes, cat3("health startup grace: ", number(value).as_str(), "s"));
        record.health_startup_grace_secs = Some(value);
    }
}

fn apply_agent(record: &mut VmRecord, request: &UpdateMachine, notes: &mut Vec<String>)
    ensures
        final(notes).model() == agent_notes(request.model(), old(notes).model()),
        final(record).model() == (VmRecordView {
            ssh_agent: !request.disable_ssh_agent && (request.enable_ssh_agent || old(
                record,
            ).ssh_agent),
            ..old(record).model()
        }),
{
    if request.enable_ssh_agent {
        note(notes, own("ssh_agent: enabled"));
        record.ssh_agent = true;
    }
    if request.disable_ssh_agent {
        note(notes, own("ssh_agent: disabled"));
        record.ssh_agent = false;
    }
}

/// Applies a request to a record, and notes what changed. `gpu_vram_mib` is the
/// amount of video memory that was found valid.
pub fn apply_update(
    record: &mut VmRecord,
    request: &UpdateMachine,
    gpu_vram_mib: Option<u32>,
    changes: &mut Vec<String>,
)
    ensures
        final(record).model() == updated_record(
            old(record).model(),
            request.model(),
            gpu_vram_mib,
        ),
        final(changes).model() == update_notes(
            old(record).model(),
            request.model(),
            gpu_vram_mib,
            old(changes).model(),
        ),
{
    apply_attachments(record, request, changes);
    apply_size(record, request, changes);
    apply_network(record, request, changes);
    apply_egress(record, request, changes);
    apply_guest(record, request, gpu_vram_mib, changes);
    apply_restart(record, request, changes);
    apply_health(record, request, changes);
    apply_agent(record, request, changes);
}

/// The same variables in the same order, whatever their values.
pub open spec fn same_keys(a: EnvView, b: EnvView) -> bool {
    a.len() == b.len() && forall|i: int| 0 <= i < a.len() ==> (#[trigger] a[i]).0 == b[i].0
}

proof fn lemma_set_notes_hide_values(
    env: EnvView,
    other: EnvView,
    notes: NotesView,
    a: EnvView,
    b: EnvView,
)
    requires
        same_keys(a, b),
    ensures
        variables_set((env, notes), a).1 == variables_set((other, notes), b).1,
    decreases a.len(),
{
    if a.len() > 0 {
        assert(same_keys(a.drop_last(), b.drop_last()));
        assert(a.last().0 == b.last().0);
        lemma_set_notes_hide_values(env, other, notes, a.drop_last(), b.drop_last());
    }
}

/// Law: the values of the variables that an update sets do not reach its notes:
/// requests that differ only in these values are noted the same.
pub proof fn law_notes_hide_values(
    record: VmRecordView,
    request: UpdateMachineView,
    set_env: EnvView,
    gpu_vram_mib: Option<u32>,
    notes: NotesView,
)
    requires
        same_keys(request.set_env, set_env),
    ensures
        update_notes(record, request, gpu_vram_mib, notes) == update_notes(
            record,
            UpdateMachineView { set_env, ..request },
            gpu_vram_mib,
            notes,
        ),
{
    let n = egress_notes(
        request,
        network_notes(
            record,
            request,
            size_notes(record, request, attachment_notes(record, request, notes)),
        ),
    );
    let removed = variables_removed((record.env, n), request.remove_env);
    lemma_set_notes_hide_values(removed.0, removed.0, removed.1, request.set_env, set_env);
}

proof fn lemma_mount_notes_grow(state: (MountsView, NotesView), mounts: Seq<HostMountView>)
    ensures
        state.1.is_prefix_of(mounts_removed(state, mounts).1),
        state.1.is_prefix_of(mounts_added(state, mounts).1),
    decreases mounts.len(),
{
    if mounts.len() > 0 {
        lemma_mount_notes_grow(state, mounts.drop_last());
    }
}

proof fn lemma_port_notes_grow(state: (Seq<(u16, u16)>, NotesView), ports: Seq<PortMapping>)
    ensures
        state.1.is_prefix_of(ports_removed(state, ports).1),
        state.1.is_prefix_of(ports_added(state, ports).1),
    decreases ports.len(),
{
    if ports.len() > 0 {
        lemma_port_notes_grow(state, ports.drop_last());
    }
}

proof fn lemma_removal_notes_grow(state: (EnvView, NotesView), removed: Seq<Seq<char>>)
    ensures
        state.1.is_prefix_of(variables_removed(state, removed).1),
    decreases removed.len(),
{
    if removed.len() > 0 {
        lemma_removal_notes_grow(state, removed.drop_last());
    }
}

proof fn lemma_set_notes_grow(state: (EnvView, NotesView), set: EnvView)
    ensures
        state.1.is_prefix_of(variables_set(state, set).1),
    decreases set.len(),
{
    if set.len() > 0 {
        lemma_set_notes_grow(state, set.drop_last());
    }
}

proof fn lemma_prefix_of_prefix(a: NotesView, b: NotesView, c: NotesView)
    requires
        a.is_prefix_of(b),
        b.is_prefix_of(c),
    ensures
        a.is_prefix_of(c),
{
    assert(a =~= c.subrange(0, a.len() as int));
}

proof fn lemma_attachment_notes_grow(
    record: VmRecordView,
    request: UpdateMachineView,
    notes: NotesView,
)
    ensures
        notes.is_prefix_of(attachment_notes(record, request, notes)),
{
    let fewer = mounts_removed((record.mounts, notes), request.remove_mounts);
    lemma_mount_notes_grow((record.mounts, notes), request.remove_mounts);
    lemma_mount_notes_grow(fewer, request.add_mounts);
    let mounted = mounts_updated(record, request, notes).1;
    lemma_prefix_of_prefix(notes, fewer.1, mounted);
    let closed_ports = ports_removed((record.ports, mounted), request.remove_ports);
    lemma_port_notes_grow((record.ports, mounted), request.remove_ports);
    lemma_port_notes_grow(closed_ports, request.add_ports);
    lemma_prefix_of_prefix(notes, mounted, closed_ports.1);
    lemma_prefix_of_prefix(notes, closed_ports.1, attachment_notes(record, request, notes));
}

proof fn lemma_network_notes_grow(
    record: VmRecordView,
    request: UpdateMachineView,
    notes: NotesView,
)
    ensures
        notes.is_prefix_of(size_notes(record, request, notes)),
        notes.is_prefix_of(network_notes(record, request, notes)),
        notes.is_prefix_of(egress_notes(request, notes)),
{
}

proof fn lemma_guest_notes_grow(
    record: VmRecordView,
    request: UpdateMachineView,
    gpu_vram_mib: Option<u32>,
    notes: NotesView,
)
    ensures
        notes.is_prefix_of(guest_notes(record, request, gpu_vram_mib, notes)),
{
    let removed = variables_removed((record.env, notes), request.remove_env);
    lemma_removal_notes_grow((record.env, notes), request.remove_env);
    lemma_set_notes_grow(removed, request.set_env);
    lemma_prefix_of_prefix(notes, removed.1, env_updated(record, request, notes).1);
}

proof fn lemma_policy_notes_grow(request: UpdateMachineView, notes: NotesView)
    ensures
        notes.is_prefix_of(restart_notes(request, notes)),
        notes.is_prefix_of(health_notes(request, notes)),
        notes.is_prefix_of(agent_notes(request, notes)),
{
}

/// Law: an update only adds notes: those that were there stay, in front.
pub proof fn law_notes_only_grow(
    record: VmRecordView,
    request: UpdateMachineView,
    gpu_vram_mib: Option<u32>,
    notes: NotesView,
)
    ensures
        notes.is_prefix_of(update_notes(record, request, gpu_vram_mib, notes)),
{
    let attached = attachment_notes(record, request, notes);
    lemma_attachment_notes_grow(record, request, notes);
    let sized = size_notes(record, request, attached);
    lemma_network_notes_grow(record, request, attached);
    lemma_prefix_of_prefix(notes, attached, sized);
    let switched = network_notes(record, request, sized);
    lemma_network_notes_grow(record, request, sized);
    lemma_prefix_of_prefix(notes, sized, switched);
    let granted = egress_notes(request, switched);
    lemma_network_notes_grow(record, request, switched);
    lemma_prefix_of_prefix(notes, switched, granted);
    let inside = guest_notes(record, request, gpu_vram_mib, granted);
    lemma_guest_notes_grow(record, request, gpu_vram_mib, granted);
    lemma_prefix_of_prefix(notes, granted, inside);
    let restarts = restart_notes(request, inside);
    lemma_policy_notes_grow(request, inside);
    lemma_prefix_of_prefix(notes, inside, restarts);
    let health = health_notes(request, restarts);
    lemma_policy_notes_grow(request, restarts);
    lemma_prefix_of_prefix(notes, restarts, health);
    lemma_policy_notes_grow(request, health);
    lemma_prefix_of_prefix(notes, health, agent_notes(request, health));
}

/// Law: an update sets exactly what it names. A setting that the request gives is stored as it
/// was given, one that the request clears is cleared, and any other stays as it was. Of
/// switches that are turned both on and off, off counts.
pub proof fn law_update_sets_what_was_asked(
    record: VmRecordView,
    request: UpdateMachineView,
    gpu_vram_mib: Option<u32>,
)
    ensures
        ({
            let after = updated_record(record, request, gpu_vram_mib);
            &&& request.cpus is Some ==> after.cpus == request.cpus->0
            &&& request.cpus is None ==> after.cpus == record.cpus
            &&& request.memory_mib is Some ==> after.mem == request.memory_mib->0
            &&& request.memory_mib is None ==> after.mem == record.mem
            &&& request.storage_gb is Some ==> after.storage_gb == request.storage_gb
            &&& request.storage_gb is None ==> after.storage_gb == record.storage_gb
            &&& request.overlay_gb is Some ==> after.overlay_gb == request.overlay_gb
            &&& request.overlay_gb is None ==> after.overlay_gb == record.overlay_gb
            &&& request.network_backend is Some ==> after.network_backend
                == request.network_backend
            &&& request.network_backend is None ==> after.network_backend
                == record.network_backend
            &&& request.workdir is Some ==> after.workdir == request.workdir
            &&& request.workdir is None && request.clear_workdir ==> after.workdir is None
            &&& request.workdir is None && !request.clear_workdir ==> after.workdir
                == record.workdir
            &&& request.disable_gpu ==> after.gpu == Some(false)
            &&& request.enable_gpu && !request.disable_gpu ==> after.gpu == Some(true)
            &&& !request.enable_gpu && !request.disable_gpu ==> after.gpu == record.gpu
            &&& request.gpu_vram_mib is Some ==> after.gpu_vram_mib == gpu_vram_mib
            &&& request.gpu_vram_mib is None ==> after.gpu_vram_mib == record.gpu_vram_mib
            &&& request.disable_ssh_agent ==> !after.ssh_agent
            &&& request.enable_ssh_agent && !request.disable_ssh_agent ==> after.ssh_agent
            &&& !request.enable_ssh_agent && !request.disable_ssh_agent ==> after.ssh_agent
                == record.ssh_agent
        }),
{
}

/// Law: an update switches the network on where it is asked to or where it grants something to
/// reach, and off where it is asked to, which counts over everything else. What it grants
/// replaces what was granted, what it clears is gone, and the rest stays.
pub proof fn law_update_of_the_network(
    record: VmRecordView,
    request: UpdateMachineView,
    gpu_vram_mib: Option<u32>,
)
    ensures
        ({
            let after = updated_record(record, request, gpu_vram_mib);
            let grants = request.allowed_cidrs is Some || request.dns_filter_hosts is Some;
            &&& request.disable_network ==> !after.network
            &&& !request.disable_network && (request.enable_network || grants) ==> after.network
            &&& !request.disable_network && !request.enable_network && !grants ==> after.network
                == record.network
            &&& !request.disable_network && request.clear_allowed_cidrs ==> after.allowed_cidrs
                is None
            &&& !request.disable_network && !request.clear_allowed_cidrs && request.allowed_cidrs
                is Some ==> after.allowed_cidrs == request.allowed_cidrs
            &&& !request.disable_network && !request.clear_allowed_cidrs && request.allowed_cidrs
                is None ==> after.allowed_cidrs == record.allowed_cidrs
            &&& !request.disable_network && request.clear_dns_filter_hosts
                ==> after.dns_filter_hosts is None
            &&& !request.disable_network && !request.clear_dns_filter_hosts
                && request.dns_filter_hosts is Some ==> after.dns_filter_hosts
                == request.dns_filter_hosts
            &&& !request.disable_network && !request.clear_dns_filter_hosts
                && request.dns_filter_hosts is None ==> after.dns_filter_hosts
                == record.dns_filter_hosts
        }),
{
}

/// Law: an update of restarts and health checks sets what it names and nothing else; how often
/// the machine was restarted, and whether its user ended its monitor, stays.
pub proof fn law_update_of_restarts_and_health(
    record: VmRecordView,
    request: UpdateMachineView,
    gpu_vram_mib: Option<u32>,
)
    ensures
        ({
            let after = updated_record(record, request, gpu_vram_mib);
            &&& request.restart_policy is Some ==> after.restart.policy
                == request.restart_policy->0
            &&& request.restart_policy is None ==> after.restart.policy == record.restart.policy
            &&& request.restart_max_retries is Some ==> after.restart.max_retries
                == request.restart_max_retries->0
            &&& request.restart_max_retries is None ==> after.restart.max_retries
                == record.restart.max_retries
            &&& request.restart_max_backoff_secs is Some ==> after.restart.max_backoff_secs
                == request.restart_max_backoff_secs->0
            &&& request.restart_max_backoff_secs is None ==> after.restart.max_backoff_secs
                == record.restart.max_backoff_secs
            &&& after.restart.restart_count == record.restart.restart_count
                && after.restart.user_stopped == record.restart.user_stopped
            &&& request.health_cmd is Some ==> after.health_cmd == request.health_cmd
            &&& request.health_cmd is None && request.clear_health_cmd ==> after.health_cmd is None
            &&& request.health_cmd is None && !request.clear_health_cmd ==> after.health_cmd
                == record.health_cmd
            &&& request.health_interval_secs is Some ==> after.health_interval_secs
                == request.health_interval_secs
            &&& request.health_interval_secs is None ==> after.health_interval_secs
                == record.health_interval_secs
            &&& request.health_timeout_secs is Some ==> after.health_timeout_secs
                == request.health_timeout_secs
            &&& request.health_timeout_secs is None ==> after.health_timeout_secs
                == record.health_timeout_secs
            &&& request.health_retries is Some ==> after.health_retries == request.health_retries
            &&& request.health_retries is None ==> after.health_retries == record.health_retries
            &&& request.health_startup_grace_secs is Some ==> after.health_startup_grace_secs
                == request.health_startup_grace_secs
            &&& request.health_startup_grace_secs is None ==> after.health_startup_grace_secs
                == record.health_startup_grace_secs
        }),
{
}

/// Law: a mount that an update adds is stored with its source, its target and whether it may be
/// written; one from the same source to the same target as a mount that is there adds nothing.
/// Removing a mount removes each from its source to its target and no other.
pub proof fn law_one_mount_at_a_time(
    mounts: MountsView,
    notes: NotesView,
    mount: HostMountView,
    entry: (Seq<char>, Seq<char>, bool),
)
    ensures
        ({
            let there = exists|i: int|
                0 <= i < mounts.len() && (#[trigger] mounts[i]).0 == mount.source && mounts[i].1
                    == mount.target;
            let added = one_mount_added((mounts, notes), mount);
            &&& there ==> added == (mounts, notes)
            &&& !there ==> added.0 == mounts.push((mount.source, mount.target, mount.read_only))
                && added.1.len() == notes.len() + 1 && added.1.drop_last() == notes
        }),
        one_mount_removed((mounts, notes), mount).0.contains(entry) <==> mounts.contains(entry) && (
        entry.0 != mount.source || entry.1 != mount.target),
{
    let added = one_mount_added((mounts, notes), mount);
    if !has_mount(mounts, mount.source, mount.target) {
        assert(added.1.drop_last() =~= notes);
    }
    lemma_without_mount(mounts, mount.source, mount.target, entry);
}

proof fn lemma_without_mount(
    mounts: MountsView,
    source: Seq<char>,
    target: Seq<char>,
    entry: (Seq<char>, Seq<char>, bool),
)
    ensures
        without_mount(mounts, source, target).contains(entry) <==> mounts.contains(entry) && (
        entry.0 != source || entry.1 != target),
    decreases mounts.len(),
{
    reveal(Seq::filter);
    if mounts.len() > 0 {
        let rest = mounts.drop_last();
        let left = without_mount(rest, source, target);
        let all = without_mount(mounts, source, target);
        lemma_without_mount(rest, source, target, entry);
        if all.contains(entry) {
            let k = all.index_of(entry);
            if k < left.len() {
                assert(left[k] == entry);
                assert(mounts[rest.index_of(entry)] == entry);
            } else {
                assert(mounts[mounts.len() - 1] == entry);
            }
        }
        if mounts.contains(entry) && (entry.0 != source || entry.1 != target) {
            let k = mounts.index_of(entry);
            if k < rest.len() {
                assert(rest[k] == entry);
                assert(all[left.index_of(entry)] == entry);
            } else {
                assert(all[left.len() as int] == entry);
            }
        }
    }
}

/// Law: an update tells of each setting that it names, one line each: of sizes, of the network and
/// what it may reach, of restarts, of health checks and of the SSH agent.
pub proof fn law_each_setting_is_told(
    record: VmRecordView,
    request: UpdateMachineView,
    notes: NotesView,
)
    ensures
        size_notes(record, request, notes).len() == notes.len() + (if request.cpus is Some {
            1int
        } else {
            0int
        })
        + (if request.memory_mib is Some {
            1int
        } else {
            0int
        }),
        network_notes(record, request, notes).len() == notes.len() + (if request.enable_network {
            1int
        } else {
            0int
        })
        + (if request.disable_network {
            1int
        } else {
            0int
        })
        + (if request.disable_network && record.allowed_cidrs is Some {
            1int
        } else {
            0int
        })
        + (if request.disable_network && record.dns_filter_hosts is Some {
            1int
        } else {
            0int
        }),
        egress_notes(request, notes).len() == notes.len() + (if request.network_backend is Some {
            1int
        } else {
            0int
        })
        + (if !request.disable_network && request.allowed_cidrs is Some {
            1int
        } else {
            0int
        })
        + (if request.clear_allowed_cidrs {
            1int
        } else {
            0int
        })
        + (if !request.disable_network && request.dns_filter_hosts is Some {
            1int
        } else {
            0int
        })
        + (if request.clear_dns_filter_hosts {
            1int
        } else {
            0int
        }),
        restart_notes(request, notes).len() == notes.len() + (if request.restart_policy is Some {
            1int
        } else {
            0int
        })
        + (if request.restart_max_retries is Some {
            1int
        } else {
            0int
        })
        + (if request.restart_max_backoff_secs is Some {
            1int
        } else {
            0int
        }),
        health_notes(request, notes).len() == notes.len() + (if request.clear_health_cmd {
            1int
        } else {
            0int
        })
        + (if request.health_cmd is Some {
            1int
        } else {
            0int
        })
        + (if request.health_interval_secs is Some {
            1int
        } else {
            0int
        })
        + (if request.health_timeout_secs is Some {
            1int
        } else {
            0int
        })
        + (if request.health_retries is Some {
            1int
        } else {
            0int
        })
        + (if request.health_startup_grace_secs is Some {
            1int
        } else {
            0int
        }),
        agent_notes(request, notes).len() == notes.len() + (if request.enable_ssh_agent {
            1int
        } else {
            0int
        })
        + (if request.disable_ssh_agent {
            1int
        } else {
            0int
        }),
{
}

/// Law: an update tells of the settings inside the guest that it names: at least one line for each
/// variable that it sets, and one for the directory and the graphics processor.
pub proof fn law_guest_settings_are_told(
    record: VmRecordView,
    request: UpdateMachineView,
    gpu_vram_mib: Option<u32>,
    notes: NotesView,
)
    ensures
        guest_notes(record, request, gpu_vram_mib, notes).len() >= notes.len()
            + request.set_env.len() + (if request.clear_workdir {
            1int
        } else {
            0int
        })
        + (if request.workdir is Some {
            1int
        } else {
            0int
        })
        + (if request.enable_gpu {
            1int
        } else {
            0int
        })
        + (if request.disable_gpu {
            1int
        } else {
            0int
        })
        + (if request.gpu_vram_mib is Some {
            1int
        } else {
            0int
        }),
{
    lemma_env_notes_count(record.env, notes, request.remove_env, request.set_env);
}

/// Law: what an update tells is made up of these parts, one after the other.
pub proof fn law_parts_of_what_is_told(
    record: VmRecordView,
    request: UpdateMachineView,
    gpu_vram_mib: Option<u32>,
    notes: NotesView,
)
    ensures
        update_notes(record, request, gpu_vram_mib, notes) == agent_notes(
            request,
            health_notes(
                request,
                restart_notes(
                    request,
                    guest_notes(
                        record,
                        request,
                        gpu_vram_mib,
                        egress_notes(
                            request,
                            network_notes(
                                record,
                                request,
                                size_notes(
                                    record,
                                    request,
                                    attachment_notes(record, request, notes),
                                ),
                            ),
                        ),
                    ),
                ),
            ),
        ),
{
}

proof fn lemma_env_notes_count(
    env: EnvView,
    notes: NotesView,
    removed: Seq<Seq<char>>,
    set: EnvView,
)
    ensures
        variables_removed((env, notes), removed).1.len() >= notes.len(),
        variables_set(variables_removed((env, notes), removed), set).1.len() >= notes.len()
            + set.len(),
    decreases removed.len() + set.len(),
{
    if set.len() > 0 {
        lemma_env_notes_count(env, notes, removed, set.drop_last());
    } else if removed.len() > 0 {
        lemma_env_notes_count(env, notes, removed.drop_last(), set);
    }
}

} // verus!
