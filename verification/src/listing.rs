//! Command line: showing machines.

use crate::error::{Error, ErrorView};
use crate::json::{
    indented, json_list, json_number_or_null, json_of, json_signed_or_null, json_small_or_null,
    json_text_or_null, json_texts, list, member, natural, number_or_null, object, put, signed_or_null,
    small_or_null, text, text_or_null, texts, truth, write_indented, JsonView,
};
use crate::model::{empty_list, extend_from, one_of, push_to, Model};
use crate::requests::{MachineStatus, MachineStatusView};
use crate::text::{
    align_left, align_right, cat2, cat3, cat4, cat5, cat7, decimal, join, joined, left_aligned,
    number, own, repeat_char, repeated, right_aligned, same_text, signed_decimal, signed_number,
};
use crate::types::{
    RecordState, ResourceDefaults, ResourceDefaultsView, VmRecord, VmRecordView,
};
use vstd::prelude::*;

verus! {

/// The name under which a machine is shown: `default` where none was given.
pub open spec fn label_of(name: Option<Seq<char>>) -> Seq<char> {
    match name {
        Some(name) => name,
        None => "default"@,
    }
}

/// Tells the name under which a machine is shown.
pub fn vm_label(name: &Option<String>) -> (label: String)
    ensures
        label@ == label_of(name.model()),
{
    match name {
        Some(name) => name.dup(),
        None => own("default"),
    }
}

/// The machine that a command is about: the one that it names, or else the
/// default one where that exists. `default_exists` is what looking for the
/// default one gives.
pub fn resolve_vm_name(name: Option<String>, default_exists: Result<bool, Error>) -> (resolved:
    Result<Option<String>, Error>)
    ensures
        resolved.model() == (match name.model() {
            Some(name) => Ok::<Option<Seq<char>>, ErrorView>(Some(name)),
            None => match default_exists.model() {
                Err(error) => Err(error),
                Ok(exists) => if exists {
                    Ok(Some("default"@))
                } else {
                    Ok(None)
                },
            },
        }),
{
    if name.is_some() {
        return Ok(name);
    }
    match default_exists {
        Err(error) => Err(error),
        Ok(true) => Ok(Some(own("default"))),
        Ok(false) => Ok(None),
    }
}

/// What is shown of a machine: only a machine that was named must exist, and the
/// manager of a running one must open.
pub open spec fn status_shown(
    name: Option<Seq<char>>,
    status: Option<MachineStatusView>,
    manager: Result<(), ErrorView>,
    pid_suffix: Seq<char>,
) -> Result<Seq<char>, ErrorView> {
    let label = label_of(name);
    match status {
        None => if name is Some {
            Err(ErrorView::VmNotFound { name: label })
        } else {
            Ok("Machine '"@ + label + "': not running"@)
        },
        Some(status) => if status.state == RecordState::Running {
            match manager {
                Err(error) => Err(error),
                Ok(_) => Ok("Machine '"@ + label + "': running"@ + pid_suffix),
            }
        } else {
            Ok("Machine '"@ + label + "': "@ + status.state.name())
        },
    }
}

/// Shows a machine. `manager` is what opening the manager of a running machine
/// gave, and `pid_suffix` names its process.
pub fn status_vm(
    name: &Option<String>,
    status: &Option<MachineStatus>,
    manager: Result<(), Error>,
    pid_suffix: &str,
) -> (shown: Result<String, Error>)
    ensures
        shown.model() == status_shown(name.model(), status.model(), manager.model(), pid_suffix@),
{
    let label: String = vm_label(name);
    match status {
        None => if name.is_some() {
            Err(Error::vm_not_found(label.as_str()))
        } else {
            Ok(cat3("Machine '", label.as_str(), "': not running"))
        },
        Some(status) => if status.state == RecordState::Running {
            match manager {
                Err(error) => Err(error),
                Ok(_) => Ok(cat4("Machine '", label.as_str(), "': running", pid_suffix)),
            }
        } else {
            Ok(cat4("Machine '", label.as_str(), "': ", status.state.label()))
        },
    }
}

/// How the health command of a machine is shown: a line for the shell as that
/// line, any other command by its words.
pub open spec fn health_shown(health: Option<Seq<Seq<char>>>) -> Option<Seq<char>> {
    match health {
        None => None,
        Some(words) => if words.len() == 3 && words[0] == "sh"@ && words[1] == "-c"@ {
            Some(words[2])
        } else {
            Some(joined(words, " "@))
        },
    }
}

fn show_health(health: &Option<Vec<String>>) -> (shown: Option<String>)
    ensures
        shown.model() == health_shown(health.model()),
{
    match health {
        None => None,
        Some(words) => if words.len() == 3 && same_text(words[0].as_str(), "sh") && same_text(
            words[1].as_str(),
            "-c",
        ) {
            Some(words[2].dup())
        } else {
            Some(join(words, " "))
        },
    }
}

/// The first half of the members of a machine in JSON.
pub open spec fn status_members(status: MachineStatusView) -> Map<Seq<char>, JsonView> {
    Map::empty().insert("name"@, JsonView::Text(status.name)).insert(
        "state"@,
        JsonView::Text(status.state.name()),
    ).insert("cpus"@, JsonView::Integer(status.record.cpus as int)).insert(
        "memory_mib"@,
        JsonView::Integer(status.record.mem as int),
    ).insert("pid"@, json_signed_or_null(status.record.pid)).insert(
        "mounts"@,
        JsonView::Integer(status.record.mounts.len() as int),
    ).insert("ports"@, JsonView::Integer(status.record.ports.len() as int)).insert(
        "created_at"@,
        JsonView::Integer(status.record.created_at as int),
    ).insert("storage_gb"@, json_number_or_null(status.record.storage_gb)).insert(
        "overlay_gb"@,
        json_number_or_null(status.record.overlay_gb),
    ).insert("image"@, json_text_or_null(status.record.image)).insert(
        "entrypoint"@,
        json_texts(status.record.entrypoint),
    ).insert("cmd"@, json_texts(status.record.cmd))
}

/// A machine in JSON.
pub open spec fn status_json(status: MachineStatusView) -> JsonView {
    JsonView::Object(
        status_members(status).insert("ephemeral"@, JsonView::Bool(status.record.ephemeral)).insert(
            "gpu"@,
            JsonView::Bool(status.record.gpu == Some(true)),
        ).insert("gpu_vram_mib"@, json_small_or_null(status.record.gpu_vram_mib)).insert(
            "restart_policy"@,
            JsonView::Text(status.record.restart.policy.name()),
        ).insert(
            "restart_max_retries"@,
            JsonView::Integer(status.record.restart.max_retries as int),
        ).insert(
            "restart_count"@,
            JsonView::Integer(status.record.restart.restart_count as int),
        ).insert("health_cmd"@, json_text_or_null(health_shown(status.record.health_cmd))).insert(
            "health_interval_secs"@,
            json_number_or_null(status.record.health_interval_secs),
        ).insert(
            "health_timeout_secs"@,
            json_number_or_null(status.record.health_timeout_secs),
        ).insert("health_retries"@, json_small_or_null(status.record.health_retries)).insert(
            "health_startup_grace_secs"@,
            json_number_or_null(status.record.health_startup_grace_secs),
        ).insert("network"@, JsonView::Bool(status.record.network)),
    )
}

fn first_members(status: &MachineStatus) -> (value: serde_json::Value)
    ensures
        json_of(value) == JsonView::Object(status_members(status.model())),
{
    let record: &VmRecord = &status.record;
    let mut value = object();
    put(&mut value, "name", text(status.name.as_str()));
    put(&mut value, "state", text(status.state.label()));
    put(&mut value, "cpus", natural(record.cpus as u64));
    put(&mut value, "memory_mib", natural(record.mem as u64));
    put(&mut value, "pid", signed_or_null(record.pid));
    put(&mut value, "mounts", natural(record.mounts.len() as u64));
    put(&mut value, "ports", natural(record.ports.len() as u64));
    put(&mut value, "created_at", natural(record.created_at));
    put(&mut value, "storage_gb", number_or_null(record.storage_gb));
    put(&mut value, "overlay_gb", number_or_null(record.overlay_gb));
    put(&mut value, "image", text_or_null(&record.image));
    put(&mut value, "entrypoint", texts(&record.entrypoint));
    put(&mut value, "cmd", texts(&record.cmd));
    value
}

/// Makes a machine in JSON.
pub fn machine_status_json(status: &MachineStatus) -> (value: serde_json::Value)
    ensures
        json_of(value) == status_json(status.model()),
{
    let record: &VmRecord = &status.record;
    let mut value = first_members(status);
    put(&mut value, "ephemeral", truth(record.ephemeral));
    let gpu: bool = match record.gpu {
        Some(gpu) => gpu,
        None => false,
    };
    put(&mut value, "gpu", truth(gpu));
    put(&mut value, "gpu_vram_mib", small_or_null(record.gpu_vram_mib));
    put(&mut value, "restart_policy", text(record.restart.policy.label()));
    put(&mut value, "restart_max_retries", natural(record.restart.max_retries as u64));
    put(&mut value, "restart_count", natural(record.restart.restart_count as u64));
    put(&mut value, "health_cmd", text_or_null(&show_health(&record.health_cmd)));
    put(&mut value, "health_interval_secs", number_or_null(record.health_interval_secs));
    put(&mut value, "health_timeout_secs", number_or_null(record.health_timeout_secs));
    put(&mut value, "health_retries", small_or_null(record.health_retries));
    put(
        &mut value,
        "health_startup_grace_secs",
        number_or_null(record.health_startup_grace_secs),
    );
    put(&mut value, "network", truth(record.network));
    value
}

/// What writing a value in indented notation gives.
pub open spec fn json_shown(notation: Result<Seq<char>, Seq<char>>) -> Result<
    Seq<char>,
    ErrorView,
> {
    match notation {
        Ok(notation) => Ok(notation),
        Err(reason) => Err(ErrorView::Config { operation: "serialize json"@, reason }),
    }
}

/// Tells what is shown once a value was written in indented notation.
pub fn show_notation(notation: Result<String, String>) -> (shown: Result<String, Error>)
    ensures
        shown.model() == json_shown(notation.model()),
{
    match notation {
        Ok(notation) => Ok(notation),
        Err(reason) => Err(Error::config("serialize json", reason)),
    }
}

/// Shows a machine in JSON.
pub fn status_vm_json(name: &Option<String>, status: &Option<MachineStatus>) -> (shown: Result<
    String,
    Error,
>)
    ensures
        shown.model() == (match status.model() {
            None => Err::<Seq<char>, ErrorView>(
                ErrorView::Config {
                    operation: "machine status"@,
                    reason: "machine '"@ + label_of(name.model()) + "' not found"@,
                },
            ),
            Some(status) => Ok(indented(status_json(status))),
        }),
{
    match status {
        None => {
            let label: String = vm_label(name);
            Err(
                Error::config(
                    "machine status",
                    cat3("machine '", label.as_str(), "' not found"),
                ),
            )
        },
        Some(status) => {
            let value = machine_status_json(status);
            show_notation(write_indented(&value))
        },
    }
}

/// A machine in a list, with its name cut to the width of a column.
#[derive(Debug, PartialEq, Eq)]
pub struct ListedMachine {
    pub status: MachineStatus,
    pub label: String,
}

/// Mathematical model of a [`ListedMachine`].
pub struct ListedMachineView {
    pub status: MachineStatusView,
    pub label: Seq<char>,
}

impl Model for ListedMachine {
    type V = ListedMachineView;

    open spec fn model(&self) -> ListedMachineView {
        ListedMachineView {
            status: self.status.model(),
            label: self.label.model(),
        }
    }

    fn dup(&self) -> (copy: Self) {
        ListedMachine {
            status: self.status.dup(),
            label: self.label.dup(),
        }
    }
}

/// A line of the table of machines.
pub open spec fn table_line(columns: Seq<Seq<char>>) -> Seq<char> {
    left_aligned(columns[0], 20) + " "@ + left_aligned(columns[1], 12) + " "@ + right_aligned(
        columns[2],
        5,
    ) + " "@ + right_aligned(columns[3], 10) + " "@ + right_aligned(columns[4], 7) + " "@
        + right_aligned(columns[5], 7) + " "@ + right_aligned(columns[6], 8) + " "@ + right_aligned(
        columns[7],
        8,
    )
}

fn make_table_line(
    c0: &str,
    c1: &str,
    c2: &str,
    c3: &str,
    c4: &str,
    c5: &str,
    c6: &str,
    c7: &str,
) -> (line: String)
    ensures
        line@ == table_line(seq![c0@, c1@, c2@, c3@, c4@, c5@, c6@, c7@]),
{
    let first: String = cat7(
        align_left(c0, 20).as_str(),
        " ",
        align_left(c1, 12).as_str(),
        " ",
        align_right(c2, 5).as_str(),
        " ",
        align_right(c3, 10).as_str(),
    );
    let second: String = cat3(first.as_str(), " ", align_right(c4, 7).as_str());
    let third: String = cat3(second.as_str(), " ", align_right(c5, 7).as_str());
    let fourth: String = cat3(third.as_str(), " ", align_right(c6, 8).as_str());
    cat3(fourth.as_str(), " ", align_right(c7, 8).as_str())
}

/// The first lines of the table of machines.
pub open spec fn table_head() -> Seq<Seq<char>> {
    seq![
        table_line(
            seq![
                "NAME"@,
                "STATE"@,
                "CPUS"@,
                "MEMORY"@,
                "MOUNTS"@,
                "PORTS"@,
                "STORAGE"@,
                "OVERLAY"@,
            ],
        ),
        repeated('-', 88),
    ]
}

/// The line of a machine in the table.
pub open spec fn table_row(machine: ListedMachineView, defaults: ResourceDefaultsView) -> Seq<char> {
    let record = machine.status.record;
    table_line(
        seq![
            machine.label,
            if record.ephemeral {
                machine.status.state.name() + " (eph)"@
            } else {
                machine.status.state.name()
            },
            decimal(record.cpus as nat),
            decimal(record.mem as nat) + " MiB"@,
            decimal(record.mounts.len()),
            decimal(record.ports.len()),
            decimal(crate::update_flow::disk_size(record.storage_gb, defaults.storage_gib) as nat)
                + " GiB"@,
            decimal(crate::update_flow::disk_size(record.overlay_gb, defaults.overlay_gib) as nat)
                + " GiB"@,
        ],
    )
}

fn make_table_row(machine: &ListedMachine, defaults: &ResourceDefaults) -> (row: String)
    ensures
        row@ == table_row(machine.model(), defaults.model()),
{
    let record: &VmRecord = &machine.status.record;
    let state: String = if record.ephemeral {
        cat2(machine.status.state.label(), " (eph)")
    } else {
        own(machine.status.state.label())
    };
    let storage: u64 = crate::update_flow::current_disk_size(
        record.storage_gb,
        defaults.storage_gib,
    );
    let overlay: u64 = crate::update_flow::current_disk_size(
        record.overlay_gb,
        defaults.overlay_gib,
    );
    make_table_line(
        machine.label.as_str(),
        state.as_str(),
        number(record.cpus as u64).as_str(),
        cat2(number(record.mem as u64).as_str(), " MiB").as_str(),
        number(record.mounts.len() as u64).as_str(),
        number(record.ports.len() as u64).as_str(),
        cat2(number(storage).as_str(), " GiB").as_str(),
        cat2(number(overlay).as_str(), " GiB").as_str(),
    )
}

/// The first second of the year ten thousand, from which on a time of creation
/// cannot be shown.
pub const END_OF_CALENDAR: u64 = 253_402_300_800;

/// A time in RFC 3339 notation, with whole seconds, given as seconds since the
/// start of 1970.
pub uninterp spec fn rfc3339(secs: u64) -> Seq<char>;

/// Trusted: `humantime::format_rfc3339_seconds` writes a time before the year
/// ten thousand in RFC 3339 notation, with whole seconds: always twenty
/// characters, and always in UTC. A later time it refuses to write.
#[verifier::external_body]
fn write_time(secs: u64) -> (notation: String)
    requires
        secs < END_OF_CALENDAR,
    ensures
        notation@ == rfc3339(secs),
        notation@.len() == 20,
{
    let time = std::time::UNIX_EPOCH + std::time::Duration::from_secs(secs);
    humantime::format_rfc3339_seconds(time).to_string()
}

/// A line where there is something to show.
pub open spec fn line_if(shown: bool, line: Seq<char>) -> Seq<Seq<char>> {
    if shown {
        seq![line]
    } else {
        Seq::empty()
    }
}

/// The lines of the mounts of a machine.
pub open spec fn mount_lines(mounts: Seq<(Seq<char>, Seq<char>, bool)>) -> Seq<Seq<char>> {
    Seq::new(
        mounts.len(),
        |i: int|
            "  Mount: "@ + mounts[i].0 + " -> "@ + mounts[i].1 + if mounts[i].2 {
                " (ro)"@
            } else {
                ""@
            },
    )
}

/// The lines of the ports of a machine.
pub open spec fn port_lines(ports: Seq<(u16, u16)>) -> Seq<Seq<char>> {
    Seq::new(
        ports.len(),
        |i: int| "  Port: "@ + decimal(ports[i].0 as nat) + " -> "@ + decimal(ports[i].1 as nat),
    )
}

/// The lines of the init commands of a machine.
pub open spec fn init_lines(init: Seq<Seq<char>>) -> Seq<Seq<char>> {
    Seq::new(init.len(), |i: int| "  Init: "@ + init[i])
}

/// The lines of the variables of a machine.
pub open spec fn env_lines(env: Seq<(Seq<char>, Seq<char>)>) -> Seq<Seq<char>> {
    Seq::new(env.len(), |i: int| "  Env: "@ + env[i].0 + "="@ + env[i].1)
}

/// The line of the graphics device of a machine.
pub open spec fn gpu_lines(record: VmRecordView) -> Seq<Seq<char>> {
    line_if(
        record.gpu == Some(true),
        match record.gpu_vram_mib {
            Some(vram) => "  GPU: enabled ("@ + decimal(vram as nat) + " MiB VRAM)"@,
            None => "  GPU: enabled"@,
        },
    )
}

/// The lines that tell more of a machine. `created` is its time of creation.
pub open spec fn detail_lines(record: VmRecordView, created: Seq<char>) -> Seq<Seq<char>> {
    line_if(record.pid is Some, "  PID: "@ + signed_decimal(record.pid->0 as int)) + mount_lines(
        record.mounts,
    ) + port_lines(record.ports) + line_if(record.network, "  Network: enabled"@) + gpu_lines(record)
        + init_lines(record.init) + env_lines(record.env) + line_if(
        record.workdir is Some,
        "  Workdir: "@ + record.workdir->0,
    ) + seq!["  Created: "@ + created, ""@]
}

fn make_mount_lines(mounts: &Vec<(String, String, bool)>) -> (lines: Vec<String>)
    ensures
        lines.model() == mount_lines(mounts.model()),
{
    let ghost all = mount_lines(mounts.model());
    let mut lines: Vec<String> = empty_list();
    let mut i: usize = 0;
    while i < mounts.len()
        invariant
            i <= mounts.len(),
            all == mount_lines(mounts.model()),
            lines.model() == all.take(i as int),
        decreases mounts.len() - i,
    {
        let suffix: &str = if mounts[i].2 {
            " (ro)"
        } else {
            ""
        };
        push_to(
            &mut lines,
            cat5("  Mount: ", mounts[i].0.as_str(), " -> ", mounts[i].1.as_str(), suffix),
        );
        assert(all.take(i + 1) =~= all.take(i as int).push(all[i as int]));
        i += 1;
    }
    assert(all.take(all.len() as int) =~= all);
    lines
}

fn make_port_lines(ports: &Vec<(u16, u16)>) -> (lines: Vec<String>)
    ensures
        lines.model() == port_lines(ports.model()),
{
    let ghost all = port_lines(ports.model());
    let mut lines: Vec<String> = empty_list();
    let mut i: usize = 0;
    while i < ports.len()
        invariant
            i <= ports.len(),
            all == port_lines(ports.model()),
            lines.model() == all.take(i as int),
        decreases ports.len() - i,
    {
        push_to(
            &mut lines,
            cat4(
                "  Port: ",
                number(ports[i].0 as u64).as_str(),
                " -> ",
                number(ports[i].1 as u64).as_str(),
            ),
        );
        assert(all.take(i + 1) =~= all.take(i as int).push(all[i as int]));
        i += 1;
    }
    assert(all.take(all.len() as int) =~= all);
    lines
}

fn make_init_lines(init: &Vec<String>) -> (lines: Vec<String>)
    ensures
        lines.model() == init_lines(init.model()),
{
    let ghost all = init_lines(init.model());
    let mut lines: Vec<String> = empty_list();
    let mut i: usize = 0;
    while i < init.len()
        invariant
            i <= init.len(),
            all == init_lines(init.model()),
            lines.model() == all.take(i as int),
        decreases init.len() - i,
    {
        push_to(&mut lines, cat2("  Init: ", init[i].as_str()));
        assert(all.take(i + 1) =~= all.take(i as int).push(all[i as int]));
        i += 1;
    }
    assert(all.take(all.len() as int) =~= all);
    lines
}

fn make_env_lines(env: &Vec<(String, String)>) -> (lines: Vec<String>)
    ensures
        lines.model() == env_lines(env.model()),
{
    let ghost all = env_lines(env.model());
    let mut lines: Vec<String> = empty_list();
    let mut i: usize = 0;
    while i < env.len()
        invariant
            i <= env.len(),
            all == env_lines(env.model()),
            lines.model() == all.take(i as int),
        decreases env.len() - i,
    {
        push_to(&mut lines, cat4("  Env: ", env[i].0.as_str(), "=", env[i].1.as_str()));
        assert(all.take(i + 1) =~= all.take(i as int).push(all[i as int]));
        i += 1;
    }
    assert(all.take(all.len() as int) =~= all);
    lines
}

fn make_gpu_lines(record: &VmRecord) -> (lines: Vec<String>)
    ensures
        lines.model() == gpu_lines(record.model()),
{
    match record.gpu {
        Some(true) => one_of(
            match record.gpu_vram_mib {
                Some(vram) => cat3(
                    "  GPU: enabled (",
                    number(vram as u64).as_str(),
                    " MiB VRAM)",
                ),
                None => own("  GPU: enabled"),
            },
        ),
        _ => empty_list(),
    }
}

/// Makes the lines that tell more of a machine, once its time of creation was
/// written.
pub fn describe_machine(record: &VmRecord, created: &str) -> (lines: Vec<String>)
    ensures
        lines.model() == detail_lines(record.model(), created@),
{
    let mut lines: Vec<String> = empty_list();
    if let Some(pid) = record.pid {
        push_to(&mut lines, cat2("  PID: ", signed_number(pid).as_str()));
    }
    assert(lines.model() =~= line_if(
        record.pid is Some,
        "  PID: "@ + signed_decimal(record.pid->0 as int),
    ));
    extend_from(&mut lines, &make_mount_lines(&record.mounts));
    extend_from(&mut lines, &make_port_lines(&record.ports));
    let ghost before = lines.model();
    if record.network {
        push_to(&mut lines, own("  Network: enabled"));
    }
    assert(lines.model() =~= before + line_if(record.network, "  Network: enabled"@));
    extend_from(&mut lines, &make_gpu_lines(record));
    extend_from(&mut lines, &make_init_lines(&record.init));
    extend_from(&mut lines, &make_env_lines(&record.env));
    let ghost before = lines.model();
    if let Some(workdir) = &record.workdir {
        push_to(&mut lines, cat2("  Workdir: ", workdir.as_str()));
    }
    assert(lines.model() =~= before + line_if(
        record.model().workdir is Some,
        "  Workdir: "@ + record.model().workdir->0,
    ));
    let ghost before = lines.model();
    push_to(&mut lines, cat2("  Created: ", created));
    push_to(&mut lines, String::new());
    assert(lines.model() =~= before + seq!["  Created: "@ + created@, ""@]) by {
        reveal_strlit("");
        assert(""@ =~= Seq::<char>::empty());
    }
    assert(lines.model() =~= detail_lines(record.model(), created@));
    lines
}

/// Whether the time of creation of each machine can be shown.
pub open spec fn in_calendar(machines: Seq<ListedMachineView>) -> bool {
    forall|i: int|
        0 <= i < machines.len() ==> (#[trigger] machines[i]).status.record.created_at
            < END_OF_CALENDAR
}

/// The lines of machines in the table.
pub open spec fn table_rows(
    machines: Seq<ListedMachineView>,
    verbose: bool,
    defaults: ResourceDefaultsView,
) -> Seq<Seq<char>>
    decreases machines.len(),
{
    if machines.len() == 0 {
        Seq::empty()
    } else {
        let last = machines.last();
        table_rows(machines.drop_last(), verbose, defaults).push(table_row(last, defaults)) + if verbose {
            detail_lines(last.status.record, rfc3339(last.status.record.created_at))
        } else {
            Seq::empty()
        }
    }
}

/// Machines in JSON.
pub open spec fn statuses_json(machines: Seq<ListedMachineView>) -> JsonView {
    JsonView::List(Seq::new(machines.len(), |i: int| status_json(machines[i].status)))
}

/// What is shown of machines.
pub open spec fn machines_shown(
    machines: Seq<ListedMachineView>,
    verbose: bool,
    json: bool,
    defaults: ResourceDefaultsView,
) -> Result<Seq<Seq<char>>, ErrorView> {
    if machines.len() == 0 {
        Ok(
            seq![
                if json {
                    "[]"@
                } else {
                    "No machines found"@
                },
            ],
        )
    } else if json {
        Ok(seq![indented(statuses_json(machines))])
    } else {
        Ok(table_head() + table_rows(machines, verbose, defaults))
    }
}

fn make_statuses_json(machines: &Vec<ListedMachine>) -> (value: serde_json::Value)
    ensures
        json_of(value) == statuses_json(machines.model()),
{
    let mut values: Vec<serde_json::Value> = Vec::new();
    let mut i: usize = 0;
    while i < machines.len()
        invariant
            i <= machines.len(),
            values.len() == i,
            forall|j: int|
                0 <= j < i ==> json_of(#[trigger] values@[j]) == status_json(
                    machines.model()[j].status,
                ),
        decreases machines.len() - i,
    {
        values.push(machine_status_json(&machines[i].status));
        i += 1;
    }
    let ghost all = json_list(values@);
    assert(all =~= Seq::new(
        machines.model().len(),
        |i: int| status_json(machines.model()[i].status),
    ));
    list(values)
}

fn make_table_head() -> (lines: Vec<String>)
    ensures
        lines.model() == table_head(),
{
    let mut lines: Vec<String> = empty_list();
    push_to(
        &mut lines,
        make_table_line(
            "NAME",
            "STATE",
            "CPUS",
            "MEMORY",
            "MOUNTS",
            "PORTS",
            "STORAGE",
            "OVERLAY",
        ),
    );
    push_to(&mut lines, repeat_char('-', 88));
    assert(lines.model() =~= table_head());
    lines
}

/// Shows machines. In a verbose table a machine is shown with its time of
/// creation, which must be before the year ten thousand.
pub fn list_vms(
    machines: &Vec<ListedMachine>,
    verbose: bool,
    json: bool,
    defaults: &ResourceDefaults,
) -> (shown: Result<Vec<String>, Error>)
    requires
        verbose && !json ==> in_calendar(machines.model()),
    ensures
        shown.model() == machines_shown(machines.model(), verbose, json, defaults.model()),
{
    if machines.is_empty() {
        return Ok(
            one_of(
                if json {
                    own("[]")
                } else {
                    own("No machines found")
                },
            ),
        );
    }
    if json {
        let value = make_statuses_json(machines);
        return match show_notation(write_indented(&value)) {
            Ok(notation) => Ok(one_of(notation)),
            Err(error) => Err(error),
        };
    }
    let ghost all = machines.model();
    let mut lines: Vec<String> = make_table_head();
    let mut i: usize = 0;
    assert(lines.model() =~= table_head() + table_rows(all.take(0), verbose, defaults.model()));
    while i < machines.len()
        invariant
            i <= machines.len(),
            machines.model() == all,
            verbose ==> in_calendar(all),
            lines.model() == table_head() + table_rows(
                all.take(i as int),
                verbose,
                defaults.model(),
            ),
        decreases machines.len() - i,
    {
        assert(all.take(i + 1).drop_last() =~= all.take(i as int));
        assert(all.take(i + 1).last() == machines[i as int].model());
        let ghost before = table_rows(all.take(i as int), verbose, defaults.model());
        let ghost row = table_row(machines[i as int].model(), defaults.model());
        push_to(&mut lines, make_table_row(&machines[i], defaults));
        assert(lines.model() =~= table_head() + before.push(row));
        if verbose {
            assert(all[i as int].status.record.created_at < END_OF_CALENDAR);
            let created: String = write_time(machines[i].status.record.created_at);
            let details: Vec<String> = describe_machine(
                &machines[i].status.record,
                created.as_str(),
            );
            extend_from(&mut lines, &details);
            assert(lines.model() =~= table_head() + (before.push(row) + details.model()));
        } else {
            assert(before.push(row) + Seq::<Seq<char>>::empty() =~= before.push(row));
        }
        i += 1;
    }
    assert(all.take(all.len() as int) =~= all);
    Ok(lines)
}

/// Whether a machine is left over from a run: it was started for one command,
/// and its process is gone.
pub open spec fn is_orphan(record: VmRecordView, alive: bool) -> bool {
    record.ephemeral && (record.pid is None || !alive)
}

/// A machine, and whether a process with its noted number is there.
#[derive(Debug, PartialEq, Eq)]
pub struct FoundMachine {
    pub name: String,
    pub record: VmRecord,
    pub alive: bool,
}

/// Mathematical model of a [`FoundMachine`].
pub struct FoundMachineView {
    pub name: Seq<char>,
    pub record: VmRecordView,
    pub alive: bool,
}

impl Model for FoundMachine {
    type V = FoundMachineView;

    open spec fn model(&self) -> FoundMachineView {
        FoundMachineView {
            name: self.name.model(),
            record: self.record.model(),
            alive: self.alive.model(),
        }
    }

    fn dup(&self) -> (copy: Self) {
        FoundMachine {
            name: self.name.dup(),
            record: self.record.dup(),
            alive: self.alive.dup(),
        }
    }
}

/// The machines that are left over from runs.
pub open spec fn orphans(machines: Seq<FoundMachineView>) -> Seq<Seq<char>>
    decreases machines.len(),
{
    if machines.len() == 0 {
        Seq::empty()
    } else if is_orphan(machines.last().record, machines.last().alive) {
        orphans(machines.drop_last()).push(machines.last().name)
    } else {
        orphans(machines.drop_last())
    }
}

/// Selects the machines that are left over from runs, which are removed.
pub fn cleanup_orphaned_ephemeral_vms(machines: &Vec<FoundMachine>) -> (removed: Vec<String>)
    ensures
        removed.model() == orphans(machines.model()),
{
    let ghost all = machines.model();
    let mut removed: Vec<String> = empty_list();
    let mut i: usize = 0;
    while i < machines.len()
        invariant
            i <= machines.len(),
            machines.model() == all,
            removed.model() == orphans(all.take(i as int)),
        decreases machines.len() - i,
    {
        assert(all.take(i + 1).drop_last() =~= all.take(i as int));
        assert(all.take(i + 1).last() == machines[i as int].model());
        if machines[i].record.ephemeral {
            let gone: bool = match machines[i].record.pid {
                Some(_) => !machines[i].alive,
                None => true,
            };
            if gone {
                push_to(&mut removed, machines[i].name.dup());
            }
        }
        i += 1;
    }
    assert(all.take(all.len() as int) =~= all);
    removed
}

/// Law: cleaning up removes a machine only where one of that name was started
/// for one command and its process is gone.
pub proof fn law_only_orphans_are_removed(machines: Seq<FoundMachineView>, name: Seq<char>)
    requires
        orphans(machines).contains(name),
    ensures
        exists|i: int|
            0 <= i < machines.len() && (#[trigger] machines[i]).name == name && is_orphan(
                machines[i].record,
                machines[i].alive,
            ),
    decreases machines.len(),
{
    let rest = machines.drop_last();
    let k = orphans(machines).index_of(name);
    if is_orphan(machines.last().record, machines.last().alive) && k == orphans(rest).len() {
        assert(machines[machines.len() - 1].name == name);
    } else {
        assert(orphans(rest)[k] == name);
        law_only_orphans_are_removed(rest, name);
        let i = choose|i: int|
            0 <= i < rest.len() && (#[trigger] rest[i]).name == name && is_orphan(
                rest[i].record,
                rest[i].alive,
            );
        assert(machines[i] == rest[i]);
    }
}

/// Law: a machine is known by the name that was given, and by `default` where none was.
pub proof fn law_label_is_the_name(name: Option<Seq<char>>)
    ensures
        name is Some ==> label_of(name) == name->0,
        name is None ==> label_of(name) == "default"@,
{
}

/// Law: the name that was given is taken as it is; without one the default machine is meant where there
/// is one, and a failure to look for it is the result.
pub proof fn law_named_machine_is_taken(
    name: Option<String>,
    default_exists: Result<bool, Error>,
    resolved: Result<Option<String>, Error>,
)
    requires
        call_ensures(resolve_vm_name, (name, default_exists), resolved),
    ensures
        name is Some ==> resolved is Ok && resolved->Ok_0 is Some && resolved->Ok_0->0@ == name->0@,
        name is None && default_exists is Err ==> resolved is Err && resolved->Err_0.model()
            == default_exists->Err_0.model(),
        name is None && default_exists is Ok ==> resolved is Ok && (resolved->Ok_0 is Some
            <==> default_exists->Ok_0),
        name is None && default_exists is Ok && default_exists->Ok_0 ==> resolved->Ok_0->0@
            == "default"@,
{
    assert(resolved.model() is Ok <==> resolved is Ok);
    assert(resolved is Ok ==> resolved.model()->Ok_0 == resolved->Ok_0.model());
    assert(resolved is Err ==> resolved.model()->Err_0 == resolved->Err_0.model());
    assert(default_exists is Ok ==> default_exists.model()->Ok_0 == default_exists->Ok_0);
}

/// Law: what is shown of a machine names it and its state. A machine that was named must exist, and the
/// manager of a running one must open, or else the error is told; a missing default machine is not
/// running.
pub proof fn law_status_names_the_machine(
    name: Option<Seq<char>>,
    status: Option<MachineStatusView>,
    manager: Result<(), ErrorView>,
    pid_suffix: Seq<char>,
)
    ensures
        status_shown(name, status, manager, pid_suffix) is Err <==> (status is None && name is Some)
            || (status is Some && status->0.state == RecordState::Running && manager is Err),
        status is None && name is Some ==> status_shown(name, status, manager, pid_suffix) == Err::<
            Seq<char>,
            ErrorView,
        >(ErrorView::VmNotFound { name: name->0 }),
        status is Some && status->0.state == RecordState::Running && manager is Err
            ==> status_shown(name, status, manager, pid_suffix)->Err_0 == manager->Err_0,
        status_shown(name, status, manager, pid_suffix) matches Ok(line) ==> {
            &&& name is Some ==> crate::text::has_part(line, name->0)
            &&& name is None ==> crate::text::has_part(line, "default"@)
            &&& status is Some && status->0.state != RecordState::Running
                ==> status->0.state.name().is_suffix_of(line)
            &&& status is Some && status->0.state == RecordState::Running
                ==> pid_suffix.is_suffix_of(line) && crate::text::has_part(line, "': running"@)
            &&& status is None ==> crate::text::has_part(line, "not running"@)
        },
{
    if let Ok(line) = status_shown(name, status, manager, pid_suffix) {
        let label = label_of(name);
        let at = ("Machine '"@).len() as int;
        assert(line.subrange(at, at + label.len()) =~= label);
        assert(crate::text::stands_at(line, label, at));
        let then = at + label.len();
        if status is None {
            reveal_strlit("': not running");
            reveal_strlit("not running");
            let part = "not running"@;
            assert(line.subrange(then + 3, then + 3 + part.len()) =~= part);
            assert(crate::text::stands_at(line, part, then + 3));
        } else if status->0.state == RecordState::Running {
            let part = "': running"@;
            assert(line.subrange(then, then + part.len()) =~= part);
            assert(crate::text::stands_at(line, part, then));
            assert(line.subrange(line.len() - pid_suffix.len(), line.len() as int) =~= pid_suffix);
        } else {
            let state = status->0.state.name();
            assert(line.subrange(line.len() - state.len(), line.len() as int) =~= state);
        }
    }
}

/// Law: a health command that is a line for the shell is shown as that line, any other command by its
/// words with a space between each two of them.
pub proof fn law_health_command_is_shown(line: Seq<char>, words: Seq<Seq<char>>)
    ensures
        health_shown(None) is None,
        health_shown(Some(seq!["sh"@, "-c"@, line])) == Some(line),
        words.len() != 3 || words[0] != "sh"@ || words[1] != "-c"@ ==> health_shown(Some(words))
            == Some(joined(words, " "@)),
{
}

/// Law: a machine in JSON holds what its record holds, each setting under its own name: the machine
/// itself, its resources and what it runs.
pub proof fn law_machine_members(status: MachineStatusView)
    ensures
        ({
            let json = status_json(status);
            let record = status.record;
            &&& member(json, "name"@) == JsonView::Text(status.name)
            &&& member(json, "state"@) == JsonView::Text(status.state.name())
            &&& member(json, "cpus"@) == JsonView::Integer(record.cpus as int)
            &&& member(json, "memory_mib"@) == JsonView::Integer(record.mem as int)
            &&& member(json, "mounts"@) == JsonView::Integer(record.mounts.len() as int)
            &&& member(json, "ports"@) == JsonView::Integer(record.ports.len() as int)
            &&& member(json, "created_at"@) == JsonView::Integer(record.created_at as int)
            &&& record.pid is Some ==> member(json, "pid"@) == JsonView::Integer(
                record.pid->0 as int,
            )
            &&& record.pid is None ==> member(json, "pid"@) is Null
            &&& record.storage_gb is Some ==> member(json, "storage_gb"@) == JsonView::Integer(
                record.storage_gb->0 as int,
            )
            &&& record.storage_gb is None ==> member(json, "storage_gb"@) is Null
            &&& record.overlay_gb is Some ==> member(json, "overlay_gb"@) == JsonView::Integer(
                record.overlay_gb->0 as int,
            )
            &&& record.overlay_gb is None ==> member(json, "overlay_gb"@) is Null
            &&& record.image is Some ==> member(json, "image"@) == JsonView::Text(record.image->0)
            &&& record.image is None ==> member(json, "image"@) is Null
            &&& member(json, "entrypoint"@) == json_texts(record.entrypoint)
            &&& member(json, "cmd"@) == json_texts(record.cmd)
            &&& member(json, "network"@) == JsonView::Bool(record.network)
        }),
{
    reveal_strlit("name");
    reveal_strlit("state");
    reveal_strlit("cpus");
    reveal_strlit("memory_mib");
    reveal_strlit("pid");
    reveal_strlit("mounts");
    reveal_strlit("ports");
    reveal_strlit("created_at");
    reveal_strlit("storage_gb");
    reveal_strlit("overlay_gb");
    reveal_strlit("image");
    reveal_strlit("entrypoint");
    reveal_strlit("cmd");
    reveal_strlit("ephemeral");
    reveal_strlit("gpu");
    reveal_strlit("gpu_vram_mib");
    reveal_strlit("restart_policy");
    reveal_strlit("restart_max_retries");
    reveal_strlit("restart_count");
    reveal_strlit("health_cmd");
    reveal_strlit("health_interval_secs");
    reveal_strlit("health_timeout_secs");
    reveal_strlit("health_retries");
    reveal_strlit("health_startup_grace_secs");
    reveal_strlit("network");
    assert(("name"@).len() == 4 && ("name"@)[0] == 'n');
    assert(("state"@).len() == 5 && ("state"@)[0] == 's');
    assert(("cpus"@).len() == 4 && ("cpus"@)[0] == 'c');
    assert(("memory_mib"@).len() == 10 && ("memory_mib"@)[0] == 'm');
    assert(("pid"@).len() == 3 && ("pid"@)[0] == 'p');
    assert(("mounts"@).len() == 6 && ("mounts"@)[0] == 'm');
    assert(("ports"@).len() == 5 && ("ports"@)[0] == 'p');
    assert(("created_at"@).len() == 10 && ("created_at"@)[0] == 'c');
    assert(("storage_gb"@).len() == 10 && ("storage_gb"@)[0] == 's');
    assert(("overlay_gb"@).len() == 10 && ("overlay_gb"@)[0] == 'o');
    assert(("image"@).len() == 5 && ("image"@)[0] == 'i');
    assert(("entrypoint"@).len() == 10 && ("entrypoint"@)[0] == 'e');
    assert(("cmd"@).len() == 3 && ("cmd"@)[0] == 'c');
    assert(("ephemeral"@).len() == 9 && ("ephemeral"@)[0] == 'e');
    assert(("gpu"@).len() == 3 && ("gpu"@)[0] == 'g');
    assert(("gpu_vram_mib"@).len() == 12 && ("gpu_vram_mib"@)[0] == 'g');
    assert(("restart_policy"@).len() == 14 && ("restart_policy"@)[0] == 'r');
    assert(("restart_max_retries"@).len() == 19 && ("restart_max_retries"@)[0] == 'r');
    assert(("restart_count"@).len() == 13 && ("restart_count"@)[0] == 'r');
    assert(("health_cmd"@).len() == 10 && ("health_cmd"@)[0] == 'h');
    assert(("health_interval_secs"@).len() == 20 && ("health_interval_secs"@)[0] == 'h');
    assert(("health_timeout_secs"@).len() == 19 && ("health_timeout_secs"@)[0] == 'h');
    assert(("health_retries"@).len() == 14 && ("health_retries"@)[0] == 'h');
    assert(("health_startup_grace_secs"@).len() == 25 && ("health_startup_grace_secs"@)[0] == 'h');
    assert(("network"@).len() == 7 && ("network"@)[0] == 'n');
}

/// Law: a machine in JSON holds, under their own names, whether it stays, its graphics device, and how
/// it is restarted and checked.
pub proof fn law_machine_policy_members(status: MachineStatusView)
    ensures
        ({
            let json = status_json(status);
            let record = status.record;
            &&& member(json, "ephemeral"@) == JsonView::Bool(record.ephemeral)
            &&& member(json, "gpu"@) == JsonView::Bool(record.gpu == Some(true))
            &&& record.gpu_vram_mib is Some ==> member(json, "gpu_vram_mib"@) == JsonView::Integer(
                record.gpu_vram_mib->0 as int,
            )
            &&& record.gpu_vram_mib is None ==> member(json, "gpu_vram_mib"@) is Null
            &&& member(json, "restart_policy"@) == JsonView::Text(record.restart.policy.name())
            &&& member(json, "restart_max_retries"@) == JsonView::Integer(
                record.restart.max_retries as int,
            )
            &&& member(json, "restart_count"@) == JsonView::Integer(
                record.restart.restart_count as int,
            )
            &&& record.health_cmd is Some ==> member(json, "health_cmd"@) == JsonView::Text(
                health_shown(record.health_cmd)->0,
            )
            &&& record.health_cmd is None ==> member(json, "health_cmd"@) is Null
            &&& record.health_interval_secs is Some ==> member(json, "health_interval_secs"@)
                == JsonView::Integer(record.health_interval_secs->0 as int)
            &&& record.health_interval_secs is None ==> member(json, "health_interval_secs"@) is Null
            &&& record.health_timeout_secs is Some ==> member(json, "health_timeout_secs"@)
                == JsonView::Integer(record.health_timeout_secs->0 as int)
            &&& record.health_timeout_secs is None ==> member(json, "health_timeout_secs"@) is Null
            &&& record.health_retries is Some ==> member(json, "health_retries"@)
                == JsonView::Integer(record.health_retries->0 as int)
            &&& record.health_retries is None ==> member(json, "health_retries"@) is Null
            &&& record.health_startup_grace_secs is Some ==> member(
                json,
                "health_startup_grace_secs"@,
            ) == JsonView::Integer(record.health_startup_grace_secs->0 as int)
            &&& record.health_startup_grace_secs is None ==> member(
                json,
                "health_startup_grace_secs"@,
            ) is Null
        }),
{
    reveal_strlit("name");
    reveal_strlit("state");
    reveal_strlit("cpus");
    reveal_strlit("memory_mib");
    reveal_strlit("pid");
    reveal_strlit("mounts");
    reveal_strlit("ports");
    reveal_strlit("created_at");
    reveal_strlit("storage_gb");
    reveal_strlit("overlay_gb");
    reveal_strlit("image");
    reveal_strlit("entrypoint");
    reveal_strlit("cmd");
    reveal_strlit("ephemeral");
    reveal_strlit("gpu");
    reveal_strlit("gpu_vram_mib");
    reveal_strlit("restart_policy");
    reveal_strlit("restart_max_retries");
    reveal_strlit("restart_count");
    reveal_strlit("health_cmd");
    reveal_strlit("health_interval_secs");
    reveal_strlit("health_timeout_secs");
    reveal_strlit("health_retries");
    reveal_strlit("health_startup_grace_secs");
    reveal_strlit("network");
    assert(("name"@).len() == 4 && ("name"@)[0] == 'n');
    assert(("state"@).len() == 5 && ("state"@)[0] == 's');
    assert(("cpus"@).len() == 4 && ("cpus"@)[0] == 'c');
    assert(("memory_mib"@).len() == 10 && ("memory_mib"@)[0] == 'm');
    assert(("pid"@).len() == 3 && ("pid"@)[0] == 'p');
    assert(("mounts"@).len() == 6 && ("mounts"@)[0] == 'm');
    assert(("ports"@).len() == 5 && ("ports"@)[0] == 'p');
    assert(("created_at"@).len() == 10 && ("created_at"@)[0] == 'c');
    assert(("storage_gb"@).len() == 10 && ("storage_gb"@)[0] == 's');
    assert(("overlay_gb"@).len() == 10 && ("overlay_gb"@)[0] == 'o');
    assert(("image"@).len() == 5 && ("image"@)[0] == 'i');
    assert(("entrypoint"@).len() == 10 && ("entrypoint"@)[0] == 'e');
    assert(("cmd"@).len() == 3 && ("cmd"@)[0] == 'c');
    assert(("ephemeral"@).len() == 9 && ("ephemeral"@)[0] == 'e');
    assert(("gpu"@).len() == 3 && ("gpu"@)[0] == 'g');
    assert(("gpu_vram_mib"@).len() == 12 && ("gpu_vram_mib"@)[0] == 'g');
    assert(("restart_policy"@).len() == 14 && ("restart_policy"@)[0] == 'r');
    assert(("restart_max_retries"@).len() == 19 && ("restart_max_retries"@)[0] == 'r');
    assert(("restart_count"@).len() == 13 && ("restart_count"@)[0] == 'r');
    assert(("health_cmd"@).len() == 10 && ("health_cmd"@)[0] == 'h');
    assert(("health_interval_secs"@).len() == 20 && ("health_interval_secs"@)[0] == 'h');
    assert(("health_timeout_secs"@).len() == 19 && ("health_timeout_secs"@)[0] == 'h');
    assert(("health_retries"@).len() == 14 && ("health_retries"@)[0] == 'h');
    assert(("health_startup_grace_secs"@).len() == 25 && ("health_startup_grace_secs"@)[0] == 'h');
    assert(("network"@).len() == 7 && ("network"@)[0] == 'n');
}

/// Law: each machine has its line in the table, behind the two lines of the head and in the order of
/// the machines; only a verbose list holds more. In JSON there is one value for each machine, and an
/// empty list says that there is none.
pub proof fn law_each_machine_is_listed(
    machines: Seq<ListedMachineView>,
    machine: ListedMachineView,
    defaults: ResourceDefaultsView,
)
    ensures
        table_rows(machines.push(machine), false, defaults) == table_rows(machines, false, defaults)
            + seq![table_row(machine, defaults)],
        table_rows(machines, false, defaults).len() == machines.len(),
        (table_rows(machines, true, defaults) + seq![table_row(machine, defaults)]).is_prefix_of(
            table_rows(machines.push(machine), true, defaults),
        ),
        machines.len() > 0 ==> machines_shown(machines, false, false, defaults) is Ok
            && machines_shown(machines, false, false, defaults)->Ok_0.len() == machines.len() + 2,
        statuses_json(machines) is List && statuses_json(machines)->List_0.len() == machines.len(),
        forall|i: int|
            0 <= i < machines.len() ==> #[trigger] statuses_json(machines)->List_0[i]
                == status_json(machines[i].status),
        machines.len() > 0 ==> machines_shown(machines, false, true, defaults) == Ok::<
            Seq<Seq<char>>,
            ErrorView,
        >(seq![indented(statuses_json(machines))]),
        machines.len() == 0 ==> machines_shown(machines, false, true, defaults)->Ok_0 == seq!["[]"@],
    decreases machines.len(),
{
    let all = machines.push(machine);
    assert(all.drop_last() =~= machines);
    assert(table_rows(all, false, defaults) =~= table_rows(machines, false, defaults) + seq![
        table_row(machine, defaults),
    ]);
    let head = table_rows(machines, true, defaults) + seq![table_row(machine, defaults)];
    assert(head =~= table_rows(all, true, defaults).take(head.len() as int));
    if machines.len() > 0 {
        assert(machines =~= machines.drop_last().push(machines.last()));
        law_each_machine_is_listed(machines.drop_last(), machines.last(), defaults);
    }
}

/// Law: the line of a machine in the table begins with its name, tells its state, and holds its
/// processors, its memory and its disks, whose sizes are the default ones where its record leaves
/// them out.
pub proof fn law_row_tells_the_machine(machine: ListedMachineView, defaults: ResourceDefaultsView)
    ensures
        ({
            let row = table_row(machine, defaults);
            let record = machine.status.record;
            let storage = if record.storage_gb is Some {
                record.storage_gb->0
            } else {
                defaults.storage_gib
            };
            let overlay = if record.overlay_gb is Some {
                record.overlay_gb->0
            } else {
                defaults.overlay_gib
            };
            &&& machine.label.is_prefix_of(row)
            &&& crate::text::has_part(row, machine.status.state.name())
            &&& crate::text::has_part(row, decimal(record.cpus as nat) + " "@)
            &&& crate::text::has_part(row, decimal(record.mem as nat) + " MiB"@ + " "@)
            &&& crate::text::has_part(row, decimal(storage as nat) + " GiB"@ + " "@)
            &&& (decimal(overlay as nat) + " GiB"@).is_suffix_of(row)
        }),
{
    let record = machine.status.record;
    let name = machine.status.state.name();
    let state = if record.ephemeral {
        name + " (eph)"@
    } else {
        name
    };
    let cpus = decimal(record.cpus as nat);
    let mem = decimal(record.mem as nat) + " MiB"@;
    let mounts = decimal(record.mounts.len());
    let ports = decimal(record.ports.len());
    let storage = decimal(
        crate::update_flow::disk_size(record.storage_gb, defaults.storage_gib) as nat,
    ) + " GiB"@;
    let overlay = decimal(
        crate::update_flow::disk_size(record.overlay_gb, defaults.overlay_gib) as nat,
    ) + " GiB"@;
    let row = table_row(machine, defaults);
    let c0 = left_aligned(machine.label, 20);
    let c1 = left_aligned(state, 12);
    let c2 = right_aligned(cpus, 5);
    let c3 = right_aligned(mem, 10);
    let c4 = right_aligned(mounts, 7);
    let c5 = right_aligned(ports, 7);
    let c6 = right_aligned(storage, 8);
    let c7 = right_aligned(overlay, 8);
    let t0 = c0 + " "@;
    let t1 = t0 + c1 + " "@;
    let t2 = t1 + c2 + " "@;
    let t3 = t2 + c3 + " "@;
    let t4 = t3 + c4 + " "@;
    let t5 = t4 + c5 + " "@;
    let t6 = t5 + c6 + " "@;
    assert(row == t6 + c7);
    lemma_prefix_grows(c0, machine.label, " "@);
    lemma_prefix_grows(t0, machine.label, c1);
    lemma_prefix_grows(t0 + c1, machine.label, " "@);
    lemma_prefix_grows(t1, machine.label, c2);
    lemma_prefix_grows(t1 + c2, machine.label, " "@);
    lemma_prefix_grows(t2, machine.label, c3);
    lemma_prefix_grows(t2 + c3, machine.label, " "@);
    lemma_prefix_grows(t3, machine.label, c4);
    lemma_prefix_grows(t3 + c4, machine.label, " "@);
    lemma_prefix_grows(t4, machine.label, c5);
    lemma_prefix_grows(t4 + c5, machine.label, " "@);
    lemma_prefix_grows(t5, machine.label, c6);
    lemma_prefix_grows(t5 + c6, machine.label, " "@);
    lemma_prefix_grows(t6, machine.label, c7);
    lemma_left_column(t0, name, state, 12);
    lemma_part_grows(t0 + c1, name, " "@);
    lemma_part_grows(t1, name, c2);
    lemma_part_grows(t1 + c2, name, " "@);
    lemma_parts_in_row(t2, name, c3, c4, c5, c6, c7);
    lemma_right_column(t1, cpus, 5);
    lemma_parts_in_row(t2, cpus + " "@, c3, c4, c5, c6, c7);
    lemma_right_column(t2, mem, 10);
    lemma_part_grows(t3, mem + " "@, c4);
    lemma_part_grows(t3 + c4, mem + " "@, " "@);
    lemma_part_grows(t4, mem + " "@, c5);
    lemma_part_grows(t4 + c5, mem + " "@, " "@);
    lemma_part_grows(t5, mem + " "@, c6);
    lemma_part_grows(t5 + c6, mem + " "@, " "@);
    lemma_part_grows(t6, mem + " "@, c7);
    lemma_right_column(t5, storage, 8);
    lemma_part_grows(t6, storage + " "@, c7);
    assert(row.subrange(row.len() - overlay.len(), row.len() as int) =~= overlay);
}

proof fn lemma_part_grows(text: Seq<char>, part: Seq<char>, more: Seq<char>)
    requires
        crate::text::has_part(text, part),
    ensures
        crate::text::has_part(text + more, part),
{
    let at = choose|at: int| #[trigger] crate::text::stands_at(text, part, at);
    assert((text + more).subrange(at, at + part.len()) =~= text.subrange(at, at + part.len()));
    assert(crate::text::stands_at(text + more, part, at));
}

proof fn lemma_prefix_grows(text: Seq<char>, part: Seq<char>, more: Seq<char>)
    requires
        part.is_prefix_of(text),
    ensures
        part.is_prefix_of(text + more),
{
    assert((text + more).take(part.len() as int) =~= text.take(part.len() as int));
}

proof fn lemma_left_column(before: Seq<char>, part: Seq<char>, text: Seq<char>, width: nat)
    requires
        part.is_prefix_of(text),
    ensures
        crate::text::has_part(before + left_aligned(text, width), part),
{
    let line = before + left_aligned(text, width);
    let at = before.len() as int;
    assert(line.subrange(at, at + part.len()) =~= part);
    assert(crate::text::stands_at(line, part, at));
}

proof fn lemma_right_column(before: Seq<char>, text: Seq<char>, width: nat)
    ensures
        crate::text::has_part(before + right_aligned(text, width) + " "@, text + " "@),
{
    let line = before + right_aligned(text, width) + " "@;
    let part = text + " "@;
    let at = line.len() - part.len();
    assert(line.subrange(at, at + part.len()) =~= part);
    assert(crate::text::stands_at(line, part, at));
}

proof fn lemma_parts_in_row(
    text: Seq<char>,
    part: Seq<char>,
    c3: Seq<char>,
    c4: Seq<char>,
    c5: Seq<char>,
    c6: Seq<char>,
    c7: Seq<char>,
)
    requires
        crate::text::has_part(text, part),
    ensures
        crate::text::has_part(
            text + c3 + " "@ + c4 + " "@ + c5 + " "@ + c6 + " "@ + c7,
            part,
        ),
{
    lemma_part_grows(text, part, c3);
    lemma_part_grows(text + c3, part, " "@);
    lemma_part_grows(text + c3 + " "@, part, c4);
    lemma_part_grows(text + c3 + " "@ + c4, part, " "@);
    lemma_part_grows(text + c3 + " "@ + c4 + " "@, part, c5);
    lemma_part_grows(text + c3 + " "@ + c4 + " "@ + c5, part, " "@);
    lemma_part_grows(text + c3 + " "@ + c4 + " "@ + c5 + " "@, part, c6);
    lemma_part_grows(text + c3 + " "@ + c4 + " "@ + c5 + " "@ + c6, part, " "@);
    lemma_part_grows(text + c3 + " "@ + c4 + " "@ + c5 + " "@ + c6 + " "@, part, c7);
}

/// Law: every machine that was started for one command and whose process is gone is removed.
pub proof fn law_every_orphan_is_removed(machines: Seq<FoundMachineView>, i: int)
    requires
        0 <= i < machines.len(),
        machines[i].record.ephemeral,
        machines[i].record.pid is None || !machines[i].alive,
    ensures
        orphans(machines).contains(machines[i].name),
    decreases machines.len(),
{
    let rest = machines.drop_last();
    if i < rest.len() {
        law_every_orphan_is_removed(rest, i);
        let k = orphans(rest).index_of(rest[i].name);
        assert(orphans(machines)[k] == machines[i].name);
    } else {
        assert(orphans(machines).last() == machines[i].name);
    }
}

/// Law: a machine that stays, or whose process is there, is not left over.
pub proof fn law_living_machines_stay(record: VmRecordView, alive: bool)
    ensures
        !record.ephemeral ==> !is_orphan(record, alive),
        record.pid is Some && alive ==> !is_orphan(record, alive),
{
}

/// Law: the lines about a machine tell each of its mounts, ports, init commands and variables, in their
/// order and in full.
pub proof fn law_lines_tell_each_setting(record: VmRecordView, i: int)
    ensures
        mount_lines(record.mounts).len() == record.mounts.len(),
        port_lines(record.ports).len() == record.ports.len(),
        init_lines(record.init).len() == record.init.len(),
        env_lines(record.env).len() == record.env.len(),
        0 <= i < record.mounts.len() ==> crate::text::has_part(
            mount_lines(record.mounts)[i],
            record.mounts[i].0 + " -> "@ + record.mounts[i].1,
        ) && (record.mounts[i].2 ==> (" (ro)"@).is_suffix_of(mount_lines(record.mounts)[i])),
        0 <= i < record.ports.len() ==> (decimal(record.ports[i].0 as nat) + " -> "@ + decimal(
            record.ports[i].1 as nat,
        )).is_suffix_of(port_lines(record.ports)[i]),
        0 <= i < record.init.len() ==> record.init[i].is_suffix_of(init_lines(record.init)[i]),
        0 <= i < record.env.len() ==> (record.env[i].0 + "="@ + record.env[i].1).is_suffix_of(
            env_lines(record.env)[i],
        ),
{
    if 0 <= i < record.mounts.len() {
        let line = mount_lines(record.mounts)[i];
        let part = record.mounts[i].0 + " -> "@ + record.mounts[i].1;
        let at = ("  Mount: "@).len() as int;
        assert(line.subrange(at, at + part.len()) =~= part);
        assert(crate::text::stands_at(line, part, at));
        if record.mounts[i].2 {
            let end = " (ro)"@;
            assert(line.subrange(line.len() - end.len(), line.len() as int) =~= end);
        }
    }
    if 0 <= i < record.ports.len() {
        let line = port_lines(record.ports)[i];
        let part = decimal(record.ports[i].0 as nat) + " -> "@ + decimal(
            record.ports[i].1 as nat,
        );
        assert(line.subrange(line.len() - part.len(), line.len() as int) =~= part);
    }
    if 0 <= i < record.init.len() {
        let line = init_lines(record.init)[i];
        let part = record.init[i];
        assert(line.subrange(line.len() - part.len(), line.len() as int) =~= part);
    }
    if 0 <= i < record.env.len() {
        let line = env_lines(record.env)[i];
        let part = record.env[i].0 + "="@ + record.env[i].1;
        assert(line.subrange(line.len() - part.len(), line.len() as int) =~= part);
    }
}

/// Law: what is told of a machine is, in this order, its process, its mounts, its ports, its network,
/// its graphics device, its init commands, its variables and its directory, each only where there is
/// one, and then when it was created and an empty line.
pub proof fn law_details_of_a_machine(record: VmRecordView, created: Seq<char>)
    ensures
        ({
            let lines = detail_lines(record, created);
            let process = if record.pid is Some {
                1int
            } else {
                0int
            };
            let mounted = process + record.mounts.len();
            let mapped = mounted + record.ports.len();
            let networked = mapped + if record.network {
                1int
            } else {
                0int
            };
            let drawn = networked + if record.gpu == Some(true) {
                1int
            } else {
                0int
            };
            let begun = drawn + record.init.len();
            let set = begun + record.env.len();
            let placed = set + if record.workdir is Some {
                1int
            } else {
                0int
            };
            &&& lines.len() == placed + 2
            &&& record.pid is Some ==> signed_decimal(record.pid->0 as int).is_suffix_of(lines[0])
            &&& lines.subrange(process, mounted) == mount_lines(record.mounts)
            &&& lines.subrange(mounted, mapped) == port_lines(record.ports)
            &&& lines.subrange(drawn, begun) == init_lines(record.init)
            &&& lines.subrange(begun, set) == env_lines(record.env)
            &&& record.workdir is Some ==> record.workdir->0.is_suffix_of(lines[set])
            &&& created.is_suffix_of(lines[placed])
            &&& lines[placed + 1] == ""@
        }),
{
    let lines = detail_lines(record, created);
    let a = line_if(record.pid is Some, "  PID: "@ + signed_decimal(record.pid->0 as int));
    let b = a + mount_lines(record.mounts);
    let c = b + port_lines(record.ports);
    let d = c + line_if(record.network, "  Network: enabled"@);
    let e = d + gpu_lines(record);
    let f = e + init_lines(record.init);
    let g = f + env_lines(record.env);
    let h = g + line_if(record.workdir is Some, "  Workdir: "@ + record.workdir->0);
    assert(lines == h + seq!["  Created: "@ + created, ""@]);
    assert(lines.subrange(a.len() as int, b.len() as int) =~= mount_lines(record.mounts));
    assert(lines.subrange(b.len() as int, c.len() as int) =~= port_lines(record.ports));
    assert(lines.subrange(e.len() as int, f.len() as int) =~= init_lines(record.init));
    assert(lines.subrange(f.len() as int, g.len() as int) =~= env_lines(record.env));
    if record.pid is Some {
        let number = signed_decimal(record.pid->0 as int);
        let line = "  PID: "@ + number;
        assert(lines[0] == line);
        assert(line.subrange(line.len() - number.len(), line.len() as int) =~= number);
    }
    if record.workdir is Some {
        let line = "  Workdir: "@ + record.workdir->0;
        assert(lines[g.len() as int] == line);
        assert(line.subrange(line.len() - record.workdir->0.len(), line.len() as int)
            =~= record.workdir->0);
    }
    let line = "  Created: "@ + created;
    assert(lines[h.len() as int] == line);
    assert(line.subrange(line.len() - created.len(), line.len() as int) =~= created);
}

} // verus!
