//! Server-sent events of streamed commands and monitors.

use crate::bytes::{lossy_text, text_of_bytes};
use crate::json::{
    compact, integer, json_of, json_signed_or_null, json_texts, member, natural, null, object, put,
    signed_or_null, text, texts, write_compact, JsonView,
};
use crate::model::Model;
use crate::monitor::{MonitorEvent, MonitorEventView};
use crate::requests::{MonitorHealthConfig, MonitorHealthConfigView};
use crate::text::{cat3, own, signed_decimal, signed_number};
use crate::types::{ExecEvent, ExecEventView};
use vstd::prelude::*;

verus! {

/// A server-sent event.
#[derive(Debug, PartialEq, Eq)]
pub struct SseEvent {
    pub event: String,
    pub data: String,
}

/// Mathematical model of a [`SseEvent`].
pub struct SseEventView {
    pub event: Seq<char>,
    pub data: Seq<char>,
}

impl Model for SseEvent {
    type V = SseEventView;

    open spec fn model(&self) -> SseEventView {
        SseEventView {
            event: self.event.model(),
            data: self.data.model(),
        }
    }

    fn dup(&self) -> (copy: Self) {
        SseEvent {
            event: self.event.dup(),
            data: self.data.dup(),
        }
    }
}

/// The server-sent event of what a streamed command produced.
pub open spec fn sse_of_exec(event: ExecEventView) -> SseEventView {
    match event {
        ExecEventView::Stdout(data) => SseEventView { event: "stdout"@, data: lossy_text(data) },
        ExecEventView::Stderr(data) => SseEventView { event: "stderr"@, data: lossy_text(data) },
        ExecEventView::Exit(code) => SseEventView {
            event: "exit"@,
            data: "{\"exitCode\":"@ + signed_decimal(code as int) + "}"@,
        },
        ExecEventView::Error(message) => SseEventView {
            event: "error"@,
            data: "{\"message\":\""@ + message + "\"}"@,
        },
    }
}

/// Makes the server-sent event of what a streamed command produced.
pub fn exec_event_to_sse(event: &ExecEvent) -> (sse: SseEvent)
    ensures
        sse.model() == sse_of_exec(event.model()),
{
    match event {
        ExecEvent::Stdout(data) => {
            assert(data.model() =~= data@);
            SseEvent { event: own("stdout"), data: text_of_bytes(data) }
        },
        ExecEvent::Stderr(data) => {
            assert(data.model() =~= data@);
            SseEvent { event: own("stderr"), data: text_of_bytes(data) }
        },
        ExecEvent::Exit(code) => SseEvent {
            event: own("exit"),
            data: cat3("{\"exitCode\":", signed_number(*code).as_str(), "}"),
        },
        ExecEvent::Error(message) => SseEvent {
            event: own("error"),
            data: cat3("{\"message\":\"", message.as_str(), "\"}"),
        },
    }
}

/// An object without members.
pub open spec fn no_members() -> Map<Seq<char>, JsonView> {
    Map::empty()
}

/// What an event says about the health check of a monitor.
pub open spec fn json_of_health(health: Option<MonitorHealthConfigView>) -> JsonView {
    match health {
        Some(health) => JsonView::Object(
            no_members().insert("command"@, json_texts(health.command)).insert(
                "timeoutSecs"@,
                JsonView::Integer(health.timeout_secs as int),
            ).insert("retries"@, JsonView::Integer(health.retries as int)),
        ),
        None => JsonView::Null,
    }
}

/// The name of the event of a monitor.
pub open spec fn event_name(event: MonitorEventView) -> Seq<char> {
    match event {
        MonitorEventView::Starting { .. } => "starting"@,
        MonitorEventView::Monitoring { .. } => "monitoring"@,
        MonitorEventView::SuspendDetected { .. } => "suspend"@,
        MonitorEventView::HealthRecovered => "healthRecovered"@,
        MonitorEventView::HealthFailed { .. } => "healthFailed"@,
        MonitorEventView::HealthError { .. } => "healthError"@,
        MonitorEventView::AgentUnreachable { .. } => "agentUnreachable"@,
        MonitorEventView::UnhealthyStopping => "unhealthyStopping"@,
        MonitorEventView::MachineExited { .. } => "machineExited"@,
        MonitorEventView::Restarting { .. } => "restarting"@,
        MonitorEventView::Restarted => "restarted"@,
        MonitorEventView::RestartFailed { .. } => "restartFailed"@,
        MonitorEventView::NotRestarting { .. } => "notRestarting"@,
        MonitorEventView::Stopped { .. } => "stopped"@,
    }
}

/// The data of the event of a monitor.
pub open spec fn event_members(event: MonitorEventView) -> Map<Seq<char>, JsonView> {
    match event {
        MonitorEventView::Starting { name } => no_members().insert("name"@, JsonView::Text(name)),
        MonitorEventView::Monitoring { name, policy, interval_secs, health } => no_members().insert(
            "name"@,
            JsonView::Text(name),
        ).insert("policy"@, JsonView::Text(policy.name())).insert(
            "intervalSecs"@,
            JsonView::Integer(interval_secs as int),
        ).insert("health"@, json_of_health(health)),
        MonitorEventView::SuspendDetected { sleep_secs } => no_members().insert(
            "sleepSecs"@,
            JsonView::Integer(sleep_secs as int),
        ),
        MonitorEventView::HealthRecovered => no_members(),
        MonitorEventView::HealthFailed { exit_code, consecutive, retries, stderr } =>
            no_members().insert("exitCode"@, JsonView::Integer(exit_code as int)).insert(
            "consecutive"@,
            JsonView::Integer(consecutive as int),
        ).insert("retries"@, JsonView::Integer(retries as int)).insert(
            "stderr"@,
            JsonView::Text(stderr),
        ),
        MonitorEventView::HealthError { consecutive, retries, error } => no_members().insert(
            "consecutive"@,
            JsonView::Integer(consecutive as int),
        ).insert("retries"@, JsonView::Integer(retries as int)).insert(
            "error"@,
            JsonView::Text(error),
        ),
        MonitorEventView::AgentUnreachable { consecutive, retries } => no_members().insert(
            "consecutive"@,
            JsonView::Integer(consecutive as int),
        ).insert("retries"@, JsonView::Integer(retries as int)),
        MonitorEventView::UnhealthyStopping => no_members(),
        MonitorEventView::MachineExited { exit_code } => no_members().insert(
            "exitCode"@,
            json_signed_or_null(exit_code),
        ),
        MonitorEventView::Restarting { attempt, backoff_secs } => no_members().insert(
            "attempt"@,
            JsonView::Integer(attempt as int),
        ).insert("backoffSecs"@, JsonView::Integer(backoff_secs as int)),
        MonitorEventView::Restarted => no_members(),
        MonitorEventView::RestartFailed { error } => no_members().insert(
            "error"@,
            JsonView::Text(error),
        ),
        MonitorEventView::NotRestarting { policy, count, max_retries } => no_members().insert(
            "policy"@,
            JsonView::Text(policy.name()),
        ).insert("count"@, JsonView::Integer(count as int)).insert(
            "maxRetries"@,
            JsonView::Integer(max_retries as int),
        ),
        MonitorEventView::Stopped { name } => no_members().insert("name"@, JsonView::Text(name)),
    }
}

fn health_value(health: &Option<MonitorHealthConfig>) -> (value: serde_json::Value)
    ensures
        json_of(value) == json_of_health(health.model()),
{
    match health {
        Some(health) => {
            let mut value = object();
            put(&mut value, "command", texts(&health.command));
            put(&mut value, "timeoutSecs", natural(health.timeout_secs));
            put(&mut value, "retries", natural(health.retries as u64));
            value
        },
        None => null(),
    }
}

/// Makes the name and the data of the event of a monitor.
pub fn monitor_event_payload(event: &MonitorEvent) -> (payload: (&'static str, serde_json::Value))
    ensures
        payload.0@ == event_name(event.model()),
        json_of(payload.1) == JsonView::Object(event_members(event.model())),
{
    let mut data = object();
    match event {
        MonitorEvent::Starting { name } => {
            put(&mut data, "name", text(name.as_str()));
            ("starting", data)
        },
        MonitorEvent::Monitoring { name, policy, interval_secs, health } => {
            put(&mut data, "name", text(name.as_str()));
            put(&mut data, "policy", text(policy.label()));
            put(&mut data, "intervalSecs", natural(*interval_secs));
            put(&mut data, "health", health_value(health));
            ("monitoring", data)
        },
        MonitorEvent::SuspendDetected { sleep_secs } => {
            put(&mut data, "sleepSecs", natural(*sleep_secs));
            ("suspend", data)
        },
        MonitorEvent::HealthRecovered => ("healthRecovered", data),
        MonitorEvent::HealthFailed { exit_code, consecutive, retries, stderr } => {
            put(&mut data, "exitCode", integer(*exit_code as i64));
            put(&mut data, "consecutive", natural(*consecutive as u64));
            put(&mut data, "retries", natural(*retries as u64));
            put(&mut data, "stderr", text(stderr.as_str()));
            ("healthFailed", data)
        },
        MonitorEvent::HealthError { consecutive, retries, error } => {
            put(&mut data, "consecutive", natural(*consecutive as u64));
            put(&mut data, "retries", natural(*retries as u64));
            put(&mut data, "error", text(error.as_str()));
            ("healthError", data)
        },
        MonitorEvent::AgentUnreachable { consecutive, retries } => {
            put(&mut data, "consecutive", natural(*consecutive as u64));
            put(&mut data, "retries", natural(*retries as u64));
            ("agentUnreachable", data)
        },
        MonitorEvent::UnhealthyStopping => ("unhealthyStopping", data),
        MonitorEvent::MachineExited { exit_code } => {
            put(&mut data, "exitCode", signed_or_null(*exit_code));
            ("machineExited", data)
        },
        MonitorEvent::Restarting { attempt, backoff_secs } => {
            put(&mut data, "attempt", natural(*attempt as u64));
            put(&mut data, "backoffSecs", natural(*backoff_secs));
            ("restarting", data)
        },
        MonitorEvent::Restarted => ("restarted", data),
        MonitorEvent::RestartFailed { error } => {
            put(&mut data, "error", text(error.as_str()));
            ("restartFailed", data)
        },
        MonitorEvent::NotRestarting { policy, count, max_retries } => {
            put(&mut data, "policy", text(policy.label()));
            put(&mut data, "count", natural(*count as u64));
            put(&mut data, "maxRetries", natural(*max_retries as u64));
            ("notRestarting", data)
        },
        MonitorEvent::Stopped { name } => {
            put(&mut data, "name", text(name.as_str()));
            ("stopped", data)
        },
    }
}

/// Makes the server-sent event of the event of a monitor.
pub fn monitor_event_to_sse(event: &MonitorEvent) -> (sse: SseEvent)
    ensures
        sse.model() == (SseEventView {
            event: event_name(event.model()),
            data: compact(JsonView::Object(event_members(event.model()))),
        }),
{
    let payload = monitor_event_payload(event);
    SseEvent { event: own(payload.0), data: write_compact(&payload.1) }
}

/// Makes the server-sent event of a monitor that failed with this message.
pub fn monitor_error_to_sse(message: &str) -> (sse: SseEvent)
    ensures
        sse.model() == (SseEventView {
            event: "error"@,
            data: compact(
                JsonView::Object(no_members().insert("message"@, JsonView::Text(message@))),
            ),
        }),
{
    let mut data = object();
    put(&mut data, "message", text(message));
    SseEvent { event: own("error"), data: write_compact(&data) }
}

/// Law: output of a command is sent as text under the name of its stream, an exit with its code and an
/// error with its message.
pub proof fn law_exec_events_are_sent(event: ExecEventView)
    ensures
        event matches ExecEventView::Stdout(data) ==> sse_of_exec(event).event == "stdout"@
            && sse_of_exec(event).data == lossy_text(data),
        event matches ExecEventView::Stderr(data) ==> sse_of_exec(event).event == "stderr"@
            && sse_of_exec(event).data == lossy_text(data),
        event matches ExecEventView::Exit(code) ==> sse_of_exec(event).event == "exit"@
            && crate::text::has_part(sse_of_exec(event).data, signed_decimal(code as int)),
        event matches ExecEventView::Error(message) ==> sse_of_exec(event).event == "error"@
            && crate::text::has_part(sse_of_exec(event).data, message),
{
    if let ExecEventView::Exit(code) = event {
        crate::text::law_parts_of_a_text("{\"exitCode\":"@, signed_decimal(code as int), "}"@);
    }
    if let ExecEventView::Error(message) = event {
        crate::text::law_parts_of_a_text("{\"message\":\""@, message, "\"}"@);
    }
}

/// Law: what a monitor reports is sent under a name of its own for each kind of report.
pub proof fn law_reports_have_names_of_their_own(event: MonitorEventView, other: MonitorEventView)
    requires
        event_name(event) == event_name(other),
    ensures
        event is Starting <==> other is Starting,
        event is Monitoring <==> other is Monitoring,
        event is SuspendDetected <==> other is SuspendDetected,
        event is HealthRecovered <==> other is HealthRecovered,
        event is HealthFailed <==> other is HealthFailed,
        event is HealthError <==> other is HealthError,
        event is AgentUnreachable <==> other is AgentUnreachable,
        event is UnhealthyStopping <==> other is UnhealthyStopping,
        event is MachineExited <==> other is MachineExited,
        event is Restarting <==> other is Restarting,
        event is Restarted <==> other is Restarted,
        event is RestartFailed <==> other is RestartFailed,
        event is NotRestarting <==> other is NotRestarting,
        event is Stopped <==> other is Stopped,
{
    reveal_strlit("starting");
    reveal_strlit("monitoring");
    reveal_strlit("suspend");
    reveal_strlit("healthRecovered");
    reveal_strlit("healthFailed");
    reveal_strlit("healthError");
    reveal_strlit("agentUnreachable");
    reveal_strlit("unhealthyStopping");
    reveal_strlit("machineExited");
    reveal_strlit("restarting");
    reveal_strlit("restarted");
    reveal_strlit("restartFailed");
    reveal_strlit("notRestarting");
    reveal_strlit("stopped");
    assert(("starting"@).len() == 8 && ("starting"@)[0] == 's');
    assert(("monitoring"@).len() == 10 && ("monitoring"@)[0] == 'm');
    assert(("suspend"@).len() == 7 && ("suspend"@)[0] == 's');
    assert(("healthRecovered"@).len() == 15 && ("healthRecovered"@)[0] == 'h');
    assert(("healthFailed"@).len() == 12 && ("healthFailed"@)[0] == 'h');
    assert(("healthError"@).len() == 11 && ("healthError"@)[0] == 'h');
    assert(("agentUnreachable"@).len() == 16 && ("agentUnreachable"@)[0] == 'a');
    assert(("unhealthyStopping"@).len() == 17 && ("unhealthyStopping"@)[0] == 'u');
    assert(("machineExited"@).len() == 13 && ("machineExited"@)[0] == 'm');
    assert(("restarting"@).len() == 10 && ("restarting"@)[0] == 'r');
    assert(("restarted"@).len() == 9 && ("restarted"@)[0] == 'r');
    assert(("restartFailed"@).len() == 13 && ("restartFailed"@)[0] == 'r');
    assert(("notRestarting"@).len() == 13 && ("notRestarting"@)[0] == 'n');
    assert(("stopped"@).len() == 7 && ("stopped"@)[0] == 's');
    assert(("starting"@)[1] == 't');
    assert(("monitoring"@)[1] == 'o');
    assert(("suspend"@)[1] == 'u');
    assert(("healthRecovered"@)[1] == 'e');
    assert(("healthFailed"@)[1] == 'e');
    assert(("healthError"@)[1] == 'e');
    assert(("agentUnreachable"@)[1] == 'g');
    assert(("unhealthyStopping"@)[1] == 'n');
    assert(("machineExited"@)[1] == 'a');
    assert(("restarting"@)[1] == 'e');
    assert(("restarted"@)[1] == 'e');
    assert(("restartFailed"@)[1] == 'e');
    assert(("notRestarting"@)[1] == 'o');
    assert(("stopped"@)[1] == 't');
}

/// Law: the data of a report holds what is reported, each value under its own name.
pub proof fn law_reports_hold_their_values(event: MonitorEventView)
    ensures
        ({
            let data = JsonView::Object(event_members(event));
            &&& event matches MonitorEventView::Starting { name } ==> member(data, "name"@)
                == JsonView::Text(name)
            &&& event matches MonitorEventView::Monitoring { name, policy, interval_secs, health }
                ==> member(data, "name"@) == JsonView::Text(name) && member(data, "policy"@)
                == JsonView::Text(policy.name()) && member(data, "intervalSecs"@)
                == JsonView::Integer(interval_secs as int) && (health is None ==> member(
                data,
                "health"@,
            ) is Null) && (health is Some ==> member(member(data, "health"@), "command"@)
                == json_texts(health->0.command) && member(
                member(data, "health"@),
                "timeoutSecs"@,
            ) == JsonView::Integer(health->0.timeout_secs as int) && member(
                member(data, "health"@),
                "retries"@,
            ) == JsonView::Integer(health->0.retries as int))
            &&& event matches MonitorEventView::SuspendDetected { sleep_secs } ==> member(
                data,
                "sleepSecs"@,
            ) == JsonView::Integer(sleep_secs as int)
            &&& event matches MonitorEventView::HealthFailed {
                exit_code,
                consecutive,
                retries,
                stderr,
            } ==> member(data, "exitCode"@) == JsonView::Integer(exit_code as int) && member(
                data,
                "consecutive"@,
            ) == JsonView::Integer(consecutive as int) && member(data, "retries"@)
                == JsonView::Integer(retries as int) && member(data, "stderr"@) == JsonView::Text(
                stderr,
            )
            &&& event matches MonitorEventView::HealthError { consecutive, retries, error }
                ==> member(data, "consecutive"@) == JsonView::Integer(consecutive as int) && member(
                data,
                "retries"@,
            ) == JsonView::Integer(retries as int) && member(data, "error"@) == JsonView::Text(
                error,
            )
            &&& event matches MonitorEventView::AgentUnreachable { consecutive, retries }
                ==> member(data, "consecutive"@) == JsonView::Integer(consecutive as int) && member(
                data,
                "retries"@,
            ) == JsonView::Integer(retries as int)
            &&& event matches MonitorEventView::MachineExited { exit_code } ==> (exit_code is Some
                ==> member(data, "exitCode"@) == JsonView::Integer(exit_code->0 as int)) && (
            exit_code is None ==> member(data, "exitCode"@) is Null)
            &&& event matches MonitorEventView::Restarting { attempt, backoff_secs } ==> member(
                data,
                "attempt"@,
            ) == JsonView::Integer(attempt as int) && member(data, "backoffSecs"@)
                == JsonView::Integer(backoff_secs as int)
            &&& event matches MonitorEventView::RestartFailed { error } ==> member(data, "error"@)
                == JsonView::Text(error)
            &&& event matches MonitorEventView::NotRestarting { policy, count, max_retries }
                ==> member(data, "policy"@) == JsonView::Text(policy.name()) && member(
                data,
                "count"@,
            ) == JsonView::Integer(count as int) && member(data, "maxRetries"@)
                == JsonView::Integer(max_retries as int)
            &&& event matches MonitorEventView::Stopped { name } ==> member(data, "name"@)
                == JsonView::Text(name)
        }),
{
    reveal_strlit("name");
    reveal_strlit("policy");
    reveal_strlit("intervalSecs");
    reveal_strlit("health");
    reveal_strlit("command");
    reveal_strlit("timeoutSecs");
    reveal_strlit("retries");
    reveal_strlit("sleepSecs");
    reveal_strlit("exitCode");
    reveal_strlit("consecutive");
    reveal_strlit("stderr");
    reveal_strlit("error");
    reveal_strlit("attempt");
    reveal_strlit("backoffSecs");
    reveal_strlit("count");
    reveal_strlit("maxRetries");
    assert(("name"@).len() == 4 && ("name"@)[0] == 'n');
    assert(("policy"@).len() == 6 && ("policy"@)[0] == 'p');
    assert(("intervalSecs"@).len() == 12 && ("intervalSecs"@)[0] == 'i');
    assert(("health"@).len() == 6 && ("health"@)[0] == 'h');
    assert(("command"@).len() == 7 && ("command"@)[0] == 'c');
    assert(("timeoutSecs"@).len() == 11 && ("timeoutSecs"@)[0] == 't');
    assert(("retries"@).len() == 7 && ("retries"@)[0] == 'r');
    assert(("sleepSecs"@).len() == 9 && ("sleepSecs"@)[0] == 's');
    assert(("exitCode"@).len() == 8 && ("exitCode"@)[0] == 'e');
    assert(("consecutive"@).len() == 11 && ("consecutive"@)[0] == 'c');
    assert(("stderr"@).len() == 6 && ("stderr"@)[0] == 's');
    assert(("error"@).len() == 5 && ("error"@)[0] == 'e');
    assert(("attempt"@).len() == 7 && ("attempt"@)[0] == 'a');
    assert(("backoffSecs"@).len() == 11 && ("backoffSecs"@)[0] == 'b');
    assert(("count"@).len() == 5 && ("count"@)[0] == 'c');
    assert(("maxRetries"@).len() == 10 && ("maxRetries"@)[0] == 'm');
    assert(("name"@)[1] == 'a');
    assert(("policy"@)[1] == 'o');
    assert(("intervalSecs"@)[1] == 'n');
    assert(("health"@)[1] == 'e');
    assert(("command"@)[1] == 'o');
    assert(("timeoutSecs"@)[1] == 'i');
    assert(("retries"@)[1] == 'e');
    assert(("sleepSecs"@)[1] == 'l');
    assert(("exitCode"@)[1] == 'x');
    assert(("consecutive"@)[1] == 'o');
    assert(("stderr"@)[1] == 't');
    assert(("error"@)[1] == 'r');
    assert(("attempt"@)[1] == 't');
    assert(("backoffSecs"@)[1] == 'a');
    assert(("count"@)[1] == 'o');
    assert(("maxRetries"@)[1] == 'a');
}

} // verus!
