use smolvm::api::ApiError;
use smolvm::interactive::{
    decode_frame, exit_message, first_input, make_interactive_job, next_interactive_step, Frame,
    FrameAction, InteractiveInput, InteractiveProgress, InteractiveQuery, InteractiveStep,
};
use smolvm::logs::{
    check_logs_query, next_chunk, show_lines, split_lines, LogStream, LogsQuery, TailBuffer,
    MAX_PARTIAL_LINE,
};
use smolvm::monitor::MonitorEvent;
use smolvm::requests::MonitorHealthConfig;
use smolvm::sse::{exec_event_to_sse, monitor_error_to_sse, monitor_event_to_sse};
use smolvm::types::{ExecEvent, Job, RestartPolicy};

fn text(value: &str) -> String {
    value.to_string()
}

fn query(follow: bool, tail: Option<usize>, format: Option<&str>) -> LogsQuery {
    LogsQuery { follow, tail, format: format.map(text) }
}

#[test]
fn tail_of_a_log_is_limited() {
    assert!(check_logs_query(&query(false, Some(10_000), None)).is_ok());
    assert_eq!(
        check_logs_query(&query(false, Some(10_001), None)),
        Err(ApiError::BadRequest(text("tail value 10001 exceeds maximum of 10000")))
    );
}

#[test]
fn tail_buffer_keeps_the_last_lines() {
    let mut buffer = TailBuffer::new(2);
    for line in ["a", "b", "c"] {
        buffer.push(text(line));
    }
    assert_eq!(buffer.into_lines(), vec!["b", "c"]);
    let mut none = TailBuffer::new(0);
    none.push(text("a"));
    assert!(none.into_lines().is_empty());
}

#[test]
fn chunks_are_bounded() {
    assert_eq!(next_chunk(0, 0), None);
    assert_eq!(next_chunk(5, 3), None);
    assert_eq!(next_chunk(0, 10), Some(10));
    assert_eq!(next_chunk(10, 1_000_000), Some(65_536));
}

#[test]
fn lines_are_split_and_trimmed() {
    let (lines, rest) = split_lines("a\r\n\nb\r\r\nc\r");
    assert_eq!(lines, vec!["a", "", "b"]);
    assert_eq!(rest, "c\r");
    assert_eq!(
        show_lines(&vec![text("{\"a\":1}"), text("plain"), text("7")], true),
        vec!["{\"a\":1}", "7"]
    );
    assert_eq!(show_lines(&vec![text("plain")], false), vec!["plain"]);
}

#[test]
fn log_chunks_do_not_matter() {
    let mut whole = LogStream::open(&query(true, None, None), 0);
    let mut parts = LogStream::open(&query(true, None, None), 0);
    let at_once = whole.advance(Ok((text("one\ntwo\nthr"), 11)));
    let mut in_parts = parts.advance(Ok((text("on"), 2)));
    in_parts.extend(parts.advance(Ok((text("e\ntw"), 6))));
    in_parts.extend(parts.advance(Ok((text("o\nthr"), 11))));
    assert_eq!(at_once, vec!["one", "two"]);
    assert_eq!(at_once, in_parts);
    assert_eq!(whole, parts);
    assert_eq!(whole.partial, "thr");
}

#[test]
fn log_that_is_not_followed_ends() {
    let mut stream = LogStream::open(&query(false, None, Some("json")), 0);
    assert_eq!(stream.advance(Ok((text("x\n{}\nrest"), 9))), vec!["{}", "rest"]);
    assert!(stream.ended);
    let tailed = LogStream::open(&query(false, Some(3), None), 77);
    assert!(tailed.ended);
    assert_eq!(tailed.position, 77);
    let mut broken = LogStream::open(&query(true, None, None), 0);
    assert_eq!(broken.advance(Err(text("gone"))), vec!["error: gone"]);
    assert!(broken.ended);
}

#[test]
fn endless_line_is_sent_in_parts() {
    let mut stream = LogStream::open(&query(true, None, None), 0);
    let long = "x".repeat(MAX_PARTIAL_LINE + 1);
    let sent = stream.advance(Ok((long.clone(), 5)));
    assert_eq!(sent, vec![long]);
    assert_eq!(stream.partial, "");
}

fn interactive(cmd: Option<&str>) -> InteractiveQuery {
    InteractiveQuery { cmd: cmd.map(text), cols: None, rows: Some(50) }
}

#[test]
fn terminal_starts_with_a_size() {
    assert_eq!(
        first_input(&interactive(None)),
        InteractiveInput::Resize { cols: 80, rows: 50 }
    );
}

#[test]
fn frames_become_input() {
    let send = |frame: Frame| match decode_frame(frame) {
        FrameAction::Send(input) => input,
        other => panic!("unexpected {:?}", other),
    };
    assert_eq!(send(Frame::Binary(vec![1, 2])), InteractiveInput::Stdin(vec![1, 2]));
    assert_eq!(
        send(Frame::Text(text("{\"type\":\"resize\",\"cols\":120,\"rows\":\"x\"}"))),
        InteractiveInput::Resize { cols: 120, rows: 24 }
    );
    assert_eq!(
        send(Frame::Text(text("{\"type\":\"resize\",\"cols\":65616,\"rows\":-1}"))),
        InteractiveInput::Resize { cols: 80, rows: 24 }
    );
    assert_eq!(
        send(Frame::Text(text("{\"type\":\"stdin\",\"data\":\"hé\"}"))),
        InteractiveInput::Stdin("hé".as_bytes().to_vec())
    );
    assert_eq!(send(Frame::Text(text("ls\n"))), InteractiveInput::Stdin(b"ls\n".to_vec()));
    assert_eq!(send(Frame::Text(text("{}"))), InteractiveInput::Stdin(b"{}".to_vec()));
    assert_eq!(
        decode_frame(Frame::Text(text("{\"type\":\"stdin\",\"data\":3}"))),
        FrameAction::Ignore
    );
    assert_eq!(decode_frame(Frame::Close), FrameAction::SendLast(InteractiveInput::Eof));
    assert_eq!(decode_frame(Frame::Other), FrameAction::Ignore);
}

#[test]
fn interactive_command_pulls_a_missing_image() {
    let query = interactive(Some("bash"));
    let image = Some(text("img"));
    let mounts = vec![(text("/h"), text("/g"), false)];
    let mut progress =
        InteractiveProgress { connected: None, present: None, pulled: None, ended: None };
    let step = |progress: &InteractiveProgress| {
        next_interactive_step(&query, &image, &mounts, "vm", progress)
    };
    assert_eq!(step(&progress), InteractiveStep::Connect);
    progress.connected = Some(true);
    assert_eq!(step(&progress), InteractiveStep::Query(text("img")));
    progress.present = Some(Some(false));
    assert_eq!(step(&progress), InteractiveStep::Pull(text("img")));
    progress.pulled = Some(true);
    match step(&progress) {
        InteractiveStep::Run(Job::Container(config)) => {
            assert_eq!(config.command, vec!["bash"]);
            assert_eq!(config.mounts, vec![(0, text("/g"), false)]);
            assert!(config.tty);
        }
        other => panic!("unexpected {:?}", other),
    }
    progress.ended = Some(Some(5));
    assert_eq!(step(&progress), InteractiveStep::Done(5));
    progress.pulled = Some(false);
    assert_eq!(step(&progress), InteractiveStep::Done(-1));
    assert!(matches!(
        make_interactive_job(&interactive(None), &None, &vec![], "vm"),
        Job::Guest(_)
    ));
    assert_eq!(exit_message(-1), "{\"type\":\"exit\",\"code\":-1}");
}

#[test]
fn streamed_commands_become_events() {
    let event = exec_event_to_sse(&ExecEvent::Stdout(vec![104, 105]));
    assert_eq!((event.event.as_str(), event.data.as_str()), ("stdout", "hi"));
    let event = exec_event_to_sse(&ExecEvent::Stderr(vec![0xff]));
    assert_eq!((event.event.as_str(), event.data.as_str()), ("stderr", "\u{fffd}"));
    let event = exec_event_to_sse(&ExecEvent::Exit(-7));
    assert_eq!((event.event.as_str(), event.data.as_str()), ("exit", "{\"exitCode\":-7}"));
    let event = exec_event_to_sse(&ExecEvent::Error(text("no")));
    assert_eq!((event.event.as_str(), event.data.as_str()), ("error", "{\"message\":\"no\"}"));
}

#[test]
fn monitor_reports_become_events() {
    let data = |event: MonitorEvent| {
        let sse = monitor_event_to_sse(&event);
        (sse.event, sse.data)
    };
    assert_eq!(
        data(MonitorEvent::Monitoring {
            name: text("vm"),
            policy: RestartPolicy::OnFailure,
            interval_secs: 5,
            health: Some(MonitorHealthConfig {
                command: vec![text("a"), text("b")],
                timeout_secs: 2,
                retries: 3,
            }),
        }),
        (
            text("monitoring"),
            text("{\"health\":{\"command\":[\"a\",\"b\"],\"retries\":3,\"timeoutSecs\":2},\"intervalSecs\":5,\"name\":\"vm\",\"policy\":\"on-failure\"}")
        )
    );
    assert_eq!(data(MonitorEvent::Restarted), (text("restarted"), text("{}")));
    assert_eq!(
        data(MonitorEvent::MachineExited { exit_code: None }),
        (text("machineExited"), text("{\"exitCode\":null}"))
    );
    assert_eq!(
        data(MonitorEvent::HealthFailed {
            exit_code: -1,
            consecutive: 1,
            retries: 3,
            stderr: text("a\"b"),
        }),
        (
            text("healthFailed"),
            text("{\"consecutive\":1,\"exitCode\":-1,\"retries\":3,\"stderr\":\"a\\\"b\"}")
        )
    );
    let error = monitor_error_to_sse("gone");
    assert_eq!((error.event.as_str(), error.data.as_str()), ("error", "{\"message\":\"gone\"}"));
}
