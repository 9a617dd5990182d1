use sidecar_supervisor::monitor::{
    log_line, monitor_all, monitor_step, render_optional_number, render_payload, LogLine,
    LogStream, MonitorState, ProcessEvent,
};

#[derive(Debug)]
#[allow(dead_code)]
struct TerminatedPayload {
    code: Option<i32>,
    signal: Option<i32>,
}

fn out(text: &str) -> LogLine {
    LogLine { stream: LogStream::Stdout, text: text.to_string() }
}

fn err(text: &str) -> LogLine {
    LogLine { stream: LogStream::Stderr, text: text.to_string() }
}

fn terminated(code: i32) -> ProcessEvent {
    ProcessEvent::Terminated { code: Some(code), signal: None }
}

#[test]
fn monitor_logs_output_then_stops_at_termination() {
    let events = vec![
        ProcessEvent::Stdout("a".to_string()),
        ProcessEvent::Stderr("b".to_string()),
        terminated(0),
    ];
    let (lines, state) = monitor_all(&events);
    assert_eq!(
        lines,
        vec![
            out("[backend] a"),
            err("[backend error] b"),
            out("[backend] Process terminated: TerminatedPayload { code: Some(0), signal: None }"),
        ]
    );
    assert_eq!(state, MonitorState::Finished);
}

#[test]
fn monitor_never_takes_an_event_after_termination() {
    let mut events = vec![
        ProcessEvent::Stdout("a".to_string()),
        ProcessEvent::Stderr("b".to_string()),
        terminated(0),
    ];
    let (expected, _) = monitor_all(&events);
    events.push(ProcessEvent::Stdout("injected".to_string()));
    events.push(terminated(1));
    events.push(ProcessEvent::Error("late".to_string()));
    let (lines, state) = monitor_all(&events);
    assert_eq!(lines.len(), 3);
    assert_eq!(lines, expected);
    assert_eq!(state, MonitorState::Finished);

    let (state, line) =
        monitor_step(MonitorState::Finished, &ProcessEvent::Stdout("injected".to_string()));
    assert_eq!(state, MonitorState::Finished);
    assert_eq!(line, None);
}

#[test]
fn monitor_step_by_step() {
    let state = MonitorState::Watching;
    let (state, line) = monitor_step(state, &ProcessEvent::Stdout("ready".to_string()));
    assert_eq!(state, MonitorState::Watching);
    assert_eq!(line, Some(out("[backend] ready")));
    let (state, line) = monitor_step(state, &ProcessEvent::Stderr("warn".to_string()));
    assert_eq!(state, MonitorState::Watching);
    assert_eq!(line, Some(err("[backend error] warn")));
    let (state, line) = monitor_step(state, &terminated(3));
    assert_eq!(state, MonitorState::Finished);
    assert_eq!(
        line,
        Some(out(
            "[backend] Process terminated: TerminatedPayload { code: Some(3), signal: None }"
        ))
    );
    let (state, line) = monitor_step(state, &terminated(3));
    assert_eq!(state, MonitorState::Finished);
    assert_eq!(line, None);
}

#[test]
fn monitor_goes_on_after_an_error_event() {
    let events = vec![
        ProcessEvent::Error("broken pipe".to_string()),
        ProcessEvent::Stdout("still here".to_string()),
    ];
    let (lines, state) = monitor_all(&events);
    assert_eq!(lines, vec![err("[backend error] broken pipe"), out("[backend] still here")]);
    assert_eq!(state, MonitorState::Watching);
}

#[test]
fn monitor_passes_over_other_events() {
    let events = vec![ProcessEvent::Other, ProcessEvent::Stdout("x".to_string()), ProcessEvent::Other];
    let (lines, state) = monitor_all(&events);
    assert_eq!(lines, vec![out("[backend] x")]);
    assert_eq!(state, MonitorState::Watching);
    assert_eq!(log_line(&ProcessEvent::Other), None);
}

#[test]
fn monitor_of_no_events() {
    let (lines, state) = monitor_all(&Vec::new());
    assert!(lines.is_empty());
    assert_eq!(state, MonitorState::Watching);
}

#[test]
fn monitor_keeps_empty_and_unicode_lines() {
    assert_eq!(log_line(&ProcessEvent::Stdout(String::new())), Some(out("[backend] ")));
    assert_eq!(log_line(&ProcessEvent::Stderr("é ü".to_string())), Some(err("[backend error] é ü")));
}

#[test]
fn monitor_termination_first() {
    let events = vec![
        ProcessEvent::Terminated { code: None, signal: Some(9) },
        ProcessEvent::Stdout("after".to_string()),
    ];
    let (lines, state) = monitor_all(&events);
    assert_eq!(
        lines,
        vec![out("[backend] Process terminated: TerminatedPayload { code: None, signal: Some(9) }")]
    );
    assert_eq!(state, MonitorState::Finished);
}

#[test]
fn payload_is_written_as_rust_prints_it() {
    let numbers = [None, Some(0), Some(1), Some(-1), Some(137), Some(255), Some(i32::MAX), Some(i32::MIN)];
    for code in numbers {
        for signal in numbers {
            let expected = format!("{:?}", TerminatedPayload { code, signal });
            assert_eq!(render_payload(code, signal), expected);
        }
    }
    assert_eq!(
        render_payload(Some(1), Some(15)),
        "TerminatedPayload { code: Some(1), signal: Some(15) }"
    );
}

#[test]
fn optional_number_is_written_as_rust_prints_it() {
    assert_eq!(render_optional_number(None), "None");
    assert_eq!(render_optional_number(Some(0)), "Some(0)");
    assert_eq!(render_optional_number(Some(-12)), "Some(-12)");
    for value in [None, Some(7), Some(-7), Some(i32::MIN), Some(i32::MAX)] {
        assert_eq!(render_optional_number(value), format!("{:?}", value));
    }
}

#[test]
fn monitor_does_not_depend_on_earlier_runs() {
    let events = vec![ProcessEvent::Stdout("a".to_string()), terminated(0)];
    let first = monitor_all(&events);
    let _ = monitor_all(&vec![ProcessEvent::Stderr("other".to_string())]);
    let second = monitor_all(&events);
    assert_eq!(first, second);
}
