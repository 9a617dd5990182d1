//! Following the events of the running backend process.
//!
//! The monitor takes the events one at a time, in the order the process gave
//! them. Output and errors become log lines; the end of the process becomes
//! one last line, after which the monitor takes nothing more. It never
//! restarts the process.

use crate::text::{chain, decimal, render_i32};
use vstd::prelude::*;

verus! {

/// Put before a line that goes to standard output.
pub const OUTPUT_MARKER: &'static str = "[backend] ";

/// Put before a line that goes to standard error.
pub const ERROR_MARKER: &'static str = "[backend error] ";

/// Put before the exit payload in the line that reports the end.
pub const TERMINATED_MARKER: &'static str = "[backend] Process terminated: ";

/// One event of the running process.
#[derive(Debug, Clone, PartialEq, Eq)]
pub enum ProcessEvent {
    /// A line that the process wrote to its standard output.
    Stdout(String),
    /// A line that the process wrote to its standard error.
    Stderr(String),
    /// Reading from the process failed.
    Error(String),
    /// The process ended, with its exit code and the signal that ended it,
    /// as far as the system knows them.
    Terminated { code: Option<i32>, signal: Option<i32> },
    /// An event of a kind that the monitor has no use for.
    Other,
}

/// A [`ProcessEvent`] with its text as character sequences.
pub ghost enum ProcessEventView {
    Stdout(Seq<char>),
    Stderr(Seq<char>),
    Error(Seq<char>),
    Terminated { code: Option<i32>, signal: Option<i32> },
    Other,
}

impl View for ProcessEvent {
    type V = ProcessEventView;

    open spec fn view(&self) -> ProcessEventView {
        match self {
            ProcessEvent::Stdout(line) => ProcessEventView::Stdout(line@),
            ProcessEvent::Stderr(line) => ProcessEventView::Stderr(line@),
            ProcessEvent::Error(reason) => ProcessEventView::Error(reason@),
            ProcessEvent::Terminated { code, signal } => ProcessEventView::Terminated {
                code: *code,
                signal: *signal,
            },
            ProcessEvent::Other => ProcessEventView::Other,
        }
    }
}

/// The stream that a log line goes to.
#[derive(Debug, Clone, Copy, PartialEq, Eq)]
pub enum LogStream {
    Stdout,
    Stderr,
}

/// One line of the log.
#[derive(Debug, Clone, PartialEq, Eq)]
pub struct LogLine {
    pub stream: LogStream,
    pub text: String,
}

/// A [`LogLine`] with its text as a character sequence.
pub ghost struct LogLineView {
    pub stream: LogStream,
    pub text: Seq<char>,
}

impl View for LogLine {
    type V = LogLineView;

    open spec fn view(&self) -> LogLineView {
        LogLineView { stream: self.stream, text: self.text@ }
    }
}

/// The view of a line that may be missing.
pub open spec fn optional_line(line: Option<LogLine>) -> Option<LogLineView> {
    match line {
        Some(found) => Some(found@),
        None => None,
    }
}

/// Whether the monitor still takes events.
#[derive(Debug, Clone, Copy, PartialEq, Eq)]
pub enum MonitorState {
    Watching,
    Finished,
}

/// An optional number as Rust prints it for debugging: `None`, or `Some(`,
/// the number and `)`.
pub open spec fn optional_number(value: Option<i32>) -> Seq<char> {
    match value {
        Some(n) => "Some("@ + decimal(n as int) + ")"@,
        None => "None"@,
    }
}

/// The exit payload as it is logged.
pub open spec fn payload_text(code: Option<i32>, signal: Option<i32>) -> Seq<char> {
    "TerminatedPayload { code: "@ + optional_number(code) + ", signal: "@ + optional_number(signal)
        + " }"@
}

/// The line that an event is logged with, if it is logged at all.
pub open spec fn line_for(event: ProcessEventView) -> Option<LogLineView> {
    match event {
        ProcessEventView::Stdout(line) => Some(
            LogLineView { stream: LogStream::Stdout, text: OUTPUT_MARKER@ + line },
        ),
        ProcessEventView::Stderr(line) => Some(
            LogLineView { stream: LogStream::Stderr, text: ERROR_MARKER@ + line },
        ),
        ProcessEventView::Error(reason) => Some(
            LogLineView { stream: LogStream::Stderr, text: ERROR_MARKER@ + reason },
        ),
        ProcessEventView::Terminated { code, signal } => Some(
            LogLineView {
                stream: LogStream::Stdout,
                text: TERMINATED_MARKER@ + payload_text(code, signal),
            },
        ),
        ProcessEventView::Other => None,
    }
}

/// The state of the monitor after an event: the end of the process finishes
/// it, and a finished monitor stays finished.
pub open spec fn state_after(state: MonitorState, event: ProcessEventView) -> MonitorState {
    if state == MonitorState::Watching && !(event is Terminated) {
        MonitorState::Watching
    } else {
        MonitorState::Finished
    }
}

/// What the monitor logs for an event: the event's line while it watches,
/// nothing once it has finished.
pub open spec fn logged(state: MonitorState, event: ProcessEventView) -> Option<LogLineView> {
    if state == MonitorState::Watching {
        line_for(event)
    } else {
        None
    }
}

/// The state of the monitor after a sequence of events.
pub open spec fn state_after_all(state: MonitorState, events: Seq<ProcessEventView>) -> MonitorState
    decreases events.len(),
{
    if events.len() == 0 {
        state
    } else {
        state_after(state_after_all(state, events.drop_last()), events.last())
    }
}

/// Everything the monitor logs for a sequence of events, in order.
pub open spec fn transcript(state: MonitorState, events: Seq<ProcessEventView>) -> Seq<
    LogLineView,
>
    decreases events.len(),
{
    if events.len() == 0 {
        Seq::empty()
    } else {
        let before = transcript(state, events.drop_last());
        match logged(state_after_all(state, events.drop_last()), events.last()) {
            Some(line) => before.push(line),
            None => before,
        }
    }
}

/// A finished monitor stays finished and logs nothing more.
pub proof fn finished_is_final(events: Seq<ProcessEventView>)
    ensures
        state_after_all(MonitorState::Finished, events) == MonitorState::Finished,
        transcript(MonitorState::Finished, events) == Seq::<LogLineView>::empty(),
    decreases events.len(),
{
    if events.len() > 0 {
        finished_is_final(events.drop_last());
    }
}

/// Following one sequence of events and then another is following the two
/// joined.
pub proof fn transcript_of_joined(
    state: MonitorState,
    first: Seq<ProcessEventView>,
    second: Seq<ProcessEventView>,
)
    ensures
        state_after_all(state, first + second) == state_after_all(
            state_after_all(state, first),
            second,
        ),
        transcript(state, first + second) == transcript(state, first) + transcript(
            state_after_all(state, first),
            second,
        ),
    decreases second.len(),
{
    if second.len() == 0 {
        assert(first + second =~= first);
        assert(transcript(state, first) + Seq::<LogLineView>::empty() =~= transcript(
            state,
            first,
        ));
    } else {
        transcript_of_joined(state, first, second.drop_last());
        assert((first + second).drop_last() =~= first + second.drop_last());
        assert((first + second).last() == second.last());
        let middle = state_after_all(state, first);
        let before = transcript(state, first) + transcript(middle, second.drop_last());
        match logged(state_after_all(middle, second.drop_last()), second.last()) {
            Some(line) => {
                assert(before.push(line) =~= transcript(state, first) + transcript(
                    middle,
                    second.drop_last(),
                ).push(line));
            },
            None => {},
        }
    }
}

/// Once the end of the process has been seen, nothing that follows is taken
/// up: the log of a sequence of events with a termination in it is the log
/// of the events up to and including that termination.
pub proof fn nothing_after_termination(
    state: MonitorState,
    before: Seq<ProcessEventView>,
    code: Option<i32>,
    signal: Option<i32>,
    after: Seq<ProcessEventView>,
)
    ensures
        transcript(state, before.push(ProcessEventView::Terminated { code, signal }) + after)
            == transcript(state, before.push(ProcessEventView::Terminated { code, signal })),
        state_after_all(
            state,
            before.push(ProcessEventView::Terminated { code, signal }) + after,
        ) == MonitorState::Finished,
{
    let upto = before.push(ProcessEventView::Terminated { code, signal });
    assert(upto.drop_last() =~= before);
    assert(state_after_all(state, upto) == MonitorState::Finished);
    transcript_of_joined(state, upto, after);
    finished_is_final(after);
    assert(transcript(state, upto) + Seq::<LogLineView>::empty() =~= transcript(state, upto));
}

/// No event of the sequence reports the end of the process.
pub open spec fn none_terminated(events: Seq<ProcessEventView>) -> bool {
    forall|i: int| 0 <= i < events.len() ==> !(#[trigger] events[i] is Terminated)
}

/// The event at this position is the first that reports the end of the
/// process.
pub open spec fn first_end_at(events: Seq<ProcessEventView>, at: int) -> bool {
    &&& 0 <= at < events.len()
    &&& events[at] is Terminated
    &&& none_terminated(events.take(at))
}

/// How many events of a sequence a watching monitor takes up: all up to and
/// including the first that reports the end of the process, or all of them
/// where none does.
pub open spec fn taken(events: Seq<ProcessEventView>) -> int {
    if exists|at: int| first_end_at(events, at) {
        (choose|at: int| first_end_at(events, at)) + 1
    } else {
        events.len() as int
    }
}

/// While no event reports the end of the process the monitor keeps
/// watching, and its log holds the line of every event that has one.
pub proof fn transcript_while_watching(events: Seq<ProcessEventView>)
    requires
        none_terminated(events),
    ensures
        state_after_all(MonitorState::Watching, events) == MonitorState::Watching,
        transcript(MonitorState::Watching, events) == events.filter_map(
            |event: ProcessEventView| line_for(event),
        ),
    decreases events.len(),
{
    let line = |event: ProcessEventView| line_for(event);
    if events.len() > 0 {
        let before = events.drop_last();
        assert forall|i: int| 0 <= i < before.len() implies !(#[trigger] before[i] is Terminated) by {
            assert(before[i] == events[i]);
        }
        transcript_while_watching(before);
        assert(!(events[events.len() - 1] is Terminated));
        match line_for(events.last()) {
            Some(found) => {
                assert(before.filter_map(line).push(found) =~= before.filter_map(line) + seq![
                    found,
                ]);
            },
            None => {},
        }
    }
}

/// Some event of a sequence reports the end of the process exactly when one
/// of them is the first to do so.
pub proof fn first_end_exists(events: Seq<ProcessEventView>)
    ensures
        !none_terminated(events) <==> exists|at: int| first_end_at(events, at),
    decreases events.len(),
{
    if events.len() > 0 {
        let before = events.drop_last();
        first_end_exists(before);
        if exists|at: int| first_end_at(before, at) {
            let at = choose|at: int| first_end_at(before, at);
            assert(before.take(at) =~= events.take(at));
            assert(events[at] == before[at]);
            assert(first_end_at(events, at));
        } else if events.last() is Terminated {
            assert(events.take(events.len() - 1) =~= before);
            assert(first_end_at(events, events.len() - 1));
        } else {
            assert forall|i: int| 0 <= i < events.len() implies !(
            #[trigger] events[i] is Terminated) by {
                if i < before.len() {
                    assert(before[i] == events[i]);
                }
            }
        }
    }
    if exists|at: int| first_end_at(events, at) {
        let at = choose|at: int| first_end_at(events, at);
        assert(events[at] is Terminated);
    }
}

/// The log of a watching monitor, said directly: it holds the lines of the
/// events it takes up, in order, and nothing else. The monitor ends
/// finished exactly when some event reported the end of the process.
pub proof fn transcript_is_lines_of_taken(events: Seq<ProcessEventView>)
    ensures
        0 <= taken(events) <= events.len(),
        transcript(MonitorState::Watching, events) == events.take(taken(events)).filter_map(
            |event: ProcessEventView| line_for(event),
        ),
        state_after_all(MonitorState::Watching, events) == if none_terminated(events) {
            MonitorState::Watching
        } else {
            MonitorState::Finished
        },
{
    let line = |event: ProcessEventView| line_for(event);
    first_end_exists(events);
    if exists|at: int| first_end_at(events, at) {
        let at = choose|at: int| first_end_at(events, at);
        let before = events.take(at);
        let upto = events.take(at + 1);
        let after = events.skip(at + 1);
        let code = events[at]->code;
        let signal = events[at]->signal;
        assert(upto =~= before.push(ProcessEventView::Terminated { code, signal }));
        assert(events =~= upto + after);
        nothing_after_termination(MonitorState::Watching, before, code, signal, after);
        transcript_while_watching(before);
        assert(upto.drop_last() =~= before);
        let last_line = line_for(upto.last())->0;
        assert(before.filter_map(line).push(last_line) =~= before.filter_map(line) + seq![
            last_line,
        ]);
    } else {
        transcript_while_watching(events);
        assert(events.take(events.len() as int) =~= events);
    }
}

/// Writes an optional number as Rust prints it for debugging.
pub fn render_optional_number(value: Option<i32>) -> (text: String)
    ensures
        text@ == optional_number(value),
{
    match value {
        Some(n) => {
            let digits = render_i32(n);
            let opened = chain("Some(", digits.as_str());
            chain(opened.as_str(), ")")
        },
        None => "None".to_owned(),
    }
}

/// Writes the exit payload as it is logged.
pub fn render_payload(code: Option<i32>, signal: Option<i32>) -> (text: String)
    ensures
        text@ == payload_text(code, signal),
{
    let code_text = render_optional_number(code);
    let signal_text = render_optional_number(signal);
    let mut text = chain("TerminatedPayload { code: ", code_text.as_str());
    text.append(", signal: ");
    text.append(signal_text.as_str());
    text.append(" }");
    text
}

/// The line that an event is logged with, if it is logged at all.
pub fn log_line(event: &ProcessEvent) -> (line: Option<LogLine>)
    ensures
        optional_line(line) == line_for(event@),
{
    match event {
        ProcessEvent::Stdout(text) => Some(
            LogLine { stream: LogStream::Stdout, text: chain(OUTPUT_MARKER, text.as_str()) },
        ),
        ProcessEvent::Stderr(text) => Some(
            LogLine { stream: LogStream::Stderr, text: chain(ERROR_MARKER, text.as_str()) },
        ),
        ProcessEvent::Error(reason) => Some(
            LogLine { stream: LogStream::Stderr, text: chain(ERROR_MARKER, reason.as_str()) },
        ),
        ProcessEvent::Terminated { code, signal } => {
            let payload = render_payload(*code, *signal);
            Some(
                LogLine {
                    stream: LogStream::Stdout,
                    text: chain(TERMINATED_MARKER, payload.as_str()),
                },
            )
        },
        ProcessEvent::Other => None,
    }
}

/// Takes one event: answers with the state that follows and with the line
/// to log, if there is one.
pub fn monitor_step(state: MonitorState, event: &ProcessEvent) -> (result: (
    MonitorState,
    Option<LogLine>,
))
    ensures
        result.0 == state_after(state, event@),
        optional_line(result.1) == logged(state, event@),
{
    match state {
        MonitorState::Finished => (MonitorState::Finished, None),
        MonitorState::Watching => {
            let line = log_line(event);
            let next = match event {
                ProcessEvent::Terminated { .. } => MonitorState::Finished,
                _ => MonitorState::Watching,
            };
            (next, line)
        },
    }
}

/// The views of a list of events.
pub open spec fn event_views(events: Seq<ProcessEvent>) -> Seq<ProcessEventView> {
    events.map_values(|event: ProcessEvent| event@)
}

/// The views of a list of log lines.
pub open spec fn line_views(lines: Seq<LogLine>) -> Seq<LogLineView> {
    lines.map_values(|line: LogLine| line@)
}

/// Follows a whole sequence of events from the start: answers with the log
/// and with the state the monitor ends in.
pub fn monitor_all(events: &Vec<ProcessEvent>) -> (result: (Vec<LogLine>, MonitorState))
    ensures
        line_views(result.0@) == transcript(MonitorState::Watching, event_views(events@)),
        result.1 == state_after_all(MonitorState::Watching, event_views(events@)),
{
    let mut lines: Vec<LogLine> = Vec::new();
    let mut state = MonitorState::Watching;
    let ghost all = event_views(events@);
    let mut i: usize = 0;
    while i < events.len()
        invariant
            i <= events.len(),
            all == event_views(events@),
            line_views(lines@) == transcript(MonitorState::Watching, all.take(i as int)),
            state == state_after_all(MonitorState::Watching, all.take(i as int)),
        decreases events.len() - i,
    {
        proof {
            assert(all.take(i + 1).drop_last() =~= all.take(i as int));
            assert(all.take(i + 1).last() == events@[i as int]@);
        }
        let ghost before = lines@;
        let (next, line) = monitor_step(state, &events[i]);
        if let Some(found) = line {
            lines.push(found);
            assert(line_views(lines@) =~= line_views(before).push(found@));
        }
        state = next;
        i += 1;
    }
    proof {
        assert(all.take(i as int) =~= all);
    }
    (lines, state)
}

} // verus!
