//! The capture loop as a state machine. The caller owns the device and runs
//! the command; it performs what a step asks for and hands back what came
//! of it. Every decision of the loop is taken here.

use vstd::prelude::*;
use vstd::string::*;
use crate::decoder::decoded;
use crate::dispatch::{
    done_line, done_line_text, error_line, error_line_text, open_line, open_line_text,
    DispatchOutcome, DispatchOutcomeView, ExitStatus,
};
use crate::error::{error_text, CaptureError, CaptureErrorView};
use crate::report::Report;
use crate::transport::{TransportError, TransportErrorView};

verus! {

/// Where the loop stands between two steps. A report is decoded within the
/// step that takes it, so no state waits on a decoding.
#[derive(Debug, PartialEq, Eq)]
pub enum State {
    /// Nothing was read yet: the opening of the device is awaited.
    Idle,
    /// A read on the device is awaited.
    Reading,
    /// The command runs with `line`; its end is awaited.
    Dispatching { line: String },
}

/// What the caller hands back.
#[derive(Debug, PartialEq, Eq)]
pub enum Event {
    /// The device under `path` was opened.
    Opened { path: String },
    /// The device could not be opened.
    OpenFailed { cause: String },
    /// A read has filled a report.
    Report { report: Report },
    /// A read has failed.
    ReadFailed { cause: String },
    /// The dispatch has come back.
    Dispatched { outcome: DispatchOutcome },
}

/// What the caller is asked to do next.
#[derive(Debug, PartialEq, Eq)]
pub enum Action {
    /// Read the next report from the device, and wait for it.
    Read,
    /// Run the command with `line` as its one argument, and wait for its
    /// end.
    Dispatch { line: String },
}

/// What a step has to tell the operator.
#[derive(Debug, PartialEq, Eq)]
pub enum Notice {
    /// The device under `path` is open and reports are awaited.
    Waiting { path: String },
    /// The command is about to run with `line`.
    Opening { line: String },
    /// The command that ran with `line` has ended with `status`.
    Completed { line: String, status: ExitStatus },
    /// Something failed.
    Failure { error: CaptureError },
}

/// The result of a step.
#[derive(Debug, PartialEq, Eq)]
pub struct Step {
    /// The state after the step.
    pub state: State,
    /// What the caller does next; nothing where the step has ended the
    /// session or the event was not awaited.
    pub action: Option<Action>,
    /// What the operator is told, if anything.
    pub notice: Option<Notice>,
}

/// A state, with its text as characters.
pub enum StateView {
    Idle,
    Reading,
    Dispatching { line: Seq<char> },
}

/// An event, with its text as characters and its report as bytes.
pub enum EventView {
    Opened { path: Seq<char> },
    OpenFailed { cause: Seq<char> },
    Report { bytes: Seq<u8> },
    ReadFailed { cause: Seq<char> },
    Dispatched { outcome: DispatchOutcomeView },
}

/// An action, with its text as characters.
pub enum ActionView {
    Read,
    Dispatch { line: Seq<char> },
}

/// A notice, with its text as characters.
pub enum NoticeView {
    Waiting { path: Seq<char> },
    Opening { line: Seq<char> },
    Completed { line: Seq<char>, status: ExitStatus },
    Failure { error: CaptureErrorView },
}

/// The result of a step, with its text as characters.
pub struct StepView {
    pub state: StateView,
    pub action: Option<ActionView>,
    pub notice: Option<NoticeView>,
}

impl View for State {
    type V = StateView;

    open spec fn view(&self) -> StateView {
        match self {
            State::Idle => StateView::Idle,
            State::Reading => StateView::Reading,
            State::Dispatching { line } => StateView::Dispatching { line: line@ },
        }
    }
}

impl View for Event {
    type V = EventView;

    open spec fn view(&self) -> EventView {
        match self {
            Event::Opened { path } => EventView::Opened { path: path@ },
            Event::OpenFailed { cause } => EventView::OpenFailed { cause: cause@ },
            Event::Report { report } => EventView::Report { bytes: report@ },
            Event::ReadFailed { cause } => EventView::ReadFailed { cause: cause@ },
            Event::Dispatched { outcome } => EventView::Dispatched { outcome: outcome@ },
        }
    }
}

impl View for Action {
    type V = ActionView;

    open spec fn view(&self) -> ActionView {
        match self {
            Action::Read => ActionView::Read,
            Action::Dispatch { line } => ActionView::Dispatch { line: line@ },
        }
    }
}

impl View for Notice {
    type V = NoticeView;

    open spec fn view(&self) -> NoticeView {
        match self {
            Notice::Waiting { path } => NoticeView::Waiting { path: path@ },
            Notice::Opening { line } => NoticeView::Opening { line: line@ },
            Notice::Completed { line, status } => NoticeView::Completed {
                line: line@,
                status: *status,
            },
            Notice::Failure { error } => NoticeView::Failure { error: error@ },
        }
    }
}

impl View for Step {
    type V = StepView;

    open spec fn view(&self) -> StepView {
        StepView {
            state: self.state@,
            action: match self.action {
                Some(action) => Some(action@),
                None => None,
            },
            notice: match self.notice {
                Some(notice) => Some(notice@),
                None => None,
            },
        }
    }
}

/// Whether `event` is what the loop awaits in `state`: the opening of the
/// device before the first read, the result of a read while reading, the
/// end of the command while it runs.
pub open spec fn awaited(state: StateView, event: EventView) -> bool {
    match state {
        StateView::Idle => event is Opened || event is OpenFailed,
        StateView::Reading => event is Report || event is ReadFailed,
        StateView::Dispatching { .. } => event is Dispatched,
    }
}

/// The transition of the loop.
///
/// Before the first read, the opening of the device starts the reading; a
/// device that cannot be opened ends the session before it began. While
/// reading, a failed read is reported and the read is asked for again; a
/// report that does not decode is reported and dropped; a report that does
/// decode puts its line in flight, and the command is asked for. While the
/// command runs, its end, whatever the outcome, is reported and the next
/// read is asked for. An event that is not awaited changes nothing and
/// asks for nothing.
pub open spec fn next(state: StateView, event: EventView) -> StepView {
    match (state, event) {
        (StateView::Idle, EventView::Opened { path }) => StepView {
            state: StateView::Reading,
            action: Some(ActionView::Read),
            notice: Some(NoticeView::Waiting { path }),
        },
        (StateView::Idle, EventView::OpenFailed { cause }) => StepView {
            state: StateView::Idle,
            action: None,
            notice: Some(
                NoticeView::Failure {
                    error: CaptureErrorView::Transport {
                        error: TransportErrorView::OpenFailed { cause },
                    },
                },
            ),
        },
        (StateView::Reading, EventView::ReadFailed { cause }) => StepView {
            state: StateView::Reading,
            action: Some(ActionView::Read),
            notice: Some(
                NoticeView::Failure {
                    error: CaptureErrorView::Transport {
                        error: TransportErrorView::ReadFailed { cause },
                    },
                },
            ),
        },
        (StateView::Reading, EventView::Report { bytes }) => match decoded(
            bytes,
            bytes.len() as int,
        ) {
            Ok(line) => StepView {
                state: StateView::Dispatching { line },
                action: Some(ActionView::Dispatch { line }),
                notice: Some(NoticeView::Opening { line }),
            },
            Err(error) => StepView {
                state: StateView::Reading,
                action: Some(ActionView::Read),
                notice: Some(NoticeView::Failure { error: CaptureErrorView::Decode { error } }),
            },
        },
        (StateView::Dispatching { line }, EventView::Dispatched { outcome }) => StepView {
            state: StateView::Reading,
            action: Some(ActionView::Read),
            notice: Some(
                match outcome {
                    DispatchOutcomeView::Completed { status } => NoticeView::Completed {
                        line,
                        status,
                    },
                    DispatchOutcomeView::Failed { error } => NoticeView::Failure {
                        error: CaptureErrorView::Dispatch { error },
                    },
                },
            ),
        },
        _ => StepView { state, action: None, notice: None },
    }
}

/// The line that tells the operator of a notice.
pub open spec fn notice_text(notice: NoticeView) -> Seq<char> {
    match notice {
        NoticeView::Waiting { path } => "Waiting for HID events on device "@ + path,
        NoticeView::Opening { line } => open_line_text(line),
        NoticeView::Completed { line, status } => done_line_text(line, status),
        NoticeView::Failure { error } => error_line_text(error_text(error)),
    }
}

impl Notice {
    /// Writes the line that tells the operator of the notice.
    pub fn line(&self) -> (text: String)
        ensures
            text@ == notice_text(self@),
    {
        match self {
            Notice::Waiting { path } => String::from_str(
                "Waiting for HID events on device ",
            ).concat(path.as_str()),
            Notice::Opening { line } => open_line(line.as_str()),
            Notice::Completed { line, status } => done_line(line.as_str(), *status),
            Notice::Failure { error } => error_line(error.message().as_str()),
        }
    }
}

impl State {
    /// The state in which a session begins.
    pub fn new() -> (state: State)
        ensures
            state@ == StateView::Idle,
    {
        State::Idle
    }
}

/// Takes one step of the loop: from the state and what the caller hands
/// back to the state that follows, what the caller does next and what the
/// operator is told.
pub fn step(state: State, event: Event) -> (r: Step)
    ensures
        r@ == next(state@, event@),
{
    match (state, event) {
        (State::Idle, Event::Opened { path }) => Step {
            state: State::Reading,
            action: Some(Action::Read),
            notice: Some(Notice::Waiting { path }),
        },
        (State::Idle, Event::OpenFailed { cause }) => Step {
            state: State::Idle,
            action: None,
            notice: Some(
                Notice::Failure {
                    error: CaptureError::Transport { error: TransportError::OpenFailed { cause } },
                },
            ),
        },
        (State::Reading, Event::ReadFailed { cause }) => Step {
            state: State::Reading,
            action: Some(Action::Read),
            notice: Some(
                Notice::Failure {
                    error: CaptureError::Transport { error: TransportError::ReadFailed { cause } },
                },
            ),
        },
        (State::Reading, Event::Report { report }) => match report.decode() {
            Ok(line) => Step {
                state: State::Dispatching { line: line.clone() },
                action: Some(Action::Dispatch { line: line.clone() }),
                notice: Some(Notice::Opening { line }),
            },
            Err(error) => Step {
                state: State::Reading,
                action: Some(Action::Read),
                notice: Some(Notice::Failure { error: CaptureError::Decode { error } }),
            },
        },
        (State::Dispatching { line }, Event::Dispatched { outcome }) => Step {
            state: State::Reading,
            action: Some(Action::Read),
            notice: Some(
                match outcome {
                    DispatchOutcome::Completed { status } => Notice::Completed { line, status },
                    DispatchOutcome::Failed { error } => Notice::Failure {
                        error: CaptureError::Dispatch { error },
                    },
                },
            ),
        },
        (state, _) => Step { state, action: None, notice: None },
    }
}

} // verus!
