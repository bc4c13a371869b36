use bip_rier::capture::{step, Action, Event, Notice, State, Step};
use bip_rier::decoder::DecodeError;
use bip_rier::dispatch::{DispatchError, DispatchOutcome, ExitStatus};
use bip_rier::error::{CaptureError, Severity};
use bip_rier::report::{Report, REPORT_CAPACITY};
use bip_rier::transport::TransportError;

/// What a read hands to the loop in a simulated session.
enum Read {
    Filled(Vec<u8>),
    Failed(&'static str),
}

fn report_of(bytes: &[u8]) -> Event {
    let mut buffer = vec![0u8; REPORT_CAPACITY];
    buffer[..bytes.len()].copy_from_slice(bytes);
    Event::Report {
        report: Report::new(buffer, bytes.len()).unwrap(),
    }
}

fn completed(code: i32) -> DispatchOutcome {
    DispatchOutcome::Completed {
        status: ExitStatus::Exited { code },
    }
}

fn launch_failed(cause: &str) -> DispatchOutcome {
    DispatchOutcome::Failed {
        error: DispatchError::LaunchFailed {
            cause: String::from(cause),
        },
    }
}

/// Drives the loop as a caller does: it performs what each step asks for,
/// reads from `reads` and ends every dispatch with what `outcome_of` gives.
/// Returns what happened, in order: `dispatch <line>` when the command was
/// started, `outcome <line>` when it came back, and the lines shown.
fn simulate(reads: Vec<Read>, outcome_of: fn(&str) -> DispatchOutcome) -> (Vec<String>, Vec<String>) {
    let mut happened = Vec::new();
    let mut shown = Vec::new();
    let mut reads = reads.into_iter();
    let mut current = step(
        State::new(),
        Event::Opened {
            path: String::from("/dev/hidraw0"),
        },
    );
    loop {
        if let Some(notice) = &current.notice {
            shown.push(notice.line());
        }
        let event = match current.action {
            Some(Action::Read) => match reads.next() {
                Some(Read::Filled(bytes)) => report_of(&bytes),
                Some(Read::Failed(cause)) => Event::ReadFailed {
                    cause: String::from(cause),
                },
                None => break,
            },
            Some(Action::Dispatch { line }) => {
                happened.push(format!("dispatch {}", line));
                let outcome = outcome_of(&line);
                happened.push(format!("outcome {}", line));
                Event::Dispatched { outcome }
            }
            None => break,
        };
        current = step(current.state, event);
    }
    (happened, shown)
}

fn always_zero(_line: &str) -> DispatchOutcome {
    completed(0)
}

fn always_unlaunchable(_line: &str) -> DispatchOutcome {
    launch_failed("command not found")
}

#[test]
fn opening_starts_the_reading() {
    let next = step(
        State::new(),
        Event::Opened {
            path: String::from("/dev/hidraw3"),
        },
    );
    assert_eq!(next.state, State::Reading);
    assert_eq!(next.action, Some(Action::Read));
    assert_eq!(
        next.notice,
        Some(Notice::Waiting {
            path: String::from("/dev/hidraw3")
        })
    );
    assert_eq!(
        next.notice.unwrap().line(),
        "Waiting for HID events on device /dev/hidraw3"
    );
}

#[test]
fn failed_opening_is_fatal_and_ends_the_session() {
    let next = step(
        State::Idle,
        Event::OpenFailed {
            cause: String::from("permission denied"),
        },
    );
    assert_eq!(next.state, State::Idle);
    assert_eq!(next.action, None);
    let error = CaptureError::Transport {
        error: TransportError::OpenFailed {
            cause: String::from("permission denied"),
        },
    };
    assert_eq!(error.severity(), Severity::Fatal);
    assert_eq!(error.message(), "permission denied");
    assert_eq!(next.notice, Some(Notice::Failure { error }));
}

#[test]
fn capture_happy_path() {
    let mut buffer = vec![0u8; REPORT_CAPACITY];
    buffer[2..15].copy_from_slice(b"/tmp/file.txt");
    let report = Report::new(buffer, 18).unwrap();
    let taken = step(State::Reading, Event::Report { report });
    assert_eq!(
        taken.state,
        State::Dispatching {
            line: String::from("/tmp/file.txt")
        }
    );
    assert_eq!(
        taken.action,
        Some(Action::Dispatch {
            line: String::from("/tmp/file.txt")
        })
    );
    assert_eq!(taken.notice.unwrap().line(), "* OPEN: /tmp/file.txt");

    let back = step(
        taken.state,
        Event::Dispatched {
            outcome: completed(0),
        },
    );
    assert_eq!(back.state, State::Reading);
    assert_eq!(back.action, Some(Action::Read));
    assert_eq!(
        back.notice,
        Some(Notice::Completed {
            line: String::from("/tmp/file.txt"),
            status: ExitStatus::Exited { code: 0 }
        })
    );
    assert_eq!(
        back.notice.unwrap().line(),
        "** DONE /tmp/file.txt: exit status: 0"
    );
}

#[test]
fn nonzero_exit_is_no_error() {
    let back = step(
        State::Dispatching {
            line: String::from("a"),
        },
        Event::Dispatched {
            outcome: completed(2),
        },
    );
    assert_eq!(back.state, State::Reading);
    assert_eq!(back.action, Some(Action::Read));
    assert_eq!(back.notice.unwrap().line(), "** DONE a: exit status: 2");
}

#[test]
fn failed_read_is_reported_and_read_again() {
    let next = step(
        State::Reading,
        Event::ReadFailed {
            cause: String::from("device unplugged"),
        },
    );
    assert_eq!(next.state, State::Reading);
    assert_eq!(next.action, Some(Action::Read));
    let error = CaptureError::Transport {
        error: TransportError::ReadFailed {
            cause: String::from("device unplugged"),
        },
    };
    assert_eq!(error.severity(), Severity::Recoverable);
    assert_eq!(next.notice, Some(Notice::Failure { error }));
    assert_eq!(next.notice.unwrap().line(), "Error: device unplugged");
}

#[test]
fn malformed_report_is_dropped() {
    let next = step(State::Reading, report_of(&[0x41, 0xff]));
    assert_eq!(next.state, State::Reading);
    assert_eq!(next.action, Some(Action::Read));
    let error = CaptureError::Decode {
        error: DecodeError::InvalidEncoding { valid_up_to: 1 },
    };
    assert_eq!(error.severity(), Severity::Recoverable);
    assert_eq!(next.notice, Some(Notice::Failure { error }));
    assert_eq!(
        next.notice.unwrap().line(),
        "Error: invalid utf-8 sequence from index 1"
    );
}

#[test]
fn failed_launch_is_reported_and_read_again() {
    let next = step(
        State::Dispatching {
            line: String::from("a"),
        },
        Event::Dispatched {
            outcome: launch_failed("command not found"),
        },
    );
    assert_eq!(next.state, State::Reading);
    assert_eq!(next.action, Some(Action::Read));
    let error = CaptureError::Dispatch {
        error: DispatchError::LaunchFailed {
            cause: String::from("command not found"),
        },
    };
    assert_eq!(error.severity(), Severity::Recoverable);
    assert_eq!(next.notice, Some(Notice::Failure { error }));
    assert_eq!(next.notice.unwrap().line(), "Error: command not found");
}

#[test]
fn empty_line_is_dispatched() {
    let next = step(State::Reading, report_of(&[0, 0, 0, 0]));
    assert_eq!(
        next.action,
        Some(Action::Dispatch {
            line: String::new()
        })
    );
    assert_eq!(next.notice.unwrap().line(), "* OPEN: ");
}

#[test]
fn event_that_is_not_awaited_changes_nothing() {
    let stray = step(
        State::Dispatching {
            line: String::from("in flight"),
        },
        report_of(b"second"),
    );
    assert_eq!(
        stray,
        Step {
            state: State::Dispatching {
                line: String::from("in flight")
            },
            action: None,
            notice: None
        }
    );

    let early = step(
        State::Reading,
        Event::Dispatched {
            outcome: completed(0),
        },
    );
    assert_eq!(early.state, State::Reading);
    assert_eq!(early.action, None);
    assert_eq!(early.notice, None);

    let unopened = step(State::Idle, report_of(b"x"));
    assert_eq!(unopened.state, State::Idle);
    assert_eq!(unopened.action, None);

    let reopened = step(
        State::Reading,
        Event::Opened {
            path: String::from("/dev/hidraw0"),
        },
    );
    assert_eq!(reopened.state, State::Reading);
    assert_eq!(reopened.action, None);
}

#[test]
fn single_in_flight_dispatch() {
    let count = 25;
    let reads = (0..count)
        .map(|i| Read::Filled(format!("\0code-{}\0\0", i).into_bytes()))
        .collect();
    let (happened, _) = simulate(reads, always_zero);
    let mut expected = Vec::new();
    for i in 0..count {
        expected.push(format!("dispatch code-{}", i));
        expected.push(format!("outcome code-{}", i));
    }
    assert_eq!(happened, expected);
    let dispatches = happened.iter().filter(|h| h.starts_with("dispatch ")).count();
    assert_eq!(dispatches, count);
}

#[test]
fn fault_isolation_after_malformed_report() {
    let reads = vec![
        Read::Filled(b"one".to_vec()),
        Read::Filled(vec![0xff, 0xfe]),
        Read::Filled(b"two".to_vec()),
    ];
    let (happened, shown) = simulate(reads, always_zero);
    assert_eq!(
        happened,
        vec!["dispatch one", "outcome one", "dispatch two", "outcome two"]
    );
    assert_eq!(
        shown,
        vec![
            "Waiting for HID events on device /dev/hidraw0",
            "* OPEN: one",
            "** DONE one: exit status: 0",
            "Error: invalid utf-8 sequence from index 0",
            "* OPEN: two",
            "** DONE two: exit status: 0",
        ]
    );
}

#[test]
fn fault_isolation_after_failed_dispatch() {
    let reads = vec![Read::Filled(b"one".to_vec()), Read::Filled(b"two".to_vec())];
    let (happened, shown) = simulate(reads, always_unlaunchable);
    assert_eq!(
        happened,
        vec!["dispatch one", "outcome one", "dispatch two", "outcome two"]
    );
    assert_eq!(
        shown,
        vec![
            "Waiting for HID events on device /dev/hidraw0",
            "* OPEN: one",
            "Error: command not found",
            "* OPEN: two",
            "Error: command not found",
        ]
    );
}

#[test]
fn read_error_recovery() {
    let reads = vec![
        Read::Failed("device unplugged"),
        Read::Filled(b"\0\0/tmp/file.txt\0\0".to_vec()),
    ];
    let (happened, shown) = simulate(reads, always_zero);
    assert_eq!(
        happened,
        vec!["dispatch /tmp/file.txt", "outcome /tmp/file.txt"]
    );
    assert_eq!(
        shown,
        vec![
            "Waiting for HID events on device /dev/hidraw0",
            "Error: device unplugged",
            "* OPEN: /tmp/file.txt",
            "** DONE /tmp/file.txt: exit status: 0",
        ]
    );
}

#[test]
fn repeated_read_errors_are_retried_without_limit() {
    let mut reads: Vec<Read> = (0..200).map(|_| Read::Failed("busy")).collect();
    reads.push(Read::Filled(b"late".to_vec()));
    let (happened, shown) = simulate(reads, always_zero);
    assert_eq!(happened, vec!["dispatch late", "outcome late"]);
    assert_eq!(shown.len(), 1 + 200 + 2);
}
