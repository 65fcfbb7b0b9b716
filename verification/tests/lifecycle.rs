use xcommand::streamer::{Delivery, OutputReady, Ready, StreamAction, StreamPhase};
use xcommand::{StdioType, WaitOutcome, XChildHandle, XError, XStatus};

fn line(origin: StdioType, text: &str) -> OutputReady {
    OutputReady::Line(origin, text.to_string())
}

fn poll(output: OutputReady, exit: Option<WaitOutcome>) -> Ready {
    Ready { output, exit }
}

#[test]
fn status_from_wait_outcome() {
    assert_eq!(XStatus::from(WaitOutcome::Exited(5, 0)), XStatus::Exited(0));
    assert_eq!(XStatus::from(WaitOutcome::Exited(5, 7)), XStatus::Exited(7));
    assert_eq!(XStatus::from(WaitOutcome::Signaled(5, 15, false)), XStatus::Signaled(15));
    assert_eq!(XStatus::from(WaitOutcome::Signaled(5, 11, true)), XStatus::Signaled(11));
    assert_eq!(XStatus::from(WaitOutcome::Stopped(5, 19)), XStatus::Signaled(19));
    assert_eq!(XStatus::from(WaitOutcome::PtraceEvent(5, 5, 1)), XStatus::Running);
    assert_eq!(XStatus::from(WaitOutcome::PtraceSyscall(5)), XStatus::Running);
    assert_eq!(XStatus::from(WaitOutcome::Continued(5)), XStatus::Running);
    assert_eq!(XStatus::from(WaitOutcome::StillAlive), XStatus::Running);
}

#[test]
fn terminal_statuses() {
    assert!(XStatus::Exited(0).is_terminal());
    assert!(XStatus::Signaled(9).is_terminal());
    assert!(!XStatus::Running.is_terminal());
}

#[test]
fn new_handle_has_no_producer() {
    let mut handle = XChildHandle::new(100, 3, 4).unwrap();
    assert_eq!(handle.pid(), 100);
    assert_eq!(handle.awaited_channel(), None);
    assert_eq!(handle.status(None), Err(XError::NoProducer));
    assert_eq!(
        handle.status(Some(Delivery { channel: 1, status: XStatus::Exited(0) })),
        Err(XError::NoProducer)
    );
}

#[test]
fn streamer_is_bound_to_the_handle() {
    let mut handle = XChildHandle::new(100, 3, 4).unwrap();
    let streamer = handle.streamer();
    assert_eq!(streamer.pid(), 100);
    assert_eq!(streamer.stdout(), 3);
    assert_eq!(streamer.stderr(), 4);
    assert_eq!(streamer.channel(), 1);
    assert_eq!(streamer.phase(), StreamPhase::Merging);
    assert_eq!(handle.streamers_made(), 1);
    assert_eq!(handle.awaited_channel(), Some(1));
}

#[test]
fn echo_hello_yields_one_line_and_exits_zero() {
    let mut handle = XChildHandle::new(321, 5, 6).unwrap();
    let mut streamer = handle.streamer();
    let mut seen: Vec<(StdioType, String)> = Vec::new();
    let mut delivered = None;
    let exit = Some(WaitOutcome::Exited(321, 0));
    let polls = vec![
        poll(OutputReady::Pending, None),
        poll(line(StdioType::Stdout, "hello"), None),
        poll(OutputReady::Pending, exit),
        poll(OutputReady::Ended, exit),
    ];
    for ready in polls {
        match streamer.stream(ready) {
            StreamAction::Yield(origin, text) => seen.push((origin, text)),
            StreamAction::Finish { close_stdout, close_stderr, delivery } => {
                assert_eq!((close_stdout, close_stderr), (5, 6));
                delivered = Some(delivery);
            }
            StreamAction::Wait | StreamAction::Drain => {}
            other => panic!("unexpected action {:?}", other),
        }
    }
    assert_eq!(seen, vec![(StdioType::Stdout, "hello".to_string())]);
    assert_eq!(streamer.phase(), StreamPhase::Finished);
    assert_eq!(handle.status(delivered), Ok(XStatus::Exited(0)));
}

#[test]
fn interleaved_lines_then_exit_code_seven() {
    let mut handle = XChildHandle::new(77, 8, 9).unwrap();
    let mut streamer = handle.streamer();
    let exit = Some(WaitOutcome::Exited(77, 7));
    let polls = vec![
        poll(line(StdioType::Stdout, "out 1"), None),
        poll(line(StdioType::Stderr, "err 1"), None),
        poll(OutputReady::Pending, None),
        poll(line(StdioType::Stdout, "out 2"), exit),
        poll(line(StdioType::Stderr, "err 2"), exit),
        poll(OutputReady::Pending, exit),
        poll(line(StdioType::Stderr, "err 3"), None),
        poll(OutputReady::Pending, None),
        poll(OutputReady::Ended, None),
    ];
    let mut seen: Vec<(StdioType, String)> = Vec::new();
    let mut actions: Vec<StreamAction> = Vec::new();
    for ready in polls {
        let action = streamer.stream(ready);
        if let StreamAction::Yield(origin, text) = &action {
            seen.push((*origin, text.clone()));
        }
        actions.push(action);
    }
    assert_eq!(
        seen,
        vec![
            (StdioType::Stdout, "out 1".to_string()),
            (StdioType::Stderr, "err 1".to_string()),
            (StdioType::Stdout, "out 2".to_string()),
            (StdioType::Stderr, "err 2".to_string()),
            (StdioType::Stderr, "err 3".to_string()),
        ]
    );
    assert_eq!(actions[2], StreamAction::Wait);
    assert_eq!(actions[5], StreamAction::Drain);
    assert_eq!(actions[7], StreamAction::Drain);
    let last = actions.pop().unwrap();
    assert_eq!(
        last,
        StreamAction::Finish {
            close_stdout: 8,
            close_stderr: 9,
            delivery: Delivery { channel: 1, status: XStatus::Exited(7) },
        }
    );
    match last {
        StreamAction::Finish { delivery, .. } => {
            assert_eq!(handle.status(Some(delivery)), Ok(XStatus::Exited(7)));
        }
        _ => unreachable!(),
    }
}

#[test]
fn output_goes_before_a_ready_exit() {
    let mut handle = XChildHandle::new(1, 3, 4).unwrap();
    let mut streamer = handle.streamer();
    let action = streamer.stream(poll(line(StdioType::Stderr, "late"), Some(WaitOutcome::Exited(1, 0))));
    assert_eq!(action, StreamAction::Yield(StdioType::Stderr, "late".to_string()));
    assert_eq!(streamer.phase(), StreamPhase::Merging);
}

#[test]
fn exit_with_output_ended_finishes_at_once() {
    let mut handle = XChildHandle::new(1, 3, 4).unwrap();
    let mut streamer = handle.streamer();
    assert_eq!(streamer.stream(poll(OutputReady::Ended, None)), StreamAction::Wait);
    assert_eq!(streamer.phase(), StreamPhase::Merging);
    let action = streamer.stream(poll(OutputReady::Ended, Some(WaitOutcome::Exited(1, 3))));
    assert_eq!(
        action,
        StreamAction::Finish {
            close_stdout: 3,
            close_stderr: 4,
            delivery: Delivery { channel: 1, status: XStatus::Exited(3) },
        }
    );
    assert_eq!(streamer.stream(poll(OutputReady::Ended, None)), StreamAction::End);
    assert_eq!(streamer.stream(poll(OutputReady::Pending, Some(WaitOutcome::Exited(1, 3)))), StreamAction::End);
    assert_eq!(streamer.phase(), StreamPhase::Finished);
}

#[test]
fn killed_child_is_signaled_never_exited() {
    let mut handle = XChildHandle::new(55, 3, 4).unwrap();
    let mut streamer = handle.streamer();
    let killed = WaitOutcome::Signaled(55, 15, false);
    assert_eq!(streamer.stream(poll(OutputReady::Pending, Some(killed))), StreamAction::Drain);
    assert_eq!(streamer.phase(), StreamPhase::Draining(killed));
    let action = streamer.stream(poll(OutputReady::Ended, None));
    let delivery = match action {
        StreamAction::Finish { delivery, .. } => delivery,
        other => panic!("unexpected action {:?}", other),
    };
    assert_eq!(delivery.status, XStatus::Signaled(15));
    let status = handle.status(Some(delivery)).unwrap();
    assert_eq!(status, XStatus::Signaled(15));
    assert!(!matches!(status, XStatus::Exited(_)));
}

#[test]
fn wait_that_ends_on_a_running_state_delivers_nothing() {
    let mut handle = XChildHandle::new(55, 3, 4).unwrap();
    let mut streamer = handle.streamer();
    let action = streamer.stream(poll(OutputReady::Ended, Some(WaitOutcome::StillAlive)));
    assert_eq!(
        action,
        StreamAction::Fail { close_stdout: 3, close_stderr: 4, error: XError::NotTerminal }
    );
    assert_eq!(streamer.phase(), StreamPhase::Finished);
    assert_eq!(handle.status(None), Err(XError::ProducerGone));
}

#[test]
fn status_is_kept_and_repeated() {
    let mut handle = XChildHandle::new(9, 3, 4).unwrap();
    let _streamer = handle.streamer();
    let first = handle.status(Some(Delivery { channel: 1, status: XStatus::Exited(7) }));
    assert_eq!(first, Ok(XStatus::Exited(7)));
    assert_eq!(handle.awaited_channel(), None);
    assert_eq!(handle.status(None), Ok(XStatus::Exited(7)));
    assert_eq!(
        handle.status(Some(Delivery { channel: 1, status: XStatus::Signaled(9) })),
        Ok(XStatus::Exited(7))
    );
    assert_eq!(handle.status(None), Ok(XStatus::Exited(7)));
}

#[test]
fn closed_channel_is_a_consistency_error() {
    let mut handle = XChildHandle::new(9, 3, 4).unwrap();
    let _streamer = handle.streamer();
    assert_eq!(handle.status(None), Err(XError::ProducerGone));
    assert_eq!(handle.awaited_channel(), None);
    assert_eq!(handle.status(None), Err(XError::NoProducer));
}

#[test]
fn running_is_never_kept_as_the_status() {
    let mut handle = XChildHandle::new(9, 3, 4).unwrap();
    let _streamer = handle.streamer();
    assert_eq!(
        handle.status(Some(Delivery { channel: 1, status: XStatus::Running })),
        Err(XError::NotTerminal)
    );
    assert_eq!(handle.status(None), Err(XError::NoProducer));
}

#[test]
fn only_the_latest_streamer_is_heard() {
    let mut handle = XChildHandle::new(9, 3, 4).unwrap();
    let first = handle.streamer();
    let second = handle.streamer();
    assert_eq!(first.channel(), 1);
    assert_eq!(second.channel(), 2);
    assert_eq!(handle.streamers_made(), 2);
    assert_eq!(handle.awaited_channel(), Some(2));
    let mut stale = XChildHandle::new(9, 3, 4).unwrap();
    let _a = stale.streamer();
    let _b = stale.streamer();
    assert_eq!(
        stale.status(Some(Delivery { channel: 1, status: XStatus::Exited(0) })),
        Err(XError::ProducerGone)
    );
    assert_eq!(
        handle.status(Some(Delivery { channel: 2, status: XStatus::Exited(0) })),
        Ok(XStatus::Exited(0))
    );
}
