use rdp_screenshot::session::{
    failure_contexts, plan_replies, Action, Event, Failure, Mode, Output, ReadError, SaveTarget,
    Session, SAVE_INTERVAL,
};

fn read_failed(error: ReadError, now: u128) -> Event {
    Event::ReadFailed { error, now }
}

fn turn(now: u128) -> Event {
    Event::Turn { interrupted: false, now }
}

/// Reports an event that the session waits for.
fn step(session: &mut Session, event: Event) -> Action {
    assert!(session.expects(&event));
    session.step(event)
}

fn is_over(session: &Session) -> bool {
    !session.expects(&turn(0))
        && !session.expects(&Event::FrameRead)
        && !session.expects(&Event::ProcessFailed)
        && !session.expects(&Event::Written)
        && !session.expects(&Event::SaveFailed)
}

/// Takes a session to where it has handed a frame to the decoder.
fn processing(keep_open: bool, has_output: bool) -> Session {
    let (mut session, _) = Session::start(keep_open, has_output, 0);
    if keep_open {
        assert!(matches!(step(&mut session, turn(0)), Action::Read));
    }
    assert!(matches!(step(&mut session, Event::FrameRead), Action::Process));
    session
}

#[test]
fn replies_up_to_the_end() {
    let (replies, ends) = plan_replies(vec![
        Output::Other,
        Output::ResponseFrame(vec![1, 2]),
        Output::ResponseFrame(vec![]),
        Output::Other,
        Output::ResponseFrame(vec![3]),
    ]);
    assert_eq!(replies, vec![vec![1, 2], vec![], vec![3]]);
    assert!(!ends);

    let (replies, ends) = plan_replies(vec![
        Output::ResponseFrame(vec![1]),
        Output::Terminate,
        Output::ResponseFrame(vec![2]),
    ]);
    assert_eq!(replies, vec![vec![1]]);
    assert!(ends);

    let (replies, ends) = plan_replies(vec![]);
    assert!(replies.is_empty());
    assert!(!ends);
}

#[test]
fn once_ends_when_the_server_is_silent() {
    let (mut session, action) = Session::start(false, true, 0);
    assert!(matches!(action, Action::Read));
    let action = step(&mut session, read_failed(ReadError::WouldBlock, 1));
    assert!(matches!(action, Action::Save(SaveTarget::Output)));
    assert!(matches!(step(&mut session, Event::Saved { now: 2 }), Action::Finish));
    assert!(is_over(&session));
    assert_eq!(session.saved(), 0);
}

#[test]
fn once_without_output_just_ends() {
    let (mut session, _) = Session::start(false, false, 0);
    let action = step(&mut session, read_failed(ReadError::WouldBlock, 1));
    assert!(matches!(action, Action::Finish));
    assert!(is_over(&session));
}

#[test]
fn once_breaks_on_other_read_errors() {
    for error in [ReadError::TimedOut, ReadError::Other] {
        let (mut session, _) = Session::start(false, true, 0);
        let action = step(&mut session, read_failed(error, 1));
        assert!(matches!(action, Action::Fail(Failure::ReadFrame)));
        assert!(is_over(&session));
    }
}

#[test]
fn replies_are_written_in_order() {
    for keep_open in [false, true] {
        let mut session = processing(keep_open, true);
        let outputs = vec![
            Output::ResponseFrame(vec![1, 2]),
            Output::Other,
            Output::ResponseFrame(vec![]),
        ];
        match step(&mut session, Event::Processed { outputs }) {
            Action::Write(frame) => assert_eq!(frame, [1, 2]),
            action => panic!("{action:?}"),
        }
        match step(&mut session, Event::Written) {
            Action::Write(frame) => assert!(frame.is_empty()),
            action => panic!("{action:?}"),
        }
        let action = step(&mut session, Event::Written);
        if keep_open {
            assert!(matches!(action, Action::Check));
        } else {
            assert!(matches!(action, Action::Read));
        }
    }
}

#[test]
fn frame_without_replies() {
    let mut session = processing(true, true);
    let action = step(&mut session, Event::Processed { outputs: vec![Output::Other] });
    assert!(matches!(action, Action::Check));
    let mut session = processing(false, true);
    let action = step(&mut session, Event::Processed { outputs: vec![] });
    assert!(matches!(action, Action::Read));
}

#[test]
fn once_is_saved_when_the_server_terminates() {
    let mut session = processing(false, true);
    let outputs = vec![
        Output::ResponseFrame(vec![7]),
        Output::Terminate,
        Output::ResponseFrame(vec![8]),
    ];
    match step(&mut session, Event::Processed { outputs }) {
        Action::Write(frame) => assert_eq!(frame, [7]),
        action => panic!("{action:?}"),
    }
    let action = step(&mut session, Event::Written);
    assert!(matches!(action, Action::Save(SaveTarget::Output)));
    assert!(matches!(step(&mut session, Event::Saved { now: 2 }), Action::Finish));
}

#[test]
fn kept_open_is_not_saved_when_the_server_terminates() {
    let mut session = processing(true, true);
    let action = step(&mut session, Event::Processed { outputs: vec![Output::Terminate] });
    assert!(matches!(action, Action::Finish));
    assert!(is_over(&session));
}

#[test]
fn interruption_ends_a_session_that_is_kept_open() {
    let (mut session, action) = Session::start(true, true, 0);
    assert!(matches!(action, Action::Check));
    let event = Event::Turn { interrupted: true, now: 1 };
    assert!(matches!(step(&mut session, event), Action::Finish));
    assert!(is_over(&session));
    assert_eq!(session.saved(), 0);
}

#[test]
fn interruption_after_a_frame_saves_nothing() {
    let mut session = processing(true, true);
    step(&mut session, Event::Processed { outputs: vec![] });
    let event = Event::Turn { interrupted: true, now: SAVE_INTERVAL };
    assert!(matches!(step(&mut session, event), Action::Finish));
    assert!(is_over(&session));
    assert_eq!(session.saved(), 0);
}

#[test]
fn interruption_during_a_silent_read_leaves_the_due_screenshot() {
    for error in [ReadError::WouldBlock, ReadError::TimedOut] {
        let (mut session, _) = Session::start(true, true, 0);
        step(&mut session, turn(1));
        let action = step(&mut session, read_failed(error, SAVE_INTERVAL));
        assert!(matches!(action, Action::Save(SaveTarget::Numbered(1))));
        assert!(matches!(
            step(&mut session, Event::Saved { now: SAVE_INTERVAL + 1 }),
            Action::Check
        ));
        let event = Event::Turn { interrupted: true, now: 3 * SAVE_INTERVAL };
        assert!(matches!(step(&mut session, event), Action::Finish));
        assert!(is_over(&session));
        assert_eq!(session.saved(), 1);

        let (mut session, _) = Session::start(true, true, 0);
        step(&mut session, turn(1));
        let action = step(&mut session, read_failed(error, SAVE_INTERVAL - 1));
        assert!(matches!(action, Action::Check));
        let event = Event::Turn { interrupted: true, now: SAVE_INTERVAL };
        assert!(matches!(step(&mut session, event), Action::Finish));
        assert_eq!(session.saved(), 0);
    }
}

#[test]
fn screenshots_are_numbered_and_spaced() {
    assert_eq!(SAVE_INTERVAL, 5_000_000_000);
    for error in [ReadError::WouldBlock, ReadError::TimedOut] {
        let (mut session, _) = Session::start(true, true, 100);
        let mut last_save: u128 = 100;
        for n in 1..=5u64 {
            let action = step(&mut session, turn(last_save + SAVE_INTERVAL - 1));
            assert!(matches!(action, Action::Read));
            let action = step(&mut session, read_failed(error, last_save + SAVE_INTERVAL - 1));
            assert!(matches!(action, Action::Check));
            match step(&mut session, turn(last_save + SAVE_INTERVAL)) {
                Action::Save(target) => assert_eq!(target, SaveTarget::Numbered(n)),
                action => panic!("{action:?}"),
            }
            last_save += SAVE_INTERVAL + 17;
            let action = step(&mut session, Event::Saved { now: last_save });
            assert!(matches!(action, Action::Check));
            assert_eq!(session.saved(), n);
        }
    }
}

#[test]
fn steady_traffic_does_not_hold_screenshots_up() {
    // A frame every tenth of a second for a minute, and no silence.
    let tenth = SAVE_INTERVAL / 50;
    let (mut session, _) = Session::start(true, true, 0);
    let mut targets = Vec::new();
    for i in 1..=600u128 {
        let mut action = step(&mut session, turn(i * tenth));
        if let Action::Save(target) = action {
            targets.push((target, i * tenth));
            assert!(matches!(step(&mut session, Event::Saved { now: i * tenth }), Action::Check));
            action = step(&mut session, turn(i * tenth));
        }
        assert!(matches!(action, Action::Read));
        assert!(matches!(step(&mut session, Event::FrameRead), Action::Process));
        let outputs = vec![Output::ResponseFrame(vec![1]), Output::Other];
        assert!(matches!(step(&mut session, Event::Processed { outputs }), Action::Write(_)));
        assert!(matches!(step(&mut session, Event::Written), Action::Check));
        assert_eq!(u128::from(session.saved()), i * tenth / SAVE_INTERVAL);
    }
    let expected: Vec<(SaveTarget, u128)> =
        (1..=12u64).map(|n| (SaveTarget::Numbered(n), u128::from(n) * SAVE_INTERVAL)).collect();
    assert_eq!(targets, expected);
}

#[test]
fn interval_counts_from_when_a_screenshot_is_done() {
    let (mut session, _) = Session::start(true, true, 0);
    assert!(matches!(step(&mut session, turn(SAVE_INTERVAL + 3)), Action::Save(_)));
    let done = 2 * SAVE_INTERVAL;
    step(&mut session, Event::Saved { now: done });
    assert!(matches!(step(&mut session, turn(done + SAVE_INTERVAL - 1)), Action::Read));
    let action = step(&mut session, read_failed(ReadError::WouldBlock, done + SAVE_INTERVAL));
    assert!(matches!(action, Action::Save(SaveTarget::Numbered(2))));
}

#[test]
fn first_screenshot_waits_for_the_interval() {
    let (mut session, _) = Session::start(true, true, 70);
    assert!(matches!(step(&mut session, turn(70 + SAVE_INTERVAL - 1)), Action::Read));
    let event = read_failed(ReadError::WouldBlock, 70 + SAVE_INTERVAL - 1);
    assert!(matches!(step(&mut session, event), Action::Check));
    let action = step(&mut session, turn(70 + SAVE_INTERVAL));
    assert!(matches!(action, Action::Save(SaveTarget::Numbered(1))));
}

#[test]
fn clock_before_the_last_save_saves_nothing() {
    let (mut session, _) = Session::start(true, true, SAVE_INTERVAL * 3);
    assert!(matches!(step(&mut session, turn(0)), Action::Read));
}

#[test]
fn kept_open_without_output_saves_nothing() {
    let (mut session, _) = Session::start(true, false, 0);
    for i in 1..10 {
        assert!(matches!(step(&mut session, turn(2 * i * SAVE_INTERVAL)), Action::Read));
        let event = read_failed(ReadError::WouldBlock, (2 * i + 1) * SAVE_INTERVAL);
        assert!(matches!(step(&mut session, event), Action::Check));
    }
    assert_eq!(session.saved(), 0);
}

#[test]
fn kept_open_breaks_on_other_read_errors() {
    let (mut session, _) = Session::start(true, true, 0);
    step(&mut session, turn(0));
    let action = step(&mut session, read_failed(ReadError::Other, 1));
    assert!(matches!(action, Action::Fail(Failure::ReadFrame)));
    assert!(is_over(&session));
}

#[test]
fn contexts_of_failures() {
    for mode in [Mode::Once, Mode::KeepOpen] {
        assert_eq!(failure_contexts(mode, Failure::ReadFrame), ["read frame", "active stage"]);
        assert_eq!(failure_contexts(mode, Failure::ProcessFrame), ["active stage"]);
        assert_eq!(
            failure_contexts(mode, Failure::WriteResponse),
            ["write response", "active stage"]
        );
    }
    assert_eq!(failure_contexts(Mode::KeepOpen, Failure::SaveScreenshot), ["active stage"]);
    assert!(failure_contexts(Mode::Once, Failure::SaveScreenshot).is_empty());
    assert_eq!(Mode::of(true), Mode::KeepOpen);
    assert_eq!(Mode::of(false), Mode::Once);
}

#[test]
fn failures_of_the_driver() {
    for keep_open in [false, true] {
        let mut session = processing(keep_open, true);
        let action = step(&mut session, Event::ProcessFailed);
        assert!(matches!(action, Action::Fail(Failure::ProcessFrame)));
        assert!(is_over(&session));

        let mut session = processing(keep_open, true);
        let outputs = vec![Output::ResponseFrame(vec![1]), Output::ResponseFrame(vec![2])];
        step(&mut session, Event::Processed { outputs });
        let action = step(&mut session, Event::WriteFailed);
        assert!(matches!(action, Action::Fail(Failure::WriteResponse)));
        assert!(is_over(&session));
    }
    let (mut once, _) = Session::start(false, true, 0);
    step(&mut once, read_failed(ReadError::WouldBlock, 1));
    let (mut kept_open, _) = Session::start(true, true, 0);
    step(&mut kept_open, turn(SAVE_INTERVAL));
    for mut session in [once, kept_open] {
        let action = step(&mut session, Event::SaveFailed);
        assert!(matches!(action, Action::Fail(Failure::SaveScreenshot)));
        assert!(is_over(&session));
    }
}

#[test]
fn unexpected_events_are_told_apart() {
    let (session, _) = Session::start(false, true, 0);
    assert!(session.expects(&Event::FrameRead));
    assert!(session.expects(&read_failed(ReadError::Other, 1)));
    assert!(!session.expects(&Event::Turn { interrupted: true, now: 0 }));
    assert!(!session.expects(&Event::Written));
    assert!(!session.expects(&Event::Saved { now: 0 }));
    assert!(!session.expects(&Event::Processed { outputs: vec![] }));
}
