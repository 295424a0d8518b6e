use bevy_tui::error::Error;
use bevy_tui::input::ButtonState;
use bevy_tui::input::EventQueues;
use bevy_tui::input::KeyboardInput;
use bevy_tui::input::MouseInput;
use bevy_tui::input::RawConsoleEvent;
use bevy_tui::keycode::KeyCode;
use bevy_tui::scheduler::exit_signal;
use bevy_tui::scheduler::tick;
use bevy_tui::scheduler::AppExit;
use bevy_tui::scheduler::Phase;
use bevy_tui::scheduler::Scheduler;
use bevy_tui::scheduler::Stage;
use bevy_tui::scheduler::TickAction;
use bevy_tui::scheduler::TickEvent;
use bevy_tui::scheduler::TuiPersistentState;
use bevy_tui::scheduler::DEFAULT_LOOP_DELAY_MS;
use bevy_tui::terminal::KeyEvent;
use bevy_tui::terminal::KeyEventKind;
use bevy_tui::terminal::MouseEvent;
use bevy_tui::terminal::MouseEventKind;
use bevy_tui::terminal::TerminalEvent;
use bevy_tui::terminal::TerminalKeyCode;
use std::io::ErrorKind;

fn broken() -> std::io::Error {
    std::io::Error::new(ErrorKind::BrokenPipe, "terminal is gone")
}

fn running() -> (Scheduler, EventQueues) {
    let mut scheduler = Scheduler::new();
    let mut queues = EventQueues::new();
    let action = tick(&mut scheduler, &mut queues, TickEvent::Updated(Some(Vec::new())));
    assert!(matches!(action, TickAction::Poll { timeout_ms: 250 }));
    (scheduler, queues)
}

fn key(chr: char) -> TerminalEvent {
    TerminalEvent::Key(KeyEvent { code: TerminalKeyCode::Char(chr), modifiers: 0, kind: KeyEventKind::Press })
}

#[test]
fn persistent_state_marks_the_first_tick() {
    let mut state = TuiPersistentState::default();
    assert!(state.is_first_run());
    assert!(!state.timeout_reached());
    state.mark_completed_tick();
    assert!(!state.is_first_run());
    assert!(!state.timeout_reached());
    state.mark_completed_tick();
    assert!(!state.is_first_run());
}

#[test]
fn the_first_action_is_an_update() {
    let scheduler = Scheduler::new();
    assert_eq!(scheduler.phase(), Phase::AwaitingFirstUpdate);
    assert_eq!(scheduler.stage(), Stage::Updating);
    assert!(matches!(scheduler.pending(), TickAction::Update));
    assert!(!scheduler.timeout_reached());
}

#[test]
fn nothing_is_polled_before_the_first_update() {
    let mut scheduler = Scheduler::new();
    let mut queues = EventQueues::new();
    let action = tick(&mut scheduler, &mut queues, TickEvent::Polled(Ok(true)));
    assert!(matches!(action, TickAction::Update));
    let action = tick(&mut scheduler, &mut queues, TickEvent::Read(Ok(key('a'))));
    assert!(matches!(action, TickAction::Update));
    assert_eq!(scheduler.phase(), Phase::AwaitingFirstUpdate);
    assert!(queues.raw.is_empty());
    assert!(queues.keyboard.is_empty());
}

#[test]
fn the_default_delay_is_a_quarter_second() {
    assert_eq!(DEFAULT_LOOP_DELAY_MS, 250);
    let (scheduler, _) = running();
    assert_eq!(scheduler.phase(), Phase::Running);
    assert_eq!(scheduler.stage(), Stage::Polling);
    assert!(matches!(scheduler.pending(), TickAction::Poll { timeout_ms: 250 }));
}

#[test]
fn an_idle_poll_then_an_exit_ends_the_loop() {
    let (mut scheduler, mut queues) = running();
    let action = tick(&mut scheduler, &mut queues, TickEvent::Polled(Ok(false)));
    assert!(matches!(action, TickAction::Update));
    assert!(scheduler.timeout_reached());
    let action = tick(&mut scheduler, &mut queues, TickEvent::Updated(Some(vec![AppExit::Error(7)])));
    assert!(matches!(action, TickAction::Exit(AppExit::Error(7))));
    assert_eq!(scheduler.phase(), Phase::Terminated);
}

#[test]
fn the_first_exit_value_is_returned() {
    let (mut scheduler, mut queues) = running();
    tick(&mut scheduler, &mut queues, TickEvent::Polled(Ok(false)));
    let exits = vec![AppExit::Error(3), AppExit::Success, AppExit::Error(9)];
    let action = tick(&mut scheduler, &mut queues, TickEvent::Updated(Some(exits)));
    assert!(matches!(action, TickAction::Exit(AppExit::Error(3))));
}

#[test]
fn an_exit_during_the_first_update_ends_the_loop() {
    let mut scheduler = Scheduler::new();
    let mut queues = EventQueues::new();
    let action = tick(&mut scheduler, &mut queues, TickEvent::Updated(Some(vec![AppExit::Success])));
    assert!(matches!(action, TickAction::Exit(AppExit::Success)));
    assert_eq!(scheduler.phase(), Phase::Terminated);
}

#[test]
fn buffered_events_are_drained_before_the_update() {
    let (mut scheduler, mut queues) = running();
    let action = tick(&mut scheduler, &mut queues, TickEvent::Polled(Ok(true)));
    assert!(matches!(action, TickAction::PollNow));
    let action = tick(&mut scheduler, &mut queues, TickEvent::Polled(Ok(true)));
    assert!(matches!(action, TickAction::Read));
    let action = tick(&mut scheduler, &mut queues, TickEvent::Read(Ok(key('A'))));
    assert!(matches!(action, TickAction::PollNow));
    let action = tick(&mut scheduler, &mut queues, TickEvent::Polled(Ok(true)));
    assert!(matches!(action, TickAction::Read));
    let moved = MouseEvent { kind: MouseEventKind::Moved, column: 2, row: 3, modifiers: 0 };
    let action = tick(&mut scheduler, &mut queues, TickEvent::Read(Ok(TerminalEvent::Mouse(moved))));
    assert!(matches!(action, TickAction::PollNow));
    let action = tick(&mut scheduler, &mut queues, TickEvent::Read(Ok(TerminalEvent::FocusLost)));
    assert!(matches!(action, TickAction::PollNow));
    assert_eq!(queues.raw.len(), 2);
    let action = tick(&mut scheduler, &mut queues, TickEvent::Polled(Ok(false)));
    assert!(matches!(action, TickAction::Update));
    assert!(!scheduler.timeout_reached());
    assert_eq!(
        queues.keyboard,
        vec![
            KeyboardInput { key_code: KeyCode::ShiftLeft, state: ButtonState::Pressed },
            KeyboardInput { key_code: KeyCode::KeyA, state: ButtonState::Pressed },
        ]
    );
    assert_eq!(queues.mouse, vec![MouseInput::Movement([2, 3])]);
    assert_eq!(
        queues.raw,
        vec![RawConsoleEvent(key('A')), RawConsoleEvent(TerminalEvent::Mouse(moved))]
    );
    let action = tick(&mut scheduler, &mut queues, TickEvent::Updated(Some(Vec::new())));
    assert!(matches!(action, TickAction::Poll { timeout_ms: 250 }));
    assert_eq!(scheduler.phase(), Phase::Running);
}

#[test]
fn a_failed_poll_ends_the_loop() {
    let (mut scheduler, mut queues) = running();
    let action = tick(&mut scheduler, &mut queues, TickEvent::Polled(Err(broken())));
    match action {
        TickAction::Fail(Error::PollFailed(err)) => assert_eq!(err.kind(), ErrorKind::BrokenPipe),
        other => panic!("unexpected action {other:?}"),
    }
    assert_eq!(scheduler.phase(), Phase::Terminated);
}

#[test]
fn a_failed_drain_or_read_ends_the_loop() {
    let (mut scheduler, mut queues) = running();
    tick(&mut scheduler, &mut queues, TickEvent::Polled(Ok(true)));
    let action = tick(&mut scheduler, &mut queues, TickEvent::Polled(Err(broken())));
    assert!(matches!(action, TickAction::Fail(Error::PollFailed(_))));
    assert_eq!(scheduler.stage(), Stage::Terminated);

    let (mut scheduler, mut queues) = running();
    tick(&mut scheduler, &mut queues, TickEvent::Polled(Ok(true)));
    tick(&mut scheduler, &mut queues, TickEvent::Polled(Ok(true)));
    let action = tick(&mut scheduler, &mut queues, TickEvent::Read(Err(broken())));
    assert!(matches!(action, TickAction::Fail(Error::PollFailed(_))));
    assert_eq!(scheduler.stage(), Stage::Terminated);
    assert!(queues.raw.is_empty());
}

#[test]
fn a_missing_exit_queue_ends_the_loop() {
    let (mut scheduler, mut queues) = running();
    tick(&mut scheduler, &mut queues, TickEvent::Polled(Ok(false)));
    let action = tick(&mut scheduler, &mut queues, TickEvent::Updated(None));
    assert!(matches!(action, TickAction::Fail(Error::MissingExitEventQueue)));
    assert_eq!(scheduler.phase(), Phase::Terminated);
}

#[test]
fn nothing_happens_after_the_end() {
    let (mut scheduler, mut queues) = running();
    tick(&mut scheduler, &mut queues, TickEvent::Polled(Ok(false)));
    tick(&mut scheduler, &mut queues, TickEvent::Updated(Some(vec![AppExit::Success])));
    assert!(matches!(scheduler.pending(), TickAction::Stop));
    for event in [
        TickEvent::Polled(Ok(true)),
        TickEvent::Polled(Err(broken())),
        TickEvent::Read(Ok(key('q'))),
        TickEvent::Updated(Some(vec![AppExit::Error(1)])),
        TickEvent::Updated(None),
    ] {
        let action = tick(&mut scheduler, &mut queues, event);
        assert!(matches!(action, TickAction::Stop));
        assert_eq!(scheduler.phase(), Phase::Terminated);
    }
    assert!(queues.raw.is_empty());
}

#[test]
fn an_event_out_of_turn_changes_nothing() {
    let (mut scheduler, mut queues) = running();
    let action = tick(&mut scheduler, &mut queues, TickEvent::Read(Ok(key('a'))));
    assert!(matches!(action, TickAction::Poll { timeout_ms: 250 }));
    let action = tick(&mut scheduler, &mut queues, TickEvent::Updated(Some(vec![AppExit::Success])));
    assert!(matches!(action, TickAction::Poll { timeout_ms: 250 }));
    assert_eq!(scheduler.stage(), Stage::Polling);
    assert!(queues.raw.is_empty());
    tick(&mut scheduler, &mut queues, TickEvent::Polled(Ok(true)));
    let action = tick(&mut scheduler, &mut queues, TickEvent::Read(Ok(key('a'))));
    assert!(matches!(action, TickAction::PollNow));
    assert!(queues.raw.is_empty());
}

#[test]
fn the_first_posted_exit_counts() {
    assert_eq!(exit_signal(&Vec::new()), None);
    assert_eq!(exit_signal(&vec![AppExit::Success]), Some(AppExit::Success));
    assert_eq!(exit_signal(&vec![AppExit::Error(2), AppExit::Success]), Some(AppExit::Error(2)));
}
