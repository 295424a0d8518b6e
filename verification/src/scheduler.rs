//! The tick scheduler: when to poll the terminal, when to read from it, when
//! to update the application, and when to stop.
//!
//! The scheduler decides and does nothing itself. Its caller performs each
//! action it asks for and hands back what came of it.

use crate::error::Error;
use crate::input::event_handler;
use crate::input::keyboard_events_of;
use crate::input::mouse_events_of;
use crate::input::EventQueues;
use crate::input::RawConsoleEvent;
use crate::terminal::TerminalEvent;
use std::io::Error as IoError;
use std::time::Instant;
use vstd::prelude::*;

verus! {

/// How long the scheduler waits for the terminal before it updates the
/// application anyway, in milliseconds: four updates a second when idle.
pub const DEFAULT_LOOP_DELAY_MS: u64 = 250;

/// std's point in time, declared so that it can be kept in a field.
#[verifier::external_type_specification]
#[verifier::external_body]
pub struct ExInstant(Instant);

/// Calls `Instant::now`. Nothing is said of the time it returns.
#[verifier::external_body]
fn now() -> (time: Instant) {
    Instant::now()
}

/// What the scheduler keeps from one tick to the next.
#[derive(Debug, Clone, Copy)]
pub struct TuiPersistentState {
    first_run: bool,
    last_update: Instant,
    timeout_reached: bool,
}

impl TuiPersistentState {
    /// Whether no tick has completed yet.
    pub closed spec fn spec_is_first_run(&self) -> bool {
        self.first_run
    }

    /// Whether the last poll ended because time ran out.
    pub closed spec fn spec_timeout_reached(&self) -> bool {
        self.timeout_reached
    }

    /// Tells whether no tick has completed yet.
    #[verifier::when_used_as_spec(spec_is_first_run)]
    pub fn is_first_run(&self) -> (first: bool)
        ensures
            first == self.spec_is_first_run(),
    {
        self.first_run
    }

    /// Tells whether the last poll ended because time ran out, and not
    /// because the terminal had events.
    #[verifier::when_used_as_spec(spec_timeout_reached)]
    pub fn timeout_reached(&self) -> (reached: bool)
        ensures
            reached == self.spec_timeout_reached(),
    {
        self.timeout_reached
    }

    /// Notes that a tick has completed, and when.
    pub fn mark_completed_tick(&mut self)
        ensures
            !final(self).spec_is_first_run(),
            final(self).spec_timeout_reached() == old(self).spec_timeout_reached(),
    {
        self.first_run = false;
        self.last_update = now();
    }
}

impl Default for TuiPersistentState {
    /// The state before the first tick.
    fn default() -> (state: Self)
        ensures
            state.spec_is_first_run(),
            !state.spec_timeout_reached(),
    {
        TuiPersistentState { first_run: true, last_update: now(), timeout_reached: false }
    }
}

/// The value with which the application asks to exit.
#[derive(Debug, Clone, Copy, PartialEq, Eq, Hash, Structural)]
pub enum AppExit {
    /// The application ran to its end.
    Success,
    /// The application failed, with this exit code.
    Error(u8),
}

/// The exit value that counts among those posted: the first.
pub open spec fn first_exit(exits: Seq<AppExit>) -> Option<AppExit> {
    if exits.len() > 0 {
        Some(exits[0])
    } else {
        None
    }
}

/// Picks the exit value that counts among those that the application has
/// posted, oldest first: the first one, or `None` if there is none.
pub fn exit_signal(exits: &Vec<AppExit>) -> (exit: Option<AppExit>)
    ensures
        exit == first_exit(exits@),
{
    if exits.len() > 0 {
        Some(exits[0])
    } else {
        None
    }
}

/// What the scheduler waits for.
#[derive(Debug, Clone, Copy, PartialEq, Eq, Hash, Structural)]
pub enum Stage {
    /// For the application to finish an update.
    Updating,
    /// For the terminal to have events, or for the frame's time to run out.
    Polling,
    /// For the terminal to say whether it has another event buffered.
    Draining,
    /// For an event that the terminal has buffered.
    Reading,
    /// For nothing: the loop has ended.
    Terminated,
}

/// The three states of the scheduler's life.
#[derive(Debug, Clone, Copy, PartialEq, Eq, Hash, Structural)]
pub enum Phase {
    /// The application has not been updated yet. Its first update sets the
    /// terminal up, so the terminal is left alone until then.
    AwaitingFirstUpdate,
    /// Ticks follow one another.
    Running,
    /// The loop has ended, with an exit value or an error.
    Terminated,
}

/// What the scheduler asks its caller to do next.
#[derive(Debug)]
pub enum TickAction {
    /// Wait until the terminal has an event, at most this many milliseconds,
    /// and answer with [`TickEvent::Polled`].
    Poll { timeout_ms: u64 },
    /// Ask the terminal, without waiting, whether it has an event, and
    /// answer with [`TickEvent::Polled`].
    PollNow,
    /// Read one event from the terminal and answer with [`TickEvent::Read`].
    Read,
    /// Update the application once and answer with [`TickEvent::Updated`].
    Update,
    /// Leave the loop: the application asked to exit with this value.
    Exit(AppExit),
    /// Leave the loop with this error.
    Fail(Error),
    /// Do nothing: the loop has ended before.
    Stop,
}

/// What came of the action that the scheduler asked for.
#[derive(Debug)]
pub enum TickEvent {
    /// A poll ended: the terminal has an event (`true`), has none (`false`),
    /// or could not be asked.
    Polled(Result<bool, IoError>),
    /// A read ended: with an event, or with an error.
    Read(Result<TerminalEvent, IoError>),
    /// An update ended. The exit values that the application has posted
    /// since the update before come with it, oldest first; `None` says that
    /// the application has no queue for them.
    Updated(Option<Vec<AppExit>>),
}

/// What Verus needs to know of a scheduler to say what it does next.
pub struct SchedulerModel {
    /// What the scheduler waits for.
    pub stage: Stage,
    /// Whether no tick has completed yet.
    pub first_run: bool,
    /// Whether the last poll ended because time ran out.
    pub timeout_reached: bool,
}

/// A step of the scheduler: the state it moves to and what it asks for.
pub struct Step {
    /// The state after the step.
    pub next: SchedulerModel,
    /// The action asked for.
    pub action: TickAction,
}

impl SchedulerModel {
    /// The state before the first tick.
    pub open spec fn initial() -> SchedulerModel {
        SchedulerModel { stage: Stage::Updating, first_run: true, timeout_reached: false }
    }

    /// The phase of the scheduler's life that the state belongs to.
    pub open spec fn phase(self) -> Phase {
        if self.stage == Stage::Terminated {
            Phase::Terminated
        } else if self.first_run {
            Phase::AwaitingFirstUpdate
        } else {
            Phase::Running
        }
    }

    /// The action that the scheduler waits for an answer to.
    pub open spec fn pending(self) -> TickAction {
        match self.stage {
            Stage::Updating => TickAction::Update,
            Stage::Polling => TickAction::Poll { timeout_ms: DEFAULT_LOOP_DELAY_MS },
            Stage::Draining => TickAction::PollNow,
            Stage::Reading => TickAction::Read,
            Stage::Terminated => TickAction::Stop,
        }
    }

    /// The state in which the scheduler waits for `stage`.
    pub open spec fn at(self, stage: Stage) -> SchedulerModel {
        SchedulerModel { stage, ..self }
    }

    /// The step that moves on to `stage` and asks for what is awaited there.
    pub open spec fn move_to(self, stage: Stage) -> Step {
        Step { next: self.at(stage), action: self.at(stage).pending() }
    }

    /// The step that ends the loop with `error`.
    pub open spec fn fail(self, error: Error) -> Step {
        Step { next: self.at(Stage::Terminated), action: TickAction::Fail(error) }
    }

    /// The step that the scheduler takes on `event`.
    ///
    /// A tick polls the terminal for at most the frame's time. If the
    /// terminal has events, all that it has buffered are read, one after the
    /// other, until a poll without waiting finds none. Then the application
    /// is updated once, and the loop ends if it has posted an exit value,
    /// with the first one posted; otherwise the next tick begins. The very
    /// first tick consists of the update alone. An I/O error and a missing
    /// exit queue end the loop. An event that does not answer the pending
    /// action changes nothing, and the action is asked for again.
    pub open spec fn step(self, event: TickEvent) -> Step {
        match (self.stage, event) {
            (Stage::Polling, TickEvent::Polled(Ok(true))) => self.move_to(Stage::Draining),
            (Stage::Polling, TickEvent::Polled(Ok(false))) => (SchedulerModel {
                timeout_reached: true,
                ..self
            }).move_to(Stage::Updating),
            (Stage::Polling, TickEvent::Polled(Err(err))) => self.fail(Error::PollFailed(err)),
            (Stage::Draining, TickEvent::Polled(Ok(true))) => self.move_to(Stage::Reading),
            (Stage::Draining, TickEvent::Polled(Ok(false))) => (SchedulerModel {
                timeout_reached: false,
                ..self
            }).move_to(Stage::Updating),
            (Stage::Draining, TickEvent::Polled(Err(err))) => self.fail(Error::PollFailed(err)),
            (Stage::Reading, TickEvent::Read(Ok(_))) => self.move_to(Stage::Draining),
            (Stage::Reading, TickEvent::Read(Err(err))) => self.fail(Error::PollFailed(err)),
            (Stage::Updating, TickEvent::Updated(None)) => (SchedulerModel {
                first_run: false,
                ..self
            }).fail(Error::MissingExitEventQueue),
            (Stage::Updating, TickEvent::Updated(Some(exits))) => {
                let ticked = SchedulerModel { first_run: false, ..self };
                match first_exit(exits@) {
                    Some(exit) => Step {
                        next: ticked.at(Stage::Terminated),
                        action: TickAction::Exit(exit),
                    },
                    None => ticked.move_to(Stage::Polling),
                }
            },
            _ => Step { next: self, action: self.pending() },
        }
    }
}

/// The terminal event that a step publishes: the one that was read, if the
/// scheduler was waiting for it.
pub open spec fn published_event(stage: Stage, event: TickEvent) -> Option<TerminalEvent> {
    match (stage, event) {
        (Stage::Reading, TickEvent::Read(Ok(read))) => Some(read),
        _ => None,
    }
}

/// The tick scheduler.
#[derive(Debug)]
pub struct Scheduler {
    state: TuiPersistentState,
    stage: Stage,
}

impl Scheduler {
    /// The scheduler's state as Verus sees it.
    pub closed spec fn view(&self) -> SchedulerModel {
        SchedulerModel {
            stage: self.stage,
            first_run: self.state.spec_is_first_run(),
            timeout_reached: self.state.spec_timeout_reached(),
        }
    }

    /// Makes a scheduler that waits for the application's first update.
    pub fn new() -> (scheduler: Self)
        ensures
            scheduler@ == SchedulerModel::initial(),
    {
        Scheduler { state: TuiPersistentState::default(), stage: Stage::Updating }
    }

    /// Returns what the scheduler waits for.
    pub fn stage(&self) -> (stage: Stage)
        ensures
            stage == self@.stage,
    {
        self.stage
    }

    /// Returns the phase of its life that the scheduler is in.
    pub fn phase(&self) -> (phase: Phase)
        ensures
            phase == self@.phase(),
    {
        match self.stage {
            Stage::Terminated => Phase::Terminated,
            _ => if self.state.is_first_run() {
                Phase::AwaitingFirstUpdate
            } else {
                Phase::Running
            },
        }
    }

    /// Tells whether the last poll ended because time ran out.
    pub fn timeout_reached(&self) -> (reached: bool)
        ensures
            reached == self@.timeout_reached,
    {
        self.state.timeout_reached()
    }

    /// Returns the action that the scheduler waits for an answer to. A loop
    /// starts with it.
    pub fn pending(&self) -> (action: TickAction)
        ensures
            action == self@.pending(),
    {
        match self.stage {
            Stage::Updating => TickAction::Update,
            Stage::Polling => TickAction::Poll { timeout_ms: DEFAULT_LOOP_DELAY_MS },
            Stage::Draining => TickAction::PollNow,
            Stage::Reading => TickAction::Read,
            Stage::Terminated => TickAction::Stop,
        }
    }

    /// Moves on to `stage` and asks for what is awaited there.
    fn move_to(&mut self, stage: Stage) -> (action: TickAction)
        ensures
            final(self)@ == old(self)@.at(stage),
            action == old(self)@.at(stage).pending(),
    {
        self.stage = stage;
        self.pending()
    }

    /// Ends the loop with `error`.
    fn fail(&mut self, error: Error) -> (action: TickAction)
        ensures
            final(self)@ == old(self)@.at(Stage::Terminated),
            action == TickAction::Fail(error),
    {
        self.stage = Stage::Terminated;
        TickAction::Fail(error)
    }
}

/// Takes one step of the scheduler: takes in what came of the last action
/// and returns the next one. An event that was read from the terminal is
/// published into `queues` on the way; no other step touches them.
pub fn tick(scheduler: &mut Scheduler, queues: &mut EventQueues, event: TickEvent) -> (action:
    TickAction)
    ensures
        final(scheduler)@ == old(scheduler)@.step(event).next,
        action == old(scheduler)@.step(event).action,
        match published_event(old(scheduler)@.stage, event) {
            Some(read) => {
                &&& final(queues).keyboard@ == old(queues).keyboard@ + keyboard_events_of(read)
                &&& final(queues).mouse@ == old(queues).mouse@ + mouse_events_of(read)
                &&& final(queues).raw@ == old(queues).raw@.push(RawConsoleEvent(read))
            },
            None => *final(queues) == *old(queues),
        },
{
    match (scheduler.stage, event) {
        (Stage::Polling, TickEvent::Polled(Ok(true))) => scheduler.move_to(Stage::Draining),
        (Stage::Polling, TickEvent::Polled(Ok(false))) => {
            // This tick is driven by the clock and not by an event.
            scheduler.state.timeout_reached = true;
            scheduler.move_to(Stage::Updating)
        },
        (Stage::Draining, TickEvent::Polled(Ok(true))) => scheduler.move_to(Stage::Reading),
        (Stage::Draining, TickEvent::Polled(Ok(false))) => {
            scheduler.state.timeout_reached = false;
            scheduler.move_to(Stage::Updating)
        },
        (Stage::Polling, TickEvent::Polled(Err(err))) => scheduler.fail(Error::PollFailed(err)),
        (Stage::Draining, TickEvent::Polled(Err(err))) => scheduler.fail(Error::PollFailed(err)),
        (Stage::Reading, TickEvent::Read(Ok(read))) => {
            event_handler(queues, read);
            scheduler.move_to(Stage::Draining)
        },
        (Stage::Reading, TickEvent::Read(Err(err))) => scheduler.fail(Error::PollFailed(err)),
        (Stage::Updating, TickEvent::Updated(None)) => {
            scheduler.state.mark_completed_tick();
            scheduler.fail(Error::MissingExitEventQueue)
        },
        (Stage::Updating, TickEvent::Updated(Some(exits))) => {
            scheduler.state.mark_completed_tick();
            match exit_signal(&exits) {
                Some(exit) => {
                    scheduler.stage = Stage::Terminated;
                    TickAction::Exit(exit)
                },
                None => scheduler.move_to(Stage::Polling),
            }
        },
        _ => scheduler.pending(),
    }
}

/// Before the first update the scheduler asks for an update and for nothing
/// else: whatever else it is told, it leaves the terminal alone and asks for
/// the update again.
pub proof fn lemma_first_update_precedes_polling(event: TickEvent)
    ensures
        SchedulerModel::initial().phase() == Phase::AwaitingFirstUpdate,
        SchedulerModel::initial().pending() == TickAction::Update,
        !(event is Updated) ==> SchedulerModel::initial().step(event) == (Step {
            next: SchedulerModel::initial(),
            action: TickAction::Update,
        }),
        SchedulerModel::initial().step(event).action is Poll ==> SchedulerModel::initial().step(
            event,
        ).next.phase() == Phase::Running,
{
}

/// A poll that finds the terminal idle is followed by one update, and if the
/// application has posted exit values by the end of that update, the loop
/// ends there with the first of them.
pub proof fn lemma_exit_ends_loop_after_update(state: SchedulerModel, exits: Vec<AppExit>)
    requires
        state.stage == Stage::Polling,
        exits@.len() > 0,
    ensures
        state.step(TickEvent::Polled(Ok(false))).action == TickAction::Update,
        state.step(TickEvent::Polled(Ok(false))).next.timeout_reached,
        state.step(TickEvent::Polled(Ok(false))).next.step(
            TickEvent::Updated(Some(exits)),
        ).action == TickAction::Exit(exits@[0]),
        state.step(TickEvent::Polled(Ok(false))).next.step(
            TickEvent::Updated(Some(exits)),
        ).next.phase() == Phase::Terminated,
{
}

/// An update after which no exit value is posted is followed by the next
/// tick's poll, with the frame's timeout.
pub proof fn lemma_tick_follows_tick(state: SchedulerModel, exits: Vec<AppExit>)
    requires
        state.stage == Stage::Updating,
        exits@.len() == 0,
    ensures
        state.step(TickEvent::Updated(Some(exits))).action == (TickAction::Poll {
            timeout_ms: DEFAULT_LOOP_DELAY_MS,
        }),
        state.step(TickEvent::Updated(Some(exits))).next.phase() == Phase::Running,
{
}

/// Once the loop has ended, nothing brings it back: every event leaves the
/// state as it is, and no poll, read or update is asked for.
pub proof fn lemma_terminated_is_final(state: SchedulerModel, event: TickEvent)
    requires
        state.phase() == Phase::Terminated,
    ensures
        state.step(event) == (Step { next: state, action: TickAction::Stop }),
{
}

/// An I/O error that answers a poll or a read ends the loop at once and is
/// handed on as it came.
pub proof fn lemma_io_error_ends_loop(state: SchedulerModel, err: IoError)
    ensures
        state.stage == Stage::Polling || state.stage == Stage::Draining ==> state.step(
            TickEvent::Polled(Err(err)),
        ) == (Step {
            next: state.at(Stage::Terminated),
            action: TickAction::Fail(Error::PollFailed(err)),
        }),
        state.stage == Stage::Reading ==> state.step(TickEvent::Read(Err(err))) == (Step {
            next: state.at(Stage::Terminated),
            action: TickAction::Fail(Error::PollFailed(err)),
        }),
{
}

/// Every failure ends the loop, and the two kinds of failure are told
/// apart: only an I/O error that came with the event is reported as a failed
/// poll, and only an update without an exit queue as a missing queue.
pub proof fn lemma_failures_are_fatal(state: SchedulerModel, event: TickEvent)
    ensures
        state.step(event).action is Fail ==> state.step(event).next.phase()
            == Phase::Terminated,
        state.step(event).action matches TickAction::Fail(Error::PollFailed(err)) ==> (event
            == TickEvent::Polled(Err(err)) || event == TickEvent::Read(Err(err))),
        state.step(event).action == TickAction::Fail(Error::MissingExitEventQueue) ==> event
            == TickEvent::Updated(None),
{
}

/// A tick holds exactly one update: the scheduler leaves its wait for an
/// update only when an update is reported, and it polls for the next tick
/// only from there, after an update that posted no exit value.
pub proof fn lemma_one_update_per_tick(state: SchedulerModel, event: TickEvent)
    ensures
        state.stage == Stage::Updating && state.step(event).next.stage != Stage::Updating
            ==> event is Updated,
        state.stage != Stage::Polling && state.step(event).next.stage == Stage::Polling ==> {
            &&& state.stage == Stage::Updating
            &&& event matches TickEvent::Updated(Some(exits)) && exits@.len() == 0
        },
        state.step(event).action is Update ==> state.step(event).next.stage == Stage::Updating,
{
}

} // verus!
