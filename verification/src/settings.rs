//! Settings for a runner that updates the application at a fixed pace, and
//! the decisions that such a runner makes.

use crate::terminal::TerminalEvent;
use crate::terminal::TerminalKeyCode;
use std::time::Duration;
use vstd::prelude::*;

verus! {

/// How the application's schedule is run.
#[derive(Copy, Clone, Debug)]
pub enum RunMode {
    /// The schedule runs once.
    Once,
    /// The schedule runs again and again, one run every `wait`. The time
    /// that a run takes comes off the time waited after it.
    Loop {
        /// The longest time from the start of one run to the start of the
        /// next.
        wait: Duration,
    },
}

/// The settings of the runner.
#[derive(Copy, Clone, Debug)]
pub struct TuiScheduleRunnerSettings {
    /// How the schedule is run.
    pub run_mode: RunMode,
}

impl TuiScheduleRunnerSettings {
    /// Settings for a schedule that runs every `wait`. See [`RunMode::Loop`].
    #[must_use]
    pub fn run_loop(wait: Duration) -> (settings: Self)
        ensures
            settings.run_mode == (RunMode::Loop { wait }),
    {
        Self { run_mode: RunMode::Loop { wait } }
    }

    /// Settings for a schedule that runs once. See [`RunMode::Once`].
    #[must_use]
    pub fn run_once() -> (settings: Self)
        ensures
            settings.run_mode == RunMode::Once,
    {
        Self { run_mode: RunMode::Once }
    }
}

/// The exit code with which the process leaves when escape is pressed.
pub const ESCAPE_EXIT_CODE: i32 = 23;

/// What a terminal event asks the runner to do.
#[derive(Debug, Clone, Copy, PartialEq, Eq, Hash, Structural)]
pub enum RunnerCommand {
    /// Post an exit event to the application.
    RequestExit,
    /// Restore the terminal and leave the process with this exit code.
    LeaveProcess(i32),
    /// Nothing: the event is bound to no command.
    Unbound,
}

/// The command that a terminal event is bound to: `q` asks the application
/// to exit, escape leaves the process, and nothing else is bound.
pub open spec fn command_of(event: TerminalEvent) -> RunnerCommand {
    match event {
        TerminalEvent::Key(key) => match key.code {
            TerminalKeyCode::Char('q') => RunnerCommand::RequestExit,
            TerminalKeyCode::Esc => RunnerCommand::LeaveProcess(ESCAPE_EXIT_CODE),
            _ => RunnerCommand::Unbound,
        },
        _ => RunnerCommand::Unbound,
    }
}

/// Finds the command that a terminal event is bound to.
pub fn process_event(event: &TerminalEvent) -> (command: RunnerCommand)
    ensures
        command == command_of(*event),
{
    match event {
        TerminalEvent::Key(key) => match key.code {
            TerminalKeyCode::Char('q') => RunnerCommand::RequestExit,
            TerminalKeyCode::Esc => RunnerCommand::LeaveProcess(ESCAPE_EXIT_CODE),
            _ => RunnerCommand::Unbound,
        },
        _ => RunnerCommand::Unbound,
    }
}

/// Computes how long the runner sleeps after a run that took `elapsed`, when
/// runs are `wait` apart: what is left of `wait`, or `None` if nothing is.
/// Both times are in nanoseconds.
pub fn remaining_delay(wait: u128, elapsed: u128) -> (delay: Option<u128>)
    ensures
        elapsed < wait ==> delay == Some((wait - elapsed) as u128),
        elapsed >= wait ==> delay is None,
{
    if elapsed < wait {
        Some(wait - elapsed)
    } else {
        None
    }
}

} // verus!
