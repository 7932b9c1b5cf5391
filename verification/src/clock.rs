//! The clock widget's reaction to each rendering of its format: what it shows and whether
//! its half-second timer runs.
use vstd::prelude::*;

verus! {

/// What happens to the clock's timer after a rendering.
#[derive(Debug, Clone, Copy, PartialEq, Eq, Structural)]
pub enum TimerAction {
    /// Start the timer that asks for the next rendering.
    Start,
    /// Remove the running timer.
    Stop,
    /// Leave the timer as it is.
    Keep,
}

/// The outcome of one rendering: the text to show, where it changes, and the timer action.
#[derive(Debug)]
pub struct ClockStep {
    pub current_time: Option<String>,
    pub action: TimerAction,
}

/// The timer action after a rendering that succeeded or failed, for a timer that runs or not.
pub open spec fn timer_action(ticking: bool, rendered: bool) -> TimerAction {
    if rendered {
        if ticking {
            TimerAction::Keep
        } else {
            TimerAction::Start
        }
    } else {
        if ticking {
            TimerAction::Stop
        } else {
            TimerAction::Keep
        }
    }
}

/// Whether the timer runs after `action`, given whether it ran before.
pub open spec fn ticking_after(ticking: bool, action: TimerAction) -> bool {
    match action {
        TimerAction::Start => true,
        TimerAction::Stop => false,
        TimerAction::Keep => ticking,
    }
}

/// What the clock does with a rendering of its format: a rendered text replaces the shown
/// time and makes sure the timer runs; a failed rendering keeps the shown time and stops
/// the timer.
pub fn clock_step(ticking: bool, rendered: Option<String>) -> (step: ClockStep)
    ensures
        step.action == timer_action(ticking, rendered is Some),
        match rendered {
            Some(t) => step.current_time == Some(t),
            None => step.current_time is None,
        },
{
    match rendered {
        Some(text) => {
            let action = if ticking {
                TimerAction::Keep
            } else {
                TimerAction::Start
            };
            ClockStep { current_time: Some(text), action }
        },
        None => {
            let action = if ticking {
                TimerAction::Stop
            } else {
                TimerAction::Keep
            };
            ClockStep { current_time: None, action }
        },
    }
}

/// The action when the clock is shut down.
pub open spec fn shutdown_action_of(ticking: bool) -> TimerAction {
    if ticking {
        TimerAction::Stop
    } else {
        TimerAction::Keep
    }
}

/// The action when the clock is shut down: its timer, if any, is removed.
pub fn shutdown_action(ticking: bool) -> (action: TimerAction)
    ensures
        action == shutdown_action_of(ticking),
        !ticking_after(ticking, action),
{
    if ticking {
        TimerAction::Stop
    } else {
        TimerAction::Keep
    }
}

/// After any rendering, the timer runs exactly when the rendering succeeded, whatever it
/// did before.
pub proof fn law_timer_runs_iff_rendered(ticking: bool, rendered: bool)
    ensures
        ticking_after(ticking, timer_action(ticking, rendered)) == rendered,
{
}

/// A running timer is never started a second time.
pub proof fn law_timer_started_once(rendered: bool)
    ensures
        timer_action(true, rendered) != TimerAction::Start,
{
}

/// The clock never holds two timers and never removes one it does not hold: a timer is
/// started only when none runs, and removed only when one runs.
pub proof fn law_at_most_one_timer(ticking: bool, rendered: bool)
    ensures
        timer_action(ticking, rendered) == TimerAction::Start ==> !ticking,
        timer_action(ticking, rendered) == TimerAction::Stop ==> ticking,
        shutdown_action_of(ticking) == TimerAction::Stop ==> ticking,
{
}

} // verus!

