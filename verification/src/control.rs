//! The decisions of the control loop. Each round the caller paints the
//! screen, waits for input no longer than `poll_timeout` allows, and hands
//! what arrived to `step`, which says whether a tick is due and whether the
//! loop goes on.
//!
//! Time spans are unsigned counts of one unit of the caller's choosing, the
//! same for the tick rate and for the time elapsed.

use crate::app::{App, AppView};
use crossterm::event::KeyCode;
use vstd::prelude::*;

verus! {

/// Where the loop stands. `Stopped` is final.
#[derive(Debug, Clone, Copy, PartialEq, Eq, Structural)]
pub enum LoopState {
    Running,
    Stopped,
}

/// What the input source delivered: a key, or something the dashboard has
/// no use for.
#[derive(Debug, Clone, Copy)]
pub enum Event {
    Key(KeyCode),
    Other,
}

/// What one round of the loop decided.
#[derive(Debug, Clone, Copy, PartialEq, Eq, Structural)]
pub struct Step {
    /// The tick interval has run out: the maintenance hook has run, and the
    /// caller starts the interval anew.
    pub tick: bool,
    /// Whether the loop goes on.
    pub state: LoopState,
}

/// How long a round may wait for input: what is left of the tick interval,
/// and nothing once the interval has run out.
pub open spec fn remaining(tick_rate: u64, elapsed: u64) -> u64 {
    if elapsed >= tick_rate {
        0
    } else {
        (tick_rate - elapsed) as u64
    }
}

/// The session after the input of one round: a key is dispatched, anything
/// else and no input at all change nothing.
pub open spec fn after_input(app: AppView, input: Option<Event>) -> AppView {
    match input {
        Some(Event::Key(code)) => app.dispatch(code),
        _ => app,
    }
}

/// The loop runs until the session asks to quit.
pub open spec fn state_of(app: AppView) -> LoopState {
    if app.should_quit {
        LoopState::Stopped
    } else {
        LoopState::Running
    }
}

/// The longest wait for input in a round that starts `elapsed` after the
/// last tick.
pub fn poll_timeout(tick_rate: u64, elapsed: u64) -> (timeout: u64)
    ensures
        timeout == remaining(tick_rate, elapsed),
        timeout <= tick_rate,
{
    if elapsed >= tick_rate {
        0
    } else {
        tick_rate - elapsed
    }
}

/// Whether a tick is due `elapsed` after the last one.
pub fn tick_due(tick_rate: u64, elapsed: u64) -> (due: bool)
    ensures
        due == (elapsed >= tick_rate),
{
    elapsed >= tick_rate
}

/// Finishes one round: dispatches the input if it is a key, runs the
/// maintenance hook if the tick is due `elapsed` after the last one, and
/// stops the loop once the session asks to quit.
pub fn step(app: &mut App, input: Option<Event>, tick_rate: u64, elapsed: u64) -> (done: Step)
    ensures
        final(app)@ == after_input(old(app)@, input),
        done.tick == (elapsed >= tick_rate),
        done.state == state_of(final(app)@),
        old(app)@.available_files.wf() ==> final(app)@.available_files.wf(),
{
    match input {
        Some(Event::Key(code)) => app.match_keycode(code),
        _ => {},
    }
    let tick = tick_due(tick_rate, elapsed);
    if tick {
        app.on_tick();
    }
    let state = if app.should_quit {
        LoopState::Stopped
    } else {
        LoopState::Running
    };
    Step { tick, state }
}

/// The result of a whole run, from how the loop ended and how giving the
/// terminal back went: a failure of the loop comes first, then one of the
/// tear-down. The tear-down has taken place either way.
pub fn run_result<E>(looped: Result<(), E>, restored: Result<(), E>) -> (result: Result<(), E>)
    ensures
        result == match looped {
            Err(failure) => Err(failure),
            Ok(_) => restored,
        },
{
    match looped {
        Err(failure) => Err(failure),
        Ok(_) => restored,
    }
}

/// A round in which `q` is pressed ends the loop, and so does every round
/// of a session that has asked to quit before, whatever its input.
pub proof fn lemma_quit_stops_loop(app: AppView, input: Option<Event>)
    ensures
        state_of(after_input(app, Some(Event::Key(KeyCode::Char('q'))))) == LoopState::Stopped,
        app.should_quit ==> state_of(after_input(app, input)) == LoopState::Stopped,
{
}

} // verus!
