//! The input router and the render loop's control state. The shell reduces
//! each raw terminal event to an [`InputEvent`]; routing one event applies
//! exactly one model mutation, or stops the loop on the quit key.

use vstd::prelude::*;
use crate::model::{advanced_sel, retreated_sel, App};

verus! {

/// A terminal input event, reduced to the cases the dashboard distinguishes.
#[derive(Clone, Copy, Debug, PartialEq, Eq, Structural)]
pub enum InputEvent {
    /// The quit key.
    Quit,
    /// The cursor-down key.
    Down,
    /// The cursor-up key.
    Up,
    /// Any other key, or a non-key event.
    Other,
}

/// The render loop's control state.
#[derive(Clone, Copy, Debug, PartialEq, Eq, Structural)]
pub enum LoopState {
    /// Keep drawing frames and reading events.
    Running,
    /// The loop is over; the shell must now restore the terminal.
    Stopped,
}

/// Routes one input event into the model and says whether the loop goes on.
/// The quit key stops the loop, and only the quit key does; the down and up
/// keys move the cursor one row with wraparound; every other event leaves
/// the model untouched. The rows themselves never change here.
pub fn route_event(app: &mut App, ev: InputEvent) -> (s: LoopState)
    requires
        old(app).wf(),
    ensures
        final(app).wf(),
        final(app).rows() == old(app).rows(),
        (s is Stopped) <==> (ev is Quit),
        match ev {
            InputEvent::Quit => final(app).sel() == old(app).sel(),
            InputEvent::Down => final(app).sel() == advanced_sel(
                old(app).sel(),
                old(app).rows().len() as int,
            ),
            InputEvent::Up => final(app).sel() == retreated_sel(
                old(app).sel(),
                old(app).rows().len() as int,
            ),
            InputEvent::Other => final(app).sel() == old(app).sel(),
        },
{
    match ev {
        InputEvent::Quit => LoopState::Stopped,
        InputEvent::Down => {
            app.next();
            LoopState::Running
        },
        InputEvent::Up => {
            app.previous();
            LoopState::Running
        },
        InputEvent::Other => LoopState::Running,
    }
}

} // verus!
