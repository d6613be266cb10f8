//! Decision logic of the interactive render loop and of the packet loop.
//!
//! The loops themselves poll a terminal and a capture device, which the
//! library cannot do; they hand each event to the step functions here,
//! which mutate the shared state and say whether the loop goes on.

use crate::stats::AppState;
use crate::stats::records_at;
use crate::stats::resize_model;
use crate::stats::stop_model;
use vstd::prelude::*;

verus! {

/// A key press, already mapped from the terminal's key code.
#[derive(Clone, Copy, Debug, PartialEq, Eq, Structural)]
pub enum KeyInput {
    Quit,
    Widen,
    Narrow,
    Other,
}

/// What a loop does after one step.
#[derive(Clone, Copy, Debug, PartialEq, Eq, Structural)]
pub enum LoopControl {
    Continue,
    Exit,
}

/// The dashboard's key bindings: `q` quits, `+` widens the sample window,
/// `-` narrows it, and every other key does nothing.
pub fn classify_key(c: char) -> (k: KeyInput)
    ensures
        c == 'q' ==> k == KeyInput::Quit,
        c == '+' ==> k == KeyInput::Widen,
        c == '-' ==> k == KeyInput::Narrow,
        c != 'q' && c != '+' && c != '-' ==> k == KeyInput::Other,
{
    if c == 'q' {
        KeyInput::Quit
    } else if c == '+' {
        KeyInput::Widen
    } else if c == '-' {
        KeyInput::Narrow
    } else {
        KeyInput::Other
    }
}

/// One step of the render loop, after its timed poll for input: a quit key
/// stops the state and exits at once, the window keys adjust the bound,
/// anything else leaves the state alone; the step then exits exactly when
/// the liveness flag is clear.
pub fn dashboard_step(state: &mut AppState, input: Option<KeyInput>) -> (r: LoopControl)
    ensures
        r == LoopControl::Exit <==> !final(state).running,
        input == Some(KeyInput::Quit) ==> *final(state) == stop_model(*old(state)),
        input == Some(KeyInput::Widen) ==> *final(state) == resize_model(*old(state), 10),
        input == Some(KeyInput::Narrow) ==> *final(state) == resize_model(*old(state), -10),
        input == None::<KeyInput> || input == Some(KeyInput::Other) ==> *final(state) == *old(
            state,
        ),
        old(state).valid() ==> final(state).valid(),
{
    match input {
        Some(KeyInput::Quit) => {
            state.request_stop();
            return LoopControl::Exit;
        },
        Some(KeyInput::Widen) => state.adjust_window(10),
        Some(KeyInput::Narrow) => state.adjust_window(-10),
        _ => {},
    }
    if state.running {
        LoopControl::Continue
    } else {
        LoopControl::Exit
    }
}

/// One step of the packet loop: records the packet it was handed and goes
/// on exactly while the dashboard has not been stopped.
pub fn capture_step(state: &mut AppState, packet_size: usize) -> (r: LoopControl)
    requires
        old(state).valid(),
        old(state).stats.total_bytes + packet_size <= usize::MAX,
        old(state).stats.packets_captured < usize::MAX,
    ensures
        final(state).valid(),
        exists|t: u64| #[trigger] records_at(*old(state), *final(state), packet_size, t),
        final(state).running == old(state).running,
        r == LoopControl::Exit <==> !final(state).running,
{
    state.update_stats(packet_size);
    if state.running {
        LoopControl::Continue
    } else {
        LoopControl::Exit
    }
}

} // verus!
