//! Game logic of a small handheld console: a paddle-and-ball game, a snake
//! game, the selection menu, the joystick multiplexer decoding and the
//! incremental redraw plans, with their contracts.
use vstd::prelude::*;

pub mod cells;
pub mod console;
pub mod input;
pub mod pong;
pub mod render;
pub mod rng;
pub mod snake;

verus! {

/// Half of `v`, rounded towards zero as Rust's integer division does.
pub open spec fn half(v: i16) -> i16 {
    if v >= 0 {
        (v / 2) as i16
    } else {
        -((-v) / 2) as i16
    }
}

} // verus!
