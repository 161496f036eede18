//! The Wayland backend.

use vstd::prelude::*;

pub mod globals;
pub mod key_repeat;
pub mod keyboard;
pub mod outputs;
pub mod scale;
pub mod seat;
pub mod surface;
pub mod text_input;
pub mod window;

verus! {

/// Names a surface, and with it the window that it belongs to.
#[derive(Clone, Copy, Debug, PartialEq, Eq, Structural, Hash)]
pub struct SurfaceId(pub u64);

/// Identifier for a seat
#[derive(Clone, Copy, Debug, PartialEq, Eq, Structural, Hash)]
pub struct SeatName(pub u64);

} // verus!
