//! A text-mode console driver: an 80 x 25 grid of character cells, a
//! hardware cursor that follows the text, and a pointer overlay driven by a
//! PS/2 mouse.

use vstd::prelude::*;

pub mod port;
pub mod vga_buffer;
pub mod cursor;
pub mod mouse;

use crate::mouse::{MouseState, Position, MOUSE_START_X, MOUSE_START_Y};

verus! {

/// Sets the driver up: the pointer starts near the middle of the screen.
/// Interrupt handling is the platform's to set up, before any port is
/// accessed.
pub fn init() -> (mouse: MouseState)
    ensures
        mouse@ == (Position { x: MOUSE_START_X as int, y: MOUSE_START_Y as int }),
        mouse@.on_grid(),
{
    MouseState::at(MOUSE_START_X, MOUSE_START_Y)
}

} // verus!
