//! The PS/2 mouse and the pointer that it moves over the grid.
//!
//! The pointer is an overlay: it is drawn into the grid directly and takes
//! no part in the scrolling text.

use vstd::prelude::*;
use crate::port::PortOp;
use crate::vga_buffer::{
    is_grid, put_cell, Buffer, Color, ColorCode, Grid, ScreenChar, BUFFER_HEIGHT, BUFFER_WIDTH,
};

verus! {

/// The port that takes commands for the PS/2 controller.
pub const PS2_COMMAND_PORT: u16 = 0x64;

/// The port through which the PS/2 controller exchanges data.
pub const PS2_DATA_PORT: u16 = 0x60;

/// The glyph that shows the pointer: a full block.
pub const MOUSE_CHAR: u8 = 0xDB;

/// The column at which the pointer starts.
pub const MOUSE_START_X: usize = 40;

/// The row at which the pointer starts.
pub const MOUSE_START_Y: usize = 12;

/// The port accesses that switch the mouse on, where `config` is the byte
/// that the one read among them returns: the auxiliary port is enabled, the
/// controller's configuration byte is fetched and stored again with the
/// interrupt line of the auxiliary port set, and the mouse is told to report
/// its motion.
pub open spec fn enable_sequence(config: u8) -> Seq<PortOp> {
    seq![
        PortOp::Write { port: PS2_COMMAND_PORT, value: 0xA8 },
        PortOp::Write { port: PS2_COMMAND_PORT, value: 0x20 },
        PortOp::Read { port: PS2_DATA_PORT },
        PortOp::Write { port: PS2_COMMAND_PORT, value: 0x60 },
        PortOp::Write { port: PS2_DATA_PORT, value: config | 2 },
        PortOp::Write { port: PS2_COMMAND_PORT, value: 0xD4 },
        PortOp::Write { port: PS2_DATA_PORT, value: 0xF4 },
    ]
}

/// Says which port access is number `step` of those that switch the mouse
/// on, counted from zero, or that there is none left. `config` is the byte
/// most recently read on the way; before the read it is of no account.
pub fn enable_mouse(step: usize, config: u8) -> (op: Option<PortOp>)
    ensures
        op == if step < enable_sequence(config).len() {
            Some(enable_sequence(config)[step as int])
        } else {
            None
        },
{
    if step == 0 {
        Some(PortOp::Write { port: PS2_COMMAND_PORT, value: 0xA8 })
    } else if step == 1 {
        Some(PortOp::Write { port: PS2_COMMAND_PORT, value: 0x20 })
    } else if step == 2 {
        Some(PortOp::Read { port: PS2_DATA_PORT })
    } else if step == 3 {
        Some(PortOp::Write { port: PS2_COMMAND_PORT, value: 0x60 })
    } else if step == 4 {
        Some(PortOp::Write { port: PS2_DATA_PORT, value: config | 2 })
    } else if step == 5 {
        Some(PortOp::Write { port: PS2_COMMAND_PORT, value: 0xD4 })
    } else if step == 6 {
        Some(PortOp::Write { port: PS2_DATA_PORT, value: 0xF4 })
    } else {
        None
    }
}

/// The accesses up to and including the read are the same whatever byte is
/// passed for the configuration, and the byte stored afterwards is the one
/// read with bit 1 set and every other bit as it was.
pub proof fn lemma_enable_sequence(config: u8, other: u8)
    ensures
        enable_sequence(config).len() == 7,
        forall|step: int|
            0 <= step <= 3 ==> enable_sequence(config)[step] == enable_sequence(other)[step],
        enable_sequence(config)[2] == (PortOp::Read { port: PS2_DATA_PORT }),
        enable_sequence(config)[4] == (PortOp::Write { port: PS2_DATA_PORT, value: config | 2 }),
        (config | 2) & 2 == 2,
        (config | 2) & !2u8 == config & !2u8,
{
    assert((config | 2) & 2 == 2 && (config | 2) & !2u8 == config & !2u8) by (bit_vector);
}

/// What a poll of the mouse asks for or ends with.
#[derive(Debug, Clone, Copy, PartialEq, Eq)]
pub enum MouseRead {
    /// The access to make next; its byte is to be added to those received.
    Fetch(PortOp),
    /// The poll is over: the motion that a packet reported, or nothing
    /// where no packet began.
    Packet(Option<(i8, i8)>),
}

/// A packet begins with a byte that has bit 3 set.
pub open spec fn is_packet_start(byte: u8) -> bool {
    byte & 0x08 != 0
}

/// The byte `byte` read as a signed number in two's complement.
pub open spec fn signed(byte: u8) -> i8 {
    if byte < 128 {
        byte as i8
    } else {
        (byte - 256) as i8
    }
}

/// What a poll does once it has received the bytes `received`: it fetches a
/// first byte, ends with nothing if that byte begins no packet, and else
/// fetches two more bytes and ends with them as the motion along x and y.
pub open spec fn spec_read_mouse(received: Seq<u8>) -> MouseRead {
    if received.len() == 0 {
        MouseRead::Fetch(PortOp::Read { port: PS2_DATA_PORT })
    } else if !is_packet_start(received[0]) {
        MouseRead::Packet(None)
    } else if received.len() < 3 {
        MouseRead::Fetch(PortOp::Read { port: PS2_DATA_PORT })
    } else {
        MouseRead::Packet(Some((signed(received[1]), signed(received[2]))))
    }
}

/// Reads a byte as a signed number in two's complement.
fn to_signed(byte: u8) -> (value: i8)
    ensures
        value == signed(byte),
{
    if byte < 128 {
        byte as i8
    } else {
        (byte as i16 - 256) as i8
    }
}

/// One step of a poll of the mouse: given the bytes received from the data
/// port since the poll began, says whether another byte is to be fetched or
/// how the poll ends.
pub fn read_mouse(received: &[u8]) -> (next: MouseRead)
    ensures
        next == spec_read_mouse(received@),
{
    if received.len() == 0 {
        MouseRead::Fetch(PortOp::Read { port: PS2_DATA_PORT })
    } else if received[0] & 0x08 == 0 {
        MouseRead::Packet(None)
    } else if received.len() < 3 {
        MouseRead::Fetch(PortOp::Read { port: PS2_DATA_PORT })
    } else {
        MouseRead::Packet(Some((to_signed(received[1]), to_signed(received[2]))))
    }
}

/// The cell that the pointer leaves behind: a space, black on black.
pub open spec fn erased_cell() -> ScreenChar {
    ScreenChar {
        ascii_character: 0x20,
        color_code: ColorCode::spec_new(Color::Black, Color::Black),
    }
}

/// The cell that shows the pointer: a full block, white on black.
pub open spec fn pointer_cell() -> ScreenChar {
    ScreenChar {
        ascii_character: MOUSE_CHAR,
        color_code: ColorCode::spec_new(Color::White, Color::Black),
    }
}

/// Erases the pointer at column `x` of row `y`.
pub fn clear_mouse(buffer: &mut Buffer, x: usize, y: usize)
    requires
        x < BUFFER_WIDTH,
        y < BUFFER_HEIGHT,
    ensures
        final(buffer)@ == put_cell(old(buffer)@, y as int, x as int, erased_cell()),
{
    let blank = ScreenChar {
        ascii_character: 0x20,
        color_code: ColorCode::new(Color::Black, Color::Black),
    };
    buffer.write(y, x, blank);
}

/// Draws the pointer at column `x` of row `y`.
pub fn draw_mouse(buffer: &mut Buffer, x: usize, y: usize)
    requires
        x < BUFFER_WIDTH,
        y < BUFFER_HEIGHT,
    ensures
        final(buffer)@ == put_cell(old(buffer)@, y as int, x as int, pointer_cell()),
{
    let color = ColorCode::new(Color::White, Color::Black);
    let mouse_char = ScreenChar { ascii_character: MOUSE_CHAR, color_code: color };
    buffer.write(y, x, mouse_char);
}

/// A place on the grid: a column and a row.
pub struct Position {
    pub x: int,
    pub y: int,
}

/// `value`, or the nearer of `low` and `high` where it lies outside them.
pub open spec fn clamped(value: int, low: int, high: int) -> int {
    if value < low {
        low
    } else if value > high {
        high
    } else {
        value
    }
}

impl Position {
    /// The place lies on the grid.
    pub open spec fn on_grid(self) -> bool {
        0 <= self.x < BUFFER_WIDTH && 0 <= self.y < BUFFER_HEIGHT
    }

    /// The place that a motion of `dx` to the right and `dy` upward leads
    /// to. Rows count downward, so `dy` is taken off the row. The pointer
    /// stops at the edges of the grid.
    pub open spec fn moved(self, dx: i8, dy: i8) -> Position {
        Position {
            x: clamped(self.x + dx, 0, BUFFER_WIDTH - 1),
            y: clamped(self.y - dy, 0, BUFFER_HEIGHT - 1),
        }
    }

    /// The place of the pointer after an update with `packet`.
    pub open spec fn updated(self, packet: Option<(i8, i8)>) -> Position {
        match packet {
            Some((dx, dy)) => self.moved(dx, dy),
            None => self,
        }
    }
}

/// The grid after an update with `packet` of a pointer that stood at `from`:
/// the pointer is erased there and drawn where it has moved to.
pub open spec fn redrawn(grid: Grid, from: Position, packet: Option<(i8, i8)>) -> Grid {
    match packet {
        Some((dx, dy)) => {
            let to = from.moved(dx, dy);
            put_cell(put_cell(grid, from.y, from.x, erased_cell()), to.y, to.x, pointer_cell())
        },
        None => grid,
    }
}

/// Where the pointer stands. It never leaves the grid.
pub struct MouseState {
    x: usize,
    y: usize,
}

impl View for MouseState {
    type V = Position;

    closed spec fn view(&self) -> Position {
        Position { x: self.x as int, y: self.y as int }
    }
}

impl MouseState {
    #[verifier::type_invariant]
    spec fn within_grid(self) -> bool {
        self.x < BUFFER_WIDTH && self.y < BUFFER_HEIGHT
    }

    /// A pointer at column `x` of row `y`.
    pub fn at(x: usize, y: usize) -> (state: MouseState)
        requires
            x < BUFFER_WIDTH,
            y < BUFFER_HEIGHT,
        ensures
            state@ == (Position { x: x as int, y: y as int }),
    {
        MouseState { x, y }
    }

    /// The column of the pointer.
    pub fn x(&self) -> (x: usize)
        ensures
            x == self@.x,
            x < BUFFER_WIDTH,
    {
        proof {
            use_type_invariant(self);
        }
        self.x
    }

    /// The row of the pointer.
    pub fn y(&self) -> (y: usize)
        ensures
            y == self@.y,
            y < BUFFER_HEIGHT,
    {
        proof {
            use_type_invariant(self);
        }
        self.y
    }
}

/// Moves the pointer by what a poll of the mouse ended with. Without a
/// packet nothing changes. With one, the pointer is erased where it stood,
/// moved by the motion reported, held at the edges of the grid, and drawn
/// at its new place; a motion of zero draws it again where it stood.
pub fn update_mouse(state: &mut MouseState, buffer: &mut Buffer, packet: Option<(i8, i8)>)
    ensures
        final(state)@ == old(state)@.updated(packet),
        final(state)@.on_grid(),
        final(buffer)@ == redrawn(old(buffer)@, old(state)@, packet),
{
    proof {
        use_type_invariant(&*state);
    }
    if let Some((x_offset, y_offset)) = packet {
        clear_mouse(buffer, state.x, state.y);
        let raw_x: isize = state.x as isize + x_offset as isize;
        let raw_y: isize = state.y as isize - y_offset as isize;
        let new_x: usize = if raw_x < 0 {
            0
        } else if raw_x > (BUFFER_WIDTH - 1) as isize {
            BUFFER_WIDTH - 1
        } else {
            raw_x as usize
        };
        let new_y: usize = if raw_y < 0 {
            0
        } else if raw_y > (BUFFER_HEIGHT - 1) as isize {
            BUFFER_HEIGHT - 1
        } else {
            raw_y as usize
        };
        state.x = new_x;
        state.y = new_y;
        draw_mouse(buffer, state.x, state.y);
    }
}

impl Position {
    /// Wherever the pointer stood and whatever motion is reported, it ends
    /// on the grid: on the edge that the motion would have crossed, and
    /// else where the motion leads.
    pub proof fn lemma_moved_stays_on_grid(self, dx: i8, dy: i8)
        ensures
            self.moved(dx, dy).on_grid(),
            0 <= self.moved(dx, dy).x <= BUFFER_WIDTH - 1,
            0 <= self.moved(dx, dy).y <= BUFFER_HEIGHT - 1,
            self.x + dx < 0 ==> self.moved(dx, dy).x == 0,
            self.x + dx > BUFFER_WIDTH - 1 ==> self.moved(dx, dy).x == BUFFER_WIDTH - 1,
            0 <= self.x + dx <= BUFFER_WIDTH - 1 ==> self.moved(dx, dy).x == self.x + dx,
            self.y - dy < 0 ==> self.moved(dx, dy).y == 0,
            self.y - dy > BUFFER_HEIGHT - 1 ==> self.moved(dx, dy).y == BUFFER_HEIGHT - 1,
            0 <= self.y - dy <= BUFFER_HEIGHT - 1 ==> self.moved(dx, dy).y == self.y - dy,
    {
    }

    /// Updates without a packet, one or two in a row, leave the pointer
    /// where it stood and the grid as it was.
    pub proof fn lemma_update_without_packet(self, grid: Grid)
        ensures
            self.updated(None) == self,
            redrawn(grid, self, None) == grid,
            self.updated(None).updated(None) == self,
            redrawn(redrawn(grid, self, None), self.updated(None), None) == grid,
    {
    }

    /// A packet that reports no motion leaves the pointer where it stood and
    /// draws it there again; a second such packet changes nothing more.
    pub proof fn lemma_update_without_motion(self, grid: Grid)
        requires
            self.on_grid(),
            is_grid(grid),
        ensures
            self.updated(Some((0i8, 0i8))) == self,
            redrawn(grid, self, Some((0i8, 0i8))) == put_cell(
                grid,
                self.y,
                self.x,
                pointer_cell(),
            ),
            redrawn(redrawn(grid, self, Some((0i8, 0i8))), self, Some((0i8, 0i8))) == redrawn(
                grid,
                self,
                Some((0i8, 0i8)),
            ),
    {
        let once = redrawn(grid, self, Some((0i8, 0i8)));
        assert(self.moved(0i8, 0i8) == self);
        assert(once =~~= put_cell(grid, self.y, self.x, pointer_cell()));
        assert(redrawn(once, self, Some((0i8, 0i8))) =~~= once);
    }
}

} // verus!
