//! The hardware text cursor.
//!
//! The video controller keeps the cursor as a sixteen-bit offset into the
//! grid, `row * BUFFER_WIDTH + column`, in two registers of eight bits. A
//! register is chosen by writing its number to the index port and is then
//! read or written through the data port.

use vstd::prelude::*;
use crate::port::PortOp;
use crate::vga_buffer::BUFFER_WIDTH;

verus! {

/// The port that chooses a register of the video controller.
pub const CRTC_INDEX_PORT: u16 = 0x3D4;

/// The port through which the chosen register is read and written.
pub const CRTC_DATA_PORT: u16 = 0x3D5;

/// The register that holds the high byte of the cursor offset.
pub const CURSOR_HIGH_REGISTER: u8 = 0x0E;

/// The register that holds the low byte of the cursor offset.
pub const CURSOR_LOW_REGISTER: u8 = 0x0F;

/// The offset of column `x` of row `y`.
pub open spec fn cursor_offset(x: int, y: int) -> int {
    y * BUFFER_WIDTH + x
}

/// The column and the row of the cell at `offset`.
pub open spec fn cursor_position(offset: int) -> (int, int) {
    (offset % (BUFFER_WIDTH as int), offset / (BUFFER_WIDTH as int))
}

/// The offset that the two cursor registers hold together.
pub open spec fn register_offset(low: u8, high: u8) -> int {
    high * 256 + low
}

/// The port writes that move the cursor to column `x` of row `y`: the high
/// byte of the offset first, then the low byte.
pub open spec fn cursor_script(x: int, y: int) -> Seq<PortOp> {
    let offset = cursor_offset(x, y);
    seq![
        PortOp::Write { port: CRTC_INDEX_PORT, value: CURSOR_HIGH_REGISTER },
        PortOp::Write { port: CRTC_DATA_PORT, value: (offset / 256) as u8 },
        PortOp::Write { port: CRTC_INDEX_PORT, value: CURSOR_LOW_REGISTER },
        PortOp::Write { port: CRTC_DATA_PORT, value: (offset % 256) as u8 },
    ]
}

/// The port accesses that fetch the cursor: the low register is chosen and
/// read, then the high register.
pub open spec fn cursor_query() -> Seq<PortOp> {
    seq![
        PortOp::Write { port: CRTC_INDEX_PORT, value: CURSOR_LOW_REGISTER },
        PortOp::Read { port: CRTC_DATA_PORT },
        PortOp::Write { port: CRTC_INDEX_PORT, value: CURSOR_HIGH_REGISTER },
        PortOp::Read { port: CRTC_DATA_PORT },
    ]
}

/// Says which port writes move the hardware cursor to column `x` of row `y`.
/// The offset has to fit the sixteen bits of the cursor registers.
pub fn set_cursor_position(x: usize, y: usize) -> (script: [PortOp; 4])
    requires
        cursor_offset(x as int, y as int) <= u16::MAX,
    ensures
        script@ == cursor_script(x as int, y as int),
{
    let pos: u16 = (y * BUFFER_WIDTH + x) as u16;
    let high: u8 = (pos >> 8) as u8;
    let low: u8 = (pos & 0xFF) as u8;
    assert(high == pos / 256 && low == pos % 256) by (bit_vector)
        requires
            high == (pos >> 8) as u8,
            low == (pos & 0xFF) as u8,
    ;
    let script = [
        PortOp::Write { port: CRTC_INDEX_PORT, value: CURSOR_HIGH_REGISTER },
        PortOp::Write { port: CRTC_DATA_PORT, value: high },
        PortOp::Write { port: CRTC_INDEX_PORT, value: CURSOR_LOW_REGISTER },
        PortOp::Write { port: CRTC_DATA_PORT, value: low },
    ];
    assert(script@ =~= cursor_script(x as int, y as int));
    script
}

/// Says which port accesses fetch the two cursor registers. The first byte
/// read is the low register, the second the high one.
pub fn cursor_position_query() -> (script: [PortOp; 4])
    ensures
        script@ == cursor_query(),
{
    let script = [
        PortOp::Write { port: CRTC_INDEX_PORT, value: CURSOR_LOW_REGISTER },
        PortOp::Read { port: CRTC_DATA_PORT },
        PortOp::Write { port: CRTC_INDEX_PORT, value: CURSOR_HIGH_REGISTER },
        PortOp::Read { port: CRTC_DATA_PORT },
    ];
    assert(script@ =~= cursor_query());
    script
}

/// Decodes the cursor registers into the column and the row of the cursor.
pub fn get_cursor_position(low: u8, high: u8) -> (position: (usize, usize))
    ensures
        (position.0 as int, position.1 as int) == cursor_position(register_offset(low, high)),
        position.0 < BUFFER_WIDTH,
{
    let pos: u16 = ((high as u16) << 8) | (low as u16);
    assert(pos == high * 256 + low) by (bit_vector)
        requires
            pos == ((high as u16) << 8) | (low as u16),
    ;
    (pos as usize % BUFFER_WIDTH, pos as usize / BUFFER_WIDTH)
}

/// The cursor registers of the video controller, and the register that the
/// index port has chosen.
pub struct Crtc {
    pub index: u8,
    pub cursor_high: u8,
    pub cursor_low: u8,
}

impl Crtc {
    /// The controller after one port access.
    pub open spec fn after(self, op: PortOp) -> Crtc {
        match op {
            PortOp::Read { port } => self,
            PortOp::Write { port, value } => if port == CRTC_INDEX_PORT {
                Crtc { index: value, ..self }
            } else if port == CRTC_DATA_PORT && self.index == CURSOR_HIGH_REGISTER {
                Crtc { cursor_high: value, ..self }
            } else if port == CRTC_DATA_PORT && self.index == CURSOR_LOW_REGISTER {
                Crtc { cursor_low: value, ..self }
            } else {
                self
            },
        }
    }

    /// The controller after the port accesses `ops`, made in order.
    pub open spec fn after_all(self, ops: Seq<PortOp>) -> Crtc
        decreases ops.len(),
    {
        if ops.len() == 0 {
            self
        } else {
            self.after_all(ops.drop_last()).after(ops.last())
        }
    }

    /// The byte that a read of the data port returns while a cursor register
    /// is chosen.
    pub open spec fn data(self) -> u8
        recommends
            self.index == CURSOR_HIGH_REGISTER || self.index == CURSOR_LOW_REGISTER,
    {
        if self.index == CURSOR_HIGH_REGISTER {
            self.cursor_high
        } else {
            self.cursor_low
        }
    }

    /// The offset that the cursor registers hold.
    pub open spec fn offset(self) -> int {
        register_offset(self.cursor_low, self.cursor_high)
    }

    /// The controller after the four accesses `a`, `b`, `c`, `d`.
    pub proof fn lemma_after_four(self, a: PortOp, b: PortOp, c: PortOp, d: PortOp)
        ensures
            self.after_all(seq![a, b, c, d]) == self.after(a).after(b).after(c).after(d),
    {
        let s4 = seq![a, b, c, d];
        let s3 = seq![a, b, c];
        let s2 = seq![a, b];
        let s1 = seq![a];
        assert(s4.drop_last() =~= s3);
        assert(s3.drop_last() =~= s2);
        assert(s2.drop_last() =~= s1);
        assert(s1.drop_last() =~= Seq::<PortOp>::empty());
        assert(self.after_all(Seq::<PortOp>::empty()) == self);
        assert(self.after_all(s1) == self.after(a));
        assert(self.after_all(s2) == self.after(a).after(b));
        assert(self.after_all(s3) == self.after(a).after(b).after(c));
    }

    /// Setting the cursor leaves its offset in the cursor registers,
    /// whatever they held before.
    pub proof fn lemma_set_cursor(self, x: int, y: int)
        requires
            0 <= x,
            0 <= y,
            cursor_offset(x, y) <= u16::MAX,
        ensures
            self.after_all(cursor_script(x, y)).offset() == cursor_offset(x, y),
    {
        let s = cursor_script(x, y);
        self.lemma_after_four(s[0], s[1], s[2], s[3]);
        assert(s =~= seq![s[0], s[1], s[2], s[3]]);
    }

    /// A cursor that was set to a column of the grid is fetched again as the
    /// same column and row.
    pub proof fn lemma_set_then_get(self, x: int, y: int)
        requires
            0 <= x < BUFFER_WIDTH,
            0 <= y,
            cursor_offset(x, y) <= u16::MAX,
        ensures
            cursor_position(self.after_all(cursor_script(x, y)).offset()) == (x, y),
    {
        self.lemma_set_cursor(x, y);
    }

    /// The query leaves the cursor registers alone, and its two reads return
    /// the low register and then the high one.
    pub proof fn lemma_query(self)
        ensures
            self.after(cursor_query()[0]).data() == self.cursor_low,
            self.after(cursor_query()[0]).after(cursor_query()[1]).after(cursor_query()[2]).data()
                == self.cursor_high,
            self.after_all(cursor_query()).offset() == self.offset(),
    {
        let s = cursor_query();
        self.lemma_after_four(s[0], s[1], s[2], s[3]);
        assert(s =~= seq![s[0], s[1], s[2], s[3]]);
    }
}

} // verus!
