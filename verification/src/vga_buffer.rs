//! The character-cell grid and the writer that composes text on its bottom
//! row.

use vstd::prelude::*;
use vstd::string::StringSliceAdditionalSpecFns;
use volatile::Volatile;
use crate::cursor::{
    cursor_offset, cursor_position, cursor_script, get_cursor_position, register_offset,
    set_cursor_position, Crtc,
};
use crate::port::PortOp;

verus! {

/// Number of rows of the grid.
pub const BUFFER_HEIGHT: usize = 25;

/// Number of columns of the grid.
pub const BUFFER_WIDTH: usize = 80;

/// The line feed, which ends a line of text.
pub const NEWLINE: u8 = 0x0A;

/// The glyph shown in place of a byte that has no printable form.
pub const UNPRINTABLE: u8 = 0xFE;

/// The sixteen colors of the hardware palette.
#[derive(Debug, Clone, Copy, PartialEq, Eq, Structural)]
pub enum Color {
    Black,
    Blue,
    Green,
    Cyan,
    Red,
    Magenta,
    Brown,
    LightGray,
    DarkGray,
    LightBlue,
    LightGreen,
    LightCyan,
    LightRed,
    Pink,
    Yellow,
    White,
}

impl Color {
    /// The four-bit code by which the hardware knows the color.
    pub open spec fn spec_code(self) -> u8 {
        match self {
            Color::Black => 0,
            Color::Blue => 1,
            Color::Green => 2,
            Color::Cyan => 3,
            Color::Red => 4,
            Color::Magenta => 5,
            Color::Brown => 6,
            Color::LightGray => 7,
            Color::DarkGray => 8,
            Color::LightBlue => 9,
            Color::LightGreen => 10,
            Color::LightCyan => 11,
            Color::LightRed => 12,
            Color::Pink => 13,
            Color::Yellow => 14,
            Color::White => 15,
        }
    }

    /// The four-bit code by which the hardware knows the color.
    #[verifier::when_used_as_spec(spec_code)]
    pub fn code(self) -> (code: u8)
        ensures
            code == self.spec_code(),
            code < 16,
    {
        match self {
            Color::Black => 0,
            Color::Blue => 1,
            Color::Green => 2,
            Color::Cyan => 3,
            Color::Red => 4,
            Color::Magenta => 5,
            Color::Brown => 6,
            Color::LightGray => 7,
            Color::DarkGray => 8,
            Color::LightBlue => 9,
            Color::LightGreen => 10,
            Color::LightCyan => 11,
            Color::LightRed => 12,
            Color::Pink => 13,
            Color::Yellow => 14,
            Color::White => 15,
        }
    }
}

/// The attribute byte of a cell: background in the high four bits,
/// foreground in the low four.
#[derive(Debug, Clone, Copy, PartialEq, Eq, Structural)]
pub struct ColorCode(pub u8);

impl ColorCode {
    /// The attribute byte that packs `foreground` and `background`.
    pub open spec fn spec_new(foreground: Color, background: Color) -> ColorCode {
        ColorCode((background.spec_code() << 4) | foreground.spec_code())
    }

    /// Packs a foreground and a background color into one attribute byte.
    #[verifier::when_used_as_spec(spec_new)]
    pub fn new(foreground: Color, background: Color) -> (code: ColorCode)
        ensures
            code == ColorCode::spec_new(foreground, background),
    {
        ColorCode((background.code() << 4) | foreground.code())
    }

    /// Packing loses nothing: the attribute byte is sixteen times the
    /// background code plus the foreground code, and each color is read back
    /// from its own four bits.
    pub proof fn lemma_packing(foreground: Color, background: Color)
        ensures
            ColorCode::spec_new(foreground, background).0 == 16 * background.spec_code()
                + foreground.spec_code(),
            ColorCode::spec_new(foreground, background).0 & 0x0F == foreground.spec_code(),
            ColorCode::spec_new(foreground, background).0 >> 4 == background.spec_code(),
    {
        let f = foreground.spec_code();
        let b = background.spec_code();
        assert(f < 16 && b < 16);
        assert(((b << 4) | f) == 16 * b + f && ((b << 4) | f) & 0x0F == f && ((b << 4) | f) >> 4
            == b) by (bit_vector)
            requires
                f < 16,
                b < 16,
        ;
    }
}

/// What one cell of the grid shows: a character and its colors.
#[derive(Debug, Clone, Copy, PartialEq, Eq, Structural)]
pub struct ScreenChar {
    pub ascii_character: u8,
    pub color_code: ColorCode,
}

impl ScreenChar {
    /// The cell that the two bytes `bytes` show. A cell lies in video memory
    /// as its character followed by its attribute.
    pub open spec fn from_bytes(bytes: Seq<u8>) -> ScreenChar {
        ScreenChar { ascii_character: bytes[0], color_code: ColorCode(bytes[1]) }
    }
}

/// The memory of one grid: `BUFFER_HEIGHT` rows of `BUFFER_WIDTH` cells of
/// two bytes each.
pub type Cells = [[Volatile<[u8; 2]>; BUFFER_WIDTH]; BUFFER_HEIGHT];

/// `volatile::Volatile`, a value that is read and written by volatile
/// accesses only. Nothing of its inside is known here.
#[verifier::external_type_specification]
#[verifier::external_body]
#[verifier::reject_recursive_types(T)]
pub struct ExVolatile<T: Copy>(Volatile<T>);

/// The value that a volatile cell holds: what `Volatile::read` returns and
/// what the last `Volatile::write` stored.
pub uninterp spec fn stored(cell: Volatile<[u8; 2]>) -> [u8; 2];

/// `Volatile::read`: returns the value that the cell holds. The crate reads
/// it with one volatile load.
#[verifier::external_body]
fn volatile_read(cell: &Volatile<[u8; 2]>) -> (value: [u8; 2])
    ensures
        value == stored(*cell),
{
    cell.read()
}

/// `Volatile::write`: afterwards the cell holds `value`. The crate stores it
/// with one volatile store and, as it documents, never panics.
#[verifier::external_body]
fn volatile_write(cell: &mut Volatile<[u8; 2]>, value: [u8; 2])
    ensures
        stored(*final(cell)) == value,
    no_unwind
{
    cell.write(value)
}

/// What a grid shows, row by row.
pub type Grid = Seq<Seq<ScreenChar>>;

/// A grid has `BUFFER_HEIGHT` rows of `BUFFER_WIDTH` cells.
pub open spec fn is_grid(grid: Grid) -> bool {
    &&& grid.len() == BUFFER_HEIGHT
    &&& forall|row: int| 0 <= row < BUFFER_HEIGHT ==> (#[trigger] grid[row]).len() == BUFFER_WIDTH
}

/// The grid `grid` with the cell at (`row`, `col`) showing `character`.
pub open spec fn put_cell(grid: Grid, row: int, col: int, character: ScreenChar) -> Grid {
    grid.update(row, grid[row].update(col, character))
}

/// What the cells `cells` show.
pub open spec fn cells_view(cells: Cells) -> Grid {
    Seq::new(
        BUFFER_HEIGHT as nat,
        |row: int|
            Seq::new(
                BUFFER_WIDTH as nat,
                |col: int| ScreenChar::from_bytes(stored(cells[row][col])@),
            ),
    )
}

/// Bounds-checked access to the cells of one grid.
pub struct Buffer {
    chars: &'static mut Cells,
}

impl View for Buffer {
    type V = Grid;

    closed spec fn view(&self) -> Grid {
        cells_view(*self.chars)
    }
}

impl Buffer {
    /// Takes charge of the cells `chars`.
    pub fn new(chars: &'static mut Cells) -> (buffer: Buffer)
        ensures
            buffer@ == cells_view(*old(chars)),
            is_grid(buffer@),
    {
        Buffer { chars }
    }

    /// Every buffer shows a grid of the fixed dimensions.
    pub proof fn lemma_is_grid(&self)
        ensures
            is_grid(self@),
    {
    }

    /// Reads the cell at (`row`, `col`).
    pub fn read(&self, row: usize, col: usize) -> (character: ScreenChar)
        requires
            row < BUFFER_HEIGHT,
            col < BUFFER_WIDTH,
        ensures
            character == self@[row as int][col as int],
    {
        let bytes = volatile_read(&self.chars[row][col]);
        ScreenChar { ascii_character: bytes[0], color_code: ColorCode(bytes[1]) }
    }

    /// Writes `character` to the cell at (`row`, `col`) and leaves every
    /// other cell as it was.
    pub fn write(&mut self, row: usize, col: usize, character: ScreenChar)
        requires
            row < BUFFER_HEIGHT,
            col < BUFFER_WIDTH,
        ensures
            final(self)@ == put_cell(old(self)@, row as int, col as int, character),
        no_unwind
    {
        let bytes = [character.ascii_character, character.color_code.0];
        volatile_write(&mut self.chars[row][col], bytes);
        assert(self@ =~~= put_cell(old(self)@, row as int, col as int, character));
    }
}

/// A cell that shows nothing, in the colors `color_code`.
pub open spec fn blank(color_code: ColorCode) -> ScreenChar {
    ScreenChar { ascii_character: 0x20, color_code }
}

/// A row of blank cells in the colors `color_code`.
pub open spec fn blank_row(color_code: ColorCode) -> Seq<ScreenChar> {
    Seq::new(BUFFER_WIDTH as nat, |col: int| blank(color_code))
}

/// The grid `grid` with row `row` blank in the colors `color_code`.
pub open spec fn cleared_row(grid: Grid, row: int, color_code: ColorCode) -> Grid {
    grid.update(row, blank_row(color_code))
}

/// The grid `grid` with every row but the first moved up by one. The first
/// row is lost and the last row stays as it was.
pub open spec fn shifted_up(grid: Grid) -> Grid {
    Seq::new(
        BUFFER_HEIGHT as nat,
        |row: int|
            if row + 1 < BUFFER_HEIGHT {
                grid[row + 1]
            } else {
                grid[row]
            },
    )
}

/// A byte is printable if it is a visible ASCII character or a space.
pub open spec fn is_printable(byte: u8) -> bool {
    0x20 <= byte <= 0x7E
}

/// The byte that stands on the screen for the byte `byte` of a text.
pub open spec fn shown(byte: u8) -> u8 {
    if is_printable(byte) || byte == NEWLINE {
        byte
    } else {
        UNPRINTABLE
    }
}

/// The state of a writer: where the next character goes on the bottom row,
/// in which colors, and what the grid shows.
pub struct WriterView {
    pub column: int,
    pub color_code: ColorCode,
    pub grid: Grid,
}

impl WriterView {
    /// The column lies on the bottom row or just behind its end, and the
    /// grid has the fixed dimensions.
    pub open spec fn wf(self) -> bool {
        &&& 0 <= self.column <= BUFFER_WIDTH
        &&& is_grid(self.grid)
    }

    /// The state with row `row` blank in the writer's colors.
    pub open spec fn clear_row(self, row: int) -> WriterView {
        WriterView { grid: cleared_row(self.grid, row, self.color_code), ..self }
    }

    /// The state after a scroll: every row moved up by one, the bottom row
    /// blank in the writer's colors, the column back at the left edge.
    pub open spec fn new_line(self) -> WriterView {
        WriterView {
            column: 0,
            grid: cleared_row(shifted_up(self.grid), BUFFER_HEIGHT - 1, self.color_code),
            ..self
        }
    }

    /// Whether writing `byte` scrolls the grid.
    pub open spec fn scrolls(self, byte: u8) -> bool {
        byte == NEWLINE || self.column >= BUFFER_WIDTH
    }

    /// The state after `byte` is written.
    pub open spec fn write_byte(self, byte: u8) -> WriterView {
        if byte == NEWLINE {
            self.new_line()
        } else {
            let start = if self.scrolls(byte) {
                self.new_line()
            } else {
                self
            };
            WriterView {
                column: start.column + 1,
                grid: put_cell(
                    start.grid,
                    BUFFER_HEIGHT - 1,
                    start.column,
                    ScreenChar { ascii_character: byte, color_code: self.color_code },
                ),
                ..start
            }
        }
    }

    /// The port writes by which the hardware cursor follows the writing of
    /// `byte`: none for a line feed, else those that set it behind the
    /// character on the bottom row.
    pub open spec fn cursor_update(self, byte: u8) -> Option<Seq<PortOp>> {
        if byte == NEWLINE {
            None
        } else {
            Some(cursor_script(self.write_byte(byte).column, BUFFER_HEIGHT - 1))
        }
    }

    /// The state after the bytes `bytes` of a text are written in order,
    /// each as the byte that stands for it on the screen.
    pub open spec fn write_string(self, bytes: Seq<u8>) -> WriterView
        decreases bytes.len(),
    {
        if bytes.len() == 0 {
            self
        } else {
            self.write_string(bytes.drop_last()).write_byte(shown(bytes.last()))
        }
    }

    /// The port writes by which the hardware cursor follows the writing of
    /// the bytes `bytes`, in order.
    pub open spec fn cursor_updates(self, bytes: Seq<u8>) -> Seq<PortOp>
        decreases bytes.len(),
    {
        if bytes.len() == 0 {
            Seq::empty()
        } else {
            let before = self.cursor_updates(bytes.drop_last());
            match self.write_string(bytes.drop_last()).cursor_update(shown(bytes.last())) {
                Some(script) => before + script,
                None => before,
            }
        }
    }

    /// How often the grid scrolls while the bytes `bytes` are written.
    pub open spec fn scroll_count(self, bytes: Seq<u8>) -> nat
        decreases bytes.len(),
    {
        if bytes.len() == 0 {
            0
        } else {
            let before = self.scroll_count(bytes.drop_last());
            if self.write_string(bytes.drop_last()).scrolls(shown(bytes.last())) {
                before + 1
            } else {
                before
            }
        }
    }
}

/// Composes text on the bottom row of a grid and scrolls the grid upward
/// when the row is full or a line ends.
pub struct Writer {
    column_position: usize,
    color_code: ColorCode,
    buffer: Buffer,
}

impl View for Writer {
    type V = WriterView;

    closed spec fn view(&self) -> WriterView {
        WriterView {
            column: self.column_position as int,
            color_code: self.color_code,
            grid: self.buffer@,
        }
    }
}

impl Writer {
    #[verifier::type_invariant]
    spec fn column_in_range(self) -> bool {
        self.column_position <= BUFFER_WIDTH
    }

    /// A writer that goes on at column `column_position` of the bottom row
    /// of `buffer`, in the colors `color_code`.
    pub fn new(column_position: usize, color_code: ColorCode, buffer: Buffer) -> (writer: Writer)
        requires
            column_position <= BUFFER_WIDTH,
        ensures
            writer@ == (WriterView {
                column: column_position as int,
                color_code,
                grid: buffer@,
            }),
            writer@.wf(),
    {
        proof {
            buffer.lemma_is_grid();
        }
        Writer { column_position, color_code, buffer }
    }

    /// The console's writer: it goes on in the column where the hardware
    /// cursor stands, as the cursor registers `cursor_low` and `cursor_high`
    /// give it, and writes yellow on black.
    pub fn console(cursor_low: u8, cursor_high: u8, buffer: Buffer) -> (writer: Writer)
        ensures
            writer@ == (WriterView {
                column: cursor_position(register_offset(cursor_low, cursor_high)).0,
                color_code: ColorCode::spec_new(Color::Yellow, Color::Black),
                grid: buffer@,
            }),
            writer@.wf(),
    {
        let position = get_cursor_position(cursor_low, cursor_high);
        Writer::new(position.0, ColorCode::new(Color::Yellow, Color::Black), buffer)
    }

    /// The column at which the next character goes.
    pub fn column_position(&self) -> (column: usize)
        ensures
            column == self@.column,
            column <= BUFFER_WIDTH,
    {
        proof {
            use_type_invariant(self);
        }
        self.column_position
    }

    /// The colors in which the writer writes.
    pub fn color_code(&self) -> (color_code: ColorCode)
        ensures
            color_code == self@.color_code,
    {
        self.color_code
    }

    /// The grid that the writer writes to.
    pub fn buffer(&self) -> (buffer: &Buffer)
        ensures
            buffer@ == self@.grid,
            is_grid(buffer@),
    {
        &self.buffer
    }

    /// Fills row `row` with spaces in the writer's colors.
    pub fn clear_row(&mut self, row: usize)
        requires
            row < BUFFER_HEIGHT,
        ensures
            final(self)@ == old(self)@.clear_row(row as int),
            final(self)@.wf(),
    {
        proof {
            use_type_invariant(&*self);
        }
        let blank = ScreenChar { ascii_character: 0x20, color_code: self.color_code };
        let mut col: usize = 0;
        while col < BUFFER_WIDTH
            invariant
                row < BUFFER_HEIGHT,
                col <= BUFFER_WIDTH,
                blank == self::blank(self.color_code),
                self.column_position == old(self).column_position,
                self.column_position <= BUFFER_WIDTH,
                self.color_code == old(self).color_code,
                is_grid(self.buffer@),
                is_grid(old(self).buffer@),
                forall|r: int|
                    0 <= r < BUFFER_HEIGHT && r != row ==> #[trigger] self.buffer@[r] == old(
                        self,
                    ).buffer@[r],
                forall|c: int| 0 <= c < col ==> #[trigger] self.buffer@[row as int][c] == blank,
            decreases BUFFER_WIDTH - col,
        {
            self.buffer.write(row, col, blank);
            col += 1;
        }
        assert(self.buffer@[row as int] =~= blank_row(self.color_code));
        assert(self@.grid =~= old(self)@.clear_row(row as int).grid);
    }

    /// Scrolls: moves every row up by one, so that the top row is lost,
    /// blanks the bottom row in the writer's colors and goes back to its
    /// left edge.
    pub fn new_line(&mut self)
        ensures
            final(self)@ == old(self)@.new_line(),
            final(self)@.wf(),
    {
        proof {
            use_type_invariant(&*self);
        }
        let mut row: usize = 1;
        while row < BUFFER_HEIGHT
            invariant
                1 <= row <= BUFFER_HEIGHT,
                self.column_position == old(self).column_position,
                self.column_position <= BUFFER_WIDTH,
                self.color_code == old(self).color_code,
                is_grid(self.buffer@),
                is_grid(old(self).buffer@),
                forall|r: int|
                    0 <= r < row - 1 ==> #[trigger] self.buffer@[r] == old(self).buffer@[r + 1],
                forall|r: int|
                    row - 1 <= r < BUFFER_HEIGHT ==> #[trigger] self.buffer@[r] == old(
                        self,
                    ).buffer@[r],
            decreases BUFFER_HEIGHT - row,
        {
            let mut col: usize = 0;
            while col < BUFFER_WIDTH
                invariant
                    1 <= row < BUFFER_HEIGHT,
                    col <= BUFFER_WIDTH,
                    self.column_position == old(self).column_position,
                    self.column_position <= BUFFER_WIDTH,
                    self.color_code == old(self).color_code,
                    is_grid(self.buffer@),
                    is_grid(old(self).buffer@),
                    forall|r: int|
                        0 <= r < row - 1 ==> #[trigger] self.buffer@[r] == old(self).buffer@[r
                            + 1],
                    forall|r: int|
                        row <= r < BUFFER_HEIGHT ==> #[trigger] self.buffer@[r] == old(
                            self,
                        ).buffer@[r],
                    forall|c: int|
                        0 <= c < col ==> #[trigger] self.buffer@[row - 1][c] == old(
                            self,
                        ).buffer@[row as int][c],
                    forall|c: int|
                        col <= c < BUFFER_WIDTH ==> #[trigger] self.buffer@[row - 1][c] == old(
                            self,
                        ).buffer@[row - 1][c],
                decreases BUFFER_WIDTH - col,
            {
                let character = self.buffer.read(row, col);
                self.buffer.write(row - 1, col, character);
                col += 1;
            }
            assert(self.buffer@[row - 1] =~= old(self).buffer@[row as int]);
            row += 1;
        }
        assert(self.buffer@ =~= shifted_up(old(self).buffer@));
        self.clear_row(BUFFER_HEIGHT - 1);
        self.column_position = 0;
    }

    /// Writes one byte. A line feed scrolls. Any other byte goes to the
    /// bottom row at the writer's column, after a scroll if the row is full,
    /// and the column moves on by one. The result says which port writes
    /// make the hardware cursor follow; a line feed leaves the cursor alone.
    pub fn write_byte(&mut self, byte: u8) -> (cursor: Option<[PortOp; 4]>)
        ensures
            final(self)@ == old(self)@.write_byte(byte),
            final(self)@.wf(),
            match cursor {
                Some(script) => old(self)@.cursor_update(byte) == Some(script@),
                None => old(self)@.cursor_update(byte) is None,
            },
    {
        proof {
            use_type_invariant(&*self);
            self.buffer.lemma_is_grid();
        }
        if byte == NEWLINE {
            self.new_line();
            None
        } else {
            if self.column_position >= BUFFER_WIDTH {
                self.new_line();
            }
            let row = BUFFER_HEIGHT - 1;
            let col = self.column_position;
            let color_code = self.color_code;
            proof {
                use_type_invariant(&*self);
            }
            self.buffer.write(row, col, ScreenChar { ascii_character: byte, color_code });
            self.column_position += 1;
            Some(set_cursor_position(self.column_position, row))
        }
    }

    /// Writes a text byte by byte. A printable byte and a line feed are
    /// written as they are, every other byte as `UNPRINTABLE`. The result
    /// holds, in order, the port writes that make the hardware cursor follow.
    pub fn write_string(&mut self, s: &str) -> (cursor: Vec<PortOp>)
        ensures
            final(self)@ == old(self)@.write_string(s.spec_bytes()),
            final(self)@.wf(),
            cursor@ == old(self)@.cursor_updates(s.spec_bytes()),
    {
        proof {
            use_type_invariant(&*self);
            self.buffer.lemma_is_grid();
        }
        let bytes = s.as_bytes();
        let mut cursor: Vec<PortOp> = Vec::new();
        let mut i: usize = 0;
        while i < bytes.len()
            invariant
                i <= bytes.len(),
                bytes@ == s.spec_bytes(),
                self@ == old(self)@.write_string(bytes@.take(i as int)),
                self@.wf(),
                cursor@ == old(self)@.cursor_updates(bytes@.take(i as int)),
            decreases bytes.len() - i,
        {
            let byte = bytes[i];
            let written = if (0x20 <= byte && byte <= 0x7E) || byte == NEWLINE {
                byte
            } else {
                UNPRINTABLE
            };
            proof {
                assert(bytes@.take(i + 1).drop_last() =~= bytes@.take(i as int));
                assert(bytes@.take(i + 1).last() == byte);
            }
            match self.write_byte(written) {
                Some(script) => {
                    let ghost before = cursor@;
                    cursor.push(script[0]);
                    cursor.push(script[1]);
                    cursor.push(script[2]);
                    cursor.push(script[3]);
                    assert(cursor@ =~= before + script@);
                },
                None => {},
            }
            i += 1;
        }
        proof {
            assert(bytes@.take(bytes.len() as int) =~= bytes@);
        }
        cursor
    }
}

/// The row `row` with the bytes `bytes` written from column `column` on, in
/// the colors `color_code`.
pub open spec fn row_with(
    row: Seq<ScreenChar>,
    column: int,
    bytes: Seq<u8>,
    color_code: ColorCode,
) -> Seq<ScreenChar> {
    Seq::new(
        BUFFER_WIDTH as nat,
        |col: int|
            if column <= col < column + bytes.len() {
                ScreenChar { ascii_character: bytes[col - column], color_code }
            } else {
                row[col]
            },
    )
}

impl WriterView {
    /// A scroll moves each row but the first up by one, leaves the bottom
    /// row blank in the writer's colors and the column at the left edge.
    pub proof fn lemma_new_line(self)
        requires
            self.wf(),
        ensures
            self.new_line().wf(),
            self.new_line().column == 0,
            self.new_line().color_code == self.color_code,
            forall|row: int|
                0 <= row < BUFFER_HEIGHT - 1 ==> #[trigger] self.new_line().grid[row]
                    == self.grid[row + 1],
            self.new_line().grid[BUFFER_HEIGHT - 1] == blank_row(self.color_code),
            forall|col: int|
                0 <= col < BUFFER_WIDTH ==> #[trigger] self.new_line().grid[BUFFER_HEIGHT
                    - 1][col] == blank(self.color_code),
    {
    }

    /// A scroll discards the top row: two states that differ in nothing but
    /// their top rows are the same state after it.
    pub proof fn lemma_new_line_discards_top_row(self, other: WriterView)
        requires
            self.wf(),
            other.wf(),
            self.color_code == other.color_code,
            forall|row: int| 1 <= row < BUFFER_HEIGHT ==> self.grid[row] == other.grid[row],
        ensures
            self.new_line() == other.new_line(),
    {
        assert(self.new_line().grid =~= other.new_line().grid);
    }

    /// An unprintable byte of a text reaches the screen as `UNPRINTABLE`,
    /// which differs from the byte unless the byte is `UNPRINTABLE` itself;
    /// a printable byte and a line feed reach it unchanged.
    pub proof fn lemma_shown(self, byte: u8)
        requires
            self.wf(),
        ensures
            is_printable(byte) || byte == NEWLINE ==> shown(byte) == byte,
            !is_printable(byte) && byte != NEWLINE ==> {
                let after = self.write_string(seq![byte]);
                &&& shown(byte) == UNPRINTABLE
                &&& byte != UNPRINTABLE ==> shown(byte) != byte
                &&& after == self.write_byte(UNPRINTABLE)
                &&& after.grid[BUFFER_HEIGHT - 1][after.column - 1].ascii_character
                    == UNPRINTABLE
            },
    {
        let bytes = seq![byte];
        assert(bytes.drop_last() =~= Seq::<u8>::empty());
        assert(self.write_string(Seq::<u8>::empty()) == self);
        assert(self.write_string(bytes) == self.write_byte(shown(byte)));
    }

    /// Printable bytes that fit the rest of the bottom row are written
    /// without a scroll: the column moves on by their number, they stand on
    /// the bottom row from the old column on, and nothing else changes.
    pub proof fn lemma_write_within_row(self, bytes: Seq<u8>)
        requires
            self.wf(),
            forall|i: int| 0 <= i < bytes.len() ==> is_printable(#[trigger] bytes[i]),
            self.column + bytes.len() <= BUFFER_WIDTH,
        ensures
            self.scroll_count(bytes) == 0,
            self.write_string(bytes).wf(),
            self.write_string(bytes).column == self.column + bytes.len(),
            self.write_string(bytes).color_code == self.color_code,
            self.write_string(bytes).grid == self.grid.update(
                BUFFER_HEIGHT - 1,
                row_with(self.grid[BUFFER_HEIGHT - 1], self.column, bytes, self.color_code),
            ),
        decreases bytes.len(),
    {
        let bottom = BUFFER_HEIGHT - 1;
        if bytes.len() == 0 {
            assert(row_with(self.grid[bottom], self.column, bytes, self.color_code)
                =~= self.grid[bottom]);
            assert(self.grid.update(bottom, self.grid[bottom]) =~= self.grid);
        } else {
            let prefix = bytes.drop_last();
            let byte = bytes.last();
            self.lemma_write_within_row(prefix);
            let mid = self.write_string(prefix);
            assert(is_printable(byte));
            assert(shown(byte) == byte && byte != NEWLINE);
            assert(!mid.scrolls(byte));
            let after = mid.write_byte(byte);
            assert(after == self.write_string(bytes));
            assert(after.grid[bottom] =~= row_with(
                self.grid[bottom],
                self.column,
                bytes,
                self.color_code,
            )) by {
                assert forall|col: int| 0 <= col < BUFFER_WIDTH implies after.grid[bottom][col]
                    == row_with(self.grid[bottom], self.column, bytes, self.color_code)[col] by {
                    if col == mid.column {
                        assert(bytes[col - self.column] == byte);
                    } else if self.column <= col < mid.column {
                        assert(prefix[col - self.column] == bytes[col - self.column]);
                    }
                }
            }
            assert(after.grid =~= self.grid.update(
                bottom,
                row_with(self.grid[bottom], self.column, bytes, self.color_code),
            ));
        }
    }

    /// A full row of printable bytes and one more, written from the left
    /// edge, scroll the grid exactly once, behind the full row: that row
    /// ends up second from the bottom, and the bottom row holds the last
    /// byte in its first column and blanks behind it.
    pub proof fn lemma_write_past_row(self, bytes: Seq<u8>)
        requires
            self.wf(),
            self.column == 0,
            bytes.len() == BUFFER_WIDTH + 1,
            forall|i: int| 0 <= i < bytes.len() ==> is_printable(#[trigger] bytes[i]),
        ensures
            self.scroll_count(bytes) == 1,
            self.write_string(bytes).wf(),
            self.write_string(bytes).column == 1,
            forall|row: int|
                0 <= row < BUFFER_HEIGHT - 2 ==> #[trigger] self.write_string(bytes).grid[row]
                    == self.grid[row + 1],
            forall|col: int|
                0 <= col < BUFFER_WIDTH ==> #[trigger] self.write_string(bytes).grid[BUFFER_HEIGHT
                    - 2][col] == (ScreenChar {
                    ascii_character: bytes[col],
                    color_code: self.color_code,
                }),
            self.write_string(bytes).grid[BUFFER_HEIGHT - 1][0] == (ScreenChar {
                ascii_character: bytes[BUFFER_WIDTH as int],
                color_code: self.color_code,
            }),
            forall|col: int|
                1 <= col < BUFFER_WIDTH ==> #[trigger] self.write_string(bytes).grid[BUFFER_HEIGHT
                    - 1][col] == blank(self.color_code),
    {
        let prefix = bytes.drop_last();
        let byte = bytes.last();
        self.lemma_write_within_row(prefix);
        let mid = self.write_string(prefix);
        assert(is_printable(byte));
        assert(shown(byte) == byte && byte != NEWLINE);
        assert(mid.scrolls(byte));
        mid.lemma_new_line();
        let after = mid.write_byte(byte);
        assert(after == self.write_string(bytes));
        assert forall|col: int| 0 <= col < BUFFER_WIDTH implies #[trigger] after.grid[BUFFER_HEIGHT
            - 2][col] == (ScreenChar {
            ascii_character: bytes[col],
            color_code: self.color_code,
        }) by {
            assert(prefix[col] == bytes[col]);
        }
    }

    /// Whatever the cursor registers held, after the port writes that follow
    /// a written byte they hold the offset of the writer's new column on the
    /// bottom row.
    pub proof fn lemma_cursor_register(self, byte: u8, crtc: Crtc)
        requires
            self.wf(),
            byte != NEWLINE,
        ensures
            self.cursor_update(byte) is Some,
            crtc.after_all(self.cursor_update(byte)->0).offset() == cursor_offset(
                self.write_byte(byte).column,
                BUFFER_HEIGHT - 1,
            ),
    {
        crtc.lemma_set_cursor(self.write_byte(byte).column, BUFFER_HEIGHT - 1);
    }

    /// After a byte is written without a scroll and the writer has not come
    /// to the end of the row, the hardware cursor, fetched and decoded,
    /// stands at the writer's new column on the bottom row.
    pub proof fn lemma_cursor_follows(self, byte: u8, crtc: Crtc)
        requires
            self.wf(),
            !self.scrolls(byte),
            self.write_byte(byte).column < BUFFER_WIDTH,
        ensures
            self.cursor_update(byte) is Some,
            cursor_position(crtc.after_all(self.cursor_update(byte)->0).offset()) == (
                self.write_byte(byte).column,
                BUFFER_HEIGHT - 1,
            ),
    {
        crtc.lemma_set_then_get(self.write_byte(byte).column, BUFFER_HEIGHT - 1);
    }
}

} // verus!
