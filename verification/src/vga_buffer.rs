//! The text-mode console model: a height-by-width grid of character
//! cells, a cursor column, and a color code.  Writes wrap at the row end,
//! newlines scroll every row up one line and blank the last row, and
//! non-printable bytes are replaced by a fixed placeholder glyph.  The
//! hardware side — copying the grid into the memory-mapped display
//! buffer — happens outside this crate; the grid logic itself is
//! verified here.

use vstd::prelude::*;

verus! {

/// Rows of the text buffer.
pub const BUFFER_HEIGHT: usize = 25;

/// Columns of the text buffer.
pub const BUFFER_WIDTH: usize = 80;

/// Standard color palette of the text mode.
#[derive(Clone, Copy, Debug, PartialEq, Eq, Structural)]
pub enum Color {
    Black,
    Blue,
    Green,
    Cyan,
    Red,
    Magenta,
    Brown,
    LightGray,
    DarkGray,
    LightBlue,
    LightGreen,
    LightCyan,
    LightRed,
    Pink,
    Yellow,
    White,
}

/// The palette index of a color, as the display hardware encodes it.
pub open spec fn color_number(c: Color) -> u8 {
    match c {
        Color::Black => 0,
        Color::Blue => 1,
        Color::Green => 2,
        Color::Cyan => 3,
        Color::Red => 4,
        Color::Magenta => 5,
        Color::Brown => 6,
        Color::LightGray => 7,
        Color::DarkGray => 8,
        Color::LightBlue => 9,
        Color::LightGreen => 10,
        Color::LightCyan => 11,
        Color::LightRed => 12,
        Color::Pink => 13,
        Color::Yellow => 14,
        Color::White => 15,
    }
}

/// Foreground and background color combined into one byte: the
/// background in the high four bits, the foreground in the low four.
#[derive(Clone, Copy, Debug, PartialEq, Eq, Structural)]
pub struct ColorCode(pub u8);

impl ColorCode {
    pub fn new(foreground: Color, background: Color) -> (r: ColorCode)
        ensures
            r.0 == color_number(background) * 16 + color_number(foreground),
    {
        let fg: u8 = match foreground {
            Color::Black => 0,
            Color::Blue => 1,
            Color::Green => 2,
            Color::Cyan => 3,
            Color::Red => 4,
            Color::Magenta => 5,
            Color::Brown => 6,
            Color::LightGray => 7,
            Color::DarkGray => 8,
            Color::LightBlue => 9,
            Color::LightGreen => 10,
            Color::LightCyan => 11,
            Color::LightRed => 12,
            Color::Pink => 13,
            Color::Yellow => 14,
            Color::White => 15,
        };
        let bg: u8 = match background {
            Color::Black => 0,
            Color::Blue => 1,
            Color::Green => 2,
            Color::Cyan => 3,
            Color::Red => 4,
            Color::Magenta => 5,
            Color::Brown => 6,
            Color::LightGray => 7,
            Color::DarkGray => 8,
            Color::LightBlue => 9,
            Color::LightGreen => 10,
            Color::LightCyan => 11,
            Color::LightRed => 12,
            Color::Pink => 13,
            Color::Yellow => 14,
            Color::White => 15,
        };
        ColorCode(bg * 16 + fg)
    }
}

/// One character cell: an ASCII byte and its color.
#[derive(Clone, Copy, Debug, PartialEq, Eq, Structural)]
pub struct ScreenChar {
    pub ascii_char: u8,
    pub color_code: ColorCode,
}

/// A blank cell in the given color.
pub open spec fn blank_char(color: ColorCode) -> ScreenChar {
    ScreenChar { ascii_char: 32, color_code: color }
}

/// The grid after scrolling: every row moves up one line, the last row
/// becomes blank.  Cells are stored row-major.
pub open spec fn scrolled(cells: Seq<ScreenChar>, blank: ScreenChar) -> Seq<ScreenChar> {
    Seq::new(
        cells.len(),
        |i: int|
            if i < (BUFFER_HEIGHT - 1) * BUFFER_WIDTH {
                cells[i + BUFFER_WIDTH]
            } else {
                blank
            },
    )
}

/// The grid and cursor column after writing one byte: a newline scrolls
/// and returns to column zero; any other byte lands in the last row at
/// the cursor column — after scrolling first if the row is full — and
/// advances the cursor.
pub open spec fn write_byte_model(
    cells: Seq<ScreenChar>,
    col: int,
    color: ColorCode,
    byte: u8,
) -> (Seq<ScreenChar>, int) {
    if byte == 10 {
        (scrolled(cells, blank_char(color)), 0)
    } else {
        let (cells1, col1) = if col >= BUFFER_WIDTH {
            (scrolled(cells, blank_char(color)), 0int)
        } else {
            (cells, col)
        };
        (
            cells1.update(
                (BUFFER_HEIGHT - 1) * BUFFER_WIDTH + col1,
                ScreenChar { ascii_char: byte, color_code: color },
            ),
            col1 + 1,
        )
    }
}

/// A printable ASCII byte or the newline passes through; anything else is
/// shown as the fixed placeholder glyph.
pub open spec fn printable_or_placeholder(byte: u8) -> u8 {
    if (0x20 <= byte && byte <= 0x7e) || byte == 10 {
        byte
    } else {
        0xfe
    }
}

/// The grid and cursor column after writing a whole string, byte by byte,
/// each byte filtered through [`printable_or_placeholder`].
pub open spec fn write_string_model(
    cells: Seq<ScreenChar>,
    col: int,
    color: ColorCode,
    s: Seq<u8>,
) -> (Seq<ScreenChar>, int)
    decreases s.len(),
{
    if s.len() == 0 {
        (cells, col)
    } else {
        let prefix = write_string_model(cells, col, color, s.drop_last());
        write_byte_model(prefix.0, prefix.1, color, printable_or_placeholder(s.last()))
    }
}

/// The console writer: the cell grid (row-major), the cursor column in
/// the last row, and the color new characters are written in.
pub struct Writer {
    pub column_position: usize,
    pub color_code: ColorCode,
    pub buffer: Vec<ScreenChar>,
}

impl Writer {
    /// The grid has exactly height times width cells and the cursor never
    /// leaves the row.
    pub open spec fn wf(&self) -> bool {
        &&& self.buffer@.len() == BUFFER_HEIGHT * BUFFER_WIDTH
        &&& self.column_position <= BUFFER_WIDTH
    }

    /// A writer over a fully blank grid, at column zero.
    pub fn new(color: ColorCode) -> (r: Writer)
        ensures
            r.wf(),
            r.column_position == 0,
            r.color_code == color,
            forall|i: int|
                0 <= i < BUFFER_HEIGHT * BUFFER_WIDTH ==> r.buffer@[i] == blank_char(color),
    {
        let mut buffer: Vec<ScreenChar> = Vec::new();
        let mut i: usize = 0;
        while i < BUFFER_HEIGHT * BUFFER_WIDTH
            invariant
                i <= BUFFER_HEIGHT * BUFFER_WIDTH,
                buffer@.len() == i,
                forall|j: int| 0 <= j < i ==> buffer@[j] == blank_char(color),
            decreases BUFFER_HEIGHT * BUFFER_WIDTH - i,
        {
            buffer.push(ScreenChar { ascii_char: 32, color_code: color });
            i = i + 1;
        }
        Writer { column_position: 0, color_code: color, buffer }
    }

    /// Blank out one row.
    fn clear_row(&mut self, row: usize)
        requires
            old(self).wf(),
            row < BUFFER_HEIGHT,
        ensures
            final(self).wf(),
            final(self).color_code == old(self).color_code,
            final(self).column_position == old(self).column_position,
            forall|j: int|
                row * BUFFER_WIDTH <= j < (row + 1) * BUFFER_WIDTH ==> final(self).buffer@[j]
                    == blank_char(old(self).color_code),
            forall|j: int|
                0 <= j < BUFFER_HEIGHT * BUFFER_WIDTH && !(row * BUFFER_WIDTH <= j < (row + 1)
                    * BUFFER_WIDTH) ==> final(self).buffer@[j] == old(self).buffer@[j],
    {
        let blank = ScreenChar { ascii_char: 32, color_code: self.color_code };
        let mut col: usize = 0;
        while col < BUFFER_WIDTH
            invariant
                old(self).wf(),
                self.wf(),
                row < BUFFER_HEIGHT,
                col <= BUFFER_WIDTH,
                blank == blank_char(old(self).color_code),
                self.color_code == old(self).color_code,
                self.column_position == old(self).column_position,
                forall|j: int|
                    row * BUFFER_WIDTH <= j < row * BUFFER_WIDTH + col ==> self.buffer@[j]
                        == blank_char(old(self).color_code),
                forall|j: int|
                    0 <= j < BUFFER_HEIGHT * BUFFER_WIDTH && !(row * BUFFER_WIDTH <= j < row
                        * BUFFER_WIDTH + col) ==> self.buffer@[j] == old(self).buffer@[j],
            decreases BUFFER_WIDTH - col,
        {
            let idx: usize = row * BUFFER_WIDTH + col;
            self.buffer[idx] = blank;
            col = col + 1;
        }
    }

    /// Scroll: every row moves up one line, the last row is blanked, and
    /// the cursor returns to column zero.
    fn new_line(&mut self)
        requires
            old(self).wf(),
        ensures
            final(self).wf(),
            final(self).color_code == old(self).color_code,
            final(self).column_position == 0,
            final(self).buffer@ == scrolled(
                old(self).buffer@,
                blank_char(old(self).color_code),
            ),
    {
        let mut i: usize = 0;
        while i < (BUFFER_HEIGHT - 1) * BUFFER_WIDTH
            invariant
                old(self).wf(),
                self.wf(),
                i <= (BUFFER_HEIGHT - 1) * BUFFER_WIDTH,
                self.color_code == old(self).color_code,
                self.column_position == old(self).column_position,
                forall|j: int| 0 <= j < i ==> self.buffer@[j] == old(self).buffer@[j + BUFFER_WIDTH],
                forall|j: int|
                    i <= j < BUFFER_HEIGHT * BUFFER_WIDTH ==> self.buffer@[j] == old(
                        self,
                    ).buffer@[j],
            decreases (BUFFER_HEIGHT - 1) * BUFFER_WIDTH - i,
        {
            let c = self.buffer[i + BUFFER_WIDTH];
            self.buffer[i] = c;
            i = i + 1;
        }
        self.clear_row(BUFFER_HEIGHT - 1);
        self.column_position = 0;
        proof {
            assert(self.buffer@ =~= scrolled(old(self).buffer@, blank_char(old(self).color_code)));
        }
    }

    /// Write one ASCII byte: a newline scrolls; any other byte lands at
    /// the cursor in the last row (scrolling first when the row is full)
    /// and advances the cursor.
    pub fn write_byte(&mut self, byte: u8)
        requires
            old(self).wf(),
        ensures
            final(self).wf(),
            final(self).color_code == old(self).color_code,
            (final(self).buffer@, final(self).column_position as int) == write_byte_model(
                old(self).buffer@,
                old(self).column_position as int,
                old(self).color_code,
                byte,
            ),
    {
        if byte == 10 {
            self.new_line();
        } else {
            if self.column_position >= BUFFER_WIDTH {
                self.new_line();
            }
            let row: usize = BUFFER_HEIGHT - 1;
            let col: usize = self.column_position;
            let color_code = self.color_code;
            self.buffer[row * BUFFER_WIDTH + col] = ScreenChar {
                ascii_char: byte,
                color_code,
            };
            self.column_position = col + 1;
        }
    }

    /// Write a string of bytes; printable ASCII and newline pass through,
    /// anything else is shown as the placeholder glyph.
    pub fn write_string(&mut self, s: &[u8])
        requires
            old(self).wf(),
        ensures
            final(self).wf(),
            final(self).color_code == old(self).color_code,
            (final(self).buffer@, final(self).column_position as int) == write_string_model(
                old(self).buffer@,
                old(self).column_position as int,
                old(self).color_code,
                s@,
            ),
    {
        let mut i: usize = 0;
        while i < s.len()
            invariant
                old(self).wf(),
                self.wf(),
                i <= s@.len(),
                self.color_code == old(self).color_code,
                (self.buffer@, self.column_position as int) == write_string_model(
                    old(self).buffer@,
                    old(self).column_position as int,
                    old(self).color_code,
                    s@.take(i as int),
                ),
            decreases s@.len() - i,
        {
            let byte = s[i];
            if (0x20 <= byte && byte <= 0x7e) || byte == 10 {
                self.write_byte(byte);
            } else {
                self.write_byte(0xfe);
            }
            proof {
                assert(s@.take(i + 1).drop_last() =~= s@.take(i as int));
                assert(s@.take(i + 1).last() == s@[i as int]);
            }
            i = i + 1;
        }
        proof {
            assert(s@.take(s@.len() as int) =~= s@);
        }
    }

    /// Erase one cell: step the cursor back one column (if it is not at
    /// the row start already) and blank the cell there.
    pub fn backspace(&mut self)
        requires
            old(self).wf(),
        ensures
            final(self).wf(),
            final(self).color_code == old(self).color_code,
            old(self).column_position == 0 ==> *final(self) == *old(self),
            old(self).column_position > 0 ==> {
                &&& final(self).column_position == old(self).column_position - 1
                &&& final(self).buffer@ == old(self).buffer@.update(
                    (BUFFER_HEIGHT - 1) * BUFFER_WIDTH + old(self).column_position - 1,
                    blank_char(old(self).color_code),
                )
            },
    {
        if self.column_position > 0 {
            let col: usize = self.column_position - 1;
            let blank = ScreenChar { ascii_char: 32, color_code: self.color_code };
            self.buffer[(BUFFER_HEIGHT - 1) * BUFFER_WIDTH + col] = blank;
            self.column_position = col;
        }
    }
}

/// Write a string to the console through the given writer.
pub fn print(writer: &mut Writer, s: &[u8])
    requires
        old(writer).wf(),
    ensures
        final(writer).wf(),
        final(writer).color_code == old(writer).color_code,
        (final(writer).buffer@, final(writer).column_position as int) == write_string_model(
            old(writer).buffer@,
            old(writer).column_position as int,
            old(writer).color_code,
            s@,
        ),
{
    writer.write_string(s);
}

} // verus!
