//! The VGA text console: colours, character cells, and a 25 by 80 screen that
//! wraps long lines and scrolls when it is full.

use vstd::prelude::*;
use vstd::string::StringSliceAdditionalSpecFns;

verus! {

/// The sixteen text-mode colours.
#[derive(Clone, Copy, Debug, PartialEq, Eq, Structural)]
pub enum Color {
    Black,
    Blue,
    Green,
    Cyan,
    Red,
    Magenta,
    Brown,
    LightGray,
    DarkGray,
    LightBlue,
    LightGreen,
    LightCyan,
    LightRed,
    Pink,
    Yellow,
    White,
}

/// The number of a colour in the hardware palette.
pub open spec fn color_number(c: Color) -> u8 {
    match c {
        Color::Black => 0,
        Color::Blue => 1,
        Color::Green => 2,
        Color::Cyan => 3,
        Color::Red => 4,
        Color::Magenta => 5,
        Color::Brown => 6,
        Color::LightGray => 7,
        Color::DarkGray => 8,
        Color::LightBlue => 9,
        Color::LightGreen => 10,
        Color::LightCyan => 11,
        Color::LightRed => 12,
        Color::Pink => 13,
        Color::Yellow => 14,
        Color::White => 15,
    }
}

impl Color {
    /// The number of the colour in the hardware palette.
    pub fn number(self) -> (r: u8)
        ensures
            r == color_number(self),
    {
        match self {
            Color::Black => 0,
            Color::Blue => 1,
            Color::Green => 2,
            Color::Cyan => 3,
            Color::Red => 4,
            Color::Magenta => 5,
            Color::Brown => 6,
            Color::LightGray => 7,
            Color::DarkGray => 8,
            Color::LightBlue => 9,
            Color::LightGreen => 10,
            Color::LightCyan => 11,
            Color::LightRed => 12,
            Color::Pink => 13,
            Color::Yellow => 14,
            Color::White => 15,
        }
    }
}

/// An attribute byte: background colour in the high four bits, foreground
/// colour in the low four.
#[derive(Clone, Copy, Debug, PartialEq, Eq, Structural)]
pub struct ColorCode(pub u8);

impl ColorCode {
    /// The attribute for `foreground` on `background`.
    pub fn new(foreground: Color, background: Color) -> (r: ColorCode)
        ensures
            r.0 == color_number(background) * 16 + color_number(foreground),
    {
        let f = foreground.number();
        let b = background.number();
        assert((b << 4u8) | f == b * 16 + f) by (bit_vector)
            requires
                b < 16,
                f < 16,
        ;
        ColorCode((b << 4u8) | f)
    }
}

/// One cell of the screen: a code point and its attribute.
#[derive(Clone, Copy, Debug, PartialEq, Eq, Structural)]
pub struct Character {
    pub codepoint: u8,
    pub color: ColorCode,
}

/// The code point shown in place of one the font cannot show.
pub const REPLACEMENT: u8 = 0xfe;

/// The cell for `codepoint`: printable ASCII stays, anything else is shown as
/// the replacement square.
pub open spec fn cell_for(codepoint: u8, color: ColorCode) -> Character {
    if 0x20 <= codepoint <= 0x7e {
        Character { codepoint, color }
    } else {
        Character { codepoint: REPLACEMENT, color }
    }
}

/// The empty cell: code point 0, black on black.
pub open spec fn blank_cell() -> Character {
    Character { codepoint: 0, color: ColorCode(0) }
}

impl Character {
    /// The cell for `codepoint` in `color`.
    pub fn new(codepoint: u8, color: ColorCode) -> (r: Character)
        ensures
            r == cell_for(codepoint, color),
    {
        if 0x20 <= codepoint && codepoint <= 0x7e {
            Character { codepoint, color }
        } else {
            Character { codepoint: REPLACEMENT, color }
        }
    }

    /// The empty cell.
    pub fn blank() -> (r: Character)
        ensures
            r == blank_cell(),
    {
        Character { codepoint: 0, color: ColorCode::new(Color::Black, Color::Black) }
    }
}

/// The height of the screen in rows.
pub const BUFFER_HEIGHT: usize = 25;
/// The width of the screen in columns.
pub const BUFFER_WIDTH: usize = 80;
/// The number of cells of the screen.
pub const BUFFER_CELLS: usize = 2000;

/// What the console holds: the cursor and the cells, row after row.
pub struct ConsoleView {
    pub row: int,
    pub column: int,
    pub cells: Seq<Character>,
}

/// The cells after a line feed on the last row: every row moves up one and
/// the last row is blank.
pub open spec fn scrolled(cells: Seq<Character>) -> Seq<Character> {
    cells.subrange(BUFFER_WIDTH as int, BUFFER_CELLS as int) + Seq::new(
        BUFFER_WIDTH as nat,
        |i: int| blank_cell(),
    )
}

/// The console after a line feed: the next row, or a scroll on the last row;
/// back to column 0 either way.
pub open spec fn after_new_line(v: ConsoleView) -> ConsoleView {
    if v.row == BUFFER_HEIGHT - 1 {
        ConsoleView { row: v.row, column: 0, cells: scrolled(v.cells) }
    } else {
        ConsoleView { row: v.row + 1, column: 0, cells: v.cells }
    }
}

/// The console after one byte: a line feed for `\n`; otherwise the byte's cell
/// at the cursor (on a new line first when the row is full) and the cursor
/// one column on.
pub open spec fn after_byte(v: ConsoleView, byte: u8, color: ColorCode) -> ConsoleView {
    if byte == 10 {
        after_new_line(v)
    } else {
        let w = if v.column >= BUFFER_WIDTH {
            after_new_line(v)
        } else {
            v
        };
        ConsoleView {
            row: w.row,
            column: w.column + 1,
            cells: w.cells.update(w.row * BUFFER_WIDTH + w.column, cell_for(byte, color)),
        }
    }
}

/// The console after the bytes of `s`, one after another.
pub open spec fn after_bytes(v: ConsoleView, s: Seq<u8>, color: ColorCode) -> ConsoleView
    decreases s.len(),
{
    if s.len() == 0 {
        v
    } else {
        after_byte(after_bytes(v, s.drop_last(), color), s.last(), color)
    }
}

/// A well-formed view: the cursor on the screen, 2000 cells.
pub open spec fn view_wf(v: ConsoleView) -> bool {
    &&& 0 <= v.row < BUFFER_HEIGHT
    &&& 0 <= v.column <= BUFFER_WIDTH
    &&& v.cells.len() == BUFFER_CELLS
}

/// The text console.
pub struct Console {
    row: usize,
    column: usize,
    buffer: Vec<Character>,
}

impl View for Console {
    type V = ConsoleView;

    closed spec fn view(&self) -> ConsoleView {
        ConsoleView { row: self.row as int, column: self.column as int, cells: self.buffer@ }
    }
}

impl Console {
    /// Cursor on the screen and 2000 cells.
    pub open spec fn wf(&self) -> bool {
        view_wf(self@)
    }

    /// A blank console with the cursor at the top left.
    pub fn new() -> (r: Console)
        ensures
            r.wf(),
            r@.row == 0,
            r@.column == 0,
            r@.cells == Seq::new(BUFFER_CELLS as nat, |i: int| blank_cell()),
    {
        let buffer = vec![Character::blank(); BUFFER_CELLS];
        let r = Console { row: 0, column: 0, buffer };
        assert(r@.cells =~= Seq::new(BUFFER_CELLS as nat, |i: int| blank_cell()));
        r
    }

    /// Blanks every cell and puts the cursor at the top left.
    pub fn clear(&mut self)
        requires
            old(self).wf(),
        ensures
            final(self).wf(),
            final(self)@.row == 0,
            final(self)@.column == 0,
            final(self)@.cells == Seq::new(BUFFER_CELLS as nat, |i: int| blank_cell()),
    {
        let mut i: usize = 0;
        while i < BUFFER_CELLS
            invariant
                self.buffer@.len() == BUFFER_CELLS,
                i <= BUFFER_CELLS,
                forall|j: int| 0 <= j < i ==> #[trigger] self.buffer@[j] == blank_cell(),
            decreases BUFFER_CELLS - i,
        {
            self.buffer.set(i, Character::blank());
            i = i + 1;
        }
        self.row = 0;
        self.column = 0;
        assert(self@.cells =~= Seq::new(BUFFER_CELLS as nat, |i: int| blank_cell()));
    }

    /// The cell at `row` and `column`.
    pub fn character_at(&self, row: usize, column: usize) -> (r: Character)
        requires
            self.wf(),
            row < BUFFER_HEIGHT,
            column < BUFFER_WIDTH,
        ensures
            r == self@.cells[row * BUFFER_WIDTH + column],
    {
        self.buffer[row * BUFFER_WIDTH + column]
    }

    /// The cursor row.
    pub fn row(&self) -> (r: usize)
        ensures
            r == self@.row,
    {
        self.row
    }

    /// The cursor column.
    pub fn column(&self) -> (r: usize)
        ensures
            r == self@.column,
    {
        self.column
    }

    fn new_line(&mut self)
        requires
            old(self).wf(),
        ensures
            final(self).wf(),
            final(self)@ == after_new_line(old(self)@),
    {
        if self.row == BUFFER_HEIGHT - 1 {
            let ghost before = self.buffer@;
            let mut i: usize = 0;
            while i < BUFFER_CELLS - BUFFER_WIDTH
                invariant
                    self.buffer@.len() == BUFFER_CELLS,
                    self.row == old(self).row,
                    i <= BUFFER_CELLS - BUFFER_WIDTH,
                    forall|j: int| 0 <= j < i ==> #[trigger] self.buffer@[j] == before[j + BUFFER_WIDTH],
                    forall|j: int| i <= j < BUFFER_CELLS ==> #[trigger] self.buffer@[j] == before[j],
                decreases BUFFER_CELLS - BUFFER_WIDTH - i,
            {
                let moved = self.buffer[i + BUFFER_WIDTH];
                self.buffer.set(i, moved);
                i = i + 1;
            }
            while i < BUFFER_CELLS
                invariant
                    self.buffer@.len() == BUFFER_CELLS,
                    self.row == old(self).row,
                    BUFFER_CELLS - BUFFER_WIDTH <= i <= BUFFER_CELLS,
                    forall|j: int|
                        0 <= j < BUFFER_CELLS - BUFFER_WIDTH ==> #[trigger] self.buffer@[j] == before[j
                            + BUFFER_WIDTH],
                    forall|j: int|
                        BUFFER_CELLS - BUFFER_WIDTH <= j < i ==> #[trigger] self.buffer@[j] == blank_cell(),
                decreases BUFFER_CELLS - i,
            {
                self.buffer.set(i, Character::blank());
                i = i + 1;
            }
            assert(self.buffer@ =~= scrolled(before));
        } else {
            self.row = self.row + 1;
        }
        self.column = 0;
    }

    /// Writes one byte in `color`: a line feed for `\n`, otherwise its cell at
    /// the cursor, wrapping to a new line when the row is full.
    pub fn write_byte(&mut self, byte: u8, color: ColorCode)
        requires
            old(self).wf(),
        ensures
            final(self).wf(),
            final(self)@ == after_byte(old(self)@, byte, color),
    {
        if byte == 10 {
            self.new_line();
        } else {
            if self.column >= BUFFER_WIDTH {
                self.new_line();
            }
            let index = self.row * BUFFER_WIDTH + self.column;
            self.buffer.set(index, Character::new(byte, color));
            self.column = self.column + 1;
        }
    }

    /// Writes the bytes of `s` in `color`, one after another.
    pub fn write_str(&mut self, s: &str, color: ColorCode)
        requires
            old(self).wf(),
        ensures
            final(self).wf(),
            final(self)@ == after_bytes(old(self)@, s.spec_bytes(), color),
    {
        let bytes = s.as_bytes();
        let mut i: usize = 0;
        while i < bytes.len()
            invariant
                self.wf(),
                bytes@ == s.spec_bytes(),
                i <= bytes@.len(),
                self@ == after_bytes(old(self)@, bytes@.take(i as int), color),
            decreases bytes@.len() - i,
        {
            assert(bytes@.take(i + 1).drop_last() =~= bytes@.take(i as int));
            self.write_byte(bytes[i], color);
            i = i + 1;
        }
        assert(bytes@.take(bytes@.len() as int) =~= bytes@);
    }
}

} // verus!
