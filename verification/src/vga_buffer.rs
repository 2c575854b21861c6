//! The text-mode display: its colours, and a writer that fills the last line
//! of the screen and scrolls the lines above it.

use vstd::prelude::*;

verus! {

/// The sixteen colours of the text mode.
#[allow(dead_code)]
#[derive(Debug, Clone, Copy, PartialEq, Eq, Structural)]
pub enum Color {
    Black,
    Blue,
    Green,
    Cyan,
    Red,
    Magenta,
    Brown,
    LightGray,
    DarkGray,
    LightBlue,
    LightGreen,
    LightCyan,
    LightRed,
    Pink,
    Yellow,
    White,
}

impl Color {
    /// The number of the colour in the display's palette.
    pub open spec fn code_spec(self) -> u8 {
        match self {
            Color::Black => 0,
            Color::Blue => 1,
            Color::Green => 2,
            Color::Cyan => 3,
            Color::Red => 4,
            Color::Magenta => 5,
            Color::Brown => 6,
            Color::LightGray => 7,
            Color::DarkGray => 8,
            Color::LightBlue => 9,
            Color::LightGreen => 10,
            Color::LightCyan => 11,
            Color::LightRed => 12,
            Color::Pink => 13,
            Color::Yellow => 14,
            Color::White => 15,
        }
    }

    /// The number of the colour in the display's palette.
    pub fn code(self) -> (code: u8)
        ensures
            code == self.code_spec(),
            code < 16,
    {
        match self {
            Color::Black => 0,
            Color::Blue => 1,
            Color::Green => 2,
            Color::Cyan => 3,
            Color::Red => 4,
            Color::Magenta => 5,
            Color::Brown => 6,
            Color::LightGray => 7,
            Color::DarkGray => 8,
            Color::LightBlue => 9,
            Color::LightGreen => 10,
            Color::LightCyan => 11,
            Color::LightRed => 12,
            Color::Pink => 13,
            Color::Yellow => 14,
            Color::White => 15,
        }
    }
}

/// The colour byte of a character cell: background in the high four bits,
/// foreground in the low four.
#[derive(Debug, Clone, Copy, PartialEq, Eq, Structural)]
pub struct ColorCode(pub u8);

impl ColorCode {
    /// The colour byte for the given foreground and background.
    pub fn new(foreground: Color, background: Color) -> (code: ColorCode)
        ensures
            code.0 == background.code_spec() * 16 + foreground.code_spec(),
    {
        let fg: u8 = foreground.code();
        let bg: u8 = background.code();
        assert((bg << 4) | fg == bg * 16 + fg) by (bit_vector)
            requires
                fg < 16,
                bg < 16,
        ;
        ColorCode((bg << 4) | fg)
    }
}

/// Number of text lines on the screen.
pub const BUFFER_HEIGHT: usize = 25;

/// Number of character cells in a line.
pub const BUFFER_WIDTH: usize = 80;

/// Width of a tab stop in cells.
pub const TAB_WIDTH: usize = 8;

/// The byte that is shown for a character without a glyph.
pub const UNKNOWN_GLYPH: u8 = 6;

/// One character cell: the glyph and its colours.
#[derive(Debug, Clone, Copy, PartialEq, Eq, Structural)]
pub struct ScreenChar {
    pub ascii_character: u8,
    pub color_code: ColorCode,
}

/// The cells of the screen, line by line from the top.
pub type Grid = Seq<Seq<ScreenChar>>;

/// What a writer is made of: the cursor's column in the last line, the
/// colours in use, and the cells of the screen.
pub struct Screen {
    pub column: int,
    pub color: ColorCode,
    pub grid: Grid,
}

/// The glyph of a character: printable ASCII stands for itself, and nothing
/// else has one.
pub open spec fn encode_spec(character: char) -> Option<u8> {
    if ' ' <= character && character <= '~' {
        Some(character as u8)
    } else {
        None
    }
}

/// The glyph of a character, if it has one.
pub fn encode(character: char) -> (glyph: Option<u8>)
    ensures
        glyph == encode_spec(character),
{
    if ' ' <= character && character <= '~' {
        Some(character as u8)
    } else {
        None
    }
}

/// An empty cell in the given colours.
pub open spec fn blank(color: ColorCode) -> ScreenChar {
    ScreenChar { ascii_character: 0x20, color_code: color }
}

/// A line of empty cells.
pub open spec fn blank_row(color: ColorCode) -> Seq<ScreenChar> {
    Seq::new(BUFFER_WIDTH as nat, |col: int| blank(color))
}

/// The screen has its full height and width, and the cursor is within the
/// last line or just behind its end.
pub open spec fn screen_ok(screen: Screen) -> bool {
    &&& 0 <= screen.column <= BUFFER_WIDTH
    &&& screen.grid.len() == BUFFER_HEIGHT
    &&& forall|row: int| 0 <= row < BUFFER_HEIGHT ==> (#[trigger] screen.grid[row]).len() == BUFFER_WIDTH
}

/// A line break: every line moves up by one, the first is lost, the last
/// becomes empty, and the cursor returns to its start.
pub open spec fn after_new_line(screen: Screen) -> Screen {
    Screen {
        column: 0,
        color: screen.color,
        grid: Seq::new(
            BUFFER_HEIGHT as nat,
            |row: int|
                if row < BUFFER_HEIGHT - 1 {
                    screen.grid[row + 1]
                } else {
                    blank_row(screen.color)
                },
        ),
    }
}

/// One glyph: a full line is broken first; the glyph then goes to the
/// cursor's cell in the last line, and the cursor moves on by one.
pub open spec fn after_byte(screen: Screen, byte: u8) -> Screen {
    let start = if screen.column >= BUFFER_WIDTH {
        after_new_line(screen)
    } else {
        screen
    };
    let last = BUFFER_HEIGHT - 1;
    Screen {
        column: start.column + 1,
        color: start.color,
        grid: start.grid.update(
            last,
            start.grid[last].update(
                start.column,
                ScreenChar { ascii_character: byte, color_code: start.color },
            ),
        ),
    }
}

/// A tab: spaces up to the next tab stop, none where the cursor is on one.
pub open spec fn after_tab(screen: Screen) -> Screen
    decreases BUFFER_WIDTH - screen.column,
{
    if 0 <= screen.column < BUFFER_WIDTH && screen.column % (TAB_WIDTH as int) != 0 {
        after_tab(after_byte(screen, 0x20))
    } else {
        screen
    }
}

/// One character: a line feed breaks the line, a tab moves to the next tab
/// stop, and any other character shows its glyph, or the glyph for the
/// unknown where it has none.
pub open spec fn after_char(screen: Screen, character: char) -> Screen {
    if character == '\n' {
        after_new_line(screen)
    } else if character == '\t' {
        after_tab(screen)
    } else {
        after_byte(
            screen,
            match encode_spec(character) {
                Some(glyph) => glyph,
                None => UNKNOWN_GLYPH,
            },
        )
    }
}

/// A string: its characters one after the other.
pub open spec fn after_string(screen: Screen, text: Seq<char>) -> Screen
    decreases text.len(),
{
    if text.len() == 0 {
        screen
    } else {
        after_char(after_string(screen, text.drop_last()), text.last())
    }
}

/// The writer of the text-mode screen.
pub struct Writer {
    column_position: usize,
    color_code: ColorCode,
    chars: Vec<Vec<ScreenChar>>,
}

impl Writer {
    /// The cursor, the colours and the cells of the screen.
    pub closed spec fn view(&self) -> Screen {
        Screen {
            column: self.column_position as int,
            color: self.color_code,
            grid: Seq::new(self.chars@.len(), |row: int| self.chars@[row]@),
        }
    }

    /// The screen has its shape.
    pub open spec fn wf(&self) -> bool {
        screen_ok(self@)
    }

    /// A writer in the given colours over an empty screen, the cursor at the
    /// start of the last line.
    pub fn new(color_code: ColorCode) -> (writer: Writer)
        ensures
            writer.wf(),
            writer@.column == 0,
            writer@.color == color_code,
            forall|row: int|
                0 <= row < BUFFER_HEIGHT ==> #[trigger] writer@.grid[row] == blank_row(color_code),
    {
        let cell = ScreenChar { ascii_character: 0x20, color_code };
        let mut chars: Vec<Vec<ScreenChar>> = Vec::new();
        let mut row: usize = 0;
        while row < BUFFER_HEIGHT
            invariant
                row <= BUFFER_HEIGHT,
                chars@.len() == row,
                cell == blank(color_code),
                forall|r: int| 0 <= r < row ==> (#[trigger] chars@[r])@ =~= blank_row(color_code),
            decreases BUFFER_HEIGHT - row,
        {
            let mut line: Vec<ScreenChar> = Vec::new();
            let mut col: usize = 0;
            while col < BUFFER_WIDTH
                invariant
                    col <= BUFFER_WIDTH,
                    line@.len() == col,
                    forall|c: int| 0 <= c < col ==> line@[c] == cell,
                decreases BUFFER_WIDTH - col,
            {
                line.push(cell);
                col = col + 1;
            }
            chars.push(line);
            row = row + 1;
        }
        Writer { column_position: 0, color_code, chars }
    }

    /// The column of the cursor in the last line.
    pub fn column_position(&self) -> (column: usize)
        ensures
            column == self@.column,
    {
        self.column_position
    }

    /// The cell at the given line and column.
    pub fn char_at(&self, row: usize, col: usize) -> (cell: ScreenChar)
        requires
            self.wf(),
            row < BUFFER_HEIGHT,
            col < BUFFER_WIDTH,
        ensures
            cell == self@.grid[row as int][col as int],
    {
        assert(self@.grid[row as int].len() == BUFFER_WIDTH);
        self.chars[row][col]
    }

    /// Puts `cell` at the given line and column.
    fn put(&mut self, row: usize, col: usize, cell: ScreenChar)
        requires
            old(self).wf(),
            row < BUFFER_HEIGHT,
            col < BUFFER_WIDTH,
        ensures
            final(self).wf(),
            final(self)@.column == old(self)@.column,
            final(self)@.color == old(self)@.color,
            final(self)@.grid == old(self)@.grid.update(
                row as int,
                old(self)@.grid[row as int].update(col as int, cell),
            ),
    {
        assert(self@.grid[row as int].len() == BUFFER_WIDTH);
        self.chars[row][col] = cell;
        proof {
            assert(self@.grid =~= old(self)@.grid.update(
                row as int,
                old(self)@.grid[row as int].update(col as int, cell),
            ));
            assert forall|r: int| 0 <= r < BUFFER_HEIGHT implies (#[trigger] self@.grid[r]).len()
                == BUFFER_WIDTH by {
                assert(old(self)@.grid[r].len() == BUFFER_WIDTH);
            }
        }
    }

    /// Empties the given line.
    fn clear_row(&mut self, row: usize)
        requires
            old(self).wf(),
            row < BUFFER_HEIGHT,
        ensures
            final(self).wf(),
            final(self)@.column == old(self)@.column,
            final(self)@.color == old(self)@.color,
            final(self)@.grid == old(self)@.grid.update(row as int, blank_row(old(self)@.color)),
    {
        let cell = ScreenChar { ascii_character: 0x20, color_code: self.color_code };
        let mut col: usize = 0;
        while col < BUFFER_WIDTH
            invariant
                col <= BUFFER_WIDTH,
                row < BUFFER_HEIGHT,
                self.wf(),
                old(self).wf(),
                self@.column == old(self)@.column,
                self@.color == old(self)@.color,
                cell == blank(self@.color),
                forall|r: int|
                    0 <= r < BUFFER_HEIGHT && r != row ==> #[trigger] self@.grid[r] == old(
                        self,
                    )@.grid[r],
                forall|c: int| 0 <= c < col ==> #[trigger] self@.grid[row as int][c] == cell,
            decreases BUFFER_WIDTH - col,
        {
            self.put(row, col, cell);
            col = col + 1;
        }
        proof {
            assert(self@.grid[row as int].len() == BUFFER_WIDTH);
            assert(self@.grid[row as int] =~= blank_row(old(self)@.color));
            assert(self@.grid =~= old(self)@.grid.update(row as int, blank_row(old(self)@.color)));
        }
    }

    /// Breaks the line: moves every line up by one and empties the last.
    fn new_line(&mut self)
        requires
            old(self).wf(),
        ensures
            final(self).wf(),
            final(self)@ == after_new_line(old(self)@),
    {
        let mut row: usize = 1;
        while row < BUFFER_HEIGHT
            invariant
                1 <= row <= BUFFER_HEIGHT,
                self.wf(),
                old(self).wf(),
                self@.column == old(self)@.column,
                self@.color == old(self)@.color,
                forall|r: int|
                    0 <= r < row - 1 ==> #[trigger] self@.grid[r] == old(self)@.grid[r + 1],
                forall|r: int|
                    row - 1 <= r < BUFFER_HEIGHT ==> #[trigger] self@.grid[r] == old(self)@.grid[r],
            decreases BUFFER_HEIGHT - row,
        {
            let mut col: usize = 0;
            while col < BUFFER_WIDTH
                invariant
                    col <= BUFFER_WIDTH,
                    1 <= row < BUFFER_HEIGHT,
                    self.wf(),
                    old(self).wf(),
                    self@.column == old(self)@.column,
                    self@.color == old(self)@.color,
                    forall|r: int|
                        0 <= r < row - 1 ==> #[trigger] self@.grid[r] == old(self)@.grid[r + 1],
                    forall|r: int|
                        row <= r < BUFFER_HEIGHT ==> #[trigger] self@.grid[r] == old(self)@.grid[r],
                    forall|c: int|
                        0 <= c < col ==> #[trigger] self@.grid[row - 1][c] == old(
                            self,
                        )@.grid[row as int][c],
                decreases BUFFER_WIDTH - col,
            {
                let character = self.char_at(row, col);
                self.put(row - 1, col, character);
                col = col + 1;
            }
            proof {
                assert(old(self)@.grid[row as int].len() == BUFFER_WIDTH);
                assert(self@.grid[row - 1].len() == BUFFER_WIDTH);
                assert(self@.grid[row - 1] =~= old(self)@.grid[row as int]);
            }
            row = row + 1;
        }
        self.clear_row(BUFFER_HEIGHT - 1);
        self.column_position = 0;
        proof {
            assert(self@.grid =~= after_new_line(old(self)@).grid);
        }
    }

    /// Writes one glyph at the cursor, breaking the line first where it is
    /// full.
    pub fn write_byte(&mut self, byte: u8)
        requires
            old(self).wf(),
        ensures
            final(self).wf(),
            final(self)@ == after_byte(old(self)@, byte),
    {
        if self.column_position >= BUFFER_WIDTH {
            self.new_line();
        }
        let row = BUFFER_HEIGHT - 1;
        let col = self.column_position;
        let color_code = self.color_code;
        self.put(row, col, ScreenChar { ascii_character: byte, color_code });
        self.column_position = self.column_position + 1;
    }

    /// Writes one character: see [`after_char`].
    pub fn write_char(&mut self, character: char)
        requires
            old(self).wf(),
        ensures
            final(self).wf(),
            final(self)@ == after_char(old(self)@, character),
    {
        if character == '\n' {
            self.new_line();
        } else if character == '\t' {
            while self.column_position % TAB_WIDTH != 0
                invariant
                    self.wf(),
                    after_tab(self@) == after_tab(old(self)@),
                decreases BUFFER_WIDTH - self.column_position,
            {
                self.write_byte(0x20);
            }
            assert(after_tab(self@) == self@);
        } else {
            let byte = match encode(character) {
                Some(glyph) => glyph,
                None => UNKNOWN_GLYPH,
            };
            self.write_byte(byte);
        }
    }

    /// Writes a string, character by character.
    pub fn write_string(&mut self, s: &str)
        requires
            old(self).wf(),
        ensures
            final(self).wf(),
            final(self)@ == after_string(old(self)@, s@),
    {
        let len = s.unicode_len();
        let mut i: usize = 0;
        while i < len
            invariant
                i <= len,
                len == s@.len(),
                self.wf(),
                self@ == after_string(old(self)@, s@.take(i as int)),
            decreases len - i,
        {
            let character = s.get_char(i);
            proof {
                assert(s@.take(i + 1).drop_last() =~= s@.take(i as int));
            }
            self.write_char(character);
            i = i + 1;
        }
        proof {
            assert(s@.take(len as int) =~= s@);
        }
    }
}

} // verus!
