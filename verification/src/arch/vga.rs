//! The VGA text screen: 25 lines of 80 coloured characters, and the cursor.
//!
//! [`Screen`] keeps the characters, and the caller copies them to the frame
//! buffer. [`Cursor`] gives the port writes that move the hardware cursor.

use crate::arch::cpuio::{Port, PortRead, PortWidth, PortWrite, byte_write};
use vstd::prelude::*;
use vstd::string::StringSliceAdditionalSpecFns;

verus! {

/// Number of lines of the screen.
pub const HEIGHT: usize = 25;

/// Number of characters in a line.
pub const WIDTH: usize = 80;

/// Number of characters on the screen.
pub const CELL_COUNT: usize = 2000;

/// Command port of the VGA controller: selects a register.
pub const CRT_COMMAND: u16 = 0x3D4;

/// Data port of the VGA controller: the register that was selected.
pub const CRT_DATA: u16 = 0x3D5;

/// Register that holds the first scan line of the cursor, and the bit that
/// switches the cursor off.
pub const CURSOR_START: u8 = 0x0A;

/// Register that holds bits 8 to 15 of the cursor's position.
pub const CURSOR_LOCATION_HIGH: u8 = 0x0E;

/// Register that holds bits 0 to 7 of the cursor's position.
pub const CURSOR_LOCATION_LOW: u8 = 0x0F;

/// The blank character.
pub const SPACE: u8 = 0x20;

/// Standard VGA colors.
#[derive(Clone, Copy, Debug, PartialEq, Eq, Structural)]
pub enum Color {
    Black,
    Blue,
    Green,
    Cyan,
    Red,
    Magenta,
    Brown,
    LightGrey,
    DarkGrey,
    LightBlue,
    LightGreen,
    LightCyan,
    LightRed,
    LightMagenta,
    Yellow,
    White,
}

impl Color {
    /// The number of the colour in the VGA palette.
    pub open spec fn spec_code(self) -> u8 {
        match self {
            Color::Black => 0,
            Color::Blue => 1,
            Color::Green => 2,
            Color::Cyan => 3,
            Color::Red => 4,
            Color::Magenta => 5,
            Color::Brown => 6,
            Color::LightGrey => 7,
            Color::DarkGrey => 8,
            Color::LightBlue => 9,
            Color::LightGreen => 10,
            Color::LightCyan => 11,
            Color::LightRed => 12,
            Color::LightMagenta => 13,
            Color::Yellow => 14,
            Color::White => 15,
        }
    }

    /// The number of the colour in the VGA palette.
    pub fn code(self) -> (code: u8)
        ensures
            code == self.spec_code(),
            code < 16,
    {
        match self {
            Color::Black => 0,
            Color::Blue => 1,
            Color::Green => 2,
            Color::Cyan => 3,
            Color::Red => 4,
            Color::Magenta => 5,
            Color::Brown => 6,
            Color::LightGrey => 7,
            Color::DarkGrey => 8,
            Color::LightBlue => 9,
            Color::LightGreen => 10,
            Color::LightCyan => 11,
            Color::LightRed => 12,
            Color::LightMagenta => 13,
            Color::Yellow => 14,
            Color::White => 15,
        }
    }
}

/// VGA compound color codes: the background in the high four bits, the
/// foreground in the low four.
#[derive(Clone, Copy, Debug, PartialEq, Eq, Structural)]
pub struct ColorCode(pub u8);

impl ColorCode {
    /// The code of `foreground` on `background`.
    pub open spec fn spec_new(foreground: Color, background: Color) -> ColorCode {
        ColorCode((background.spec_code() * 16 + foreground.spec_code()) as u8)
    }

    /// The code of `foreground` on `background`.
    pub fn new(foreground: Color, background: Color) -> (colors: ColorCode)
        ensures
            colors == Self::spec_new(foreground, background),
    {
        ColorCode(background.code() * 16 + foreground.code())
    }
}

/// A coloured VGA character.
#[derive(Clone, Copy, Debug, PartialEq, Eq, Structural)]
pub struct Char {
    pub code: u8,
    pub colors: ColorCode,
}

/// What a [`Screen`] stands for.
pub struct ScreenView {
    /// Line that is written to.
    pub row: nat,
    /// Column of the next character. It is `WIDTH` where the line is full.
    pub col: nat,
    /// Colours of the characters to come.
    pub colors: ColorCode,
    /// The characters, line after line.
    pub cells: Seq<Char>,
}

/// The column in which writing goes on after the cursor has stepped back
/// into `row`: just behind the last character of the line that is no space,
/// looked for from column `col` down to column 1. Column 0 where there is
/// none.
pub open spec fn line_end(cells: Seq<Char>, row: nat, col: nat) -> nat
    decreases col,
{
    if col == 0 {
        0
    } else if cells[row * WIDTH + col].code != SPACE {
        col + 1
    } else {
        line_end(cells, row, (col - 1) as nat)
    }
}

impl ScreenView {
    /// The screen's invariant.
    pub open spec fn wf(self) -> bool {
        &&& self.row < HEIGHT
        &&& self.col <= WIDTH
        &&& self.cells.len() == CELL_COUNT
    }

    /// A space in the current colours.
    pub open spec fn blank(self) -> Char {
        Char { code: SPACE, colors: self.colors }
    }

    /// The character at `row` and `col`.
    pub open spec fn cell(self, row: nat, col: nat) -> Char {
        self.cells[row * WIDTH + col]
    }

    /// The screen with all characters blank.
    pub open spec fn clear(self) -> ScreenView {
        ScreenView { cells: Seq::new(CELL_COUNT as nat, |i: int| self.blank()), ..self }
    }

    /// The screen with other colours for the characters to come.
    pub open spec fn set_colors(self, colors: ColorCode) -> ScreenView {
        ScreenView { colors, ..self }
    }

    /// The screen with `character` at `row` and `col`.
    pub open spec fn put(self, row: nat, col: nat, character: Char) -> ScreenView {
        ScreenView { cells: self.cells.update(row * WIDTH + col, character), ..self }
    }

    /// The screen with line `row` blank.
    pub open spec fn clear_row(self, row: nat) -> ScreenView {
        ScreenView {
            cells: Seq::new(
                CELL_COUNT as nat,
                |i: int|
                    if row * WIDTH <= i < (row + 1) * WIDTH {
                        self.blank()
                    } else {
                        self.cells[i]
                    },
            ),
            ..self
        }
    }

    /// The characters after every line but the last has taken the place of
    /// the line above it. The last line stays.
    pub open spec fn scrolled(self) -> Seq<Char> {
        Seq::new(
            CELL_COUNT as nat,
            |i: int|
                if i < (HEIGHT - 1) * WIDTH {
                    self.cells[i + WIDTH]
                } else {
                    self.cells[i]
                },
        )
    }

    /// The screen after a line break: the lines move up, the current line is
    /// blanked, and writing goes on at its start.
    pub open spec fn new_line(self) -> ScreenView {
        (ScreenView { cells: self.scrolled(), col: 0, ..self }).clear_row(self.row)
    }

    /// The column of the next tab stop after `col`, the end of the line at
    /// most. Tab stops are eight columns apart.
    pub open spec fn next_tab_stop(col: nat) -> nat {
        if (col / 8 + 1) * 8 <= WIDTH {
            (col / 8 + 1) * 8
        } else {
            WIDTH as nat
        }
    }

    /// The screen after a backspace: the character before the cursor is
    /// blanked. At the start of a line the cursor goes to the end of the text
    /// of the line above, at the start of the first line it stays.
    pub open spec fn backspace(self) -> ScreenView {
        if self.col > 0 {
            (ScreenView { col: (self.col - 1) as nat, ..self }).put(
                self.row,
                (self.col - 1) as nat,
                self.blank(),
            )
        } else if self.row > 0 {
            ScreenView {
                row: (self.row - 1) as nat,
                col: line_end(self.cells, (self.row - 1) as nat, (WIDTH - 1) as nat),
                ..self
            }
        } else {
            self
        }
    }

    /// The screen after the printable character `byte`: it goes to the
    /// cursor's place, after a line break where the line is full, and the
    /// cursor moves on by one.
    pub open spec fn print(self, byte: u8) -> ScreenView {
        let start = if self.col >= WIDTH {
            self.new_line()
        } else {
            self
        };
        (ScreenView { col: start.col + 1, ..start }).put(
            start.row,
            start.col,
            Char { code: byte, colors: self.colors },
        )
    }

    /// The screen after `byte` was written to it.
    pub open spec fn write_byte(self, byte: u8) -> ScreenView {
        if byte == 0x0A {
            self.new_line()
        } else if byte == 0x09 {
            ScreenView { col: Self::next_tab_stop(self.col), ..self }
        } else if byte == 0x08 {
            self.backspace()
        } else {
            self.print(byte)
        }
    }

    /// The screen after the bytes of `text` were written to it, one after
    /// the other.
    pub open spec fn write_bytes(self, text: Seq<u8>) -> ScreenView
        decreases text.len(),
    {
        if text.len() == 0 {
            self
        } else {
            self.write_bytes(text.drop_last()).write_byte(text.last())
        }
    }
}

/// A VGA screen in character mode.
pub struct Screen {
    row: usize,
    col: usize,
    colors: ColorCode,
    buffer: [Char; 2000],
}

impl View for Screen {
    type V = ScreenView;

    closed spec fn view(&self) -> ScreenView {
        ScreenView {
            row: self.row as nat,
            col: self.col as nat,
            colors: self.colors,
            cells: self.buffer@,
        }
    }
}

impl Screen {
    /// A blank screen, white on black, that is written to on the line above
    /// the last.
    pub fn new() -> (screen: Self)
        ensures
            screen@.wf(),
            screen@.row == HEIGHT - 2,
            screen@.col == 0,
            screen@.colors == ColorCode::spec_new(Color::White, Color::Black),
            screen@.cells == Seq::new(CELL_COUNT as nat, |i: int| screen@.blank()),
    {
        let colors = ColorCode::new(Color::White, Color::Black);
        let screen = Screen {
            row: HEIGHT - 2,
            col: 0,
            colors,
            buffer: [Char { code: SPACE, colors };2000],
        };
        assert(screen@.cells =~= Seq::new(CELL_COUNT as nat, |i: int| screen@.blank()));
        screen
    }

    /// Clear the screen.
    pub fn clear(&mut self) -> (screen: &mut Self)
        requires
            old(self)@.wf(),
        ensures
            screen@ == old(self)@.clear(),
            screen@.wf(),
            *final(self) == *final(screen),
    {
        let c = Char { code: SPACE, colors: self.colors };
        let mut index: usize = 0;
        while index < CELL_COUNT
            invariant
                index <= CELL_COUNT,
                self.buffer@.len() == CELL_COUNT,
                self.row == old(self).row,
                self.col == old(self).col,
                self.colors == old(self).colors,
                c == old(self)@.blank(),
                forall|i: int| 0 <= i < index ==> self.buffer@[i] == c,
            decreases CELL_COUNT - index,
        {
            self.buffer[index] = c;
            index += 1;
        }
        assert(self@.cells =~= old(self)@.clear().cells);
        self
    }

    /// Set current text colors.
    pub fn set_colors(&mut self, colors: ColorCode) -> (screen: &mut Self)
        ensures
            screen@ == old(self)@.set_colors(colors),
            *final(self) == *final(screen),
    {
        self.colors = colors;
        self
    }

    /// Write the string `s` to screen.
    pub fn write(&mut self, s: &str)
        requires
            old(self)@.wf(),
        ensures
            final(self)@ == old(self)@.write_bytes(s.spec_bytes()),
            final(self)@.wf(),
    {
        self.write_bytes(s.as_bytes())
    }

    /// Write the `u8`-sized character array to screen.
    pub fn write_bytes(&mut self, text: &[u8])
        requires
            old(self)@.wf(),
        ensures
            final(self)@ == old(self)@.write_bytes(text@),
            final(self)@.wf(),
    {
        let mut index: usize = 0;
        while index < text.len()
            invariant
                index <= text@.len(),
                self@.wf(),
                self@ == old(self)@.write_bytes(text@.take(index as int)),
            decreases text@.len() - index,
        {
            assert(text@.take(index + 1).drop_last() =~= text@.take(index as int));
            self.write_byte(text[index]);
            index += 1;
        }
        assert(text@.take(index as int) =~= text@);
    }

    /// Write a single byte to the screen.
    pub fn write_byte(&mut self, byte: u8)
        requires
            old(self)@.wf(),
        ensures
            final(self)@ == old(self)@.write_byte(byte),
            final(self)@.wf(),
    {
        match byte {
            // Line feed
            0x0A => self.new_line(),
            // Tab
            0x09 => {
                let stop = (self.col / 8 + 1) * 8;
                self.col = if stop <= WIDTH {
                    stop
                } else {
                    WIDTH
                };
            },
            // Backspace
            0x08 => {
                if self.col > 0 {
                    self.col -= 1;
                    self.buffer[self.row * WIDTH + self.col] = Char {
                        code: SPACE,
                        colors: self.colors,
                    };
                } else {
                    if self.row > 0 {
                        self.row -= 1;

                        let row = self.row;
                        let mut col = WIDTH - 1;
                        loop
                            invariant_except_break
                                self.col == 0,
                                line_end(self.buffer@, row as nat, (WIDTH - 1) as nat) == line_end(
                                    self.buffer@,
                                    row as nat,
                                    col as nat,
                                ),
                            invariant
                                col < WIDTH,
                                row == self.row,
                                row < HEIGHT,
                                self.buffer@.len() == CELL_COUNT,
                                self.buffer@ == old(self).buffer@,
                                self.colors == old(self).colors,
                            ensures
                                row == self.row,
                                self.buffer@ == old(self).buffer@,
                                self.colors == old(self).colors,
                                self.col == line_end(
                                    self.buffer@,
                                    row as nat,
                                    (WIDTH - 1) as nat,
                                ),
                                self.col <= WIDTH,
                            decreases col,
                        {
                            if col == 0 {
                                self.col = col;
                                break ;
                            }
                            if self.buffer[row * WIDTH + col].code != SPACE {
                                self.col = col + 1;
                                break ;
                            }
                            col -= 1;
                        }
                    }
                }
            },
            byte => {
                if self.col >= WIDTH {
                    self.new_line();
                }
                let row = self.row;
                let col = self.col;

                self.buffer[row * WIDTH + col] = Char { code: byte, colors: self.colors };
                self.col += 1;
            },
        }
    }

    /// Where the hardware cursor belongs: on the line below the one that is
    /// written to, in the column of the next character.
    pub fn cursor_position(&self) -> (position: (usize, usize))
        requires
            self@.wf(),
        ensures
            position.0 == self@.row + 1,
            position.1 == self@.col,
    {
        (self.row + 1, self.col)
    }

    /// The character at `row` and `col`.
    pub fn char_at(&self, row: usize, col: usize) -> (character: Char)
        requires
            row < HEIGHT,
            col < WIDTH,
        ensures
            character == self@.cell(row as nat, col as nat),
    {
        self.buffer[row * WIDTH + col]
    }

    fn new_line(&mut self)
        requires
            old(self)@.wf(),
        ensures
            final(self)@ == old(self)@.new_line(),
            final(self)@.wf(),
    {
        let mut index: usize = 0;
        while index < (HEIGHT - 1) * WIDTH
            invariant
                index <= (HEIGHT - 1) * WIDTH,
                self.buffer@.len() == CELL_COUNT,
                self.row == old(self).row,
                self.col == old(self).col,
                self.colors == old(self).colors,
                forall|i: int| 0 <= i < index ==> self.buffer@[i] == old(self).buffer@[i + WIDTH],
                forall|i: int| index <= i < CELL_COUNT ==> self.buffer@[i] == old(self).buffer@[i],
            decreases (HEIGHT - 1) * WIDTH - index,
        {
            self.buffer[index] = self.buffer[index + WIDTH];
            index += 1;
        }
        assert(self.buffer@ =~= old(self)@.scrolled());

        self.col = 0;

        let row = self.row;
        self.clear_row(row);
    }

    fn clear_row(&mut self, row: usize)
        requires
            row < HEIGHT,
            old(self)@.cells.len() == CELL_COUNT,
        ensures
            final(self)@ == old(self)@.clear_row(row as nat),
    {
        let blank = Char { code: SPACE, colors: self.colors };
        let mut col: usize = 0;
        while col < WIDTH
            invariant
                col <= WIDTH,
                row < HEIGHT,
                self.buffer@.len() == CELL_COUNT,
                self.row == old(self).row,
                self.col == old(self).col,
                self.colors == old(self).colors,
                blank == old(self)@.blank(),
                forall|i: int| row * WIDTH <= i < row * WIDTH + col ==> self.buffer@[i] == blank,
                forall|i: int|
                    0 <= i < CELL_COUNT && !(row * WIDTH <= i < row * WIDTH + col)
                        ==> self.buffer@[i] == old(self).buffer@[i],
            decreases WIDTH - col,
        {
            self.buffer[row * WIDTH + col] = blank;
            col += 1;
        }
        assert(self@.cells =~= old(self)@.clear_row(row as nat).cells);
    }
}

/// A VGA screen cursor.
pub struct Cursor {
    command: Port<u8>,
    data: Port<u8>,
}

impl Cursor {
    /// The cursor is driven through the ports of the VGA controller.
    pub closed spec fn wf(&self) -> bool {
        self.command.address() == CRT_COMMAND && self.data.address() == CRT_DATA
    }

    /// The position of `row` and `col`, counted in characters from the top
    /// left of the screen.
    pub open spec fn position(row: usize, col: usize) -> int {
        row * WIDTH + col
    }

    /// The cursor of the VGA controller.
    pub fn new() -> (cursor: Self)
        ensures
            cursor.wf(),
    {
        Cursor { command: Port::new(CRT_COMMAND), data: Port::new(CRT_DATA) }
    }

    /// The first step of switching the cursor on: select the register that
    /// holds the switch, and read it. What is read goes to
    /// [`Cursor::enable`].
    pub fn read_start(&self) -> (access: (PortWrite, PortRead))
        requires
            self.wf(),
        ensures
            access.0 == byte_write(CRT_COMMAND, CURSOR_START),
            access.1 == (PortRead { port: CRT_DATA, width: PortWidth::Byte }),
    {
        (self.command.write(CURSOR_START), self.data.read())
    }

    /// Enable the cursor: the writes that select the register again and
    /// clear the bit that switches the cursor off, keeping the scan line in
    /// the five bits below it. `start` is what [`Cursor::read_start`] read.
    pub fn enable(&self, start: u8) -> (writes: Vec<PortWrite>)
        requires
            self.wf(),
        ensures
            writes@ == seq![
                byte_write(CRT_COMMAND, CURSOR_START),
                byte_write(CRT_DATA, (start & 0x1F) & !0x20u8),
            ],
    {
        let dc = start & 0x1F;
        let mut writes: Vec<PortWrite> = Vec::new();
        writes.push(self.command.write(CURSOR_START));
        writes.push(self.data.write(dc & !0x20));
        writes
    }

    /// Set the cursor at the specific row and column: the writes that put
    /// the low byte of the position in one register and the high byte in the
    /// other.
    pub fn set(&self, row: usize, col: usize) -> (writes: Vec<PortWrite>)
        requires
            self.wf(),
            Self::position(row, col) <= usize::MAX,
        ensures
            writes@ == seq![
                byte_write(CRT_COMMAND, CURSOR_LOCATION_LOW),
                byte_write(CRT_DATA, (Self::position(row, col) % 256) as u8),
                byte_write(CRT_COMMAND, CURSOR_LOCATION_HIGH),
                byte_write(CRT_DATA, (Self::position(row, col) / 256 % 256) as u8),
            ],
    {
        let position: usize = (row * WIDTH) + col;
        let mut writes: Vec<PortWrite> = Vec::new();
        writes.push(self.command.write(CURSOR_LOCATION_LOW));
        writes.push(self.data.write((position % 256) as u8));
        writes.push(self.command.write(CURSOR_LOCATION_HIGH));
        writes.push(self.data.write((position / 256 % 256) as u8));
        writes
    }
}


} // verus!
