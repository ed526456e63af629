//! The text screen: 25 rows of 80 characters, each with a colour. Text is
//! written into the bottom row, and the rows move up when a line ends.

use vstd::prelude::*;
use vstd::string::StringSliceAdditionalSpecFns;

verus! {

/// The sixteen colours of the text mode.
#[derive(Debug, Clone, Copy, PartialEq, Eq, Structural)]
pub enum Color {
    Black,
    Blue,
    Green,
    Cyan,
    Red,
    Magenta,
    Brown,
    LightGray,
    DarkGray,
    LightBlue,
    LightGreen,
    LightCyan,
    LightRed,
    Pink,
    Yellow,
    White,
}

impl Color {
    /// The colour's number, from 0 for black to 15 for white.
    pub open spec fn number(self) -> u8 {
        match self {
            Color::Black => 0,
            Color::Blue => 1,
            Color::Green => 2,
            Color::Cyan => 3,
            Color::Red => 4,
            Color::Magenta => 5,
            Color::Brown => 6,
            Color::LightGray => 7,
            Color::DarkGray => 8,
            Color::LightBlue => 9,
            Color::LightGreen => 10,
            Color::LightCyan => 11,
            Color::LightRed => 12,
            Color::Pink => 13,
            Color::Yellow => 14,
            Color::White => 15,
        }
    }

    /// The colour's number, from 0 for black to 15 for white.
    pub fn as_u8(self) -> (number: u8)
        ensures
            number == self.number(),
    {
        match self {
            Color::Black => 0,
            Color::Blue => 1,
            Color::Green => 2,
            Color::Cyan => 3,
            Color::Red => 4,
            Color::Magenta => 5,
            Color::Brown => 6,
            Color::LightGray => 7,
            Color::DarkGray => 8,
            Color::LightBlue => 9,
            Color::LightGreen => 10,
            Color::LightCyan => 11,
            Color::LightRed => 12,
            Color::Pink => 13,
            Color::Yellow => 14,
            Color::White => 15,
        }
    }
}

/// A foreground and a background colour in one byte: the background in the
/// high four bits, the foreground in the low four.
#[derive(Debug, Clone, Copy, PartialEq, Eq, Structural)]
pub struct ColorCode(pub u8);

impl ColorCode {
    /// The colour code of `foreground` on `background`.
    pub fn new(foreground: Color, background: Color) -> (code: ColorCode)
        ensures
            code.0 == background.number() * 16 + foreground.number(),
    {
        let high: u8 = background.as_u8();
        let low: u8 = foreground.as_u8();
        assert((high << 4 | low) == high * 16 + low) by (bit_vector)
            requires
                high < 16,
                low < 16,
        ;
        ColorCode(high << 4 | low)
    }
}

/// A character on the screen with its colours.
#[derive(Debug, Clone, Copy, PartialEq, Eq, Structural)]
pub struct ScreenChar {
    /// The character's code.
    pub ascii_character: u8,
    /// The character's colours.
    pub color_code: ColorCode,
}

/// The number of characters in a row.
pub const BUFFER_WIDTH: usize = 80;

/// The number of rows.
pub const BUFFER_HEIGHT: usize = 25;

/// The number of characters on the screen.
pub const BUFFER_CELLS: usize = 2000;

/// The code of the line feed.
pub const NEWLINE: u8 = 0x0a;

/// The code of the space.
pub const SPACE: u8 = 0x20;

/// The code of the square that stands for a byte that cannot be shown.
pub const UNPRINTABLE: u8 = 0xfe;

/// The byte that is written for `byte`: itself where it is a printable
/// ASCII character or a line feed, and a square otherwise.
pub open spec fn shown_byte(byte: u8) -> u8 {
    if (0x20 <= byte <= 0x7e) || byte == NEWLINE {
        byte
    } else {
        UNPRINTABLE
    }
}

/// What a writer holds: the column of the cursor in the bottom row, the
/// colours it writes in, and the characters on the screen row by row.
pub struct Screen {
    /// The column at which the next character goes.
    pub column_position: nat,
    /// The colours of what is written.
    pub color_code: ColorCode,
    /// The characters, the top row first, each row from left to right.
    pub chars: Seq<ScreenChar>,
}

impl Screen {
    /// The screen has all its characters, and the cursor stands in the
    /// bottom row or just past its end.
    pub open spec fn wf(self) -> bool {
        self.chars.len() == BUFFER_CELLS && self.column_position <= BUFFER_WIDTH
    }

    /// The character in row `row`, counted from the top, and column `col`.
    pub open spec fn char_at(self, row: int, col: int) -> ScreenChar {
        self.chars[row * BUFFER_WIDTH + col]
    }

    /// A space in the writer's colours.
    pub open spec fn blank(self) -> ScreenChar {
        ScreenChar { ascii_character: SPACE, color_code: self.color_code }
    }

    /// The screen with row `row` overwritten by spaces.
    pub open spec fn clear_row(self, row: int) -> Screen {
        Screen {
            chars: Seq::new(
                self.chars.len(),
                |i: int|
                    if row * BUFFER_WIDTH <= i < row * BUFFER_WIDTH + BUFFER_WIDTH {
                        self.blank()
                    } else {
                        self.chars[i]
                    },
            ),
            ..self
        }
    }

    /// The screen with every row but the top one moved up by one. The
    /// bottom row is left as it was.
    pub open spec fn shift_up(self) -> Screen {
        Screen {
            chars: Seq::new(
                self.chars.len(),
                |i: int|
                    if i < BUFFER_CELLS - BUFFER_WIDTH {
                        self.chars[i + BUFFER_WIDTH]
                    } else {
                        self.chars[i]
                    },
            ),
            ..self
        }
    }

    /// The screen after a line has ended: the rows have moved up, the
    /// bottom row is empty and the cursor at its left end.
    pub open spec fn new_line(self) -> Screen {
        Screen { column_position: 0, ..self.shift_up().clear_row(BUFFER_HEIGHT - 1) }
    }

    /// The screen after `byte` was written: a line feed ends the line; any
    /// other byte goes to the cursor in the bottom row, after a new line
    /// where the row is full, and the cursor moves right by one.
    pub open spec fn write_byte(self, byte: u8) -> Screen {
        if byte == NEWLINE {
            self.new_line()
        } else {
            let at = if self.column_position >= BUFFER_WIDTH {
                self.new_line()
            } else {
                self
            };
            Screen {
                column_position: at.column_position + 1,
                chars: at.chars.update(
                    (BUFFER_HEIGHT - 1) * BUFFER_WIDTH + at.column_position,
                    ScreenChar { ascii_character: byte, color_code: at.color_code },
                ),
                ..at
            }
        }
    }

    /// The screen after the bytes of a string were written, each as
    /// `shown_byte` gives it.
    pub open spec fn write_string(self, bytes: Seq<u8>) -> Screen
        decreases bytes.len(),
    {
        if bytes.len() == 0 {
            self
        } else {
            self.write_string(bytes.drop_last()).write_byte(shown_byte(bytes.last()))
        }
    }

    /// The screen with every row overwritten by spaces. The cursor stays.
    pub open spec fn clear_screen(self) -> Screen {
        Screen { chars: Seq::new(self.chars.len(), |i: int| self.blank()), ..self }
    }
}

/// Writes text to the screen and keeps track of the cursor.
pub struct Writer {
    column_position: usize,
    color_code: ColorCode,
    buffer: [ScreenChar; 2000],
}

impl View for Writer {
    type V = Screen;

    closed spec fn view(&self) -> Screen {
        Screen {
            column_position: self.column_position as nat,
            color_code: self.color_code,
            chars: self.buffer@,
        }
    }
}

impl Writer {
    #[verifier::type_invariant]
    spec fn cursor_in_row(self) -> bool {
        self.column_position <= BUFFER_WIDTH
    }

    /// A writer in the colours `color_code` over a screen of spaces, with
    /// the cursor at the left end of the bottom row.
    pub fn new(color_code: ColorCode) -> (writer: Self)
        ensures
            writer@.wf(),
            writer@.column_position == 0,
            writer@.color_code == color_code,
            forall|i: int| 0 <= i < BUFFER_CELLS ==> #[trigger] writer@.chars[i] == writer@.blank(),
    {
        let blank = ScreenChar { ascii_character: SPACE, color_code };
        Writer { column_position: 0, color_code, buffer: [blank; 2000] }
    }

    /// A writer in the colours `color_code` over a screen that shows
    /// `chars`, with the cursor at the left end of the bottom row.
    pub fn with_chars(color_code: ColorCode, chars: [ScreenChar; 2000]) -> (writer: Self)
        ensures
            writer@ == (Screen { column_position: 0, color_code, chars: chars@ }),
            writer@.wf(),
    {
        Writer { column_position: 0, color_code, buffer: chars }
    }

    /// The column at which the next character goes.
    pub fn column_position(&self) -> (column: usize)
        ensures
            column == self@.column_position,
            self@.wf(),
    {
        proof {
            use_type_invariant(self);
        }
        self.column_position
    }

    /// The colours of what is written.
    pub fn color_code(&self) -> (code: ColorCode)
        ensures
            code == self@.color_code,
    {
        self.color_code
    }

    /// The character in row `row`, counted from the top, and column `col`,
    /// or `None` where the screen has no such place.
    pub fn char_at(&self, row: usize, col: usize) -> (character: Option<ScreenChar>)
        ensures
            character == (if row < BUFFER_HEIGHT && col < BUFFER_WIDTH {
                Some(self@.char_at(row as int, col as int))
            } else {
                None
            }),
    {
        proof {
            use_type_invariant(self);
        }
        if row < BUFFER_HEIGHT && col < BUFFER_WIDTH {
            Some(self.buffer[row * BUFFER_WIDTH + col])
        } else {
            None
        }
    }

    /// Writes one byte: a line feed ends the line, any other byte goes to
    /// the cursor.
    pub fn write_byte(&mut self, byte: u8)
        ensures
            final(self)@ == old(self)@.write_byte(byte),
            final(self)@.wf(),
    {
        proof {
            use_type_invariant(&*self);
        }
        if byte == NEWLINE {
            self.new_line();
        } else {
            if self.column_position >= BUFFER_WIDTH {
                self.new_line();
            }
            let row: usize = BUFFER_HEIGHT - 1;
            let col: usize = self.column_position;
            self.buffer[row * BUFFER_WIDTH + col] = ScreenChar {
                ascii_character: byte,
                color_code: self.color_code,
            };
            self.column_position = self.column_position + 1;
        }
    }

    /// Writes a string: its printable ASCII characters and line feeds as
    /// they are, and a square for every other byte.
    pub fn write_string(&mut self, s: &str)
        ensures
            final(self)@ == old(self)@.write_string(s.spec_bytes()),
            final(self)@.wf(),
    {
        proof {
            use_type_invariant(&*self);
        }
        let bytes = s.as_bytes();
        let mut i: usize = 0;
        while i < bytes.len()
            invariant
                i <= bytes@.len(),
                bytes@ == s.spec_bytes(),
                self@ == old(self)@.write_string(bytes@.take(i as int)),
                self@.wf(),
            decreases bytes.len() - i,
        {
            let byte = bytes[i];
            proof {
                assert(bytes@.take(i + 1).drop_last() == bytes@.take(i as int));
            }
            if (0x20 <= byte && byte <= 0x7e) || byte == NEWLINE {
                self.write_byte(byte);
            } else {
                self.write_byte(UNPRINTABLE);
            }
            i = i + 1;
        }
        proof {
            assert(bytes@.take(i as int) == bytes@);
        }
    }

    /// Overwrites the whole screen with spaces.
    pub fn clear_screen(&mut self)
        ensures
            final(self)@ == old(self)@.clear_screen(),
            final(self)@.wf(),
    {
        proof {
            use_type_invariant(&*self);
        }
        let mut row: usize = 0;
        while row < BUFFER_HEIGHT
            invariant
                row <= BUFFER_HEIGHT,
                self@.wf(),
                self@.column_position == old(self)@.column_position,
                self@.color_code == old(self)@.color_code,
                forall|i: int|
                    0 <= i < BUFFER_CELLS ==> #[trigger] self@.chars[i] == (if i < row
                        * BUFFER_WIDTH {
                        self@.blank()
                    } else {
                        old(self)@.chars[i]
                    }),
            decreases BUFFER_HEIGHT - row,
        {
            self.clear_row(row);
            row = row + 1;
        }
        assert(self@.chars =~= old(self)@.clear_screen().chars);
    }

    /// Ends the line: moves every row up by one, empties the bottom row and
    /// puts the cursor at its left end.
    fn new_line(&mut self)
        ensures
            final(self)@ == old(self)@.new_line(),
            final(self)@.wf(),
    {
        proof {
            use_type_invariant(&*self);
        }
        let mut row: usize = 1;
        while row < BUFFER_HEIGHT
            invariant
                1 <= row <= BUFFER_HEIGHT,
                self@.wf(),
                self@.column_position == old(self)@.column_position,
                self@.color_code == old(self)@.color_code,
                forall|i: int|
                    0 <= i < BUFFER_CELLS ==> #[trigger] self@.chars[i] == (if i < (row - 1)
                        * BUFFER_WIDTH {
                        old(self)@.chars[i + BUFFER_WIDTH]
                    } else {
                        old(self)@.chars[i]
                    }),
            decreases BUFFER_HEIGHT - row,
        {
            let mut col: usize = 0;
            while col < BUFFER_WIDTH
                invariant
                    1 <= row < BUFFER_HEIGHT,
                    col <= BUFFER_WIDTH,
                    self@.wf(),
                    self@.column_position == old(self)@.column_position,
                    self@.color_code == old(self)@.color_code,
                    forall|i: int|
                        0 <= i < BUFFER_CELLS ==> #[trigger] self@.chars[i] == (if i < (row - 1)
                            * BUFFER_WIDTH + col {
                            old(self)@.chars[i + BUFFER_WIDTH]
                        } else {
                            old(self)@.chars[i]
                        }),
                decreases BUFFER_WIDTH - col,
            {
                let character = self.buffer[row * BUFFER_WIDTH + col];
                self.buffer[(row - 1) * BUFFER_WIDTH + col] = character;
                col = col + 1;
            }
            row = row + 1;
        }
        assert(self@.chars =~= old(self)@.shift_up().chars);
        self.clear_row(BUFFER_HEIGHT - 1);
        self.column_position = 0;
    }

    /// Overwrites row `row` with spaces.
    fn clear_row(&mut self, row: usize)
        requires
            row < BUFFER_HEIGHT,
        ensures
            final(self)@ == old(self)@.clear_row(row as int),
            final(self)@.wf(),
    {
        proof {
            use_type_invariant(&*self);
        }
        let blank = ScreenChar { ascii_character: SPACE, color_code: self.color_code };
        let mut col: usize = 0;
        while col < BUFFER_WIDTH
            invariant
                row < BUFFER_HEIGHT,
                col <= BUFFER_WIDTH,
                self@.wf(),
                blank == self@.blank(),
                self@.column_position == old(self)@.column_position,
                self@.color_code == old(self)@.color_code,
                forall|i: int|
                    0 <= i < BUFFER_CELLS ==> #[trigger] self@.chars[i] == (if row * BUFFER_WIDTH
                        <= i < row * BUFFER_WIDTH + col {
                        blank
                    } else {
                        old(self)@.chars[i]
                    }),
            decreases BUFFER_WIDTH - col,
        {
            self.buffer[row * BUFFER_WIDTH + col] = blank;
            col = col + 1;
        }
        assert(self@.chars =~= old(self)@.clear_row(row as int).chars);
    }
}

} // verus!
