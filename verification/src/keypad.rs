//! A keypad of four rows and four columns, scanned column by column.
//!
//! To scan a column, the keypad puts a nibble with one bit set on the column
//! lines and reads the row lines. The lines are numbered against the rows
//! and columns: column 0 is bit 3 of the nibble that is written, and row 0
//! is bit 3 of the nibble that is read.

use crate::error::{GpioError, GpioResult};
use crate::gpio::{
    read_nibble, value_read, value_written, write_nibble, GpioBusInput, GpioBusOutput,
};
use std::fmt::Debug;
use vstd::prelude::*;

verus! {

/// A key of the keypad.
#[derive(Copy, Clone, Debug, PartialEq, Eq, Structural)]
pub enum KeypadKey {
    /// The key `1`.
    Key1,
    /// The key `2`.
    Key2,
    /// The key `3`.
    Key3,
    /// The key `4`.
    Key4,
    /// The key `5`.
    Key5,
    /// The key `6`.
    Key6,
    /// The key `7`.
    Key7,
    /// The key `8`.
    Key8,
    /// The key `9`.
    Key9,
    /// The key `0`.
    Key0,
    /// The key `*`.
    KeyAsterisk,
    /// The key `#`.
    KeyHash,
    /// The key `A`.
    KeyA,
    /// The key `B`.
    KeyB,
    /// The key `C`.
    KeyC,
    /// The key `D`.
    KeyD,
}

/// The number of rows, and of columns.
pub const KEYPAD_SIZE: u8 = 4;

impl KeypadKey {
    /// The key at a row and a column, both from 0 to 3:
    ///
    /// ```text
    /// 1 2 3 A
    /// 4 5 6 B
    /// 7 8 9 C
    /// * 0 # D
    /// ```
    pub open spec fn at(row: u8, col: u8) -> Option<KeypadKey> {
        if row == 0 && col == 0 {
            Some(KeypadKey::Key1)
        } else if row == 0 && col == 1 {
            Some(KeypadKey::Key2)
        } else if row == 0 && col == 2 {
            Some(KeypadKey::Key3)
        } else if row == 0 && col == 3 {
            Some(KeypadKey::KeyA)
        } else if row == 1 && col == 0 {
            Some(KeypadKey::Key4)
        } else if row == 1 && col == 1 {
            Some(KeypadKey::Key5)
        } else if row == 1 && col == 2 {
            Some(KeypadKey::Key6)
        } else if row == 1 && col == 3 {
            Some(KeypadKey::KeyB)
        } else if row == 2 && col == 0 {
            Some(KeypadKey::Key7)
        } else if row == 2 && col == 1 {
            Some(KeypadKey::Key8)
        } else if row == 2 && col == 2 {
            Some(KeypadKey::Key9)
        } else if row == 2 && col == 3 {
            Some(KeypadKey::KeyC)
        } else if row == 3 && col == 0 {
            Some(KeypadKey::KeyAsterisk)
        } else if row == 3 && col == 1 {
            Some(KeypadKey::Key0)
        } else if row == 3 && col == 2 {
            Some(KeypadKey::KeyHash)
        } else if row == 3 && col == 3 {
            Some(KeypadKey::KeyD)
        } else {
            None
        }
    }

    /// The character on a key.
    pub open spec fn char_of(self) -> char {
        match self {
            KeypadKey::Key1 => '1',
            KeypadKey::Key2 => '2',
            KeypadKey::Key3 => '3',
            KeypadKey::Key4 => '4',
            KeypadKey::Key5 => '5',
            KeypadKey::Key6 => '6',
            KeypadKey::Key7 => '7',
            KeypadKey::Key8 => '8',
            KeypadKey::Key9 => '9',
            KeypadKey::Key0 => '0',
            KeypadKey::KeyAsterisk => '*',
            KeypadKey::KeyHash => '#',
            KeypadKey::KeyA => 'A',
            KeypadKey::KeyB => 'B',
            KeypadKey::KeyC => 'C',
            KeypadKey::KeyD => 'D',
        }
    }

    /// The key at a position, given as row and column; `None` outside the
    /// keypad.
    pub fn from_position(pos: (u8, u8)) -> (key: Option<KeypadKey>)
        ensures
            key == KeypadKey::at(pos.0, pos.1),
            key is Some <==> pos.0 < KEYPAD_SIZE && pos.1 < KEYPAD_SIZE,
    {
        match pos {
            (0, 0) => Some(KeypadKey::Key1),
            (0, 1) => Some(KeypadKey::Key2),
            (0, 2) => Some(KeypadKey::Key3),
            (0, 3) => Some(KeypadKey::KeyA),
            (1, 0) => Some(KeypadKey::Key4),
            (1, 1) => Some(KeypadKey::Key5),
            (1, 2) => Some(KeypadKey::Key6),
            (1, 3) => Some(KeypadKey::KeyB),
            (2, 0) => Some(KeypadKey::Key7),
            (2, 1) => Some(KeypadKey::Key8),
            (2, 2) => Some(KeypadKey::Key9),
            (2, 3) => Some(KeypadKey::KeyC),
            (3, 0) => Some(KeypadKey::KeyAsterisk),
            (3, 1) => Some(KeypadKey::Key0),
            (3, 2) => Some(KeypadKey::KeyHash),
            (3, 3) => Some(KeypadKey::KeyD),
            _ => None,
        }
    }

    /// The character on the key.
    pub fn to_char(self) -> (c: char)
        ensures
            c == self.char_of(),
    {
        match self {
            KeypadKey::Key1 => '1',
            KeypadKey::Key2 => '2',
            KeypadKey::Key3 => '3',
            KeypadKey::Key4 => '4',
            KeypadKey::Key5 => '5',
            KeypadKey::Key6 => '6',
            KeypadKey::Key7 => '7',
            KeypadKey::Key8 => '8',
            KeypadKey::Key9 => '9',
            KeypadKey::Key0 => '0',
            KeypadKey::KeyAsterisk => '*',
            KeypadKey::KeyHash => '#',
            KeypadKey::KeyA => 'A',
            KeypadKey::KeyB => 'B',
            KeypadKey::KeyC => 'C',
            KeypadKey::KeyD => 'D',
        }
    }
}

/// No two keys bear the same character.
pub proof fn law_keys_have_their_own_characters(a: KeypadKey, b: KeypadKey)
    ensures
        a.char_of() == b.char_of() ==> a == b,
{
}

/// Something that reports which keys are pressed.
pub trait Keypad: Debug {
    /// The kind of key.
    type Key;

    /// Whether a read of the keypad can give a result. What a keypad can
    /// give is for its kind to say.
    open spec fn read_gives(&self, r: GpioResult<Vec<Self::Key>>) -> bool {
        true
    }

    /// The keys that are pressed now.
    fn read(&self) -> (r: GpioResult<Vec<Self::Key>>)
        ensures
            self.read_gives(r),
    ;
}

/// The nibble that selects a column: its bit `3 - col` alone.
pub open spec fn select_nibble(col: u8) -> u8 {
    if col == 0 {
        0b1000
    } else if col == 1 {
        0b0100
    } else if col == 2 {
        0b0010
    } else {
        0b0001
    }
}

/// Whether the nibble read from the rows says that a row is pressed: its bit
/// `3 - row`.
pub open spec fn row_pressed(value: u8, row: u8) -> bool {
    (value >> ((3 - row) as u8)) & 1 == 1
}

/// The keys of a column that the nibble read from the rows says are pressed,
/// of the first `rows` rows, from the top.
pub open spec fn column_keys(col: u8, value: u8, rows: nat) -> Seq<KeypadKey>
    decreases rows,
{
    if rows == 0 {
        Seq::empty()
    } else {
        let row = (rows - 1) as u8;
        let above = column_keys(col, value, (rows - 1) as nat);
        if row_pressed(value, row) && KeypadKey::at(row, col) is Some {
            above.push(KeypadKey::at(row, col)->Some_0)
        } else {
            above
        }
    }
}

/// The keys that four nibbles, one read for each column, say are pressed, of
/// the first `cols` columns: column by column from the left, and in each
/// column from the top.
pub open spec fn scanned_keys(values: Seq<u8>, cols: nat) -> Seq<KeypadKey>
    decreases cols,
{
    if cols == 0 {
        Seq::empty()
    } else {
        scanned_keys(values, (cols - 1) as nat) + column_keys(
            (cols - 1) as u8,
            values[cols - 1],
            4,
        )
    }
}

/// Whether the scan of a column can give a result: the nibble read from the
/// rows after the column was selected, the error of the columns where
/// selecting failed, and the error of the rows where reading failed.
pub open spec fn column_scanned<C: GpioBusOutput<4>, R: GpioBusInput<4>>(
    cols: &C,
    rows: &R,
    col: u8,
    r: GpioResult<u8>,
) -> bool {
    match r {
        Ok(value) => value < 16 && value_written::<4, C>(cols, select_nibble(col), Ok(()))
            && value_read::<4, R>(rows, Ok(value)),
        Err(error) => value_written::<4, C>(cols, select_nibble(col), Err(error)) || (
        value_written::<4, C>(cols, select_nibble(col), Ok(())) && value_read::<4, R>(
            rows,
            Err(error),
        )),
    }
}

/// Whether a scan of the keypad can give a result: the keys that the four
/// nibbles say are pressed where every column was scanned, and the error of
/// the column whose scan failed else.
pub open spec fn keypad_scanned<C: GpioBusOutput<4>, R: GpioBusInput<4>>(
    cols: &C,
    rows: &R,
    r: GpioResult<Vec<KeypadKey>>,
) -> bool {
    match r {
        Ok(pressed) => exists|values: Seq<u8>|
            values.len() == 4 && pressed@ == #[trigger] scanned_keys(values, 4) && forall|c: int|
                0 <= c < 4 ==> #[trigger] column_scanned(cols, rows, c as u8, Ok(values[c])),
        Err(error) => exists|c: int|
            0 <= c < 4 && #[trigger] column_scanned(cols, rows, c as u8, Err(error)),
    }
}

/// The nibble that selects a column.
pub fn column_select(col: u8) -> (nibble: u8)
    requires
        col < KEYPAD_SIZE,
    ensures
        nibble == select_nibble(col),
        nibble < 16,
{
    match col {
        0 => 0b1000,
        1 => 0b0100,
        2 => 0b0010,
        _ => 0b0001,
    }
}

/// Adds to `pressed` the keys of a column that the nibble read from the rows
/// says are pressed, from the top.
pub fn decode_column(col: u8, value: u8, pressed: &mut Vec<KeypadKey>)
    requires
        col < KEYPAD_SIZE,
    ensures
        final(pressed)@ == old(pressed)@ + column_keys(col, value, 4),
{
    let mut row: u8 = 0;
    assert(pressed@ =~= old(pressed)@ + column_keys(col, value, 0));
    while row < 4
        invariant
            row <= 4,
            col < KEYPAD_SIZE,
            pressed@ == old(pressed)@ + column_keys(col, value, row as nat),
        decreases 4 - row,
    {
        let bit: u8 = (value >> (3 - row)) & 1;
        if bit == 1 {
            match KeypadKey::from_position((row, col)) {
                Some(key) => {
                    pressed.push(key);
                },
                None => {},
            }
        }
        assert(pressed@ =~= old(pressed)@ + column_keys(col, value, (row + 1) as nat));
        row += 1;
    }
}

/// A keypad on a bus of four column outputs and a bus of four row inputs.
#[derive(Debug)]
pub struct GpioKeypad<'a, C: GpioBusOutput<4>, R: GpioBusInput<4>> {
    cols: &'a C,
    rows: &'a R,
}

impl<'a, C: GpioBusOutput<4>, R: GpioBusInput<4>> GpioKeypad<'a, C, R> {
    /// The bus of the columns.
    pub closed spec fn columns(&self) -> &'a C {
        self.cols
    }

    /// The bus of the rows.
    pub closed spec fn rows(&self) -> &'a R {
        self.rows
    }

    /// A keypad on its two buses.
    pub fn new(cols: &'a C, rows: &'a R) -> (keypad: Self)
        ensures
            keypad.columns() == cols,
            keypad.rows() == rows,
    {
        GpioKeypad { cols, rows }
    }

    /// Scans the keypad: selects each column in turn and reads the rows.
    /// Where a bus fails, its error is handed on and the scan ends. Else the
    /// keys are those that the four nibbles read say are pressed.
    pub fn scan(&self) -> (r: GpioResult<Vec<KeypadKey>>)
        ensures
            keypad_scanned(self.columns(), self.rows(), r),
    {
        let mut pressed: Vec<KeypadKey> = Vec::new();
        let ghost mut values: Seq<u8> = Seq::empty();
        let mut col: u8 = 0;
        assert(pressed@ =~= scanned_keys(values, 0));
        while col < 4
            invariant
                col <= 4,
                values.len() == col,
                pressed@ == scanned_keys(values, col as nat),
                forall|d: int|
                    0 <= d < col ==> #[trigger] column_scanned(
                        self.cols,
                        self.rows,
                        d as u8,
                        Ok(values[d]),
                    ),
            decreases 4 - col,
        {
            let nibble: u8 = column_select(col);
            let written: GpioResult<()> = write_nibble(self.cols, nibble);
            match written {
                Ok(_) => {},
                Err(error) => {
                    assert(value_written::<4, C>(self.cols, select_nibble(col), Err(error)));
                    assert(column_scanned(self.cols, self.rows, (col as int) as u8, Err(error)));
                    return Err(error);
                },
            }
            assert(written->Ok_0 =~= ());
            assert(written == Ok::<(), GpioError>(()));
            let read: GpioResult<u8> = read_nibble(self.rows);
            let value: u8 = match read {
                Ok(value) => value,
                Err(error) => {
                    assert(value_read::<4, R>(self.rows, Err(error)));
                    assert(column_scanned(self.cols, self.rows, (col as int) as u8, Err(error)));
                    return Err(error);
                },
            };
            assert(value_read::<4, R>(self.rows, Ok(value)));
            assert(column_scanned(self.cols, self.rows, col, Ok(value)));
            let ghost before: Seq<u8> = values;
            proof {
                values = values.push(value);
                lemma_scanned_prefix(before, values, col as nat);
            }
            decode_column(col, value, &mut pressed);
            col += 1;
        }
        assert(values.len() == 4 && pressed@ == scanned_keys(values, 4));
        Ok(pressed)
    }
}

/// The keys of the first columns depend only on the nibbles of those columns.
proof fn lemma_scanned_prefix(short: Seq<u8>, long: Seq<u8>, cols: nat)
    requires
        cols <= short.len() <= long.len(),
        forall|i: int| 0 <= i < short.len() ==> short[i] == long[i],
    ensures
        scanned_keys(short, cols) == scanned_keys(long, cols),
    decreases cols,
{
    if cols > 0 {
        lemma_scanned_prefix(short, long, (cols - 1) as nat);
    }
}

impl<'a, C: GpioBusOutput<4>, R: GpioBusInput<4>> Keypad for GpioKeypad<'a, C, R> {
    type Key = KeypadKey;

    /// What a scan of the keypad can give.
    closed spec fn read_gives(&self, r: GpioResult<Vec<KeypadKey>>) -> bool {
        keypad_scanned(self.cols, self.rows, r)
    }

    fn read(&self) -> (r: GpioResult<Vec<KeypadKey>>) {
        self.scan()
    }
}

} // verus!
