//! The pins of a bus, as a line of text.
//!
//! The line holds four pin numbers. They are separated by commas, spaces or
//! semicolons, any number of them; white space around a number is ignored. A
//! number is a run of decimal digits, with a `+` before it where one likes,
//! that fits `usize`.

use vstd::prelude::*;
use vstd::string::StrSliceExecFns;

verus! {

/// Why a line of text names no bus.
#[derive(Copy, Clone, Debug, PartialEq, Eq, Structural)]
pub enum PinBusError {
    /// A field is not a number.
    InvalidNumber,
    /// There are fewer or more than four numbers.
    WrongCount,
}

/// What has been read of a field.
#[derive(Copy, Clone, Debug, PartialEq, Eq, Structural)]
pub enum Field {
    /// Nothing but white space.
    Blank,
    /// A `+`.
    Sign,
    /// Digits, with their value.
    Digits(usize),
    /// Digits and white space after them.
    Closed(usize),
    /// Something that is no number.
    Bad,
}

/// What has been read of a line.
pub struct Scan {
    /// The numbers of the fields that are complete.
    pub numbers: Seq<usize>,
    /// Whether a complete field was no number.
    pub failed: bool,
    /// The field that is being read.
    pub field: Field,
}

/// Whether a character separates fields.
pub open spec fn is_separator(c: char) -> bool {
    c == ',' || c == ' ' || c == ';'
}

/// Whether a character is white space.
pub open spec fn is_blank(c: char) -> bool {
    let code = c as u32;
    (0x09 <= code <= 0x0D) || code == 0x20 || code == 0x85 || code == 0xA0 || code == 0x1680 || (
    0x2000 <= code <= 0x200A) || code == 0x2028 || code == 0x2029 || code == 0x202F || code
        == 0x205F || code == 0x3000
}

/// The value of a decimal digit; `None` for any other character.
pub open spec fn digit_value(c: char) -> Option<usize> {
    if '0' <= c <= '9' {
        Some((c as u32 - '0' as u32) as usize)
    } else {
        None
    }
}

/// A field after one more character.
pub open spec fn field_after(field: Field, c: char) -> Field {
    match field {
        Field::Bad => Field::Bad,
        Field::Blank => if is_blank(c) {
            Field::Blank
        } else if c == '+' {
            Field::Sign
        } else if digit_value(c) is Some {
            Field::Digits(digit_value(c)->Some_0)
        } else {
            Field::Bad
        },
        Field::Sign => if digit_value(c) is Some {
            Field::Digits(digit_value(c)->Some_0)
        } else {
            Field::Bad
        },
        Field::Digits(value) => if digit_value(c) is Some {
            if 10 * value + digit_value(c)->Some_0 <= usize::MAX {
                Field::Digits((10 * value + digit_value(c)->Some_0) as usize)
            } else {
                Field::Bad
            }
        } else if is_blank(c) {
            Field::Closed(value)
        } else {
            Field::Bad
        },
        Field::Closed(value) => if is_blank(c) {
            Field::Closed(value)
        } else {
            Field::Bad
        },
    }
}

/// A line after the field that is being read ends: a number is added, a
/// field of white space is dropped, and anything else fails the line.
pub open spec fn field_closed(scan: Scan) -> Scan {
    match scan.field {
        Field::Blank => Scan { field: Field::Blank, ..scan },
        Field::Digits(value) => Scan {
            numbers: scan.numbers.push(value),
            field: Field::Blank,
            ..scan
        },
        Field::Closed(value) => Scan {
            numbers: scan.numbers.push(value),
            field: Field::Blank,
            ..scan
        },
        _ => Scan { failed: true, field: Field::Blank, ..scan },
    }
}

/// What has been read after the first `count` characters of a line.
pub open spec fn scanned(text: Seq<char>, count: int) -> Scan
    decreases count,
{
    if count <= 0 {
        Scan { numbers: Seq::empty(), failed: false, field: Field::Blank }
    } else {
        let before = scanned(text, count - 1);
        let c = text[count - 1];
        if is_separator(c) {
            field_closed(before)
        } else {
            Scan { field: field_after(before.field, c), ..before }
        }
    }
}

/// The pins that a line names: `InvalidNumber` where a field is no number,
/// else `WrongCount` where there are not four of them.
pub open spec fn parsed(text: Seq<char>) -> Result<Seq<usize>, PinBusError> {
    let scan = field_closed(scanned(text, text.len() as int));
    if scan.failed {
        Err(PinBusError::InvalidNumber)
    } else if scan.numbers.len() != 4 {
        Err(PinBusError::WrongCount)
    } else {
        Ok(scan.numbers)
    }
}

/// Whether a character is white space.
fn blank(c: char) -> (is: bool)
    ensures
        is == is_blank(c),
{
    let code: u32 = c as u32;
    (0x09 <= code && code <= 0x0D) || code == 0x20 || code == 0x85 || code == 0xA0 || code
        == 0x1680 || (0x2000 <= code && code <= 0x200A) || code == 0x2028 || code == 0x2029
        || code == 0x202F || code == 0x205F || code == 0x3000
}

/// The value of a decimal digit.
fn digit(c: char) -> (value: Option<usize>)
    ensures
        value == digit_value(c),
{
    if '0' <= c && c <= '9' {
        Some((c as u32 - '0' as u32) as usize)
    } else {
        None
    }
}

/// A field after one more character.
fn extend_field(field: Field, c: char) -> (next: Field)
    ensures
        next == field_after(field, c),
{
    match field {
        Field::Bad => Field::Bad,
        Field::Blank => {
            if blank(c) {
                Field::Blank
            } else if c == '+' {
                Field::Sign
            } else {
                match digit(c) {
                    Some(value) => Field::Digits(value),
                    None => Field::Bad,
                }
            }
        },
        Field::Sign => match digit(c) {
            Some(value) => Field::Digits(value),
            None => Field::Bad,
        },
        Field::Digits(value) => match digit(c) {
            Some(units) => {
                if value <= (usize::MAX - units) / 10 {
                    Field::Digits(10 * value + units)
                } else {
                    Field::Bad
                }
            },
            None => if blank(c) {
                Field::Closed(value)
            } else {
                Field::Bad
            },
        },
        Field::Closed(value) => if blank(c) {
            Field::Closed(value)
        } else {
            Field::Bad
        },
    }
}

/// The four pins that a line of text names.
pub fn parse_pin_bus(pin_str: &str) -> (r: Result<[usize; 4], PinBusError>)
    ensures
        match parsed(pin_str@) {
            Ok(numbers) => r matches Ok(pins) && pins@ == numbers,
            Err(error) => r == Err::<[usize; 4], PinBusError>(error),
        },
{
    let length: usize = pin_str.unicode_len();
    let mut numbers: Vec<usize> = Vec::new();
    let mut failed: bool = false;
    let mut field: Field = Field::Blank;
    let mut k: usize = 0;
    while k < length
        invariant
            k <= length,
            length == pin_str@.len(),
            scanned(pin_str@, k as int) == (Scan { numbers: numbers@, failed, field }),
        decreases length - k,
    {
        let c: char = pin_str.get_char(k);
        if c == ',' || c == ' ' || c == ';' {
            match field {
                Field::Blank => {},
                Field::Digits(value) => {
                    numbers.push(value);
                },
                Field::Closed(value) => {
                    numbers.push(value);
                },
                _ => {
                    failed = true;
                },
            }
            field = Field::Blank;
        } else {
            field = extend_field(field, c);
        }
        k += 1;
    }
    match field {
        Field::Blank => {},
        Field::Digits(value) => {
            numbers.push(value);
        },
        Field::Closed(value) => {
            numbers.push(value);
        },
        _ => {
            failed = true;
        },
    }
    if failed {
        return Err(PinBusError::InvalidNumber);
    }
    if numbers.len() != 4 {
        return Err(PinBusError::WrongCount);
    }
    let pins: [usize; 4] = [numbers[0], numbers[1], numbers[2], numbers[3]];
    assert(pins@ =~= numbers@);
    Ok(pins)
}

} // verus!
