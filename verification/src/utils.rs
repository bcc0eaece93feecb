//! Small helpers of the lock: the one item of a collection, a value within a
//! range, and text on a display of four lines of twenty columns.

use crate::error::{GpioError, GpioResult};
use crate::lcd::ssd1803a::SSD1803ADriver;
use std::ops::Range;
use vstd::prelude::*;
use vstd::string::{StrSliceExecFns, StringExecFns};

verus! {

/// Why a collection has no single item.
#[derive(Copy, Clone, Debug, PartialEq, Eq, Structural)]
pub enum TryGetSingleError {
    /// It is empty.
    Empty,
    /// It has more than one item.
    MoreThanOne,
}

impl TryGetSingleError {
    /// The message of the error.
    pub open spec fn message_of(self) -> Seq<char> {
        match self {
            TryGetSingleError::Empty => "collection is empty"@,
            TryGetSingleError::MoreThanOne => "collection has more than one item"@,
        }
    }

    /// The message of the error.
    pub fn message(&self) -> (text: String)
        ensures
            text@ == self.message_of(),
    {
        match self {
            TryGetSingleError::Empty => String::from_str("collection is empty"),
            TryGetSingleError::MoreThanOne => String::from_str("collection has more than one item"),
        }
    }
}

/// A collection that can be asked for its one item.
pub trait CollectionExt {
    /// The kind of item.
    type Item;

    /// The items of the collection.
    spec fn items(&self) -> Seq<Self::Item>;

    /// The one item of the collection: `Empty` where there is none,
    /// `MoreThanOne` where there are several.
    fn try_get_single(&self) -> (r: Result<&Self::Item, TryGetSingleError>)
        ensures
            self.items().len() == 0 <==> r matches Err(TryGetSingleError::Empty),
            self.items().len() > 1 <==> r matches Err(TryGetSingleError::MoreThanOne),
            self.items().len() == 1 <==> r is Ok,
            r matches Ok(item) ==> *item == self.items()[0],
    ;

    /// The one item of the collection, to be changed: `Empty` where there is
    /// none, `MoreThanOne` where there are several.
    fn try_get_single_mut(&mut self) -> (r: Result<&mut Self::Item, TryGetSingleError>)
        ensures
            old(self).items().len() == 0 <==> r matches Err(TryGetSingleError::Empty),
            old(self).items().len() > 1 <==> r matches Err(TryGetSingleError::MoreThanOne),
            old(self).items().len() == 1 <==> r is Ok,
    ;
}

impl<T> CollectionExt for Vec<T> {
    type Item = T;

    open spec fn items(&self) -> Seq<T> {
        self@
    }

    fn try_get_single(&self) -> (r: Result<&T, TryGetSingleError>) {
        match self.len() {
            0 => Err(TryGetSingleError::Empty),
            1 => Ok(&self[0]),
            _ => Err(TryGetSingleError::MoreThanOne),
        }
    }

    fn try_get_single_mut(&mut self) -> (r: Result<&mut T, TryGetSingleError>) {
        match self.len() {
            0 => Err(TryGetSingleError::Empty),
            1 => Ok(&mut self[0]),
            _ => Err(TryGetSingleError::MoreThanOne),
        }
    }
}

/// A value that can be asked whether it lies within a range.
pub trait WithinExt: Sized {
    /// Whether the value lies in a range, the start included and the end not.
    spec fn lies_within(&self, range: Range<Self>) -> bool;

    /// Whether the value lies in a range, the start included and the end not.
    fn within(&self, range: Range<Self>) -> (inside: bool)
        ensures
            inside == self.lies_within(range),
    ;
}

impl WithinExt for usize {
    open spec fn lies_within(&self, range: Range<usize>) -> bool {
        range.start <= *self < range.end
    }

    fn within(&self, range: Range<usize>) -> (inside: bool) {
        range.start <= *self && *self < range.end
    }
}

/// The lines of the display.
pub const DISPLAY_ROWS: usize = 4;

/// The columns of the display.
pub const DISPLAY_COLS: usize = 20;

/// The distance between the addresses of two lines.
pub const ROW_STRIDE: usize = 0x20;

/// The byte that stands for a character that the display does not have.
pub const SUBSTITUTE: u8 = 0x3F;

/// The byte that the display takes for a character: the character itself
/// where it is ASCII, a question mark else.
pub open spec fn display_byte(c: char) -> u8 {
    if (c as u32) < 128 {
        c as u8
    } else {
        SUBSTITUTE
    }
}

/// The bytes that the display takes for a text, one for each character.
pub open spec fn display_text(text: Seq<char>) -> Seq<u8> {
    Seq::new(text.len(), |i: int| display_byte(text[i]))
}

/// The address in the display data of a place on the display.
pub open spec fn address_of(row: usize, col: usize) -> int {
    col + ROW_STRIDE * row
}

/// The address in the display data of a place on the display:
/// `InvalidArgument` for a row from 4 on or a column from 20 on.
pub fn cursor_address(row: usize, col: usize) -> (r: GpioResult<u8>)
    ensures
        (row >= DISPLAY_ROWS || col >= DISPLAY_COLS) <==> r == Err::<u8, GpioError>(
            GpioError::InvalidArgument,
        ),
        (row < DISPLAY_ROWS && col < DISPLAY_COLS) <==> r == Ok::<u8, GpioError>(
            address_of(row, col) as u8,
        ),
        r matches Ok(address) ==> address <= 0b0111_1111,
{
    if !row.within(0..DISPLAY_ROWS) || !col.within(0..DISPLAY_COLS) {
        return Err(GpioError::InvalidArgument);
    }
    Ok((col + ROW_STRIDE * row) as u8)
}

/// The bytes that the display takes for a text.
pub fn display_bytes(text: &str) -> (bytes: Vec<u8>)
    ensures
        bytes@ == display_text(text@),
{
    let length: usize = text.unicode_len();
    let mut bytes: Vec<u8> = Vec::new();
    let mut k: usize = 0;
    while k < length
        invariant
            k <= length,
            length == text@.len(),
            bytes@.len() == k,
            forall|i: int| 0 <= i < k ==> bytes@[i] == display_byte(text@[i]),
        decreases length - k,
    {
        let c: char = text.get_char(k);
        if (c as u32) < 128 {
            bytes.push(c as u8);
        } else {
            bytes.push(SUBSTITUTE);
        }
        k += 1;
    }
    assert(bytes@ =~= display_text(text@));
    bytes
}

/// Whether a data byte, sent with success, can take a display from one of the
/// states of a run to the next.
pub open spec fn byte_sent<D: SSD1803ADriver>(states: Seq<D>, bytes: Seq<u8>, i: int) -> bool {
    D::data_gives(&states[i], &states[i + 1], bytes[i], Ok(()))
}

/// Whether the states of a display are those of a run in which the first
/// `count` of some data bytes were sent, one after the other and each with
/// success.
pub open spec fn bytes_sent<D: SSD1803ADriver>(states: Seq<D>, bytes: Seq<u8>, count: int) -> bool {
    &&& states.len() == count + 1
    &&& forall|i: int| 0 <= i < count ==> #[trigger] byte_sent(states, bytes, i)
}

/// Whether sending data bytes one after the other, up to the first that
/// fails, can take a display from one state to another and give a result:
/// success where every byte was sent, and else the error of the byte that
/// failed after those before it were sent.
pub open spec fn text_sent<D: SSD1803ADriver>(
    before: &D,
    after: &D,
    bytes: Seq<u8>,
    r: GpioResult<()>,
) -> bool {
    match r {
        Ok(_) => exists|states: Seq<D>| #[trigger]
            bytes_sent(states, bytes, bytes.len() as int) && states[0] == *before && states.last()
                == *after,
        Err(error) => exists|states: Seq<D>, count: int|
            0 <= count < bytes.len() && #[trigger] bytes_sent(states, bytes, count) && states[0]
                == *before && D::data_gives(&states.last(), after, bytes[count], Err(error)),
    }
}

/// The command that moves the cursor to a place on the display.
pub open spec fn cursor_byte(row: usize, col: usize) -> u8 {
    0b1000_0000u8 | (address_of(row, col) as u8)
}

/// Text and a cursor on a display of four lines of twenty columns.
pub trait DisplayExt: SSD1803ADriver + Sized {
    /// Prints a text at the cursor: sends its bytes as data, one after the
    /// other, up to the first that fails. A character that is not ASCII goes
    /// out as a question mark; a line break is not one.
    fn print(&mut self, s: &str) -> (r: GpioResult<()>)
        ensures
            text_sent(old(self), final(self), display_text(s@), r),
    ;

    /// Moves the cursor to a row and a column, both from 0: sends the command
    /// that sets the address in the display data, with `RE` cleared;
    /// `InvalidArgument`, with nothing sent, outside the display.
    fn set_cursor(&mut self, row: usize, col: usize) -> (r: GpioResult<()>)
        ensures
            (row >= DISPLAY_ROWS || col >= DISPLAY_COLS) ==> r == Err::<(), GpioError>(
                GpioError::InvalidArgument,
            ),
            (row < DISPLAY_ROWS && col < DISPLAY_COLS) ==> Self::command_gives(
                old(self),
                final(self),
                cursor_byte(row, col),
                None,
                Some(false),
                r,
            ),
    ;
}

impl<T: SSD1803ADriver> DisplayExt for T {
    fn print(&mut self, s: &str) -> (r: GpioResult<()>) {
        let bytes: Vec<u8> = display_bytes(s);
        let mut k: usize = 0;
        let ghost mut states: Seq<T> = seq![*self];
        while k < bytes.len()
            invariant
                k <= bytes.len(),
                bytes@ == display_text(s@),
                bytes_sent(states, bytes@, k as int),
                states[0] == *old(self),
                states.last() == *self,
            decreases bytes.len() - k,
        {
            let sent: GpioResult<()> = self.send_data(bytes[k]);
            match sent {
                Ok(_) => {},
                Err(error) => {
                    assert(T::data_gives(&states.last(), self, bytes@[k as int], Err(error)));
                    return Err(error);
                },
            }
            proof {
                assert(sent->Ok_0 =~= ());
                let longer: Seq<T> = states.push(*self);
                assert(byte_sent(longer, bytes@, k as int));
                assert forall|i: int| 0 <= i < k + 1 implies #[trigger] byte_sent(
                    longer,
                    bytes@,
                    i,
                ) by {
                    if i < k {
                        assert(byte_sent(states, bytes@, i));
                    }
                }
                states = longer;
            }
            k += 1;
        }
        Ok(())
    }

    fn set_cursor(&mut self, row: usize, col: usize) -> (r: GpioResult<()>) {
        let address: u8 = cursor_address(row, col)?;
        self.set_ddram_address(address)
    }
}

} // verus!
