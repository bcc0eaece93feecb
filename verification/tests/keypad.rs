use pilock::error::GpioError;
use pilock::gpio::{GpioBusInput, GpioBusOutput};
use pilock::keypad::{column_select, decode_column, GpioKeypad, Keypad, KeypadKey};
use std::cell::{Cell, RefCell};

#[test]
fn key_positions() {
    let rows = [
        [KeypadKey::Key1, KeypadKey::Key2, KeypadKey::Key3, KeypadKey::KeyA],
        [KeypadKey::Key4, KeypadKey::Key5, KeypadKey::Key6, KeypadKey::KeyB],
        [KeypadKey::Key7, KeypadKey::Key8, KeypadKey::Key9, KeypadKey::KeyC],
        [KeypadKey::KeyAsterisk, KeypadKey::Key0, KeypadKey::KeyHash, KeypadKey::KeyD],
    ];
    let chars = ["123A", "456B", "789C", "*0#D"];
    for row in 0..4 {
        for col in 0..4 {
            let key = KeypadKey::from_position((row as u8, col as u8));
            assert_eq!(key, Some(rows[row][col]));
            assert_eq!(key.unwrap().to_char(), chars[row].chars().nth(col).unwrap());
        }
    }
    assert_eq!(KeypadKey::from_position((4, 0)), None);
    assert_eq!(KeypadKey::from_position((0, 4)), None);
    assert_eq!(KeypadKey::from_position((255, 255)), None);
}

#[test]
fn column_scan() {
    assert_eq!(
        [column_select(0), column_select(1), column_select(2), column_select(3)],
        [0b1000, 0b0100, 0b0010, 0b0001]
    );
    let mut pressed = vec![KeypadKey::KeyD];
    decode_column(1, 0b1001, &mut pressed);
    assert_eq!(pressed, [KeypadKey::KeyD, KeypadKey::Key2, KeypadKey::Key0]);
    decode_column(3, 0b0000, &mut pressed);
    assert_eq!(pressed.len(), 3);
    decode_column(0, 0b1111, &mut pressed);
    assert_eq!(
        pressed[3..],
        [KeypadKey::Key1, KeypadKey::Key4, KeypadKey::Key7, KeypadKey::KeyAsterisk]
    );
}

/// A keypad with some keys held down: the rows read what the keys of the
/// selected column connect.
#[derive(Debug)]
struct Matrix {
    down: [[bool; 4]; 4],
    selected: Cell<Option<usize>>,
    written: RefCell<Vec<[bool; 4]>>,
}

impl GpioBusOutput<4> for Matrix {
    fn write(&self, values: &[bool; 4]) -> Result<(), GpioError> {
        self.written.borrow_mut().push(*values);
        self.selected.set((0..4).find(|col| values[3 - col]));
        Ok(())
    }
}

impl GpioBusInput<4> for Matrix {
    fn read(&self) -> Result<[bool; 4], GpioError> {
        let col = self.selected.get().ok_or(GpioError::NotSupported)?;
        let mut lines = [false; 4];
        for row in 0..4 {
            lines[3 - row] = self.down[row][col];
        }
        Ok(lines)
    }
}

#[test]
fn pressed_keys_column_by_column() {
    let mut down = [[false; 4]; 4];
    down[0][0] = true;
    down[3][0] = true;
    down[1][2] = true;
    down[2][3] = true;
    let matrix = Matrix { down, selected: Cell::new(None), written: RefCell::new(Vec::new()) };
    let keypad = GpioKeypad::new(&matrix, &matrix);
    assert_eq!(
        keypad.read(),
        Ok(vec![KeypadKey::Key1, KeypadKey::KeyAsterisk, KeypadKey::Key6, KeypadKey::KeyC])
    );
    assert_eq!(
        *matrix.written.borrow(),
        [
            [false, false, false, true],
            [false, false, true, false],
            [false, true, false, false],
            [true, false, false, false],
        ]
    );
    assert_eq!(keypad.scan(), keypad.read());
}
