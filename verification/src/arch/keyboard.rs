//! A PS/2 keyboard driver: from scancodes (set 1) to characters.

use crate::arch::cpuio::{Port, PortRead, PortWidth};
use vstd::prelude::*;

verus! {

/// Port from which the keyboard controller hands out scancodes.
pub const DATA_PORT: u16 = 0x60;

/// Which modifier keys are held down, and whether caps lock is on.
#[derive(Clone, Copy, Debug, PartialEq, Eq, Structural)]
pub struct Modifiers {
    pub left_shift: bool,
    pub right_shift: bool,
    pub left_ctrl: bool,
    pub right_ctrl: bool,
    pub left_alt: bool,
    pub right_alt: bool,
    pub caps_lock: bool,
}

impl Modifiers {
    /// No key held, caps lock off.
    pub open spec fn spec_new() -> Modifiers {
        Modifiers {
            left_shift: false,
            right_shift: false,
            left_ctrl: false,
            right_ctrl: false,
            left_alt: false,
            right_alt: false,
            caps_lock: false,
        }
    }

    /// Whether letters come out in upper case.
    pub open spec fn spec_use_uppercase(self) -> bool {
        self.left_shift || self.right_shift || self.caps_lock
    }

    /// The character that the key with code `ascii` gives under these
    /// modifiers: lower-case letters turn into upper case where that is
    /// called for, everything else stays.
    pub open spec fn spec_apply(self, ascii: u8) -> u8 {
        if 0x61 <= ascii <= 0x7A && self.spec_use_uppercase() {
            (ascii - 0x20) as u8
        } else {
            ascii
        }
    }

    /// The modifiers after the key event `scancode`: a make code sets its
    /// key, a break code (make code plus `0x80`) releases it, the make code
    /// of caps lock toggles, any other code changes nothing.
    pub open spec fn spec_update(self, scancode: u8) -> Modifiers {
        if scancode == 0x2A {
            Modifiers { left_shift: true, ..self }
        } else if scancode == 0x36 {
            Modifiers { right_shift: true, ..self }
        } else if scancode == 0x1D {
            Modifiers { left_ctrl: true, ..self }
        } else if scancode == 0x38 {
            Modifiers { left_alt: true, ..self }
        } else if scancode == 0x3A {
            Modifiers { caps_lock: !self.caps_lock, ..self }
        } else if scancode == 0xAA {
            Modifiers { left_shift: false, ..self }
        } else if scancode == 0xB6 {
            Modifiers { right_shift: false, ..self }
        } else if scancode == 0x9D {
            Modifiers { left_ctrl: false, ..self }
        } else if scancode == 0xB8 {
            Modifiers { left_alt: false, ..self }
        } else {
            self
        }
    }

    /// No key held, caps lock off.
    pub fn new() -> (modifiers: Self)
        ensures
            modifiers == Self::spec_new(),
    {
        Modifiers {
            left_shift: false,
            right_shift: false,
            left_ctrl: false,
            right_ctrl: false,
            left_alt: false,
            right_alt: false,
            caps_lock: false,
        }
    }

    /// The character that the key with code `ascii` gives under these
    /// modifiers.
    pub fn apply(&self, ascii: u8) -> (result: u8)
        ensures
            result == self.spec_apply(ascii),
    {
        // 'a' to 'z'
        if ascii >= 0x61 && ascii <= 0x7A {
            if self.use_uppercase() {
                return ascii - 0x61 + 0x41;
            }
        }
        ascii
    }

    /// Follow the key event `scancode`.
    pub fn update(&mut self, scancode: u8)
        ensures
            *final(self) == old(self).spec_update(scancode),
    {
        match scancode {
            0x2A => self.left_shift = true,
            0x36 => self.right_shift = true,
            0x1D => self.left_ctrl = true,
            0x38 => self.left_alt = true,
            0x3A => self.caps_lock = !self.caps_lock,
            0xAA => self.left_shift = false,
            0xB6 => self.right_shift = false,
            0x9D => self.left_ctrl = false,
            0xB8 => self.left_alt = false,
            _ => {},
        }
    }

    /// Whether letters come out in upper case.
    pub fn use_uppercase(&self) -> (upper: bool)
        ensures
            upper == self.spec_use_uppercase(),
    {
        self.left_shift || self.right_shift || self.caps_lock
    }
}

/// The keys of the number row, from escape (`0x01`) to backspace (`0x0E`).
pub open spec fn number_row() -> Seq<u8> {
    seq![0x1Bu8, 0x31, 0x32, 0x33, 0x34, 0x35, 0x36, 0x37, 0x38, 0x39, 0x30, 0x2D, 0x3D, 0x08]
}

/// The keys of the upper letter row, from tab (`0x0F`) to enter (`0x1C`).
pub open spec fn upper_row() -> Seq<u8> {
    seq![0x09u8, 0x71, 0x77, 0x65, 0x72, 0x74, 0x79, 0x75, 0x69, 0x6F, 0x70, 0x5B, 0x5D, 0x0D]
}

/// The keys of the home row, from `a` (`0x1E`) to the apostrophe (`0x28`).
pub open spec fn home_row() -> Seq<u8> {
    seq![0x61u8, 0x73, 0x64, 0x66, 0x67, 0x68, 0x6A, 0x6B, 0x6C, 0x3B, 0x27]
}

/// The keys of the lower letter row, from `z` (`0x2C`) to the slash (`0x35`).
pub open spec fn lower_row() -> Seq<u8> {
    seq![0x7Au8, 0x78, 0x63, 0x76, 0x62, 0x6E, 0x6D, 0x2C, 0x2E, 0x2F]
}

/// The unshifted character of the key with make code `scancode`, for the
/// keys that have one.
pub open spec fn ascii_of(scancode: u8) -> Option<u8> {
    if 0x01 <= scancode <= 0x0E {
        Some(number_row()[scancode - 0x01])
    } else if 0x0F <= scancode <= 0x1C {
        Some(upper_row()[scancode - 0x0F])
    } else if 0x1E <= scancode <= 0x28 {
        Some(home_row()[scancode - 0x1E])
    } else if 0x2C <= scancode <= 0x35 {
        Some(lower_row()[scancode - 0x2C])
    } else if scancode == 0x39 {
        Some(0x20u8)
    } else {
        None
    }
}

/// The keyboard as the driver sees it.
pub struct KeyboardState {
    port: Port<u8>,
    modifiers: Modifiers,
}

impl KeyboardState {
    /// The modifier keys as the events seen so far have left them.
    pub closed spec fn modifiers(&self) -> Modifiers {
        self.modifiers
    }

    /// The driver listens on the keyboard controller's data port.
    pub closed spec fn wf(&self) -> bool {
        self.port.address() == DATA_PORT
    }

    /// A keyboard on which no key has been touched yet.
    pub fn new() -> (state: Self)
        ensures
            state.wf(),
            state.modifiers() == Modifiers::spec_new(),
    {
        KeyboardState { port: Port::new(DATA_PORT), modifiers: Modifiers::new() }
    }

    /// The read that fetches the next scancode from the controller.
    pub fn read_scancode(&self) -> (read: PortRead)
        requires
            self.wf(),
        ensures
            read == (PortRead { port: DATA_PORT, width: PortWidth::Byte }),
    {
        self.port.read()
    }

    /// Take in the key event `scancode`, which was read from the data port,
    /// and give the character it types, if it types one. The modifiers
    /// follow the event first, so a shift key acts from its own make code on.
    pub fn get_char(&mut self, scancode: u8) -> (typed: Option<char>)
        ensures
            final(self).modifiers() == old(self).modifiers().spec_update(scancode),
            final(self).wf() == old(self).wf(),
            typed == match ascii_of(scancode) {
                Some(ascii) => Some(final(self).modifiers().spec_apply(ascii) as char),
                None => None,
            },
    {
        self.modifiers.update(scancode);

        if let Some(ascii) = self.find_ascii(scancode) {
            Some(self.modifiers.apply(ascii) as char)
        } else {
            None
        }
    }

    /// The unshifted character of the key with make code `scancode`.
    fn find_ascii(&self, scancode: u8) -> (ascii: Option<u8>)
        ensures
            ascii == ascii_of(scancode),
    {
        let index = scancode as usize;
        if 0x01 <= scancode && scancode <= 0x0E {
            // escape, 1234567890-=, backspace
            let row: [u8; 14] = [
                0x1B, 0x31, 0x32, 0x33, 0x34, 0x35, 0x36, 0x37, 0x38, 0x39, 0x30, 0x2D, 0x3D, 0x08,
            ];
            Some(row[index - 0x01])
        } else if 0x0F <= scancode && scancode <= 0x1C {
            // tab, qwertyuiop[], enter
            let row: [u8; 14] = [
                0x09, 0x71, 0x77, 0x65, 0x72, 0x74, 0x79, 0x75, 0x69, 0x6F, 0x70, 0x5B, 0x5D, 0x0D,
            ];
            Some(row[index - 0x0F])
        } else if 0x1E <= scancode && scancode <= 0x28 {
            // asdfghjkl;'
            let row: [u8; 11] = [
                0x61, 0x73, 0x64, 0x66, 0x67, 0x68, 0x6A, 0x6B, 0x6C, 0x3B, 0x27,
            ];
            Some(row[index - 0x1E])
        } else if 0x2C <= scancode && scancode <= 0x35 {
            // zxcvbnm,./
            let row: [u8; 10] = [0x7A, 0x78, 0x63, 0x76, 0x62, 0x6E, 0x6D, 0x2C, 0x2E, 0x2F];
            Some(row[index - 0x2C])
        } else if scancode == 0x39 {
            // space
            Some(0x20)
        } else {
            None
        }
    }
}

} // verus!
