//! The joypad port device: two bytes of button state, a bit low while pressed.

use vstd::prelude::*;
use crate::memory::BusConnectable;

verus! {

/// The buttons of joypad 1, by their bit in the joypad byte.
#[derive(Debug, Copy, Clone, PartialEq, Eq, Structural)]
pub enum Button {
    Up,
    Down,
    Left,
    Right,
    Button1,
    Button2,
}

pub open spec fn button_bit_spec(b: Button) -> u8 {
    match b {
        Button::Up => 0,
        Button::Down => 1,
        Button::Left => 2,
        Button::Right => 3,
        Button::Button1 => 4,
        Button::Button2 => 5,
    }
}

pub fn button_bit(b: Button) -> (r: u8)
    ensures
        r == button_bit_spec(b),
        r < 6,
{
    match b {
        Button::Up => 0,
        Button::Down => 1,
        Button::Left => 2,
        Button::Right => 3,
        Button::Button1 => 4,
        Button::Button2 => 5,
    }
}

/// The two joypad bytes.
pub struct JoypadView {
    pub joypad1: u8,
    pub joypad2: u8,
}

/// Joypad 1 after a D-pad change: a press clears its bit and releases the
/// other directions; a release sets its bit.
pub open spec fn dpad_spec(j: u8, bit: u8, pressed: bool) -> u8 {
    if pressed {
        (j | 0x0F) & !(1u8 << bit)
    } else {
        j | (1u8 << bit)
    }
}

/// Joypad 1 after an action button change: a press clears its bit, a release sets it.
pub open spec fn button_spec(j: u8, bit: u8, pressed: bool) -> u8 {
    if pressed {
        j & !(1u8 << bit)
    } else {
        j | (1u8 << bit)
    }
}

impl JoypadView {
    pub open spec fn accepts(self, addr: u16) -> bool {
        let v = addr % 256;
        v == 0xDC || v == 0xC0 || v == 0xDD || v == 0xC1
    }

    /// Ports 0xDC and 0xC0 give joypad 1, the others joypad 2.
    pub open spec fn read(self, addr: u16) -> u8 {
        if addr % 256 == 0xDC || addr % 256 == 0xC0 {
            self.joypad1
        } else {
            self.joypad2
        }
    }

    pub open spec fn after_input(self, b: Button, pressed: bool) -> JoypadView {
        let bit = button_bit_spec(b);
        JoypadView {
            joypad1: if bit < 4 {
                dpad_spec(self.joypad1, bit, pressed)
            } else {
                button_spec(self.joypad1, bit, pressed)
            },
            ..self
        }
    }
}

/// The controller port device.
pub struct KeyboardController {
    joypad1: u8,
    joypad2: u8,
}

impl View for KeyboardController {
    type V = JoypadView;

    closed spec fn view(&self) -> JoypadView {
        JoypadView { joypad1: self.joypad1, joypad2: self.joypad2 }
    }
}

impl KeyboardController {
    /// Nothing pressed: both bytes all ones.
    pub fn new() -> (r: KeyboardController)
        ensures
            r@ == (JoypadView { joypad1: 0xFF, joypad2: 0xFF }),
    {
        KeyboardController { joypad1: 0xFF, joypad2: 0xFF }
    }

    pub fn joypads(&self) -> (r: (u8, u8))
        ensures
            r == (self@.joypad1, self@.joypad2),
    {
        (self.joypad1, self.joypad2)
    }

    /// Records that `button` went down (`is_pressed`) or up.
    pub fn input(&mut self, button: Button, is_pressed: bool)
        ensures
            final(self)@ == old(self)@.after_input(button, is_pressed),
    {
        let bit = button_bit(button);
        if bit < 4 {
            self.set_dpad(bit, is_pressed);
        } else {
            self.set_button(bit, is_pressed);
        }
    }

    fn set_dpad(&mut self, bit: u8, is_pressed: bool)
        requires
            bit < 8,
        ensures
            final(self)@ == (JoypadView {
                joypad1: dpad_spec(old(self)@.joypad1, bit, is_pressed),
                ..old(self)@
            }),
    {
        if is_pressed {
            self.joypad1 = (self.joypad1 | 0x0F) & !(1u8 << bit);
        } else {
            self.joypad1 = self.joypad1 | (1u8 << bit);
        }
    }

    fn set_button(&mut self, bit: u8, is_pressed: bool)
        requires
            bit < 8,
        ensures
            final(self)@ == (JoypadView {
                joypad1: button_spec(old(self)@.joypad1, bit, is_pressed),
                ..old(self)@
            }),
    {
        if is_pressed {
            self.joypad1 = self.joypad1 & !(1u8 << bit);
        } else {
            self.joypad1 = self.joypad1 | (1u8 << bit);
        }
    }
}

impl BusConnectable for KeyboardController {
    open spec fn accepts(&self, addr: u16) -> bool {
        self@.accepts(addr)
    }

    open spec fn read_value(&self, addr: u16) -> u8 {
        self@.read(addr)
    }

    open spec fn read_view(&self, addr: u16) -> JoypadView {
        self@
    }

    open spec fn write_view(&self, addr: u16, data: u8) -> JoypadView {
        self@
    }

    /// Writes to the joypad ports are dropped.
    open spec fn write_ok(&self, addr: u16, data: u8) -> bool {
        false
    }

    fn accept(&self, addr: u16) -> (r: bool) {
        let val = addr % 256;
        val == 0xDC || val == 0xC0 || val == 0xDD || val == 0xC1
    }

    fn cpu_read(&mut self, addr: u16) -> (r: u8) {
        if addr % 256 == 0xDC || addr % 256 == 0xC0 {
            self.joypad1
        } else {
            self.joypad2
        }
    }

    fn cpu_write(&mut self, addr: u16, data: u8) -> (r: bool) {
        false
    }
}

} // verus!
