//! The player's controls on input port 1.
//!
//! The program tests single bits of the port, so each control has a fixed
//! bit: coin slot bit 0, one-player start bit 2, fire bit 4, left bit 5,
//! right bit 6.
use crate::intel8080_state::{Machine, StateIntel8080};
use vstd::prelude::*;

verus! {

/// A control of the cabinet.
#[derive(Debug, Clone, Copy, PartialEq, Eq, Structural)]
pub enum Button {
    Coin,
    StartOnePlayer,
    Fire,
    Left,
    Right,
}

/// The bit of input port 1 that a control drives, as a mask.
pub open spec fn button_mask(button: Button) -> u8 {
    match button {
        Button::Coin => 0x01,
        Button::StartOnePlayer => 0x04,
        Button::Fire => 0x10,
        Button::Left => 0x20,
        Button::Right => 0x40,
    }
}

impl Button {
    /// The bit of input port 1 that the control drives, as a mask.
    pub fn mask(self) -> (m: u8)
        ensures
            m == button_mask(self),
    {
        match self {
            Button::Coin => 0x01,
            Button::StartOnePlayer => 0x04,
            Button::Fire => 0x10,
            Button::Left => 0x20,
            Button::Right => 0x40,
        }
    }
}

impl StateIntel8080 {
    /// A control is pressed: its bit of input port 1 is set; the other bits
    /// are kept.
    pub fn press(&mut self, button: Button)
        ensures
            final(self)@ == (Machine {
                input_1: old(self).input_1 | button_mask(button),
                ..old(self)@
            }),
    {
        self.input_1 = self.input_1 | button.mask();
    }

    /// A control is released: its bit of input port 1 is cleared; the other
    /// bits are kept.
    pub fn release(&mut self, button: Button)
        ensures
            final(self)@ == (Machine {
                input_1: old(self).input_1 & !button_mask(button),
                ..old(self)@
            }),
    {
        self.input_1 = self.input_1 & !button.mask();
    }
}

} // verus!
