use vstd::prelude::*;

verus! {

/// One of the four shades of the display, lightest first.
#[derive(Clone, Copy, PartialEq, Eq, Structural, Debug)]
pub enum Color {
    Off,
    Light,
    Dark,
    On,
}

/// The shade a 2-bit value names; only the low two bits count.
pub open spec fn color_of(value: u8) -> Color {
    match value & 0x03 {
        1 => Color::Light,
        2 => Color::Dark,
        3 => Color::On,
        _ => Color::Off,
    }
}

impl Color {
    pub fn from_u8(value: u8) -> (r: Color)
        ensures
            r == color_of(value),
    {
        match value & 0x03 {
            1 => Color::Light,
            2 => Color::Dark,
            3 => Color::On,
            _ => Color::Off,
        }
    }

    pub open spec fn rgb(self) -> (u8, u8, u8) {
        match self {
            Color::Off => (156, 189, 15),
            Color::Light => (140, 173, 15),
            Color::Dark => (48, 98, 48),
            Color::On => (15, 56, 15),
        }
    }

    pub fn red(&self) -> (r: u8)
        ensures
            r == self.rgb().0,
    {
        match *self {
            Color::Off => 156,
            Color::Light => 140,
            Color::Dark => 48,
            Color::On => 15,
        }
    }

    pub fn green(&self) -> (r: u8)
        ensures
            r == self.rgb().1,
    {
        match *self {
            Color::Off => 189,
            Color::Light => 173,
            Color::Dark => 98,
            Color::On => 56,
        }
    }

    pub fn blue(&self) -> (r: u8)
        ensures
            r == self.rgb().2,
    {
        match *self {
            Color::Off => 15,
            Color::Light => 15,
            Color::Dark => 48,
            Color::On => 15,
        }
    }
}

} // verus!
