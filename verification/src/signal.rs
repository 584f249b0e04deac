//! What passes between the engine and the board: pin actions and readings.
use vstd::prelude::*;

verus! {

/// One of the fourteen wires between the board and the display module.
#[derive(Clone, Copy, Debug, PartialEq, Eq, Structural)]
pub enum Line {
    RW,
    RS,
    EN,
    CS1,
    CS2,
    CS3,
    DB0,
    DB1,
    DB2,
    DB3,
    DB4,
    DB5,
    DB6,
    DB7,
}

/// One thing that the board is asked to do to its pins, or a pause.
#[derive(Clone, Copy, Debug, PartialEq, Eq, Structural)]
pub enum Action {
    /// Drive an output line high (`true`) or low (`false`).
    Drive(Line, bool),
    /// Turn a data line into an input with its pull-up enabled.
    PullUp(Line),
    /// Turn a data line into an output.
    Output(Line),
    /// Read the level of all eight data lines; answered by `Event::Levels`.
    Sample,
    /// Read the level of data line 7 alone; answered by `Event::Level`.
    SampleReady,
    /// Wait for a number of microseconds.
    DelayUs(u32),
    /// Wait for a number of milliseconds.
    DelayMs(u16),
}

/// The levels read from the eight data lines, `true` for high.
#[derive(Clone, Copy, Debug, PartialEq, Eq, Structural)]
pub struct Levels {
    pub d0: bool,
    pub d1: bool,
    pub d2: bool,
    pub d3: bool,
    pub d4: bool,
    pub d5: bool,
    pub d6: bool,
    pub d7: bool,
}

/// What the board reports back after it carried out a burst of actions.
#[derive(Clone, Copy, Debug, PartialEq, Eq, Structural)]
pub enum Event {
    /// The burst asked for no reading.
    Nothing,
    /// The level of data line 7.
    Level(bool),
    /// The levels of all eight data lines.
    Levels(Levels),
}

/// Whether bit `i` of `byte` is set.
pub open spec fn bit(byte: u8, i: u8) -> bool {
    (byte >> i) & 1 == 1
}

impl Levels {
    /// The levels that show `byte` on the bus, line `i` carrying bit `i`.
    pub open spec fn of(byte: u8) -> Levels {
        Levels {
            d0: bit(byte, 0),
            d1: bit(byte, 1),
            d2: bit(byte, 2),
            d3: bit(byte, 3),
            d4: bit(byte, 4),
            d5: bit(byte, 5),
            d6: bit(byte, 6),
            d7: bit(byte, 7),
        }
    }

    /// The number that has bit `i` set where `weight` is 2^i and the line is high.
    pub open spec fn part(high: bool, weight: u8) -> u8 {
        if high {
            weight
        } else {
            0
        }
    }

    /// The byte that the eight levels spell, line `i` giving bit `i`.
    pub open spec fn byte(self) -> u8 {
        Self::part(self.d0, 1) | Self::part(self.d1, 2) | Self::part(self.d2, 4) | Self::part(
            self.d3,
            8,
        ) | Self::part(self.d4, 16) | Self::part(self.d5, 32) | Self::part(self.d6, 64)
            | Self::part(self.d7, 128)
    }

    /// The levels that show `byte` on the bus.
    pub fn from_byte(byte: u8) -> (levels: Levels)
        ensures
            levels == Levels::of(byte),
            levels.byte() == byte,
    {
        proof {
            lemma_byte_of_levels(byte);
        }
        Levels {
            d0: (byte >> 0) & 1 == 1,
            d1: (byte >> 1) & 1 == 1,
            d2: (byte >> 2) & 1 == 1,
            d3: (byte >> 3) & 1 == 1,
            d4: (byte >> 4) & 1 == 1,
            d5: (byte >> 5) & 1 == 1,
            d6: (byte >> 6) & 1 == 1,
            d7: (byte >> 7) & 1 == 1,
        }
    }

    /// The byte that the eight levels spell.
    pub fn to_byte(&self) -> (byte: u8)
        ensures
            byte == self.byte(),
    {
        let b0: u8 = if self.d0 { 1 } else { 0 };
        let b1: u8 = if self.d1 { 2 } else { 0 };
        let b2: u8 = if self.d2 { 4 } else { 0 };
        let b3: u8 = if self.d3 { 8 } else { 0 };
        let b4: u8 = if self.d4 { 16 } else { 0 };
        let b5: u8 = if self.d5 { 32 } else { 0 };
        let b6: u8 = if self.d6 { 64 } else { 0 };
        let b7: u8 = if self.d7 { 128 } else { 0 };
        b0 | b1 | b2 | b3 | b4 | b5 | b6 | b7
    }

    /// All eight lines high: what an undriven bus with pull-ups shows.
    pub open spec fn released() -> Levels {
        Levels {
            d0: true,
            d1: true,
            d2: true,
            d3: true,
            d4: true,
            d5: true,
            d6: true,
            d7: true,
        }
    }
}

/// Spelling a byte on the lines and reading the lines back gives the byte.
pub proof fn lemma_byte_of_levels(byte: u8)
    ensures
        Levels::of(byte).byte() == byte,
{
    assert(((if (byte >> 0u8) & 1 == 1 { 1u8 } else { 0u8 })
        | (if (byte >> 1u8) & 1 == 1 { 2u8 } else { 0u8 })
        | (if (byte >> 2u8) & 1 == 1 { 4u8 } else { 0u8 })
        | (if (byte >> 3u8) & 1 == 1 { 8u8 } else { 0u8 })
        | (if (byte >> 4u8) & 1 == 1 { 16u8 } else { 0u8 })
        | (if (byte >> 5u8) & 1 == 1 { 32u8 } else { 0u8 })
        | (if (byte >> 6u8) & 1 == 1 { 64u8 } else { 0u8 })
        | (if (byte >> 7u8) & 1 == 1 { 128u8 } else { 0u8 })) == byte) by (bit_vector);
}

/// Reading eight levels as a byte and spelling that byte gives the levels.
pub proof fn lemma_levels_of_byte(levels: Levels)
    ensures
        Levels::of(levels.byte()) == levels,
{
    let a: u8 = Levels::part(levels.d0, 1);
    let b: u8 = Levels::part(levels.d1, 2);
    let c: u8 = Levels::part(levels.d2, 4);
    let d: u8 = Levels::part(levels.d3, 8);
    let e: u8 = Levels::part(levels.d4, 16);
    let f: u8 = Levels::part(levels.d5, 32);
    let g: u8 = Levels::part(levels.d6, 64);
    let h: u8 = Levels::part(levels.d7, 128);
    let v: u8 = a | b | c | d | e | f | g | h;
    assert(((v >> 0u8) & 1 == 1) == (a == 1) && ((v >> 1u8) & 1 == 1) == (b == 2) && ((v >> 2u8)
        & 1 == 1) == (c == 4) && ((v >> 3u8) & 1 == 1) == (d == 8) && ((v >> 4u8) & 1 == 1) == (e
        == 16) && ((v >> 5u8) & 1 == 1) == (f == 32) && ((v >> 6u8) & 1 == 1) == (g == 64) && ((v
        >> 7u8) & 1 == 1) == (h == 128)) by (bit_vector)
        requires
            v == a | b | c | d | e | f | g | h,
            a == 0 || a == 1,
            b == 0 || b == 2,
            c == 0 || c == 4,
            d == 0 || d == 8,
            e == 0 || e == 16,
            f == 0 || f == 32,
            g == 0 || g == 64,
            h == 0 || h == 128,
    ;
}

} // verus!
