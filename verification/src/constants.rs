//! Opcodes of the controllers, the size of the display and the timing.
use vstd::prelude::*;

verus! {

/// Turns the display of a controller on.
pub const LCD_ON: u8 = 0x3F;

/// Turns the display of a controller off.
pub const LCD_OFF: u8 = 0x3E;

/// Opcode base of the set-column-address command.
pub const LCD_SET_COLUMN: u8 = 0x40;

/// Opcode base of the set-start-line command.
pub const LCD_START_LINE: u8 = 0xC0;

/// Opcode base of the set-page command.
pub const LCD_SET_ROW: u8 = 0xB8;

/// Colour byte of a lit pixel column.
pub const PIXEL_ON: u8 = 0xFF;

/// Colour byte of a dark pixel column.
pub const PIXEL_OFF: u8 = 0x00;

/// Number of pixel columns that one controller drives.
pub const CHIP_WIDTH: u8 = 64;

/// Number of pixel columns of the whole display.
pub const DISPLAY_WIDTH: u8 = 192;

/// Number of pixel rows of the whole display.
pub const DISPLAY_HEIGHT: u8 = 64;

/// Number of pixel rows in one page of controller memory.
pub const PAGE_HEIGHT: u8 = 8;

/// Microseconds between a change of the control lines and the strobe that follows it.
pub const ADDRESS_SETUP_US: u32 = 1;

/// Microseconds that a byte must stand on the bus before the strobe falls.
/// The byte is put on the bus before the strobe rises, so the high pulse
/// covers this time.
pub const DATA_SETUP_US: u32 = 1;

/// Microseconds that the strobe line stays high at least.
pub const PULSE_HIGH_US: u32 = 5;

/// Microseconds that the strobe line stays low at least.
pub const PULSE_LOW_US: u32 = 5;

/// Microseconds after raising the strobe until a controller's output is valid.
pub const DATA_DELAY_US: u32 = 5;

/// Milliseconds that the controllers need after power-up.
pub const POWER_UP_MS: u16 = 50;

} // verus!
