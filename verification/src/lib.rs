//! Logic of a two-button name badge with an eight-character dot-matrix display: button input,
//! the modes (menu, nametag, random, sensors, settings, games, animations), text formatting,
//! the settings store, tones, and the I2C buffers.

pub mod adc;
pub mod buttons;
pub mod colbuf;
pub mod eeprom;
pub mod hcms29xx;
pub mod i2c;
pub mod input;
pub mod menu;
pub mod modes;
pub mod music;
pub mod panic_screen;
pub mod random;
pub mod saved_settings;
pub mod tone;
pub mod utils;
pub mod vibes;

use vstd::prelude::*;

verus! {

/// Characters on the display.
pub const NUM_CHARS: usize = 8;

/// Width of one character, in columns.
pub const CHAR_WIDTH: usize = 5;

/// Height of one character, in rows.
pub const CHAR_HEIGHT: usize = 7;

/// Rows of the display.
pub const NUM_ROWS: usize = CHAR_HEIGHT;

/// Columns of the display.
pub const NUM_COLS: usize = CHAR_WIDTH * NUM_CHARS;

/// Empty columns that stand for the physical gap between two characters.
pub const COLUMN_GAP: usize = 2;

/// Width of the virtual display: the columns plus the gaps between characters.
pub const NUM_VIRT_COLS: usize = NUM_COLS + (NUM_CHARS - 1) * COLUMN_GAP;

/// Frequency of the core clock, in Hz.
pub const CORE_CLOCK_FREQ: u32 = 10_000_000;

/// Delay of one main-loop cycle, in milliseconds.
pub const BASE_DELAY_MS: u32 = 5;

/// I2C bus speed, in Hz.
pub const I2C_BUS_SPEED: u32 = 100_000;

} // verus!
