//! Opcodes of the controller's register protocol.
use vstd::prelude::*;

verus! {

/// Set the display brightness; one payload byte.
pub const BRIGHTNESS_SETTING: u8 = 0x80;

/// Set the controller's bus address; one payload byte.
pub const I2C_ADDRESS_SETTING: u8 = 0x81;

/// Clear the display; no payload.
pub const CLEAR_DISPLAY: u8 = 0x82;

/// Select scroll or rotate mode; one payload byte.
pub const MODE_SETTING: u8 = 0x83;

/// Switch the four dots; one bitmask byte.
pub const DOTS: u8 = 0x85;

/// Write one digit or character at a position; a position byte and a code byte.
pub const POSITION_SETTING: u8 = 0x89;

/// Show the controller's own bus address; no payload.
pub const DISPLAY_ADDRESS: u8 = 0x90;

/// Bus address of a controller fresh from the factory.
pub const DEFAULT_ADDRESS: u8 = 0x12;

/// Largest address the driver passes on to the controller.
pub const MAX_SETTABLE_ADDRESS: u8 = 0x3f;

} // verus!
