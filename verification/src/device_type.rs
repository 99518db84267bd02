//! Device-class constants: the high nibble of a device address encodes the
//! class of peripheral the frame is addressed to.

use vstd::prelude::*;

verus! {

/// Current/PWM motor driver.
pub const MD: u8 = 0x00;
/// Solenoid driver.
pub const SD: u8 = 0x10;
/// Servo motor driver.
pub const SMD: u8 = 0x20;
/// Brushless motor driver.
pub const BLMD: u8 = 0x30;
/// Signal/LED ring.
pub const SR: u8 = 0x40;
/// Stepping motor driver.
pub const SM: u8 = 0x50;
/// Master/host controller.
pub const MASTER: u8 = 0x60;
/// Emergency broadcast address.
pub const EMMERGENCY: u8 = 0xf0;

} // verus!
