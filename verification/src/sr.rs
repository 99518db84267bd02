//! Codec for the signal/LED ring.
//!
//! The ring only takes commands — stop, start, and a colour setting — and
//! answers nothing, so these functions return the byte count of the write.
//! The colour frame carries green, red and blue intensities and a blink
//! frequency in quarter-hertz steps (the wire byte holds four times the
//! frequency in hertz).

use vstd::prelude::*;

use crate::device_type;
use crate::usb::USBHandleTrait;
use crate::Error;

verus! {

/// Mode byte: request a status frame.
pub const MODE_STATUS: u8 = 0;

/// Mode byte: stop the ring.
pub const MODE_STOP: u8 = 1;

/// Mode byte: start the ring.
pub const MODE_START: u8 = 2;

/// Mode byte: set the ring's colour and blink frequency.
pub const MODE_COLOR: u8 = 3;

/// An RGB colour as the ring displays it.
#[derive(Clone, Copy, Debug, PartialEq, Eq, Structural)]
pub struct Color {
    pub red: u8,
    pub green: u8,
    pub blue: u8,
}

/// The command frame that stops the ring.
pub open spec fn stop_frame() -> Seq<u8> {
    seq![device_type::SR, device_type::MASTER, MODE_STOP, 0u8, 0u8, 0u8, 0u8, 0u8]
}

/// The command frame that starts the ring.
pub open spec fn start_frame() -> Seq<u8> {
    seq![device_type::SR, device_type::MASTER, MODE_START, 0u8, 0u8, 0u8, 0u8, 0u8]
}

/// The command frame that sets the ring's colour: green, red and blue
/// intensities and the blink frequency in quarter-hertz steps.
pub open spec fn colors_frame(red: u8, green: u8, blue: u8, freq_quarter_hz: u8) -> Seq<u8> {
    seq![
        device_type::SR,
        device_type::MASTER,
        MODE_COLOR,
        0u8,
        green,
        red,
        blue,
        freq_quarter_hz,
    ]
}

/// Sends a stop command to the ring; nothing is read back.
pub fn send_stop<H: USBHandleTrait>(handle: &mut H) -> (r: Result<usize, Error>)
    ensures
        final(handle).pending() == old(handle).pending(),
        match r {
            Ok(n) => n <= 8 && final(handle).sent() == old(handle).sent().push(stop_frame()),
            Err(_) => final(handle).sent() == old(handle).sent(),
        },
{
    let send_buf: [u8; 8] = [
        device_type::SR,
        device_type::MASTER,
        MODE_STOP,
        0,
        0,
        0,
        0,
        0,
    ];
    proof {
        assert(send_buf@ =~= stop_frame());
    }
    handle.write_bulk(send_buf.as_slice(), core::time::Duration::from_millis(5000))
}

/// Sends a start command to the ring with the given write timeout in
/// milliseconds; nothing is read back.
pub fn send_start<H: USBHandleTrait>(handle: &mut H, timeout: u16) -> (r: Result<usize, Error>)
    ensures
        final(handle).pending() == old(handle).pending(),
        match r {
            Ok(n) => n <= 8 && final(handle).sent() == old(handle).sent().push(start_frame()),
            Err(_) => final(handle).sent() == old(handle).sent(),
        },
{
    let send_buf: [u8; 8] = [
        device_type::SR,
        device_type::MASTER,
        MODE_START,
        0,
        0,
        0,
        0,
        0,
    ];
    proof {
        assert(send_buf@ =~= start_frame());
    }
    handle.write_bulk(send_buf.as_slice(), core::time::Duration::from_millis(timeout as u64))
}

/// Sets the colour of the LED strip on the ring, with the blink frequency
/// given in quarter-hertz steps and the write timeout in milliseconds;
/// nothing is read back.
pub fn send_colors<H: USBHandleTrait>(
    handle: &mut H,
    red: u8,
    green: u8,
    blue: u8,
    freq_quarter_hz: u8,
    timeout: u16,
) -> (r: Result<usize, Error>)
    ensures
        final(handle).pending() == old(handle).pending(),
        match r {
            Ok(n) => n <= 8 && final(handle).sent() == old(handle).sent().push(
                colors_frame(red, green, blue, freq_quarter_hz),
            ),
            Err(_) => final(handle).sent() == old(handle).sent(),
        },
{
    let send_buf: [u8; 8] = [
        device_type::SR,
        device_type::MASTER,
        MODE_COLOR,
        0,
        green,
        red,
        blue,
        freq_quarter_hz,
    ];
    proof {
        assert(send_buf@ =~= colors_frame(red, green, blue, freq_quarter_hz));
    }
    handle.write_bulk(send_buf.as_slice(), core::time::Duration::from_millis(timeout as u64))
}

} // verus!
