//! Codec for the solenoid driver.
//!
//! Solenoid powers travel as plain two's-complement big-endian 16-bit values;
//! the device address goes on the wire with the solenoid class constant
//! OR-ed in, and status frames are matched on that same byte.

use vstd::prelude::*;

use crate::device_type;
use crate::wire;
use crate::Error;
use crate::HandleTrait;

verus! {

/// Mode byte: request a status frame.
pub const MODE_STATUS: u8 = 0;

/// Mode byte: set the power of both ports.
pub const MODE_POWER: u8 = 1;

/// Mode byte: set the limit-switch powers.
pub const MODE_LIM_SW: u8 = 2;

/// Mode byte: set the power of a single port.
pub const MODE_SINGLE_POWER: u8 = 3;

/// State of the two limit-switch inputs reported by the driver.
#[derive(Clone, Copy, Debug, PartialEq, Eq, Structural)]
pub struct LimSwStatus {
    pub limsw_0: bool,
    pub limsw_1: bool,
}

/// Decoded status frame of a solenoid driver.
#[derive(Clone, Copy, Debug, PartialEq, Eq, Structural)]
pub struct SdStatus {
    pub address: u8,
    pub semi_id: u8,
    pub port_0: i16,
    pub port_1: i16,
    pub limsw: LimSwStatus,
}

/// The command frame that sets the power of one port.
pub open spec fn power_frame(address: u8, port: u8, power: int) -> Seq<u8> {
    seq![
        address | device_type::SD,
        device_type::MASTER,
        MODE_SINGLE_POWER,
        port,
        wire::be_hi(power),
        wire::be_lo(power),
        0u8,
        0u8,
    ]
}

/// The command frame that sets the power of both ports at once.
pub open spec fn powers_frame(address: u8, power_0: int, power_1: int) -> Seq<u8> {
    seq![
        address | device_type::SD,
        device_type::MASTER,
        MODE_POWER,
        0u8,
        wire::be_hi(power_0),
        wire::be_lo(power_0),
        wire::be_hi(power_1),
        wire::be_lo(power_1),
    ]
}

/// Whether a status frame answers the solenoid driver at `address`: its
/// leading byte must equal the address with the class constant OR-ed in.
pub open spec fn sd_matches(frame: Seq<u8>, address: u8) -> bool {
    frame.len() == 8 && frame[0] == address | device_type::SD
}

/// The status a matching frame decodes to.
pub open spec fn sd_decode(frame: Seq<u8>) -> SdStatus
    recommends
        frame.len() == 8,
{
    SdStatus {
        address: frame[0],
        semi_id: frame[1],
        port_0: wire::be_i16(frame[2], frame[3]) as i16,
        port_1: wire::be_i16(frame[4], frame[5]) as i16,
        limsw: LimSwStatus { limsw_0: frame[6] == 1, limsw_1: frame[7] == 1 },
    }
}

/// The receive loop consumed exactly the non-matching prefix of the pending
/// frames and decoded the first matching one into `status`.
pub open spec fn sd_receive_ok(
    pre: Seq<Seq<u8>>,
    post: Seq<Seq<u8>>,
    address: u8,
    status: SdStatus,
) -> bool {
    exists|k: int|
        {
            &&& 0 <= k < pre.len()
            &&& #[trigger] sd_matches(pre[k], address)
            &&& forall|j: int| 0 <= j < k ==> !sd_matches(#[trigger] pre[j], address)
            &&& status == sd_decode(pre[k])
            &&& post == pre.skip(k + 1)
        }
}

/// The receive loop failed after discarding only non-matching frames.
pub open spec fn sd_receive_failed(pre: Seq<Seq<u8>>, post: Seq<Seq<u8>>, address: u8) -> bool {
    exists|k: int|
        {
            &&& 0 <= k <= pre.len()
            &&& post == #[trigger] pre.skip(k)
            &&& forall|j: int| 0 <= j < k ==> !sd_matches(#[trigger] pre[j], address)
        }
}

/// Reads status frames until one answers the queried solenoid driver,
/// discarding the others, and decodes it. A read failure is returned at once.
pub fn receive_status<H: HandleTrait>(handle: &mut H, address: u8) -> (r: Result<SdStatus, Error>)
    ensures
        final(handle).sent() == old(handle).sent(),
        match r {
            Ok(status) => sd_receive_ok(
                old(handle).pending(),
                final(handle).pending(),
                address,
                status,
            ),
            Err(_) => sd_receive_failed(old(handle).pending(), final(handle).pending(), address),
        },
{
    let ghost pending0 = handle.pending();
    let ghost sent0 = handle.sent();
    let mut receive_buf: [u8; 8] = [0; 8];
    let ghost mut discarded: int = 0;
    loop
        invariant
            0 <= discarded <= pending0.len(),
            handle.pending() == pending0.skip(discarded),
            handle.sent() == sent0,
            forall|j: int| 0 <= j < discarded ==> !sd_matches(#[trigger] pending0[j], address),
        decreases pending0.len() - discarded,
    {
        match handle.read_bulk(&mut receive_buf, core::time::Duration::from_millis(5000)) {
            Ok(_) => {},
            Err(e) => {
                return Err(e);
            },
        }
        proof {
            assert(pending0.skip(discarded)[0] == pending0[discarded]);
        }
        if receive_buf[0] == address | device_type::SD {
            let status = SdStatus {
                address: receive_buf[0],
                semi_id: receive_buf[1],
                port_0: wire::decode_be_i16(receive_buf[2], receive_buf[3]),
                port_1: wire::decode_be_i16(receive_buf[4], receive_buf[5]),
                limsw: LimSwStatus {
                    limsw_0: receive_buf[6] == 1,
                    limsw_1: receive_buf[7] == 1,
                },
            };
            proof {
                assert(sd_matches(pending0[discarded], address));
                assert(status == sd_decode(pending0[discarded]));
                assert(pending0.skip(discarded).skip(1) =~= pending0.skip(discarded + 1));
            }
            return Ok(status);
        }
        proof {
            assert(!sd_matches(pending0[discarded], address));
            assert(pending0.skip(discarded).skip(1) =~= pending0.skip(discarded + 1));
            discarded = discarded + 1;
        }
    }
}

/// Sets the power of one solenoid port and returns the driver's next status.
pub fn send_power<H: HandleTrait>(handle: &mut H, address: u8, port: u8, power: i16) -> (r: Result<
    SdStatus,
    Error,
>)
    ensures
        match r {
            Ok(status) => final(handle).sent() == old(handle).sent().push(
                power_frame(address, port, power as int),
            ) && sd_receive_ok(old(handle).pending(), final(handle).pending(), address, status),
            Err(_) => (final(handle).sent() == old(handle).sent() && final(handle).pending() == old(
                handle,
            ).pending()) || (final(handle).sent() == old(handle).sent().push(
                power_frame(address, port, power as int),
            ) && sd_receive_failed(old(handle).pending(), final(handle).pending(), address)),
        },
{
    let (power_hi, power_lo) = wire::encode_be_i16(power);
    let send_buf: [u8; 8] = [
        address | device_type::SD,
        device_type::MASTER,
        MODE_SINGLE_POWER,
        port,
        power_hi,
        power_lo,
        0,
        0,
    ];
    proof {
        assert(send_buf@ =~= power_frame(address, port, power as int));
    }
    match handle.write_bulk(send_buf.as_slice(), core::time::Duration::from_millis(5000)) {
        Ok(_) => {},
        Err(e) => {
            return Err(e);
        },
    }
    receive_status(handle, address)
}

/// Sets the power of both solenoid ports and returns the driver's next status.
pub fn send_powers<H: HandleTrait>(
    handle: &mut H,
    address: u8,
    power_0: i16,
    power_1: i16,
) -> (r: Result<SdStatus, Error>)
    ensures
        match r {
            Ok(status) => final(handle).sent() == old(handle).sent().push(
                powers_frame(address, power_0 as int, power_1 as int),
            ) && sd_receive_ok(old(handle).pending(), final(handle).pending(), address, status),
            Err(_) => (final(handle).sent() == old(handle).sent() && final(handle).pending() == old(
                handle,
            ).pending()) || (final(handle).sent() == old(handle).sent().push(
                powers_frame(address, power_0 as int, power_1 as int),
            ) && sd_receive_failed(old(handle).pending(), final(handle).pending(), address)),
        },
{
    let (power_0_hi, power_0_lo) = wire::encode_be_i16(power_0);
    let (power_1_hi, power_1_lo) = wire::encode_be_i16(power_1);
    let send_buf: [u8; 8] = [
        address | device_type::SD,
        device_type::MASTER,
        MODE_POWER,
        0,
        power_0_hi,
        power_0_lo,
        power_1_hi,
        power_1_lo,
    ];
    proof {
        assert(send_buf@ =~= powers_frame(address, power_0 as int, power_1 as int));
    }
    match handle.write_bulk(send_buf.as_slice(), core::time::Duration::from_millis(5000)) {
        Ok(_) => {},
        Err(e) => {
            return Err(e);
        },
    }
    receive_status(handle, address)
}

} // verus!
