//! Codec for the servo motor driver.
//!
//! Each servo angle occupies a two-byte field split into a sign byte (0 or 1)
//! and a one-byte magnitude, so an angle must lie within ±255 degrees.
//! Status frames are matched on the address with the servo class constant
//! OR-ed in.

use vstd::prelude::*;

use crate::device_type;
use crate::wire;
use crate::Error;
use crate::HandleTrait;

verus! {

/// Mode byte: request a status frame.
pub const MODE_STATUS: u8 = 0;

/// Mode byte: set the angle of one port.
pub const MODE_ANGLE: u8 = 1;

/// Mode byte: set the angles of both ports.
pub const MODE_ANGLES: u8 = 2;

/// Decoded status frame of a servo driver.
#[derive(Clone, Copy, Debug, PartialEq, Eq, Structural)]
pub struct SmdStatus {
    pub address: u8,
    pub semi_id: u8,
    pub angle_0: i16,
    pub angle_1: i16,
}

/// The command frame that sets the angle of one port.
pub open spec fn angle_frame(address: u8, port: u8, angle: int) -> Seq<u8> {
    seq![
        address | device_type::SMD,
        device_type::MASTER,
        MODE_ANGLE,
        port,
        wire::sign_of(angle),
        wire::magnitude_of(angle) as u8,
        0u8,
        0u8,
    ]
}

/// The command frame that sets the angles of both ports at once.
pub open spec fn angles_frame(address: u8, angle_0: int, angle_1: int) -> Seq<u8> {
    seq![
        address | device_type::SMD,
        device_type::MASTER,
        MODE_ANGLES,
        0u8,
        wire::sign_of(angle_0),
        wire::magnitude_of(angle_0) as u8,
        wire::sign_of(angle_1),
        wire::magnitude_of(angle_1) as u8,
    ]
}

/// Whether a status frame answers the servo driver at `address`: its leading
/// byte must equal the address with the class constant OR-ed in.
pub open spec fn smd_matches(frame: Seq<u8>, address: u8) -> bool {
    frame.len() == 8 && frame[0] == address | device_type::SMD
}

/// The status a matching frame decodes to.
pub open spec fn smd_decode(frame: Seq<u8>) -> SmdStatus
    recommends
        frame.len() == 8,
{
    SmdStatus {
        address: frame[0],
        semi_id: frame[1],
        angle_0: wire::be_i16(frame[2], frame[3]) as i16,
        angle_1: wire::be_i16(frame[4], frame[5]) as i16,
    }
}

/// The receive loop consumed exactly the non-matching prefix of the pending
/// frames and decoded the first matching one into `status`.
pub open spec fn smd_receive_ok(
    pre: Seq<Seq<u8>>,
    post: Seq<Seq<u8>>,
    address: u8,
    status: SmdStatus,
) -> bool {
    exists|k: int|
        {
            &&& 0 <= k < pre.len()
            &&& #[trigger] smd_matches(pre[k], address)
            &&& forall|j: int| 0 <= j < k ==> !smd_matches(#[trigger] pre[j], address)
            &&& status == smd_decode(pre[k])
            &&& post == pre.skip(k + 1)
        }
}

/// The receive loop failed after discarding only non-matching frames.
pub open spec fn smd_receive_failed(pre: Seq<Seq<u8>>, post: Seq<Seq<u8>>, address: u8) -> bool {
    exists|k: int|
        {
            &&& 0 <= k <= pre.len()
            &&& post == #[trigger] pre.skip(k)
            &&& forall|j: int| 0 <= j < k ==> !smd_matches(#[trigger] pre[j], address)
        }
}

/// Reads status frames until one answers the queried servo driver, discarding
/// the others, and decodes it. A read failure is returned at once.
pub fn receive_status<H: HandleTrait>(handle: &mut H, address: u8) -> (r: Result<SmdStatus, Error>)
    ensures
        final(handle).sent() == old(handle).sent(),
        match r {
            Ok(status) => smd_receive_ok(
                old(handle).pending(),
                final(handle).pending(),
                address,
                status,
            ),
            Err(_) => smd_receive_failed(old(handle).pending(), final(handle).pending(), address),
        },
{
    let ghost pending0 = handle.pending();
    let ghost sent0 = handle.sent();
    let mut receive_buf: [u8; 8] = [0; 8];
    let ghost mut discarded: int = 0;
    loop
        invariant
            0 <= discarded <= pending0.len(),
            handle.pending() == pending0.skip(discarded),
            handle.sent() == sent0,
            forall|j: int| 0 <= j < discarded ==> !smd_matches(#[trigger] pending0[j], address),
        decreases pending0.len() - discarded,
    {
        match handle.read_bulk(&mut receive_buf, core::time::Duration::from_millis(5000)) {
            Ok(_) => {},
            Err(e) => {
                return Err(e);
            },
        }
        proof {
            assert(pending0.skip(discarded)[0] == pending0[discarded]);
        }
        if receive_buf[0] == address | device_type::SMD {
            let status = SmdStatus {
                address: receive_buf[0],
                semi_id: receive_buf[1],
                angle_0: wire::decode_be_i16(receive_buf[2], receive_buf[3]),
                angle_1: wire::decode_be_i16(receive_buf[4], receive_buf[5]),
            };
            proof {
                assert(smd_matches(pending0[discarded], address));
                assert(status == smd_decode(pending0[discarded]));
                assert(pending0.skip(discarded).skip(1) =~= pending0.skip(discarded + 1));
            }
            return Ok(status);
        }
        proof {
            assert(!smd_matches(pending0[discarded], address));
            assert(pending0.skip(discarded).skip(1) =~= pending0.skip(discarded + 1));
            discarded = discarded + 1;
        }
    }
}

/// Sets the angle of one servo port and returns the driver's next status.
/// The angle's magnitude must fit the one-byte wire field.
pub fn send_angle<H: HandleTrait>(handle: &mut H, address: u8, port: u8, angle: i16) -> (r: Result<
    SmdStatus,
    Error,
>)
    requires
        -255 <= angle <= 255,
    ensures
        match r {
            Ok(status) => final(handle).sent() == old(handle).sent().push(
                angle_frame(address, port, angle as int),
            ) && smd_receive_ok(old(handle).pending(), final(handle).pending(), address, status),
            Err(_) => (final(handle).sent() == old(handle).sent() && final(handle).pending() == old(
                handle,
            ).pending()) || (final(handle).sent() == old(handle).sent().push(
                angle_frame(address, port, angle as int),
            ) && smd_receive_failed(old(handle).pending(), final(handle).pending(), address)),
        },
{
    let (sign, magnitude) = wire::encode_sign_magnitude(angle);
    let send_buf: [u8; 8] = [
        address | device_type::SMD,
        device_type::MASTER,
        MODE_ANGLE,
        port,
        sign,
        magnitude as u8,
        0,
        0,
    ];
    proof {
        assert(send_buf@ =~= angle_frame(address, port, angle as int));
    }
    match handle.write_bulk(send_buf.as_slice(), core::time::Duration::from_millis(5000)) {
        Ok(_) => {},
        Err(e) => {
            return Err(e);
        },
    }
    receive_status(handle, address)
}

/// Sets the angles of both servo ports and returns the driver's next status.
/// Each angle's magnitude must fit its one-byte wire field.
pub fn send_angles<H: HandleTrait>(
    handle: &mut H,
    address: u8,
    angle_0: i16,
    angle_1: i16,
) -> (r: Result<SmdStatus, Error>)
    requires
        -255 <= angle_0 <= 255,
        -255 <= angle_1 <= 255,
    ensures
        match r {
            Ok(status) => final(handle).sent() == old(handle).sent().push(
                angles_frame(address, angle_0 as int, angle_1 as int),
            ) && smd_receive_ok(old(handle).pending(), final(handle).pending(), address, status),
            Err(_) => (final(handle).sent() == old(handle).sent() && final(handle).pending() == old(
                handle,
            ).pending()) || (final(handle).sent() == old(handle).sent().push(
                angles_frame(address, angle_0 as int, angle_1 as int),
            ) && smd_receive_failed(old(handle).pending(), final(handle).pending(), address)),
        },
{
    let (sign_0, magnitude_0) = wire::encode_sign_magnitude(angle_0);
    let (sign_1, magnitude_1) = wire::encode_sign_magnitude(angle_1);
    let send_buf: [u8; 8] = [
        address | device_type::SMD,
        device_type::MASTER,
        MODE_ANGLES,
        0,
        sign_0,
        magnitude_0 as u8,
        sign_1,
        magnitude_1 as u8,
    ];
    proof {
        assert(send_buf@ =~= angles_frame(address, angle_0 as int, angle_1 as int));
    }
    match handle.write_bulk(send_buf.as_slice(), core::time::Duration::from_millis(5000)) {
        Ok(_) => {},
        Err(e) => {
            return Err(e);
        },
    }
    receive_status(handle, address)
}

} // verus!
