//! Codec for the current/PWM motor driver.
//!
//! Command frames carry a mode byte selecting the command, a sign byte and a
//! 16-bit magnitude for the signed quantity (PWM duty, speed, angle), or raw
//! two's-complement values for the limit-switch powers. Speed commands and
//! decoded speed values pass through the rpm ↔ encoder-count conversion;
//! PWM, angle and limit-switch values are wire-native.

use vstd::arithmetic::div_mod::{lemma_div_is_ordered, lemma_fundamental_div_mod, lemma_mod_bound};
use vstd::prelude::*;

use crate::device_type;
use crate::wire;
use crate::Error;
use crate::HandleTrait;

verus! {

/// Mode byte: initialize the driver.
pub const MODE_INIT: u8 = 0;

/// Mode byte: request a status frame.
pub const MODE_STATUS: u8 = 1;

/// Mode byte: set a PWM duty cycle.
pub const MODE_PWM: u8 = 2;

/// Mode byte: set a rotation speed.
pub const MODE_SPEED: u8 = 3;

/// Mode byte: set an angle.
pub const MODE_ANGLE: u8 = 4;

/// Mode byte: set the duty cycles before and after a limit switch closes.
pub const MODE_LIM_SW: u8 = 5;

/// State of the two limit-switch inputs reported by the driver.
#[derive(Clone, Copy, Debug, PartialEq, Eq, Structural)]
pub struct LimSwStatus {
    pub limsw_0: bool,
    pub limsw_1: bool,
}

/// Decoded status frame of a current/PWM driver.
#[derive(Clone, Copy, Debug, PartialEq, Eq, Structural)]
pub struct MdStatus {
    pub address: u8,
    pub semi_id: u8,
    pub angle: i16,
    /// Measured speed in rpm, converted from the wire's encoder counts and
    /// saturated at the signed 16-bit bounds.
    pub speed: i16,
    pub limsw: LimSwStatus,
}

/// Encoder counts of a speed in rpm: `8192 * rpm / 12000`, rounded to the
/// nearest integer (ties away from zero).
pub open spec fn rpm_to_count_spec(rpm: int) -> int {
    if rpm >= 0 {
        (rpm * 8192 + 6000) / 12000
    } else {
        -(((-rpm) * 8192 + 6000) / 12000)
    }
}

/// Speed in rpm of a count of encoder counts: `12000 * count / 8192`, rounded
/// to the nearest integer (ties away from zero).
pub open spec fn count_to_rpm_spec(count: int) -> int {
    if count >= 0 {
        (count * 12000 + 4096) / 8192
    } else {
        -(((-count) * 12000 + 4096) / 8192)
    }
}

/// Converts a speed in rpm to the encoder counts put on the wire.
pub fn rpm_to_count(rpm: i16) -> (count: i16)
    ensures
        count as int == rpm_to_count_spec(rpm as int),
{
    if rpm >= 0 {
        let n: u32 = (rpm as u32) * 8192 + 6000;
        let q: u32 = n / 12000;
        proof {
            lemma_div_is_ordered(n as int, (0x7fff * 8192 + 6000) as int, 12000);
        }
        q as i16
    } else {
        let m: u32 = if rpm == -32768 {
            32768
        } else {
            (-rpm) as u32
        };
        let n: u32 = m * 8192 + 6000;
        let q: u32 = n / 12000;
        proof {
            lemma_div_is_ordered(n as int, (0x8000 * 8192 + 6000) as int, 12000);
        }
        -(q as i16)
    }
}

/// Converts encoder counts read from the wire back to a speed in rpm.
pub fn count_to_rpm(count: i16) -> (rpm: i32)
    ensures
        rpm as int == count_to_rpm_spec(count as int),
{
    if count >= 0 {
        let n: u32 = (count as u32) * 12000 + 4096;
        let q: u32 = n / 8192;
        proof {
            lemma_div_is_ordered(n as int, (0x7fff * 12000 + 4096) as int, 8192);
        }
        q as i32
    } else {
        let m: u32 = if count == -32768 {
            32768
        } else {
            (-count) as u32
        };
        let n: u32 = m * 12000 + 4096;
        let q: u32 = n / 8192;
        proof {
            lemma_div_is_ordered(n as int, (0x8000 * 12000 + 4096) as int, 8192);
        }
        -(q as i32)
    }
}

proof fn lemma_round_trip_nonneg(m: int)
    requires
        0 <= m,
    ensures
        m - 1 <= count_to_rpm_spec(rpm_to_count_spec(m)) <= m + 1,
{
    let c = (m * 8192 + 6000) / 12000;
    lemma_fundamental_div_mod(m * 8192 + 6000, 12000);
    lemma_mod_bound(m * 8192 + 6000, 12000);
    let r1 = (m * 8192 + 6000) % 12000;
    assert(12000 * c == m * 8192 + 6000 - r1);
    assert(c >= 0) by {
        if c < 0 {
            assert(12000 * c <= 12000 * -1);
        }
    }
    let q = (c * 12000 + 4096) / 8192;
    lemma_fundamental_div_mod(c * 12000 + 4096, 8192);
    lemma_mod_bound(c * 12000 + 4096, 8192);
    let r2 = (c * 12000 + 4096) % 8192;
    assert(8192 * q == c * 12000 + 4096 - r2);
    assert(c * 12000 == 12000 * c) by {
        vstd::arithmetic::mul::lemma_mul_is_commutative(c, 12000);
    }
    assert(8192 * q == m * 8192 + 10096 - r1 - r2);
    assert(m - 1 <= q <= m + 1) by {
        if q >= m + 2 {
            assert(8192 * q >= 8192 * (m + 2)) by {
                vstd::arithmetic::mul::lemma_mul_inequality(m + 2, q, 8192);
            }
        }
        if q <= m - 2 {
            assert(8192 * q <= 8192 * (m - 2)) by {
                vstd::arithmetic::mul::lemma_mul_inequality(q, m - 2, 8192);
            }
        }
    }
    assert(count_to_rpm_spec(rpm_to_count_spec(m)) == q);
}

/// Converting a speed in rpm to encoder counts and back yields a value within
/// one rpm of the original: the two roundings together lose less than one unit.
pub proof fn lemma_rpm_count_round_trip(rpm: int)
    requires
        -0x8000 <= rpm <= 0x7fff,
    ensures
        rpm - 1 <= count_to_rpm_spec(rpm_to_count_spec(rpm)) <= rpm + 1,
{
    if rpm >= 0 {
        lemma_round_trip_nonneg(rpm);
    } else {
        let m = -rpm;
        lemma_round_trip_nonneg(m);
        let c = (m * 8192 + 6000) / 12000;
        assert(c >= 0) by {
            lemma_fundamental_div_mod(m * 8192 + 6000, 12000);
            lemma_mod_bound(m * 8192 + 6000, 12000);
            if c < 0 {
                assert(12000 * c <= 12000 * -1);
            }
        }
        assert(rpm_to_count_spec(rpm) == -c);
        if c == 0 {
            assert(count_to_rpm_spec(0) == 4096int / 8192);
        } else {
            assert(count_to_rpm_spec(-c) == -count_to_rpm_spec(c));
        }
    }
}

/// The command frame that sets a PWM duty cycle (sign-magnitude encoded).
pub open spec fn pwm_frame(address: u8, power: int) -> Seq<u8> {
    seq![
        address,
        device_type::MASTER,
        MODE_PWM,
        wire::sign_of(power),
        (wire::magnitude_of(power) / 256) as u8,
        (wire::magnitude_of(power) % 256) as u8,
        0u8,
        0u8,
    ]
}

/// The command frame that sets a rotation speed, in encoder counts
/// (sign-magnitude encoded).
pub open spec fn speed_frame(address: u8, count: int) -> Seq<u8> {
    seq![
        address,
        device_type::MASTER,
        MODE_SPEED,
        wire::sign_of(count),
        (wire::magnitude_of(count) / 256) as u8,
        (wire::magnitude_of(count) % 256) as u8,
        0u8,
        0u8,
    ]
}

/// The frame a speed command puts on the wire: a zero speed is sent as a
/// zero-duty PWM command instead, everything else as a speed command with
/// the rpm value converted to encoder counts.
pub open spec fn speed_command_frame(address: u8, rpm: int) -> Seq<u8> {
    if rpm == 0 {
        pwm_frame(address, 0)
    } else {
        speed_frame(address, rpm_to_count_spec(rpm))
    }
}

/// The command frame that sets an angle (sign-magnitude encoded).
pub open spec fn angle_frame(address: u8, angle: int) -> Seq<u8> {
    seq![
        address,
        device_type::MASTER,
        MODE_ANGLE,
        wire::sign_of(angle),
        (wire::magnitude_of(angle) / 256) as u8,
        (wire::magnitude_of(angle) % 256) as u8,
        0u8,
        0u8,
    ]
}

/// The command frame that sets the duty cycles before and after a limit
/// switch closes (raw two's-complement values).
pub open spec fn limsw_frame(address: u8, port: u8, power: int, after_power: int) -> Seq<u8> {
    seq![
        address,
        device_type::MASTER,
        MODE_LIM_SW,
        port,
        wire::be_hi(power),
        wire::be_lo(power),
        wire::be_hi(after_power),
        wire::be_lo(after_power),
    ]
}

/// Whether a status frame answers the driver at `address`: its leading byte
/// must equal the address that was queried.
pub open spec fn md_matches(frame: Seq<u8>, address: u8) -> bool {
    frame.len() == 8 && frame[0] == address
}

/// The status a matching frame decodes to. The wire speed field carries
/// encoder counts; it is converted to rpm and saturated at the i16 bounds.
pub open spec fn md_decode(frame: Seq<u8>) -> MdStatus
    recommends
        frame.len() == 8,
{
    MdStatus {
        address: frame[0],
        semi_id: frame[1],
        angle: wire::be_i16(frame[2], frame[3]) as i16,
        speed: wire::clamp(
            count_to_rpm_spec(wire::be_i16(frame[4], frame[5])),
            i16::MIN as int,
            i16::MAX as int,
        ) as i16,
        limsw: LimSwStatus { limsw_0: frame[6] == 1, limsw_1: frame[7] == 1 },
    }
}

/// The receive loop consumed exactly the non-matching prefix of the pending
/// frames and decoded the first matching one into `status`.
pub open spec fn md_receive_ok(
    pre: Seq<Seq<u8>>,
    post: Seq<Seq<u8>>,
    address: u8,
    status: MdStatus,
) -> bool {
    exists|k: int|
        {
            &&& 0 <= k < pre.len()
            &&& #[trigger] md_matches(pre[k], address)
            &&& forall|j: int| 0 <= j < k ==> !md_matches(#[trigger] pre[j], address)
            &&& status == md_decode(pre[k])
            &&& post == pre.skip(k + 1)
        }
}

/// The receive loop failed after discarding only non-matching frames.
pub open spec fn md_receive_failed(pre: Seq<Seq<u8>>, post: Seq<Seq<u8>>, address: u8) -> bool {
    exists|k: int|
        {
            &&& 0 <= k <= pre.len()
            &&& post == #[trigger] pre.skip(k)
            &&& forall|j: int| 0 <= j < k ==> !md_matches(#[trigger] pre[j], address)
        }
}

/// Reads status frames until one carries the queried address, discarding the
/// others, and decodes it. A read failure (for example a timeout) is returned
/// at once; the loop itself never retries a failed read.
pub fn receive_status<H: HandleTrait>(handle: &mut H, address: u8) -> (r: Result<MdStatus, Error>)
    ensures
        final(handle).sent() == old(handle).sent(),
        match r {
            Ok(status) => md_receive_ok(
                old(handle).pending(),
                final(handle).pending(),
                address,
                status,
            ),
            Err(_) => md_receive_failed(old(handle).pending(), final(handle).pending(), address),
        },
{
    let ghost pending0 = handle.pending();
    let ghost sent0 = handle.sent();
    let mut receive_buf: [u8; 8] = [0; 8];
    let ghost mut discarded: int = 0;
    loop
        invariant
            0 <= discarded <= pending0.len(),
            handle.pending() == pending0.skip(discarded),
            handle.sent() == sent0,
            forall|j: int| 0 <= j < discarded ==> !md_matches(#[trigger] pending0[j], address),
        decreases pending0.len() - discarded,
    {
        match handle.read_bulk(&mut receive_buf, core::time::Duration::from_millis(5000)) {
            Ok(_) => {},
            Err(e) => {
                return Err(e);
            },
        }
        proof {
            assert(pending0.skip(discarded)[0] == pending0[discarded]);
        }
        if receive_buf[0] == address {
            let angle = wire::decode_be_i16(receive_buf[2], receive_buf[3]);
            let count = wire::decode_be_i16(receive_buf[4], receive_buf[5]);
            let speed = wire::clamp_to_i16(count_to_rpm(count));
            let status = MdStatus {
                address: receive_buf[0],
                semi_id: receive_buf[1],
                angle,
                speed,
                limsw: LimSwStatus {
                    limsw_0: receive_buf[6] == 1,
                    limsw_1: receive_buf[7] == 1,
                },
            };
            proof {
                assert(md_matches(pending0[discarded], address));
                assert(status == md_decode(pending0[discarded]));
                assert(pending0.skip(discarded).skip(1) =~= pending0.skip(discarded + 1));
            }
            return Ok(status);
        }
        proof {
            assert(!md_matches(pending0[discarded], address));
            assert(pending0.skip(discarded).skip(1) =~= pending0.skip(discarded + 1));
            discarded = discarded + 1;
        }
    }
}

/// Sends a PWM duty-cycle command and returns the driver's next status.
pub fn send_pwm<H: HandleTrait>(handle: &mut H, address: u8, power: i16) -> (r: Result<
    MdStatus,
    Error,
>)
    ensures
        match r {
            Ok(status) => final(handle).sent() == old(handle).sent().push(
                pwm_frame(address, power as int),
            ) && md_receive_ok(old(handle).pending(), final(handle).pending(), address, status),
            Err(_) => (final(handle).sent() == old(handle).sent() && final(handle).pending() == old(
                handle,
            ).pending()) || (final(handle).sent() == old(handle).sent().push(
                pwm_frame(address, power as int),
            ) && md_receive_failed(old(handle).pending(), final(handle).pending(), address)),
        },
{
    let (sign, magnitude) = wire::encode_sign_magnitude(power);
    let send_buf: [u8; 8] = [
        address,
        device_type::MASTER,
        MODE_PWM,
        sign,
        (magnitude / 256) as u8,
        (magnitude % 256) as u8,
        0,
        0,
    ];
    proof {
        assert(send_buf@ =~= pwm_frame(address, power as int));
    }
    match handle.write_bulk(send_buf.as_slice(), core::time::Duration::from_millis(5000)) {
        Ok(_) => {},
        Err(e) => {
            return Err(e);
        },
    }
    receive_status(handle, address)
}

/// Sends a speed command in rpm and returns the driver's next status. The
/// rpm value is converted to encoder counts before going on the wire; a zero
/// speed is sent as a zero-duty PWM command instead.
pub fn send_speed<H: HandleTrait>(handle: &mut H, address: u8, velocity: i16) -> (r: Result<
    MdStatus,
    Error,
>)
    ensures
        match r {
            Ok(status) => final(handle).sent() == old(handle).sent().push(
                speed_command_frame(address, velocity as int),
            ) && md_receive_ok(old(handle).pending(), final(handle).pending(), address, status),
            Err(_) => (final(handle).sent() == old(handle).sent() && final(handle).pending() == old(
                handle,
            ).pending()) || (final(handle).sent() == old(handle).sent().push(
                speed_command_frame(address, velocity as int),
            ) && md_receive_failed(old(handle).pending(), final(handle).pending(), address)),
        },
{
    let send_buf: [u8; 8] = if velocity == 0 {
        [address, device_type::MASTER, MODE_PWM, 0, 0, 0, 0, 0]
    } else {
        let count = rpm_to_count(velocity);
        let (sign, magnitude) = wire::encode_sign_magnitude(count);
        [
            address,
            device_type::MASTER,
            MODE_SPEED,
            sign,
            (magnitude / 256) as u8,
            (magnitude % 256) as u8,
            0,
            0,
        ]
    };
    proof {
        assert(send_buf@ =~= speed_command_frame(address, velocity as int));
    }
    match handle.write_bulk(send_buf.as_slice(), core::time::Duration::from_millis(5000)) {
        Ok(_) => {},
        Err(e) => {
            return Err(e);
        },
    }
    receive_status(handle, address)
}

/// Sends an angle command and returns the driver's next status.
pub fn send_angle<H: HandleTrait>(handle: &mut H, address: u8, angle: i16) -> (r: Result<
    MdStatus,
    Error,
>)
    ensures
        match r {
            Ok(status) => final(handle).sent() == old(handle).sent().push(
                angle_frame(address, angle as int),
            ) && md_receive_ok(old(handle).pending(), final(handle).pending(), address, status),
            Err(_) => (final(handle).sent() == old(handle).sent() && final(handle).pending() == old(
                handle,
            ).pending()) || (final(handle).sent() == old(handle).sent().push(
                angle_frame(address, angle as int),
            ) && md_receive_failed(old(handle).pending(), final(handle).pending(), address)),
        },
{
    let (sign, magnitude) = wire::encode_sign_magnitude(angle);
    let send_buf: [u8; 8] = [
        address,
        device_type::MASTER,
        MODE_ANGLE,
        sign,
        (magnitude / 256) as u8,
        (magnitude % 256) as u8,
        0,
        0,
    ];
    proof {
        assert(send_buf@ =~= angle_frame(address, angle as int));
    }
    match handle.write_bulk(send_buf.as_slice(), core::time::Duration::from_millis(5000)) {
        Ok(_) => {},
        Err(e) => {
            return Err(e);
        },
    }
    receive_status(handle, address)
}

/// Sends the duty cycles to apply before and after the limit switch on
/// `port` closes, and returns the driver's next status.
pub fn send_limsw<H: HandleTrait>(
    handle: &mut H,
    address: u8,
    port: u8,
    power: i16,
    after_power: i16,
) -> (r: Result<MdStatus, Error>)
    ensures
        match r {
            Ok(status) => final(handle).sent() == old(handle).sent().push(
                limsw_frame(address, port, power as int, after_power as int),
            ) && md_receive_ok(old(handle).pending(), final(handle).pending(), address, status),
            Err(_) => (final(handle).sent() == old(handle).sent() && final(handle).pending() == old(
                handle,
            ).pending()) || (final(handle).sent() == old(handle).sent().push(
                limsw_frame(address, port, power as int, after_power as int),
            ) && md_receive_failed(old(handle).pending(), final(handle).pending(), address)),
        },
{
    let (power_hi, power_lo) = wire::encode_be_i16(power);
    let (after_hi, after_lo) = wire::encode_be_i16(after_power);
    let send_buf: [u8; 8] = [
        address,
        device_type::MASTER,
        MODE_LIM_SW,
        port,
        power_hi,
        power_lo,
        after_hi,
        after_lo,
    ];
    proof {
        assert(send_buf@ =~= limsw_frame(address, port, power as int, after_power as int));
    }
    match handle.write_bulk(send_buf.as_slice(), core::time::Duration::from_millis(5000)) {
        Ok(_) => {},
        Err(e) => {
            return Err(e);
        },
    }
    receive_status(handle, address)
}

} // verus!
