//! Codec for the brushless motor driver.
//!
//! This device class keeps a legacy wire convention of its own: the command
//! frame carries a 16-bit command address in its first two bytes and the
//! controller id in the third, with the signed value as plain big-endian
//! two's complement; and a status frame is matched not on a single address
//! byte but on its first two bytes read as a big-endian 16-bit identifier
//! equal to `0x200 + controller_id`.
//!
//! Velocity control is closed-loop: [`send_velocity`] reads the measured
//! speed from a status frame, runs one PID step against the target, and
//! sends the resulting current command.

use vstd::prelude::*;

use crate::device_type;
use crate::pid;
use crate::pid::VelPid;
use crate::wire;
use crate::Error;
use crate::HandleTrait;

verus! {

/// Base of the 16-bit status identifiers: controller `i` answers with
/// identifier `0x200 + i`.
pub const STATUS_ID_BASE: u16 = 0x200;

/// Decoded status frame of a brushless driver.
#[derive(Clone, Copy, Debug, PartialEq, Eq, Structural)]
pub struct BlMdStatus {
    pub std_id: u16,
    pub angle: i16,
    pub speed: i16,
    pub current: i16,
}

/// The command frame that sets the target current of one controller: the
/// brushless command address in the first two bytes, the controller id in
/// the third, and the current as big-endian two's complement.
pub open spec fn current_frame(controller_id: u8, current: int) -> Seq<u8> {
    seq![
        device_type::BLMD,
        0u8,
        controller_id,
        wire::be_hi(current),
        wire::be_lo(current),
        0u8,
        0u8,
        0u8,
    ]
}

/// Whether a status frame answers `controller_id`: its first two bytes, as a
/// big-endian 16-bit value, must equal `0x200 + controller_id`.
pub open spec fn blmd_matches(frame: Seq<u8>, controller_id: u8) -> bool {
    frame.len() == 8 && wire::be_u16(frame[0], frame[1]) == STATUS_ID_BASE + controller_id
}

/// The status a matching frame decodes to.
pub open spec fn blmd_decode(frame: Seq<u8>) -> BlMdStatus
    recommends
        frame.len() == 8,
{
    BlMdStatus {
        std_id: wire::be_u16(frame[0], frame[1]) as u16,
        angle: wire::be_i16(frame[2], frame[3]) as i16,
        speed: wire::be_i16(frame[4], frame[5]) as i16,
        current: wire::be_i16(frame[6], frame[7]) as i16,
    }
}

/// The receive loop consumed exactly the non-matching prefix of the pending
/// frames and decoded the first matching one into `status`.
pub open spec fn blmd_receive_ok(
    pre: Seq<Seq<u8>>,
    post: Seq<Seq<u8>>,
    controller_id: u8,
    status: BlMdStatus,
) -> bool {
    exists|k: int|
        {
            &&& 0 <= k < pre.len()
            &&& #[trigger] blmd_matches(pre[k], controller_id)
            &&& forall|j: int| 0 <= j < k ==> !blmd_matches(#[trigger] pre[j], controller_id)
            &&& status == blmd_decode(pre[k])
            &&& post == pre.skip(k + 1)
        }
}

/// The receive loop failed after discarding only non-matching frames.
pub open spec fn blmd_receive_failed(
    pre: Seq<Seq<u8>>,
    post: Seq<Seq<u8>>,
    controller_id: u8,
) -> bool {
    exists|k: int|
        {
            &&& 0 <= k <= pre.len()
            &&& post == #[trigger] pre.skip(k)
            &&& forall|j: int| 0 <= j < k ==> !blmd_matches(#[trigger] pre[j], controller_id)
        }
}

/// Reads status frames until one carries the 16-bit identifier
/// `0x200 + controller_id` in its first two bytes, discarding the others,
/// and decodes it. A read failure is returned at once.
pub fn receive_status<H: HandleTrait>(handle: &mut H, controller_id: u8) -> (r: Result<
    BlMdStatus,
    Error,
>)
    ensures
        final(handle).sent() == old(handle).sent(),
        match r {
            Ok(status) => blmd_receive_ok(
                old(handle).pending(),
                final(handle).pending(),
                controller_id,
                status,
            ),
            Err(_) => blmd_receive_failed(
                old(handle).pending(),
                final(handle).pending(),
                controller_id,
            ),
        },
{
    let ghost pending0 = handle.pending();
    let ghost sent0 = handle.sent();
    let mut receive_buf: [u8; 8] = [0; 8];
    let ghost mut discarded: int = 0;
    loop
        invariant
            0 <= discarded <= pending0.len(),
            handle.pending() == pending0.skip(discarded),
            handle.sent() == sent0,
            forall|j: int|
                0 <= j < discarded ==> !blmd_matches(#[trigger] pending0[j], controller_id),
        decreases pending0.len() - discarded,
    {
        match handle.read_bulk(&mut receive_buf, core::time::Duration::from_millis(5000)) {
            Ok(_) => {},
            Err(e) => {
                return Err(e);
            },
        }
        proof {
            assert(pending0.skip(discarded)[0] == pending0[discarded]);
        }
        let received_std_id: u16 = (receive_buf[0] as u16) * 256 + (receive_buf[1] as u16);
        if received_std_id == STATUS_ID_BASE + (controller_id as u16) {
            let status = BlMdStatus {
                std_id: received_std_id,
                angle: wire::decode_be_i16(receive_buf[2], receive_buf[3]),
                speed: wire::decode_be_i16(receive_buf[4], receive_buf[5]),
                current: wire::decode_be_i16(receive_buf[6], receive_buf[7]),
            };
            proof {
                assert(blmd_matches(pending0[discarded], controller_id));
                assert(status == blmd_decode(pending0[discarded]));
                assert(pending0.skip(discarded).skip(1) =~= pending0.skip(discarded + 1));
            }
            return Ok(status);
        }
        proof {
            assert(!blmd_matches(pending0[discarded], controller_id));
            assert(pending0.skip(discarded).skip(1) =~= pending0.skip(discarded + 1));
            discarded = discarded + 1;
        }
    }
}

/// Sends a target-current command to one controller and returns its next
/// status.
pub fn send_current<H: HandleTrait>(handle: &mut H, controller_id: u8, current: i16) -> (r: Result<
    BlMdStatus,
    Error,
>)
    ensures
        match r {
            Ok(status) => final(handle).sent() == old(handle).sent().push(
                current_frame(controller_id, current as int),
            ) && blmd_receive_ok(
                old(handle).pending(),
                final(handle).pending(),
                controller_id,
                status,
            ),
            Err(_) => (final(handle).sent() == old(handle).sent() && final(handle).pending() == old(
                handle,
            ).pending()) || (final(handle).sent() == old(handle).sent().push(
                current_frame(controller_id, current as int),
            ) && blmd_receive_failed(
                old(handle).pending(),
                final(handle).pending(),
                controller_id,
            )),
        },
{
    let (current_hi, current_lo) = wire::encode_be_i16(current);
    let send_buf: [u8; 8] = [
        device_type::BLMD,
        0,
        controller_id,
        current_hi,
        current_lo,
        0,
        0,
        0,
    ];
    proof {
        assert(send_buf@ =~= current_frame(controller_id, current as int));
    }
    match handle.write_bulk(send_buf.as_slice(), core::time::Duration::from_millis(5000)) {
        Ok(_) => {},
        Err(e) => {
            return Err(e);
        },
    }
    receive_status(handle, controller_id)
}

/// One period of the closed-loop velocity controller: read the measured
/// speed from the controller's status, run one PID step against the target
/// velocity at the conventional 100 Hz period, and send the resulting
/// current command. A failed status read is propagated without any retry;
/// the caller decides whether to skip the cycle or abort.
pub fn send_velocity<H: HandleTrait>(
    handle: &mut H,
    pid: &mut VelPid,
    controller_id: u8,
    velocity: i16,
) -> (r: Result<BlMdStatus, Error>)
    requires
        old(pid).wf(),
    ensures
        final(pid).wf(),
        match r {
            Ok(status) => exists|k: int|
                {
                    &&& 0 <= k < old(handle).pending().len()
                    &&& #[trigger] blmd_matches(old(handle).pending()[k], controller_id)
                    &&& forall|j: int|
                        0 <= j < k ==> !blmd_matches(
                            #[trigger] old(handle).pending()[j],
                            controller_id,
                        )
                    &&& *final(pid) == pid::pid_next(
                        *old(pid),
                        velocity as int,
                        blmd_decode(old(handle).pending()[k]).speed as int,
                        pid::CONTROL_PERIOD_MS as int,
                    )
                    &&& final(handle).sent() == old(handle).sent().push(
                        current_frame(
                            controller_id,
                            pid::pid_output(
                                *old(pid),
                                velocity as int,
                                blmd_decode(old(handle).pending()[k]).speed as int,
                                pid::CONTROL_PERIOD_MS as int,
                            ),
                        ),
                    )
                    &&& blmd_receive_ok(
                        old(handle).pending().skip(k + 1),
                        final(handle).pending(),
                        controller_id,
                        status,
                    )
                },
            Err(_) => (*final(pid) == *old(pid) && final(handle).sent() == old(handle).sent()
                && blmd_receive_failed(
                old(handle).pending(),
                final(handle).pending(),
                controller_id,
            )) || exists|k: int|
                {
                    &&& 0 <= k < old(handle).pending().len()
                    &&& #[trigger] blmd_matches(old(handle).pending()[k], controller_id)
                    &&& forall|j: int|
                        0 <= j < k ==> !blmd_matches(
                            #[trigger] old(handle).pending()[j],
                            controller_id,
                        )
                    &&& *final(pid) == pid::pid_next(
                        *old(pid),
                        velocity as int,
                        blmd_decode(old(handle).pending()[k]).speed as int,
                        pid::CONTROL_PERIOD_MS as int,
                    )
                    &&& {
                        let rest = old(handle).pending().skip(k + 1);
                        ||| (final(handle).sent() == old(handle).sent() && final(handle).pending()
                            == rest)
                        ||| (final(handle).sent() == old(handle).sent().push(
                            current_frame(
                                controller_id,
                                pid::pid_output(
                                    *old(pid),
                                    velocity as int,
                                    blmd_decode(old(handle).pending()[k]).speed as int,
                                    pid::CONTROL_PERIOD_MS as int,
                                ),
                            ),
                        ) && blmd_receive_failed(rest, final(handle).pending(), controller_id))
                    }
                },
        },
{
    let measured = match receive_status(handle, controller_id) {
        Ok(status) => status,
        Err(e) => {
            return Err(e);
        },
    };
    let current = pid.update(velocity, measured.speed, pid::CONTROL_PERIOD_MS);
    send_current(handle, controller_id, current)
}

} // verus!
