//! The decisions of the remote relay, on both sides of the call boundary.
//!
//! A relay server owns the physical bus and forwards bulk transfers on
//! behalf of a client; the round trip itself is plain I/O and lives outside
//! this crate. What is decided here, and therefore verified, is how each
//! side turns the other's answer into its own: which reply the server gives
//! for a transfer outcome, and which result or fatal condition the client
//! derives from a reply.

use vstd::prelude::*;

use crate::Error;

verus! {

/// What the relay client concludes from one read round trip.
#[derive(Debug)]
pub enum RelayRead {
    /// The far end returned a payload of exactly the expected length.
    Frame(Vec<u8>),
    /// The round trip failed or the far end reported a fault.
    Failed(Error),
    /// The far end returned a payload of the wrong length. The copy into
    /// the caller's buffer would be invalid, so this is a fatal local
    /// condition, never a silent truncation.
    LengthMismatch,
}

/// Turns the far end's write reply into the caller's result: a missing
/// reply is a failed round trip, reported once and without retry; a
/// negative reported size is the far end's "downstream device absent"
/// sentinel; any other size is the byte count written.
pub fn relay_write_outcome(reply: Option<i32>) -> (r: Result<usize, Error>)
    ensures
        match reply {
            None => r == Err::<usize, Error>(Error::RemoteCallFailure),
            Some(size) => if size < 0 {
                r == Err::<usize, Error>(Error::TransportNotFound)
            } else {
                r == Ok::<usize, Error>(size as usize)
            },
        },
{
    match reply {
        None => Err(Error::RemoteCallFailure),
        Some(size) => if size < 0 {
            Err(Error::TransportNotFound)
        } else {
            Ok(size as usize)
        },
    }
}

/// Turns the far end's read reply into what the client does with it: a
/// missing reply is a failed round trip; a payload of exactly the expected
/// length is delivered; any other length is fatal.
pub fn relay_read_outcome(expected_len: usize, reply: Option<Vec<u8>>) -> (r: RelayRead)
    ensures
        match reply {
            None => r is Failed && r->Failed_0 == Error::RemoteCallFailure,
            Some(payload) => if payload@.len() == expected_len {
                r == RelayRead::Frame(payload)
            } else {
                r is LengthMismatch
            },
        },
{
    match reply {
        None => RelayRead::Failed(Error::RemoteCallFailure),
        Some(payload) => if payload.len() == expected_len {
            RelayRead::Frame(payload)
        } else {
            RelayRead::LengthMismatch
        },
    }
}

/// The size field the relay server reports for a write: the byte count on
/// success, and the -1 sentinel when the device was absent, the write
/// failed, or the count does not fit the reply field.
pub fn server_write_reply(outcome: Option<usize>) -> (size: i32)
    ensures
        match outcome {
            Some(n) => if n <= 0x7fffffff {
                size == n
            } else {
                size == -1
            },
            None => size == -1,
        },
{
    match outcome {
        Some(n) => if n <= 0x7fffffff {
            n as i32
        } else {
            -1
        },
        None => -1,
    }
}

/// The payload the relay server returns for a read: the frame on success,
/// and a zero-filled buffer of the requested length when the device was
/// absent or the read failed.
pub fn server_read_reply(requested: usize, outcome: Option<Vec<u8>>) -> (reply: Vec<u8>)
    ensures
        match outcome {
            Some(payload) => reply == payload,
            None => reply@.len() == requested && forall|i: int|
                0 <= i < requested ==> reply@[i] == 0u8,
        },
{
    match outcome {
        Some(payload) => payload,
        None => {
            let mut reply: Vec<u8> = Vec::new();
            while reply.len() < requested
                invariant
                    reply@.len() <= requested,
                    forall|i: int| 0 <= i < reply@.len() ==> reply@[i] == 0u8,
                decreases requested - reply@.len(),
            {
                reply.push(0);
            }
            reply
        },
    }
}

} // verus!
