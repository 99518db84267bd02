//! Verified codec and transport layer for a family of motor-controller
//! peripherals that share an 8-byte fixed-frame command protocol on a bus.
//!
//! The codec modules (`md`, `sd`, `smd`, `blmd`, `sr`) build command frames
//! and decode status frames per device class. All of them talk to the bus
//! through the [`HandleTrait`] capability, whose ghost model is the sequence
//! of frames still to be delivered (`pending`) and the sequence of frames
//! written so far (`sent`). The receive loops discard frames addressed to
//! other devices and return the first matching one; that discipline is what
//! the codec contracts state.
#![verifier::loop_isolation(false)]

use vstd::prelude::*;

pub mod blmd;
pub mod device_type;
pub mod hotplug;
pub mod md;
pub mod mock;
pub mod pid;
pub mod relay;
pub mod sd;
pub mod smd;
pub mod sr;
pub mod usb;
pub mod wire;

verus! {

broadcast use vstd::string::group_string_axioms;

/// Errors surfaced by transports and codecs.
///
/// Non-matching status frames are not an error: the receive loops discard
/// them silently, since the bus carries frames addressed to other devices.
#[derive(Clone, Copy, Debug, PartialEq, Eq, Structural)]
pub enum Error {
    /// The device was absent when the transport was asked to use it.
    TransportNotFound,
    /// A low-level bulk operation failed or timed out.
    IOFailure,
    /// A relay round trip failed or reported an application-level fault.
    RemoteCallFailure,
}

impl Error {
    /// A short description of the error. It stands in for `Display`, which
    /// a verified type cannot implement.
    pub fn message(&self) -> (s: String)
        ensures
            s@ == match self {
                Error::TransportNotFound => "transport not found"@,
                Error::IOFailure => "bulk transfer failure"@,
                Error::RemoteCallFailure => "remote call failure"@,
            },
    {
        match self {
            Error::TransportNotFound => "transport not found".to_string(),
            Error::IOFailure => "bulk transfer failure".to_string(),
            Error::RemoteCallFailure => "remote call failure".to_string(),
        }
    }
}

/// Relies on `core::time::Duration::from_millis` to build the timeout value
/// handed to a transport; nothing is claimed of the resulting `Duration`.
pub assume_specification[ core::time::Duration::from_millis ](ms: u64) -> core::time::Duration;

/// The ghost model of one direction of a transport: a sequence of frames.
/// Unverified transports outside this crate implement the model items with
/// stubs of this type; nothing ever evaluates them at run time.
pub type FrameLog = Seq<Seq<u8>>;

/// The transport capability: bulk reads and writes of bus frames with a
/// per-operation timeout.
///
/// The ghost model of a transport is a pair of frame sequences: `pending`,
/// the frames the bus will deliver next in order, and `sent`, the frames
/// written so far. A successful read consumes the head of `pending` and a
/// successful write appends to `sent`; a failed operation (for example a
/// timeout) leaves the model unchanged. Nothing promises that an operation
/// succeeds: a dead bus may time out forever.
pub trait HandleTrait {
    /// The frames the bus will deliver next, in order.
    spec fn pending(&self) -> Seq<Seq<u8>>;

    /// The frames written so far, in order.
    spec fn sent(&self) -> Seq<Seq<u8>>;

    /// Reads one frame into `data`, blocking up to `timeout`.
    fn read_bulk(&mut self, data: &mut [u8; 8], timeout: core::time::Duration) -> (r: Result<
        usize,
        Error,
    >)
        ensures
            final(self).sent() == old(self).sent(),
            match r {
                Ok(n) => {
                    &&& old(self).pending().len() > 0
                    &&& old(self).pending()[0].len() == 8
                    &&& final(data)@ == old(self).pending()[0]
                    &&& n == 8
                    &&& final(self).pending() == old(self).pending().skip(1)
                },
                Err(_) => final(self).pending() == old(self).pending() && final(data)@ == old(
                    data,
                )@,
            },
    ;

    /// Writes one frame, blocking up to `timeout`; returns the bytes written.
    fn write_bulk(&mut self, data: &[u8], timeout: core::time::Duration) -> (r: Result<
        usize,
        Error,
    >)
        ensures
            final(self).pending() == old(self).pending(),
            match r {
                Ok(n) => n <= data@.len() && final(self).sent() == old(self).sent().push(data@),
                Err(_) => final(self).sent() == old(self).sent(),
            },
    ;
}

/// The emergency broadcast frame: it addresses every device on the bus.
pub open spec fn emergency_frame() -> Seq<u8> {
    seq![
        device_type::EMMERGENCY,
        device_type::MASTER,
        0u8,
        0u8,
        0u8,
        0u8,
        0u8,
        0u8,
    ]
}

/// Sends the emergency broadcast frame. No device answers it, so nothing is
/// read back and the byte count of the write is returned as-is.
pub fn send_emergency<H: HandleTrait>(handle: &mut H) -> (r: Result<usize, Error>)
    ensures
        final(handle).pending() == old(handle).pending(),
        match r {
            Ok(n) => n <= 8 && final(handle).sent() == old(handle).sent().push(emergency_frame()),
            Err(_) => final(handle).sent() == old(handle).sent(),
        },
{
    let send_buf: [u8; 8] = [
        device_type::EMMERGENCY,
        device_type::MASTER,
        0,
        0,
        0,
        0,
        0,
        0,
    ];
    proof {
        assert(send_buf@ =~= emergency_frame());
    }
    handle.write_bulk(send_buf.as_slice(), core::time::Duration::from_millis(5000))
}

} // verus!
