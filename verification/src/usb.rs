//! The bulk-transfer capability in the shape the signal-ring codec uses.
//!
//! This mirrors [`crate::HandleTrait`]: same operations, same ghost model of
//! the bus. It is kept as a trait of its own so that a transport can offer
//! the signal-ring surface without the rest.

use vstd::prelude::*;

use crate::Error;

verus! {

/// A transport capable of bulk reads and writes of bus frames, with the
/// same ghost model as [`crate::HandleTrait`]: `pending` holds the frames
/// the bus will deliver next and `sent` the frames written so far.
pub trait USBHandleTrait {
    /// The frames the bus will deliver next, in order.
    spec fn pending(&self) -> Seq<Seq<u8>>;

    /// The frames written so far, in order.
    spec fn sent(&self) -> Seq<Seq<u8>>;

    /// Reads one frame into `data`, blocking up to `timeout`.
    fn read_bulk(&mut self, data: &mut [u8; 8], timeout: core::time::Duration) -> (r: Result<
        usize,
        Error,
    >)
        ensures
            final(self).sent() == old(self).sent(),
            match r {
                Ok(n) => {
                    &&& old(self).pending().len() > 0
                    &&& old(self).pending()[0].len() == 8
                    &&& final(data)@ == old(self).pending()[0]
                    &&& n == 8
                    &&& final(self).pending() == old(self).pending().skip(1)
                },
                Err(_) => final(self).pending() == old(self).pending() && final(data)@ == old(
                    data,
                )@,
            },
    ;

    /// Writes one frame, blocking up to `timeout`; returns the bytes written.
    fn write_bulk(&mut self, data: &[u8], timeout: core::time::Duration) -> (r: Result<
        usize,
        Error,
    >)
        ensures
            final(self).pending() == old(self).pending(),
            match r {
                Ok(n) => n <= data@.len() && final(self).sent() == old(self).sent().push(data@),
                Err(_) => final(self).sent() == old(self).sent(),
            },
    ;
}

} // verus!
