//! An in-memory transport: a scripted bus that delivers a fixed list of
//! frames and records every write.
//!
//! It implements both transport capabilities, so every codec can be
//! exercised against it, and its reads succeed exactly while scripted
//! frames remain — once they run out, a read fails like a timed-out bus.

use vstd::prelude::*;

use crate::usb::USBHandleTrait;
use crate::Error;
use crate::HandleTrait;

verus! {

/// A scripted bus: `incoming` frames are delivered in order, and every
/// frame written is recorded.
pub struct MockHandle {
    incoming: Vec<[u8; 8]>,
    next: usize,
    written: Vec<Vec<u8>>,
}

impl MockHandle {
    /// The frames still to be delivered, in order.
    pub closed spec fn pending_frames(&self) -> Seq<Seq<u8>> {
        if self.next <= self.incoming.len() {
            self.incoming@.map_values(|f: [u8; 8]| f@).skip(self.next as int)
        } else {
            Seq::empty()
        }
    }

    /// The frames written so far, in order.
    pub closed spec fn written_frames(&self) -> Seq<Seq<u8>> {
        self.written.deep_view()
    }

    /// A scripted bus that will deliver `incoming` in order and has seen no
    /// writes yet.
    pub fn new(incoming: Vec<[u8; 8]>) -> (handle: MockHandle)
        ensures
            handle.pending_frames() == incoming@.map_values(|f: [u8; 8]| f@),
            handle.written_frames() == Seq::<Seq<u8>>::empty(),
    {
        let handle = MockHandle { incoming, next: 0, written: Vec::new() };
        proof {
            assert(handle.pending_frames() =~= handle.incoming@.map_values(|f: [u8; 8]| f@));
            assert(handle.written_frames() =~~= Seq::<Seq<u8>>::empty());
        }
        handle
    }

    /// How many scripted frames have not been delivered yet.
    pub fn remaining(&self) -> (n: usize)
        ensures
            n == self.pending_frames().len(),
    {
        if self.next <= self.incoming.len() {
            self.incoming.len() - self.next
        } else {
            0
        }
    }

    /// The frames written so far.
    pub fn writes(&self) -> (w: &Vec<Vec<u8>>)
        ensures
            w.deep_view() == self.written_frames(),
    {
        &self.written
    }

    /// Delivers the next scripted frame into `data`, or fails like a
    /// timed-out read when none remain.
    pub fn read_frame(&mut self, data: &mut [u8; 8]) -> (r: Result<usize, Error>)
        ensures
            final(self).written_frames() == old(self).written_frames(),
            if old(self).pending_frames().len() > 0 {
                &&& r == Ok::<usize, Error>(8usize)
                &&& final(data)@ == old(self).pending_frames()[0]
                &&& final(self).pending_frames() == old(self).pending_frames().skip(1)
            } else {
                &&& r == Err::<usize, Error>(Error::IOFailure)
                &&& final(self).pending_frames() == old(self).pending_frames()
                &&& final(data)@ == old(data)@
            },
    {
        if self.next < self.incoming.len() {
            let frame: [u8; 8] = self.incoming[self.next];
            *data = frame;
            self.next = self.next + 1;
            proof {
                let mapped = self.incoming@.map_values(|f: [u8; 8]| f@);
                assert(final(data)@ == old(self).pending_frames()[0]);
                assert(mapped.skip(self.next as int) =~= mapped.skip(
                    self.next as int - 1,
                ).skip(1));
            }
            Ok(8)
        } else {
            Err(Error::IOFailure)
        }
    }

    /// Records one written frame and reports its full length as written.
    pub fn write_frame(&mut self, data: &[u8]) -> (r: Result<usize, Error>)
        ensures
            final(self).pending_frames() == old(self).pending_frames(),
            final(self).written_frames() == old(self).written_frames().push(data@),
            r == Ok::<usize, Error>(data@.len() as usize),
    {
        let copy: Vec<u8> = vstd::slice::slice_to_vec(data);
        self.written.push(copy);
        proof {
            assert(final(self).written_frames() =~~= old(self).written_frames().push(data@));
        }
        Ok(data.len())
    }
}

impl HandleTrait for MockHandle {
    open spec fn pending(&self) -> Seq<Seq<u8>> {
        self.pending_frames()
    }

    open spec fn sent(&self) -> Seq<Seq<u8>> {
        self.written_frames()
    }

    fn read_bulk(&mut self, data: &mut [u8; 8], _timeout: core::time::Duration) -> (r: Result<
        usize,
        Error,
    >) {
        self.read_frame(data)
    }

    fn write_bulk(&mut self, data: &[u8], _timeout: core::time::Duration) -> (r: Result<
        usize,
        Error,
    >) {
        self.write_frame(data)
    }
}

impl USBHandleTrait for MockHandle {
    open spec fn pending(&self) -> Seq<Seq<u8>> {
        self.pending_frames()
    }

    open spec fn sent(&self) -> Seq<Seq<u8>> {
        self.written_frames()
    }

    fn read_bulk(&mut self, data: &mut [u8; 8], _timeout: core::time::Duration) -> (r: Result<
        usize,
        Error,
    >) {
        self.read_frame(data)
    }

    fn write_bulk(&mut self, data: &[u8], _timeout: core::time::Duration) -> (r: Result<
        usize,
        Error,
    >) {
        self.write_frame(data)
    }
}

} // verus!
