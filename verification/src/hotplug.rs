//! Hotplug-aware wrapper around a transport: a slot that holds the device
//! handle while it is attached and is empty while it is absent.
//!
//! Arrival and departure events replace or clear the held handle; reads and
//! writes against an empty slot fail softly with
//! [`Error::TransportNotFound`] instead of blocking or panicking. The slot
//! itself is a transport, so codecs can run against it unchanged. Callers
//! that share one slot between threads put it behind a single lock, held
//! only to read or replace the handle, never across a blocking transfer.

use vstd::prelude::*;

use crate::Error;
use crate::HandleTrait;

verus! {

/// Holds the transport of a hotplug-capable device while it is attached.
pub struct HotplugSlot<H: HandleTrait> {
    device: Option<H>,
}

impl<H: HandleTrait> HotplugSlot<H> {
    /// Whether a device is currently attached.
    pub closed spec fn is_present(&self) -> bool {
        self.device is Some
    }

    /// The pending frames of the held transport; an absent device delivers
    /// nothing.
    pub closed spec fn slot_pending(&self) -> Seq<Seq<u8>> {
        match self.device {
            Some(device) => device.pending(),
            None => Seq::empty(),
        }
    }

    /// The sent frames of the held transport; an absent device has seen no
    /// writes.
    pub closed spec fn slot_sent(&self) -> Seq<Seq<u8>> {
        match self.device {
            Some(device) => device.sent(),
            None => Seq::empty(),
        }
    }

    /// An empty slot: no device attached yet.
    pub fn new() -> (slot: HotplugSlot<H>)
        ensures
            !slot.is_present(),
    {
        HotplugSlot { device: None }
    }

    /// A slot holding an already-opened device.
    pub fn with_device(device: H) -> (slot: HotplugSlot<H>)
        ensures
            slot.is_present(),
            slot.slot_pending() == device.pending(),
            slot.slot_sent() == device.sent(),
    {
        HotplugSlot { device: Some(device) }
    }

    /// The arrival event: stores the freshly opened device handle.
    pub fn device_arrived(&mut self, device: H)
        ensures
            final(self).is_present(),
            final(self).slot_pending() == device.pending(),
            final(self).slot_sent() == device.sent(),
    {
        self.device = Some(device);
    }

    /// The departure event: clears the slot to the absent state.
    pub fn device_left(&mut self)
        ensures
            !final(self).is_present(),
            final(self).slot_pending() == Seq::<Seq<u8>>::empty(),
            final(self).slot_sent() == Seq::<Seq<u8>>::empty(),
    {
        self.device = None;
    }
}

impl<H: HandleTrait> HandleTrait for HotplugSlot<H> {
    open spec fn pending(&self) -> Seq<Seq<u8>> {
        self.slot_pending()
    }

    open spec fn sent(&self) -> Seq<Seq<u8>> {
        self.slot_sent()
    }

    /// Forwards to the held device; while the slot is empty the read fails
    /// softly with [`Error::TransportNotFound`] and changes nothing.
    fn read_bulk(&mut self, data: &mut [u8; 8], timeout: core::time::Duration) -> (r: Result<
        usize,
        Error,
    >)
        ensures
            !old(self).is_present() ==> r == Err::<usize, Error>(Error::TransportNotFound)
                && *final(self) == *old(self),
            final(self).is_present() == old(self).is_present(),
    {
        match &mut self.device {
            Some(device) => device.read_bulk(data, timeout),
            None => Err(Error::TransportNotFound),
        }
    }

    /// Forwards to the held device; while the slot is empty the write fails
    /// softly with [`Error::TransportNotFound`] and changes nothing.
    fn write_bulk(&mut self, data: &[u8], timeout: core::time::Duration) -> (r: Result<
        usize,
        Error,
    >)
        ensures
            !old(self).is_present() ==> r == Err::<usize, Error>(Error::TransportNotFound)
                && *final(self) == *old(self),
            final(self).is_present() == old(self).is_present(),
    {
        match &mut self.device {
            Some(device) => device.write_bulk(data, timeout),
            None => Err(Error::TransportNotFound),
        }
    }
}

} // verus!
