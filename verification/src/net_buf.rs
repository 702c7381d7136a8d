//! The unit of packet-memory ownership passed across the driver boundary.

use vstd::prelude::*;

verus! {

/// Header-address sentinel carried by handles that have no separate
/// metadata region in front of the packet bytes.
pub const NO_HEADER: usize = 0;

/// A handle to one packet buffer.
///
/// The handle is the sole owner of the packet bytes it describes: it is
/// created around a freshly filled buffer and gives the bytes back only by
/// being consumed, so a recycled handle can never be used again.
pub struct NetBufPtr {
    header_addr: usize,
    data: Vec<u8>,
}

impl View for NetBufPtr {
    type V = Seq<u8>;

    closed spec fn view(&self) -> Seq<u8> {
        self.data@
    }
}

impl NetBufPtr {
    /// The address of the handle's metadata region, `NO_HEADER` if it has none.
    pub closed spec fn spec_header_addr(&self) -> usize {
        self.header_addr
    }

    /// Wraps `data` in a new handle; the handle takes ownership of the bytes.
    pub fn new(header_addr: usize, data: Vec<u8>) -> (r: Self)
        ensures
            r.spec_header_addr() == header_addr,
            r@ == data@,
    {
        NetBufPtr { header_addr, data }
    }

    /// The packet bytes the handle owns.
    pub fn packet(&self) -> (r: &Vec<u8>)
        ensures
            r@ == self@,
    {
        &self.data
    }

    /// The length of the packet in bytes.
    pub fn packet_len(&self) -> (r: usize)
        ensures
            r == self@.len(),
    {
        self.data.len()
    }

    /// The address of the handle's metadata region, `NO_HEADER` if it has none.
    pub fn header_addr(&self) -> (r: usize)
        ensures
            r == self.spec_header_addr(),
    {
        self.header_addr
    }

    /// Consumes the handle and hands its packet bytes back to the caller.
    pub fn take_packet(self) -> (r: Vec<u8>)
        ensures
            r@ == self@,
    {
        self.data
    }
}

} // verus!
