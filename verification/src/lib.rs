//! Adapter layer that presents an Intel E1000 NIC to a generic network stack:
//! a uniform driver-ops surface over the hardware descriptor-ring engine,
//! together with the DMA-coherent memory bridge the engine allocates through.

use vstd::prelude::*;

pub mod dma;
pub mod e1000;
pub mod mem;
pub mod net_buf;

verus! {

/// Conditions signaled at the driver boundary.
#[derive(Clone, Copy, Debug, PartialEq, Eq, Structural)]
pub enum DevError {
    /// The hardware engine could not be brought up.
    BadState,
    /// Nothing is available right now; poll again later.
    Again,
    /// A requested buffer cannot be allocated.
    NoMemory,
}

/// The class of device a driver exposes.
#[derive(Clone, Copy, Debug, PartialEq, Eq, Structural)]
pub enum DeviceType {
    Block,
    Char,
    Net,
    Display,
}

/// A six-byte medium-access-control address.
#[derive(Clone, Copy, Debug, PartialEq, Eq)]
pub struct EthernetAddress(pub [u8; 6]);

} // verus!
