//! The operating-system memory services the driver builds on: the
//! general-purpose allocator and the virtual-to-physical translation of the
//! memory it returns. An operating system plugs its own services in through
//! the [`MemoryOps`] trait; [`BumpMemory`] is a verified reference
//! implementation over a fixed address window.

use vstd::prelude::*;

verus! {

/// The memory services an operating system supplies to the driver.
///
/// `allocated()` models the regions currently held from the general
/// allocator: each live base address, mapped to the size and alignment of
/// the request that produced it. `alloc` may refuse any request; when it
/// grants one it hands out a fresh, aligned, non-null address. `dealloc`
/// gives exactly one live region back and must be passed the size and
/// alignment the region was allocated under. `phys_of` is the service's
/// mapping between virtual addresses and the physical addresses behind
/// them; all memory it hands out is coherent, so no cache maintenance
/// accompanies these operations.
pub trait MemoryOps: Sized {
    /// The regions currently held from the allocator: base address to the
    /// (size, alignment) pair it was requested under.
    spec fn allocated(&self) -> Map<usize, (usize, usize)>;

    /// The physical address backing the virtual address `vaddr`.
    spec fn phys_of(&self, vaddr: usize) -> usize;

    /// Requests `size` bytes aligned to `align` from the general allocator;
    /// `None` when the allocator cannot satisfy the request.
    fn allocate(&mut self, size: usize, align: usize) -> (r: Option<usize>)
        requires
            1 <= align,
        ensures
            match r {
                Some(vaddr) => {
                    &&& vaddr != 0
                    &&& vaddr as int % align as int == 0
                    &&& !old(self).allocated().contains_key(vaddr)
                    &&& final(self).allocated() == old(self).allocated().insert(
                        vaddr,
                        (size, align),
                    )
                },
                None => final(self).allocated() == old(self).allocated(),
            },
    ;

    /// Returns the region based at `vaddr` to the general allocator.
    fn deallocate(&mut self, vaddr: usize, size: usize, align: usize)
        requires
            old(self).allocated().contains_key(vaddr),
            old(self).allocated()[vaddr] == (size, align),
        ensures
            final(self).allocated() == old(self).allocated().remove(vaddr),
    ;

    /// Translates a virtual address to the physical address behind it.
    fn virt_to_phys(&self, vaddr: usize) -> (r: usize)
        ensures
            r == self.phys_of(vaddr),
    ;
}

/// A verified reference implementation of [`MemoryOps`]: a bump allocator
/// over the fixed address window `[base, limit]`, with identity
/// virtual-to-physical translation.
///
/// Addresses are granted upward from `base`; once every granted region has
/// been returned, the window is reused from `base` again, so paired
/// allocate/free traffic never exhausts it.
pub struct BumpMemory {
    base: usize,
    next: usize,
    limit: usize,
    outstanding: usize,
    live: Ghost<Map<usize, (usize, usize)>>,
}

impl BumpMemory {
    #[verifier::type_invariant]
    closed spec fn wf(&self) -> bool {
        &&& 1 <= self.base <= self.next
        &&& self.outstanding <= self.next - self.base
        &&& self.live@.dom().finite()
        &&& self.live@.dom().len() == self.outstanding
        &&& forall|k: usize| self.live@.dom().contains(k) ==> k < self.next
    }

    /// A fresh window covering the addresses from `base` up to `limit`,
    /// with nothing allocated yet.
    pub fn new(base: usize, limit: usize) -> (r: BumpMemory)
        requires
            1 <= base,
        ensures
            r.allocated() == Map::<usize, (usize, usize)>::empty(),
    {
        proof {
            broadcast use vstd::map::group_map_axioms, vstd::set::group_set_axioms;

            assert(Map::<usize, (usize, usize)>::empty().dom() =~= Set::<usize>::empty());
        }
        BumpMemory { base, next: base, limit, outstanding: 0, live: Ghost(Map::empty()) }
    }
}

impl MemoryOps for BumpMemory {
    closed spec fn allocated(&self) -> Map<usize, (usize, usize)> {
        self.live@
    }

    closed spec fn phys_of(&self, vaddr: usize) -> usize {
        vaddr
    }

    fn allocate(&mut self, size: usize, align: usize) -> (r: Option<usize>) {
        proof {
            use_type_invariant(&*self);
        }
        let rem = self.next % align;
        let pad = if rem == 0 {
            0
        } else {
            align - rem
        };
        if pad > usize::MAX - self.next {
            return None;
        }
        let vaddr = self.next + pad;
        let eff = if size == 0 {
            1
        } else {
            size
        };
        if vaddr > self.limit || eff > self.limit - vaddr {
            return None;
        }
        proof {
            broadcast use vstd::map::group_map_axioms, vstd::set::group_set_axioms;

            let d = align as int;
            let n = self.next as int;
            vstd::arithmetic::div_mod::lemma_fundamental_div_mod(n, d);
            if rem != 0 {
                assert(vaddr as int == (n / d + 1) * d) by (nonlinear_arith)
                    requires
                        n == d * (n / d) + n % d,
                        vaddr as int == n + d - n % d,
                ;
                vstd::arithmetic::div_mod::lemma_mod_multiples_basic(n / d + 1, d);
            }
            assert(!self.live@.dom().contains(vaddr));
            assert(self.live@.insert(vaddr, (size, align)).dom() =~= self.live@.dom().insert(
                vaddr,
            ));
        }
        let next = BumpMemory {
            base: self.base,
            next: vaddr + eff,
            limit: self.limit,
            outstanding: self.outstanding + 1,
            live: Ghost(self.live@.insert(vaddr, (size, align))),
        };
        *self = next;
        Some(vaddr)
    }

    fn deallocate(&mut self, vaddr: usize, size: usize, align: usize) {
        proof {
            use_type_invariant(&*self);
            broadcast use vstd::map::group_map_axioms, vstd::set::group_set_axioms;

            assert(self.live@.remove(vaddr).dom() =~= self.live@.dom().remove(vaddr));
        }
        let outstanding = self.outstanding - 1;
        let next = if outstanding == 0 {
            self.base
        } else {
            self.next
        };
        let updated = BumpMemory {
            base: self.base,
            next,
            limit: self.limit,
            outstanding,
            live: Ghost(self.live@.remove(vaddr)),
        };
        *self = updated;
    }

    fn virt_to_phys(&self, vaddr: usize) -> (r: usize) {
        vaddr
    }
}

} // verus!
