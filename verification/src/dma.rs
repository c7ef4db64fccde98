//! The DMA capability the core consumes, and a bump provider over an
//! identity-mapped window for platforms whose kernel memory is visible to
//! the device at its physical address.

use vstd::prelude::*;

verus! {

/// Identity address translation: on the supported platform kernel-virtual
/// and physical addresses coincide.
pub fn phys_to_virt(paddr: usize) -> (r: usize)
    ensures
        r == paddr,
{
    paddr
}

/// Identity address translation, the other direction.
pub fn virt_to_phys(vaddr: usize) -> (r: usize)
    ensures
        r == vaddr,
{
    vaddr
}

/// Provider of physically contiguous, device-visible memory regions and of
/// the translation between physical and kernel-virtual addresses. The
/// contract fixes the identity mapping the platform uses and makes each
/// allocation the next region of the provider's window, so callers can bind
/// the addresses they record to the regions they obtained. A failure to
/// allocate is a fatal condition at initialization; the capability has no
/// error channel.
pub trait DmaAllocator {
    /// The kernel-virtual base of the next region this provider will hand
    /// out.
    spec fn spec_alloc_base(&self) -> usize;

    /// Allocate `size` bytes of DMA memory; returns its kernel-virtual base,
    /// which is the current base of the window, and moves the window past
    /// the new region.
    fn dma_alloc(&mut self, size: usize) -> (r: usize)
        requires
            old(self).spec_alloc_base() + size <= usize::MAX,
        ensures
            r == old(self).spec_alloc_base(),
            final(self).spec_alloc_base() == r + size,
    ;

    /// Release a region previously returned by `dma_alloc`. The window never
    /// moves back: the core allocates only at construction and frees
    /// nothing.
    fn dma_dealloc(&mut self, addr: usize, size: usize) -> (r: usize)
        ensures
            final(self).spec_alloc_base() == old(self).spec_alloc_base(),
    ;

    /// The kernel-virtual address of a physical address: the identity.
    fn phys_to_virt(&self, phys: usize) -> (r: usize)
        ensures
            r == phys,
    ;

    /// The physical address of a kernel-virtual address: the identity.
    fn virt_to_phys(&self, virt: usize) -> (r: usize)
        ensures
            r == virt,
    ;
}

/// A bump allocator handing out successive regions of a fixed
/// identity-mapped DMA window. Regions are never reused; `dma_dealloc` is a
/// no-op, as the core allocates only at construction and frees nothing.
pub struct DmaProvider {
    pub next: usize,
}

impl DmaProvider {
    /// A provider whose window starts at `base`.
    pub fn new(base: usize) -> (r: DmaProvider)
        ensures
            r.next == base,
            r.spec_alloc_base() == base,
    {
        DmaProvider { next: base }
    }
}

impl DmaAllocator for DmaProvider {
    open spec fn spec_alloc_base(&self) -> usize {
        self.next
    }

    fn dma_alloc(&mut self, size: usize) -> (r: usize) {
        let r = self.next;
        self.next = self.next + size;
        r
    }

    fn dma_dealloc(&mut self, addr: usize, size: usize) -> (r: usize) {
        0
    }

    fn phys_to_virt(&self, phys: usize) -> (r: usize) {
        phys_to_virt(phys)
    }

    fn virt_to_phys(&self, virt: usize) -> (r: usize) {
        virt_to_phys(virt)
    }
}

} // verus!
