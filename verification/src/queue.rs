//! One NVMe queue pair: a submission ring, a completion ring, their
//! device-visible physical addresses, the head/tail indices and the phase
//! bit. The queue performs no MMIO itself; everything here is index
//! arithmetic over the two rings.

use vstd::prelude::*;
use vstd::arithmetic::div_mod::lemma_add_mod_noop;
use vstd::arithmetic::div_mod::lemma_mod_self_0;
use vstd::arithmetic::div_mod::lemma_small_mod;
use crate::defs::NvmeCommonCommand;
use crate::defs::NvmeCompletion;
use crate::dma::DmaAllocator;

verus! {

pub const PAGE_SIZE: usize = 4096;

/// The DMA bytes one queue pair of the given depth obtains at construction:
/// a four-page scratch region, 64 bytes per submission slot and 16 bytes per
/// completion slot.
pub open spec fn queue_dma_bytes(depth: usize) -> int {
    4 * PAGE_SIZE + depth * 64 + depth * 16
}

/// The slot after `i` in a ring of `depth` slots.
pub open spec fn next_index(i: int, depth: int) -> int {
    if i + 1 == depth {
        0
    } else {
        i + 1
    }
}

/// The phase expected after consuming the completion at slot `i`: toggled
/// exactly when the head wraps from `depth - 1` to `0`.
pub open spec fn next_phase(i: int, phase: int, depth: int) -> int {
    if i + 1 == depth {
        1 - phase
    } else {
        phase
    }
}

/// The ring index reached after `n` single-slot advances from slot `0`.
pub open spec fn ring_index_after(n: nat, depth: int) -> int
    decreases n,
{
    if n == 0 {
        0
    } else {
        next_index(ring_index_after((n - 1) as nat, depth), depth)
    }
}

/// The phase expected after `n` consumed completions, starting from head `0`
/// with phase `1`.
pub open spec fn phase_after(n: nat, depth: int) -> int
    decreases n,
{
    if n == 0 {
        1
    } else {
        next_phase(
            ring_index_after((n - 1) as nat, depth),
            phase_after((n - 1) as nat, depth),
            depth,
        )
    }
}

/// The submission-queue tail advances once per submitted command: after `n`
/// submissions into a ring of `depth` slots it equals `n` modulo `depth`.
pub proof fn lemma_ring_index_after_mod(n: nat, depth: int)
    requires
        depth >= 1,
    ensures
        ring_index_after(n, depth) == (n as int) % depth,
    decreases n,
{
    if n == 0 {
        lemma_small_mod(0, depth as nat);
    } else {
        lemma_ring_index_after_mod((n - 1) as nat, depth);
        lemma_add_mod_noop((n - 1) as int, 1, depth);
        if depth == 1 {
            lemma_mod_self_0(1);
            lemma_small_mod(0, 1);
        } else {
            lemma_small_mod(1, depth as nat);
            if (n - 1) % depth == depth - 1 {
                lemma_mod_self_0(depth);
            } else {
                lemma_small_mod(((n - 1) % depth + 1) as nat, depth as nat);
            }
        }
    }
}

/// Up to one full lap, the completion head equals the number of consumed
/// completions and the phase is still the initial `1`; after exactly one
/// full lap the head is back at `0` and the phase has toggled to `0`.
pub proof fn lemma_phase_protocol(n: nat, depth: int)
    requires
        1 <= depth,
        n <= depth,
    ensures
        ring_index_after(n, depth) == if n == depth {
            0int
        } else {
            n as int
        },
        phase_after(n, depth) == if n == depth {
            0int
        } else {
            1int
        },
    decreases n,
{
    if n > 0 {
        lemma_phase_protocol((n - 1) as nat, depth);
    }
}

/// One NVMe queue pair. `sq` and `cq` are the rings the device reads and
/// writes over DMA; `data` is the queue's DMA scratch region, used as the
/// bounce buffer for single-block transfers; `db_offset` is the byte offset
/// of this queue's SQ tail doorbell from the controller doorbell base.
pub struct NvmeQueue {
    pub qid: usize,
    pub sq: Vec<NvmeCommonCommand>,
    pub cq: Vec<NvmeCompletion>,
    pub data: Vec<u8>,
    pub db_offset: usize,
    pub q_depth: usize,
    pub cq_head: usize,
    pub cq_phase: usize,
    pub sq_tail: usize,
    pub last_sq_tail: usize,
    pub sq_pa: usize,
    pub cq_pa: usize,
    pub data_pa: usize,
}

impl NvmeQueue {
    /// Structural well-formedness: rings sized to the depth, indices in
    /// range, phase a single bit, scratch region of four pages.
    pub open spec fn wf(self) -> bool {
        &&& 2 <= self.q_depth <= 0x10000
        &&& self.sq@.len() == self.q_depth
        &&& self.cq@.len() == self.q_depth
        &&& self.data@.len() == 4 * PAGE_SIZE
        &&& self.sq_tail < self.q_depth
        &&& self.last_sq_tail < self.q_depth
        &&& self.cq_head < self.q_depth
        &&& self.cq_phase <= 1
    }

    /// A queue is fresh right after construction or reset: indices at zero,
    /// phase one, and no completion slot carrying a set phase bit yet.
    pub open spec fn fresh(self) -> bool {
        &&& self.sq_tail == 0
        &&& self.last_sq_tail == 0
        &&& self.cq_head == 0
        &&& self.cq_phase == 1
        &&& forall|i: int| 0 <= i < self.cq@.len() ==> ((#[trigger] self.cq@[i]).status & 1) == 0
    }

    /// Allocate the queue's three DMA regions (scratch, submission ring,
    /// completion ring), record their physical addresses, and start with
    /// zeroed rings, indices at zero and phase one. The recorded addresses
    /// are exactly the three regions obtained from the provider, in
    /// allocation order: the scratch region, then the submission ring, then
    /// the completion ring.
    pub fn new<D: DmaAllocator>(dma: &mut D, qid: usize, db_offset: usize, q_depth: usize) -> (r:
        NvmeQueue)
        requires
            2 <= q_depth <= 0x10000,
            old(dma).spec_alloc_base() + 4 * PAGE_SIZE + q_depth * 64 + q_depth * 16
                <= usize::MAX,
        ensures
            r.wf(),
            r.fresh(),
            r.qid == qid,
            r.db_offset == db_offset,
            r.q_depth == q_depth,
            forall|i: int| 0 <= i < r.data@.len() ==> r.data@[i] == 0,
            r.data_pa == old(dma).spec_alloc_base(),
            r.sq_pa == old(dma).spec_alloc_base() + 4 * PAGE_SIZE,
            r.cq_pa == old(dma).spec_alloc_base() + 4 * PAGE_SIZE + q_depth * 64,
            final(dma).spec_alloc_base() == old(dma).spec_alloc_base() + 4 * PAGE_SIZE + q_depth
                * 64 + q_depth * 16,
    {
        let data_va = dma.dma_alloc(PAGE_SIZE * 4);
        let sq_va = dma.dma_alloc(q_depth * 64);
        let cq_va = dma.dma_alloc(q_depth * 16);

        let data_pa = dma.virt_to_phys(data_va);
        let sq_pa = dma.virt_to_phys(sq_va);
        let cq_pa = dma.virt_to_phys(cq_va);

        let mut sq: Vec<NvmeCommonCommand> = Vec::new();
        let mut i: usize = 0;
        while i < q_depth
            invariant
                i <= q_depth,
                sq@.len() == i,
            decreases q_depth - i,
        {
            sq.push(NvmeCommonCommand::new());
            i = i + 1;
        }

        let mut cq: Vec<NvmeCompletion> = Vec::new();
        let mut i: usize = 0;
        while i < q_depth
            invariant
                i <= q_depth,
                cq@.len() == i,
                forall|j: int| 0 <= j < i ==> (#[trigger] cq@[j]).status == 0,
            decreases q_depth - i,
        {
            cq.push(NvmeCompletion::new());
            i = i + 1;
        }

        let mut data: Vec<u8> = Vec::new();
        let mut i: usize = 0;
        while i < PAGE_SIZE * 4
            invariant
                i <= PAGE_SIZE * 4,
                data@.len() == i,
                forall|j: int| 0 <= j < i ==> data@[j] == 0,
            decreases PAGE_SIZE * 4 - i,
        {
            data.push(0);
            i = i + 1;
        }

        proof {
            assert((0u16 & 1) == 0) by (bit_vector);
        }
        NvmeQueue {
            qid,
            sq,
            cq,
            data,
            db_offset,
            q_depth,
            cq_head: 0,
            cq_phase: 1,
            sq_tail: 0,
            last_sq_tail: 0,
            sq_pa,
            cq_pa,
            data_pa,
        }
    }

    /// Reset the indices and the phase without re-allocating the rings.
    pub fn nvme_init_queue(&mut self)
        ensures
            final(self).cq_head == 0,
            final(self).cq_phase == 1,
            final(self).sq_tail == 0,
            final(self).last_sq_tail == 0,
            final(self).qid == old(self).qid,
            final(self).sq == old(self).sq,
            final(self).cq == old(self).cq,
            final(self).data == old(self).data,
            final(self).db_offset == old(self).db_offset,
            final(self).q_depth == old(self).q_depth,
            final(self).sq_pa == old(self).sq_pa,
            final(self).cq_pa == old(self).cq_pa,
            final(self).data_pa == old(self).data_pa,
    {
        self.cq_head = 0;
        self.cq_phase = 1;
        self.sq_tail = 0;
        self.last_sq_tail = 0;
    }
}

} // verus!
