//! Queue-pair construction, reset, index arithmetic and the DMA provider.

use nvme_driver::DmaAllocator;
use nvme_driver::DmaProvider;
use nvme_driver::NvmeQueue;
use nvme_driver::nvme::nvme_cqe_pending;
use nvme_driver::nvme::nvme_update_cq_head;
use nvme_driver::phys_to_virt;
use nvme_driver::virt_to_phys;

#[test]
fn test_queue_construction() {
    let mut dma = DmaProvider::new(0x81000000);
    let q = NvmeQueue::new(&mut dma, 0, 0, 32);
    assert_eq!(q.qid, 0);
    assert_eq!(q.db_offset, 0);
    assert_eq!(q.q_depth, 32);
    assert_eq!(q.sq.len(), 32);
    assert_eq!(q.cq.len(), 32);
    assert_eq!(q.data.len(), 4 * 4096);
    assert_eq!(q.sq_tail, 0);
    assert_eq!(q.last_sq_tail, 0);
    assert_eq!(q.cq_head, 0);
    assert_eq!(q.cq_phase, 1);
    // the three regions come from the bump window in allocation order
    assert_eq!(q.data_pa, 0x81000000);
    assert_eq!(q.sq_pa, 0x81000000 + 4 * 4096);
    assert_eq!(q.cq_pa, 0x81000000 + 4 * 4096 + 32 * 64);
}

#[test]
fn test_queue_reset_clears_indices() {
    let mut dma = DmaProvider::new(0x81000000);
    let mut q = NvmeQueue::new(&mut dma, 1, 8, 16);
    q.sq_tail = 5;
    q.last_sq_tail = 5;
    q.cq_head = 9;
    q.cq_phase = 0;
    q.nvme_init_queue();
    assert_eq!(q.sq_tail, 0);
    assert_eq!(q.last_sq_tail, 0);
    assert_eq!(q.cq_head, 0);
    assert_eq!(q.cq_phase, 1);
    assert_eq!(q.q_depth, 16);
}

#[test]
fn test_cq_head_advance_and_phase_toggle() {
    let mut dma = DmaProvider::new(0x81000000);
    let mut q = NvmeQueue::new(&mut dma, 1, 8, 4);
    // consuming a full lap of 4 completions returns the head to 0 with the
    // phase toggled exactly once
    for expected in [1usize, 2, 3, 0] {
        nvme_update_cq_head(&mut q);
        assert_eq!(q.cq_head, expected);
    }
    assert_eq!(q.cq_phase, 0);
    for expected in [1usize, 2, 3, 0] {
        nvme_update_cq_head(&mut q);
        assert_eq!(q.cq_head, expected);
    }
    assert_eq!(q.cq_phase, 1);
}

#[test]
fn test_fresh_queue_has_no_pending_completion() {
    let mut dma = DmaProvider::new(0x81000000);
    let q = NvmeQueue::new(&mut dma, 1, 8, 8);
    // freshly zeroed ring, phase one: the phase check must find nothing
    assert!(!nvme_cqe_pending(&q));
}

#[test]
fn test_dma_provider_bumps_and_translates() {
    let mut dma = DmaProvider::new(0x90000000);
    let a = dma.dma_alloc(4096);
    let b = dma.dma_alloc(8192);
    let c = dma.dma_alloc(64);
    assert_eq!(a, 0x90000000);
    assert_eq!(b, 0x90000000 + 4096);
    assert_eq!(c, 0x90000000 + 4096 + 8192);
    assert_eq!(dma.virt_to_phys(a), a);
    assert_eq!(dma.phys_to_virt(b), b);
    assert_eq!(dma.dma_dealloc(a, 4096), 0);
    assert_eq!(phys_to_virt(0x1234), 0x1234);
    assert_eq!(virt_to_phys(0x5678), 0x5678);
}
