//! The enable handshake, queue creation, doorbell protocol and the block
//! datapath, observed through the modelled controller.

use nvme_driver::defs::NVME_REG_ACQ;
use nvme_driver::defs::NVME_REG_AQA;
use nvme_driver::defs::NVME_REG_ASQ;
use nvme_driver::defs::NVME_REG_CC;
use nvme_driver::defs::NVME_REG_DBS;
use nvme_driver::DmaProvider;
use nvme_driver::NvmeDevice;
use nvme_driver::NvmeInterface;

const BAR: usize = 0x40000000;

fn bring_up(num_blocks: usize) -> NvmeInterface {
    let mut dma = DmaProvider::new(0x81000000);
    let device = NvmeDevice::new(BAR, num_blocks);
    NvmeInterface::new(&mut dma, BAR, device)
}

#[test]
fn test_enable_handshake_registers() {
    let nvme = bring_up(64);
    // AQA carries both admin depths minus one: depth 32 gives 0x001F001F
    assert_eq!(nvme.device.aqa, 0x001F001F);
    assert_eq!(nvme.device.asq, nvme.admin_queue.sq_pa as u64);
    assert_eq!(nvme.device.acq, nvme.admin_queue.cq_pa as u64);
    // CC has ENABLE, IOSQES and IOCQES set
    assert_eq!(nvme.device.cc & 1, 1);
    assert_eq!(nvme.device.cc & (6 << 16), 6 << 16);
    assert_eq!(nvme.device.cc & (4 << 20), 4 << 20);
    assert_eq!(nvme.device.cc, 0x00460001);
}

#[test]
fn test_enable_handshake_order_cc_last() {
    let nvme = bring_up(64);
    let log = &nvme.device.reg_log;
    assert_eq!(log.len(), 4);
    assert_eq!(log[0].addr, BAR + NVME_REG_AQA);
    assert_eq!(log[0].value, 0x001F001F);
    assert_eq!(log[1].addr, BAR + NVME_REG_ASQ);
    assert_eq!(log[1].value, nvme.admin_queue.sq_pa as u64);
    assert_eq!(log[2].addr, BAR + NVME_REG_ACQ);
    assert_eq!(log[2].value, nvme.admin_queue.cq_pa as u64);
    assert_eq!(log[3].addr, BAR + NVME_REG_CC);
    assert!(nvme.device.enabled);
    // CSTS was read once after the CC write and came back ready
    assert_eq!(nvme.device.csts_log.len(), 1);
    assert_eq!(nvme.device.csts_log[0] & 1, 1);
}

#[test]
fn test_io_queue_creation_commands() {
    let nvme = bring_up(64);
    let log = &nvme.device.admin_log;
    assert_eq!(log.len(), 3);
    // set-features requesting the queue count: fid 0x7 in dword 10
    assert_eq!((log[0].opcode, log[0].command_id), (0x09, 2));
    assert_eq!(log[0].cdw10, 0x7);
    assert_eq!(log[0].prp1, 0);
    // create-CQ: the CQ ring's physical address, cqid 1, qsize 1023,
    // PHYS_CONTIG | IRQ_ENABLED
    assert_eq!((log[1].opcode, log[1].command_id), (0x05, 3));
    assert_eq!(log[1].prp1, nvme.io_queue.cq_pa as u64);
    assert_eq!(log[1].cdw10, 1 | (1023 << 16));
    assert_eq!(log[1].cdw11, 0x3);
    // create-SQ: the SQ ring's physical address, sqid 1, qsize 1023,
    // PHYS_CONTIG, bound to cqid 1
    assert_eq!((log[2].opcode, log[2].command_id), (0x01, 4));
    assert_eq!(log[2].prp1, nvme.io_queue.sq_pa as u64);
    assert_eq!(log[2].cdw10, 1 | (1023 << 16));
    assert_eq!(log[2].cdw11, 0x1 | (1 << 16));
    assert!(nvme.device.io_cq_created);
    assert!(nvme.device.io_sq_created);
    assert_eq!(nvme.device.io_qs.depth, 1024);
}

#[test]
fn test_queue_addresses_come_from_the_dma_window() {
    // the bump window starts at 0x81000000: admin scratch, admin SQ, admin
    // CQ, then the I/O queue's three regions, in allocation order
    let nvme = bring_up(64);
    let base = 0x81000000usize;
    assert_eq!(nvme.admin_queue.data_pa, base);
    assert_eq!(nvme.admin_queue.sq_pa, base + 4 * 4096);
    assert_eq!(nvme.admin_queue.cq_pa, base + 4 * 4096 + 32 * 64);
    let io_base = base + 4 * 4096 + 32 * 64 + 32 * 16;
    assert_eq!(nvme.io_queue.data_pa, io_base);
    assert_eq!(nvme.io_queue.sq_pa, io_base + 4 * 4096);
    assert_eq!(nvme.io_queue.cq_pa, io_base + 4 * 4096 + 1024 * 64);
    // the handshake programmed exactly those admin ring addresses
    assert_eq!(nvme.device.asq, nvme.admin_queue.sq_pa as u64);
    assert_eq!(nvme.device.acq, nvme.admin_queue.cq_pa as u64);
}

#[test]
fn test_admin_doorbell_addresses() {
    let nvme = bring_up(64);
    // three admin commands: each rings the admin SQ tail doorbell at the
    // doorbell base, then the admin CQ head doorbell 4 bytes above
    let db = &nvme.device.db_log;
    assert_eq!(db.len(), 6);
    for k in 0..3 {
        assert_eq!(db[2 * k].addr, BAR + NVME_REG_DBS);
        assert_eq!(db[2 * k].value, k + 1);
        assert_eq!(db[2 * k + 1].addr, BAR + NVME_REG_DBS + 4);
        assert_eq!(db[2 * k + 1].value, k + 1);
    }
}

#[test]
fn test_io_doorbell_addresses_and_values() {
    let mut nvme = bring_up(64);
    let before = nvme.device.db_log.len();
    let buf = [7u8; 512];
    nvme.write_block(0, &buf);
    let db = &nvme.device.db_log;
    assert_eq!(db.len(), before + 2);
    // I/O queue 1: SQ tail doorbell at base + 8, CQ head doorbell at +4 more
    assert_eq!(db[before].addr, BAR + NVME_REG_DBS + 8);
    assert_eq!(db[before].value, 1);
    assert_eq!(db[before + 1].addr, BAR + NVME_REG_DBS + 8 + 4);
    assert_eq!(db[before + 1].value, 1);
}

#[test]
fn test_sq_tail_counts_submissions() {
    let mut nvme = bring_up(64);
    assert_eq!(nvme.io_queue.sq_tail, 0);
    let buf = [1u8; 512];
    for n in 1..=5 {
        nvme.write_block(n, &buf);
        // the doorbell value the device saw equals the new tail
        assert_eq!(nvme.io_queue.sq_tail, n);
        assert_eq!(nvme.device.db_log.last().unwrap().value, nvme.io_queue.cq_head);
        assert_eq!(nvme.device.db_log[nvme.device.db_log.len() - 2].value, n);
    }
}

#[test]
fn test_write_then_read_zero_block() {
    let mut nvme = bring_up(64);
    let buf = [0u8; 512];
    nvme.write_block(0, &buf);
    let mut r = vec![0xffu8; 512];
    nvme.read_block(0, &mut r);
    assert_eq!(&r[..], &[0u8; 512][..]);
}

#[test]
fn test_write_then_read_block_three() {
    let mut nvme = bring_up(64);
    let buf = [3u8; 512];
    nvme.write_block(3, &buf);
    let mut r = vec![0u8; 512];
    nvme.read_block(3, &mut r);
    assert_eq!(&r[..], &[3u8; 512][..]);
}

#[test]
fn test_write_then_read_five_blocks() {
    let mut nvme = bring_up(64);
    for i in 0..5usize {
        let buf = [i as u8; 512];
        nvme.write_block(i, &buf);
    }
    for i in 0..5usize {
        let mut r = vec![0u8; 512];
        nvme.read_block(i, &mut r);
        assert_eq!(&r[..], &[i as u8; 512][..]);
    }
}

#[test]
fn test_full_lap_wraps_tail_and_toggles_phase() {
    // ring depth 1024: one write per distinct block id, a full lap
    let mut nvme = bring_up(1024);
    let buf = [0xa5u8; 512];
    assert_eq!(nvme.io_queue.cq_phase, 1);
    for i in 0..1024usize {
        nvme.write_block(i, &buf);
    }
    assert_eq!(nvme.io_queue.sq_tail, 0);
    assert_eq!(nvme.io_queue.cq_head, 0);
    assert_eq!(nvme.io_queue.cq_phase, 0);
}

#[test]
fn test_unwritten_block_reads_zero() {
    let mut nvme = bring_up(64);
    let buf = [0x42u8; 512];
    nvme.write_block(42, &buf);
    let mut r = vec![0xffu8; 512];
    nvme.read_block(41, &mut r);
    assert_eq!(&r[..], &[0u8; 512][..]);
}

#[test]
fn test_writes_to_distinct_blocks_in_any_order() {
    let mut a = bring_up(8);
    let mut b = bring_up(8);
    let x = [0x11u8; 512];
    let y = [0x22u8; 512];
    a.write_block(2, &x);
    a.write_block(5, &y);
    b.write_block(5, &y);
    b.write_block(2, &x);
    for nvme in [&mut a, &mut b] {
        let mut r = vec![0u8; 512];
        nvme.read_block(2, &mut r);
        assert_eq!(&r[..], &x[..]);
        nvme.read_block(5, &mut r);
        assert_eq!(&r[..], &y[..]);
    }
}

#[test]
fn test_set_features_records_admin_command() {
    let mut nvme = bring_up(64);
    let before = nvme.device.admin_log.len();
    nvme.set_features(0x07, 0x00070007);
    let log = &nvme.device.admin_log;
    assert_eq!(log.len(), before + 1);
    assert_eq!(log[before].opcode, 0x09);
    assert_eq!(log[before].command_id, 0);
    // the feature id travels in dword 10, its value in dword 11
    assert_eq!(log[before].cdw10, 0x07);
    assert_eq!(log[before].cdw11, 0x00070007);
}

#[test]
fn test_handle_irq_without_pending_completion_is_a_noop() {
    let mut nvme = bring_up(64);
    let head = nvme.io_queue.cq_head;
    let dbs = nvme.device.db_log.len();
    nvme.handle_irq();
    assert_eq!(nvme.io_queue.cq_head, head);
    assert_eq!(nvme.device.db_log.len(), dbs);
}

#[test]
fn test_send_write_command_then_irq_drains_completion() {
    let mut nvme = bring_up(64);
    let buf = [9u8; 512];
    let cid = nvme.send_write_command(5, &buf, 77);
    assert_eq!(cid, 77);
    // submitted but not consumed: head still at 0, doorbell only for the SQ
    assert_eq!(nvme.io_queue.cq_head, 0);
    nvme.handle_irq();
    assert_eq!(nvme.io_queue.cq_head, 1);
    let mut r = vec![0u8; 512];
    nvme.read_block(5, &mut r);
    assert_eq!(&r[..], &buf[..]);
}

#[test]
fn test_send_read_command_fills_buffer() {
    let mut nvme = bring_up(64);
    let buf = [0x37u8; 512];
    nvme.write_block(7, &buf);
    let mut r = vec![0u8; 512];
    let cid = nvme.send_read_command(7, &mut r, 101);
    assert_eq!(cid, 101);
    assert_eq!(&r[..], &buf[..]);
    nvme.handle_irq();
    assert_eq!(nvme.io_queue.cq_head, nvme.device.io_qs.cq_tail);
}
