//! The controller engine: the enable handshake, I/O queue creation, and the
//! submit/poll/doorbell protocol serving single-block reads and writes.
//!
//! The engine owns the host side of both queue pairs and the device model it
//! drives. Its central invariant relates the two sides of each queue pair:
//! between operations the device has consumed every submission (`synced`);
//! after a submission whose completion has not been consumed yet, exactly one
//! completion is outstanding (`pending_one`). The completion-ring slot
//! conditions in these predicates are what makes the phase-bit protocol
//! sound: a slot carries the host's current phase exactly when it holds a
//! completion the host has not consumed.

use vstd::prelude::*;
use crate::defs::NvmeCommonCommand;
use crate::defs::NvmeCompletion;
use crate::defs::NVME_REG_DBS;
use crate::defs::common_cmd_bytes;
use crate::defs::rw_cmd_bytes;
use crate::defs::NvmeRWCommand;
use crate::device::admin_record_of;
use crate::device::cqe_for;
use crate::device::AdminRecord;
use crate::device::RegWrite;
use crate::dma::DmaAllocator;
use crate::device::DbWrite;
use crate::device::DevQueue;
use crate::device::NvmeDevice;
use crate::queue::next_index;
use crate::queue::next_phase;
use crate::queue::NvmeQueue;

verus! {

/// Ring capacity of the I/O queue pair.
pub const NVME_QUEUE_DEPTH: usize = 1024;

/// Ring capacity of the admin queue pair; AQA announces this depth to the
/// controller, so ring and register stay consistent.
pub const NVME_ADMIN_QUEUE_DEPTH: usize = 32;

/// The phase bit of a completion slot.
pub open spec fn slot_phase(c: NvmeCompletion) -> int {
    (c.status & 1) as int
}

/// The completion-ring slots the host has consumed this lap carry the host's
/// current phase; the slots ahead of the head do not. A slot ahead of the
/// head acquiring the current phase is therefore exactly a new completion.
pub open spec fn cq_clean(q: NvmeQueue) -> bool {
    &&& forall|j: int|
        0 <= j < q.cq_head ==> slot_phase(#[trigger] q.cq@[j]) == q.cq_phase as int
    &&& forall|j: int|
        q.cq_head <= j < q.q_depth ==> slot_phase(#[trigger] q.cq@[j]) != q.cq_phase as int
}

/// The device side of the selected queue, admin queue for id 0, I/O queue
/// for id 1.
pub open spec fn qs_for(dev: NvmeDevice, qid: usize) -> DevQueue {
    if qid == 0 {
        dev.admin_qs
    } else {
        dev.io_qs
    }
}

/// The queue is one the device decodes at its doorbell offset: the admin
/// queue's doorbells sit at the doorbell base, I/O queue 1's 8 bytes above,
/// and the I/O queue exists only once both create commands have run.
pub open spec fn queue_role_ok(dev: NvmeDevice, q: NvmeQueue) -> bool {
    ||| (q.qid == 0 && q.db_offset == 0)
    ||| (q.qid == 1 && q.db_offset == 8 && dev.io_cq_created && dev.io_sq_created)
}

/// Host and device agree on the queue pair and nothing is outstanding: the
/// device has consumed every submission, the host has consumed every
/// completion, both hold the same phase, and the ring slots are clean.
pub open spec fn synced(d: DevQueue, q: NvmeQueue) -> bool {
    &&& q.wf()
    &&& d.depth == q.q_depth
    &&& d.sq_head == q.sq_tail
    &&& q.last_sq_tail == q.sq_tail
    &&& d.cq_tail == q.cq_head
    &&& d.phase == q.cq_phase
    &&& cq_clean(q)
}

/// The host has advanced its SQ tail one slot past what the device has
/// consumed, but has not rung the doorbell yet.
pub open spec fn submitted_one(d: DevQueue, q: NvmeQueue) -> bool {
    &&& q.wf()
    &&& d.depth == q.q_depth
    &&& d.sq_head == q.last_sq_tail
    &&& q.sq_tail == next_index(d.sq_head as int, d.depth as int)
    &&& d.cq_tail == q.cq_head
    &&& d.phase == q.cq_phase
    &&& cq_clean(q)
}

/// Exactly one completion is posted and not yet consumed: it sits at the
/// host's CQ head carrying the host's phase, and the device's CQ tail and
/// phase have moved one slot ahead.
pub open spec fn pending_one(d: DevQueue, q: NvmeQueue) -> bool {
    &&& q.wf()
    &&& d.depth == q.q_depth
    &&& d.sq_head == q.sq_tail
    &&& q.last_sq_tail == q.sq_tail
    &&& d.cq_tail == next_index(q.cq_head as int, q.q_depth as int)
    &&& d.phase == next_phase(q.cq_head as int, q.cq_phase as int, q.q_depth as int)
    &&& slot_phase(q.cq@[q.cq_head as int]) == q.cq_phase as int
    &&& forall|j: int|
        0 <= j < q.cq_head ==> slot_phase(#[trigger] q.cq@[j]) == q.cq_phase as int
    &&& forall|j: int|
        q.cq_head < j < q.q_depth ==> slot_phase(#[trigger] q.cq@[j]) != q.cq_phase as int
}

/// Check whether a completion is pending at the CQ head: its status carries
/// the host's current phase in bit 0. This is the only correct
/// completion-detection test; any other slot holds stale data.
pub fn nvme_cqe_pending(q: &NvmeQueue) -> (r: bool)
    requires
        q.wf(),
    ensures
        r == (slot_phase(q.cq@[q.cq_head as int]) == q.cq_phase as int),
{
    let cqe = q.cq[q.cq_head];
    (cqe.status & 1) == (q.cq_phase as u16)
}

/// Advance the CQ head one slot, toggling the expected phase when the head
/// wraps from the last slot back to slot zero.
pub fn nvme_update_cq_head(q: &mut NvmeQueue)
    requires
        old(q).wf(),
    ensures
        final(q).wf(),
        final(q).cq_head == next_index(old(q).cq_head as int, old(q).q_depth as int),
        final(q).cq_phase == next_phase(
            old(q).cq_head as int,
            old(q).cq_phase as int,
            old(q).q_depth as int,
        ),
        final(q).qid == old(q).qid,
        final(q).sq == old(q).sq,
        final(q).cq == old(q).cq,
        final(q).data == old(q).data,
        final(q).db_offset == old(q).db_offset,
        final(q).q_depth == old(q).q_depth,
        final(q).sq_tail == old(q).sq_tail,
        final(q).last_sq_tail == old(q).last_sq_tail,
        final(q).sq_pa == old(q).sq_pa,
        final(q).cq_pa == old(q).cq_pa,
        final(q).data_pa == old(q).data_pa,
{
    let next_head = q.cq_head + 1;
    if next_head == q.q_depth {
        q.cq_head = 0;
        q.cq_phase = 1 - q.cq_phase;
    } else {
        q.cq_head = next_head;
    }
}

/// Ring the queue's CQ head doorbell (SQ tail doorbell + 4) to tell the
/// device how far the host has consumed the completion ring.
pub fn nvme_ring_cq_doorbell(dev: &mut NvmeDevice, q: &NvmeQueue, bar: usize)
    requires
        old(dev).wf(),
        bar == old(dev).bar,
        q.db_offset == 0 || q.db_offset == 8,
    ensures
        final(dev).wf(),
        final(dev).db_log@ == old(dev).db_log@.push(
            (DbWrite { addr: (bar + NVME_REG_DBS + q.db_offset + 4) as usize, value: q.cq_head }),
        ),
        q.db_offset == 0 ==> final(dev).admin_qs == (DevQueue {
            cq_head_db: q.cq_head,
            ..old(dev).admin_qs
        }) && final(dev).io_qs == old(dev).io_qs,
        q.db_offset == 8 ==> final(dev).io_qs == (DevQueue {
            cq_head_db: q.cq_head,
            ..old(dev).io_qs
        }) && final(dev).admin_qs == old(dev).admin_qs,
        final(dev).bar == old(dev).bar,
        final(dev).aqa == old(dev).aqa,
        final(dev).asq == old(dev).asq,
        final(dev).acq == old(dev).acq,
        final(dev).cc == old(dev).cc,
        final(dev).enabled == old(dev).enabled,
        final(dev).io_cq_created == old(dev).io_cq_created,
        final(dev).io_sq_created == old(dev).io_sq_created,
        final(dev).blocks == old(dev).blocks,
        final(dev).reg_log == old(dev).reg_log,
        final(dev).admin_log == old(dev).admin_log,
        final(dev).csts_log == old(dev).csts_log,
{
    let q_db = bar + NVME_REG_DBS + q.db_offset;
    dev.cq_doorbell(q_db + 4, q.cq_head);
}

/// Ring the queue's SQ tail doorbell with the current tail. The device
/// consumes the newly submitted entry and posts its completion, leaving the
/// queue pair with exactly one pending completion.
pub fn nvme_write_sq_db(dev: &mut NvmeDevice, q: &mut NvmeQueue, bar: usize)
    requires
        old(dev).wf(),
        bar == old(dev).bar,
        old(dev).enabled,
        queue_role_ok(*old(dev), *old(q)),
        submitted_one(qs_for(*old(dev), old(q).qid), *old(q)),
    ensures
        final(dev).wf(),
        final(q).wf(),
        pending_one(qs_for(*final(dev), old(q).qid), *final(q)),
        final(q).qid == old(q).qid,
        final(q).db_offset == old(q).db_offset,
        final(q).q_depth == old(q).q_depth,
        final(q).sq == old(q).sq,
        final(q).sq_tail == old(q).sq_tail,
        final(q).last_sq_tail == old(q).sq_tail,
        final(q).cq_head == old(q).cq_head,
        final(q).cq_phase == old(q).cq_phase,
        final(q).sq_pa == old(q).sq_pa,
        final(q).cq_pa == old(q).cq_pa,
        final(q).data_pa == old(q).data_pa,
        final(q).cq@ == old(q).cq@.update(
            old(q).cq_head as int,
            cqe_for(
                old(q).sq@[qs_for(*old(dev), old(q).qid).sq_head as int],
                qs_for(*old(dev), old(q).qid),
                old(q).qid as u16,
                old(q).sq_tail,
            ),
        ),
        final(dev).db_log@ == old(dev).db_log@.push(
            (DbWrite { addr: (bar + NVME_REG_DBS + old(q).db_offset) as usize, value: old(q).sq_tail }),
        ),
        final(dev).bar == old(dev).bar,
        final(dev).aqa == old(dev).aqa,
        final(dev).asq == old(dev).asq,
        final(dev).acq == old(dev).acq,
        final(dev).cc == old(dev).cc,
        final(dev).enabled == old(dev).enabled,
        final(dev).reg_log == old(dev).reg_log,
        final(dev).csts_log == old(dev).csts_log,
        final(dev).store().len() == old(dev).store().len(),
        old(q).qid == 0 ==> ({
            let cmd = old(q).sq@[old(dev).admin_qs.sq_head as int];
            &&& final(dev).admin_qs == old(dev).admin_qs.advanced()
            &&& final(dev).admin_log@ == old(dev).admin_log@.push(admin_record_of(cmd))
            &&& final(dev).io_cq_created == (old(dev).io_cq_created || cmd.opcode
                == crate::defs::NVME_OP_ADMIN_CREATE_CQ)
            &&& final(dev).io_sq_created == (old(dev).io_sq_created || cmd.opcode
                == crate::defs::NVME_OP_ADMIN_CREATE_SQ)
            &&& final(dev).io_qs == if cmd.opcode == crate::defs::NVME_OP_ADMIN_CREATE_CQ {
                DevQueue::reset(((((cmd.cdw10 >> 16) & 0xffff) + 1) as usize))
            } else {
                old(dev).io_qs
            }
            &&& final(dev).blocks == old(dev).blocks
            &&& final(q).data@ == old(q).data@
        }),
        old(q).qid == 1 ==> ({
            let cmd = old(q).sq@[old(dev).io_qs.sq_head as int];
            &&& final(dev).io_qs == old(dev).io_qs.advanced()
            &&& final(dev).admin_qs == old(dev).admin_qs
            &&& final(dev).admin_log == old(dev).admin_log
            &&& final(dev).io_cq_created == old(dev).io_cq_created
            &&& final(dev).io_sq_created == old(dev).io_sq_created
            &&& (cmd.opcode == crate::defs::NVME_OP_IO_WRITE && crate::device::slba_of(cmd) < old(
                dev,
            ).store().len() && cmd.prp1 == old(q).data_pa as u64) ==> final(dev).store() == old(
                dev,
            ).store().update(
                crate::device::slba_of(cmd) as int,
                old(q).data@.subrange(0, crate::device::BLOCK_SIZE as int),
            ) && final(q).data@ == old(q).data@
            &&& (cmd.opcode == crate::defs::NVME_OP_IO_READ && crate::device::slba_of(cmd) < old(
                dev,
            ).store().len() && cmd.prp1 == old(q).data_pa as u64) ==> final(dev).blocks == old(
                dev,
            ).blocks && final(q).data@ == old(dev).store()[crate::device::slba_of(cmd) as int]
                + old(q).data@.skip(crate::device::BLOCK_SIZE as int)
            &&& !((cmd.opcode == crate::defs::NVME_OP_IO_WRITE || cmd.opcode
                == crate::defs::NVME_OP_IO_READ) && crate::device::slba_of(cmd) < old(
                dev,
            ).store().len() && cmd.prp1 == old(q).data_pa as u64) ==> final(dev).blocks == old(
                dev,
            ).blocks && final(q).data@ == old(q).data@
        }),
{
    let db = bar + NVME_REG_DBS + q.db_offset;
    let tail = q.sq_tail;
    let data_pa = q.data_pa;
    dev.sq_doorbell(db, tail, &q.sq, &mut q.cq, &mut q.data, data_pa);
    q.last_sq_tail = tail;
    proof {
        assert((0u16 & 1) == 0 && (1u16 & 1) == 1) by (bit_vector);
    }
}

/// Write the command into the submission ring at the tail, advance the tail
/// modulo the depth, and ring the SQ tail doorbell with the new tail. The
/// device consumes the command at once and posts its completion, so the
/// queue pair is left with exactly one pending completion.
pub fn send_command(dev: &mut NvmeDevice, q: &mut NvmeQueue, bar: usize, cmd: NvmeCommonCommand)
    requires
        old(dev).wf(),
        bar == old(dev).bar,
        old(dev).enabled,
        queue_role_ok(*old(dev), *old(q)),
        synced(qs_for(*old(dev), old(q).qid), *old(q)),
    ensures
        final(dev).wf(),
        final(q).wf(),
        pending_one(qs_for(*final(dev), old(q).qid), *final(q)),
        final(q).qid == old(q).qid,
        final(q).db_offset == old(q).db_offset,
        final(q).q_depth == old(q).q_depth,
        final(q).sq@ == old(q).sq@.update(old(q).sq_tail as int, cmd),
        final(q).sq_tail == next_index(old(q).sq_tail as int, old(q).q_depth as int),
        final(q).last_sq_tail == final(q).sq_tail,
        final(q).cq_head == old(q).cq_head,
        final(q).cq_phase == old(q).cq_phase,
        final(q).sq_pa == old(q).sq_pa,
        final(q).cq_pa == old(q).cq_pa,
        final(q).data_pa == old(q).data_pa,
        final(q).cq@ == old(q).cq@.update(
            old(q).cq_head as int,
            cqe_for(
                cmd,
                qs_for(*old(dev), old(q).qid),
                old(q).qid as u16,
                next_index(old(q).sq_tail as int, old(q).q_depth as int) as usize,
            ),
        ),
        final(dev).db_log@ == old(dev).db_log@.push(
            (DbWrite {
                addr: (bar + NVME_REG_DBS + old(q).db_offset) as usize,
                value: next_index(old(q).sq_tail as int, old(q).q_depth as int) as usize,
            }),
        ),
        final(dev).bar == old(dev).bar,
        final(dev).aqa == old(dev).aqa,
        final(dev).asq == old(dev).asq,
        final(dev).acq == old(dev).acq,
        final(dev).cc == old(dev).cc,
        final(dev).enabled == old(dev).enabled,
        final(dev).reg_log == old(dev).reg_log,
        final(dev).csts_log == old(dev).csts_log,
        final(dev).store().len() == old(dev).store().len(),
        old(q).qid == 0 ==> ({
            &&& final(dev).admin_qs == old(dev).admin_qs.advanced()
            &&& final(dev).admin_log@ == old(dev).admin_log@.push(admin_record_of(cmd))
            &&& final(dev).io_cq_created == (old(dev).io_cq_created || cmd.opcode
                == crate::defs::NVME_OP_ADMIN_CREATE_CQ)
            &&& final(dev).io_sq_created == (old(dev).io_sq_created || cmd.opcode
                == crate::defs::NVME_OP_ADMIN_CREATE_SQ)
            &&& final(dev).io_qs == if cmd.opcode == crate::defs::NVME_OP_ADMIN_CREATE_CQ {
                DevQueue::reset(((((cmd.cdw10 >> 16) & 0xffff) + 1) as usize))
            } else {
                old(dev).io_qs
            }
            &&& final(dev).blocks == old(dev).blocks
            &&& final(q).data@ == old(q).data@
        }),
        old(q).qid == 1 ==> ({
            &&& final(dev).io_qs == old(dev).io_qs.advanced()
            &&& final(dev).admin_qs == old(dev).admin_qs
            &&& final(dev).admin_log == old(dev).admin_log
            &&& final(dev).io_cq_created == old(dev).io_cq_created
            &&& final(dev).io_sq_created == old(dev).io_sq_created
            &&& (cmd.opcode == crate::defs::NVME_OP_IO_WRITE && crate::device::slba_of(cmd) < old(
                dev,
            ).store().len() && cmd.prp1 == old(q).data_pa as u64) ==> final(dev).store() == old(
                dev,
            ).store().update(
                crate::device::slba_of(cmd) as int,
                old(q).data@.subrange(0, crate::device::BLOCK_SIZE as int),
            ) && final(q).data@ == old(q).data@
            &&& (cmd.opcode == crate::defs::NVME_OP_IO_READ && crate::device::slba_of(cmd) < old(
                dev,
            ).store().len() && cmd.prp1 == old(q).data_pa as u64) ==> final(dev).blocks == old(
                dev,
            ).blocks && final(q).data@ == old(dev).store()[crate::device::slba_of(cmd) as int]
                + old(q).data@.skip(crate::device::BLOCK_SIZE as int)
            &&& !((cmd.opcode == crate::defs::NVME_OP_IO_WRITE || cmd.opcode
                == crate::defs::NVME_OP_IO_READ) && crate::device::slba_of(cmd) < old(
                dev,
            ).store().len() && cmd.prp1 == old(q).data_pa as u64) ==> final(dev).blocks == old(
                dev,
            ).blocks && final(q).data@ == old(q).data@
        }),
{
    let sq_tail = q.sq_tail;
    q.sq[sq_tail] = cmd;
    if q.sq_tail + 1 == q.q_depth {
        q.sq_tail = 0;
    } else {
        q.sq_tail = q.sq_tail + 1;
    }
    nvme_write_sq_db(dev, q, bar);
}

/// Consume the pending completion: check the phase bit at the CQ head,
/// advance the head (toggling the phase on wrap), and ring the CQ head
/// doorbell. Against the device model the completion is already posted when
/// this runs, so one check of the phase bit succeeds; on hardware the same
/// check repeats until the device's completion write becomes visible.
pub fn nvme_poll_cq(dev: &mut NvmeDevice, q: &mut NvmeQueue, bar: usize)
    requires
        old(dev).wf(),
        bar == old(dev).bar,
        queue_role_ok(*old(dev), *old(q)),
        pending_one(qs_for(*old(dev), old(q).qid), *old(q)),
    ensures
        final(dev).wf(),
        final(q).wf(),
        synced(qs_for(*final(dev), old(q).qid), *final(q)),
        final(q).qid == old(q).qid,
        final(q).db_offset == old(q).db_offset,
        final(q).q_depth == old(q).q_depth,
        final(q).sq == old(q).sq,
        final(q).cq == old(q).cq,
        final(q).data == old(q).data,
        final(q).sq_tail == old(q).sq_tail,
        final(q).last_sq_tail == old(q).last_sq_tail,
        final(q).cq_head == next_index(old(q).cq_head as int, old(q).q_depth as int),
        final(q).cq_phase == next_phase(
            old(q).cq_head as int,
            old(q).cq_phase as int,
            old(q).q_depth as int,
        ),
        final(q).sq_pa == old(q).sq_pa,
        final(q).cq_pa == old(q).cq_pa,
        final(q).data_pa == old(q).data_pa,
        final(dev).db_log@ == old(dev).db_log@.push(
            (DbWrite {
                addr: (bar + NVME_REG_DBS + old(q).db_offset + 4) as usize,
                value: next_index(old(q).cq_head as int, old(q).q_depth as int) as usize,
            }),
        ),
        old(q).qid == 0 ==> final(dev).admin_qs == (DevQueue {
            cq_head_db: next_index(old(q).cq_head as int, old(q).q_depth as int) as usize,
            ..old(dev).admin_qs
        }) && final(dev).io_qs == old(dev).io_qs,
        old(q).qid == 1 ==> final(dev).io_qs == (DevQueue {
            cq_head_db: next_index(old(q).cq_head as int, old(q).q_depth as int) as usize,
            ..old(dev).io_qs
        }) && final(dev).admin_qs == old(dev).admin_qs,
        final(dev).bar == old(dev).bar,
        final(dev).aqa == old(dev).aqa,
        final(dev).asq == old(dev).asq,
        final(dev).acq == old(dev).acq,
        final(dev).cc == old(dev).cc,
        final(dev).enabled == old(dev).enabled,
        final(dev).io_cq_created == old(dev).io_cq_created,
        final(dev).io_sq_created == old(dev).io_sq_created,
        final(dev).blocks == old(dev).blocks,
        final(dev).reg_log == old(dev).reg_log,
        final(dev).admin_log == old(dev).admin_log,
        final(dev).csts_log == old(dev).csts_log,
{
    let pending = nvme_cqe_pending(q);
    if pending {
        nvme_update_cq_head(q);
        nvme_ring_cq_doorbell(dev, q, bar);
    }
}

/// The CC value the enable handshake writes: enable, NVM command set, 4 KiB
/// memory pages, round-robin arbitration, no shutdown notification, 64-byte
/// SQ entries and 16-byte CQ entries.
pub const NVME_CC_CONFIG: u32 = crate::defs::NVME_CC_ENABLE | crate::defs::NVME_CC_CSS_NVM | (0
    << crate::defs::NVME_CC_MPS_SHIFT) | crate::defs::NVME_CC_ARB_RR | crate::defs::NVME_CC_SHN_NONE
    | crate::defs::NVME_CC_IOSQES | crate::defs::NVME_CC_IOCQES;

/// The AQA value for an admin queue pair of the given depth: the SQ depth
/// minus one in the low half, the CQ depth minus one in the high half.
pub open spec fn aqa_for(depth: usize) -> u32 {
    ((depth - 1) as u32) | (((depth - 1) as u32) << 16)
}

/// The set-features admin command requesting the queue count: opcode 0x09,
/// command id 2, feature id 0x7 in dword 10.
pub open spec fn set_queue_count_record() -> AdminRecord {
    AdminRecord { opcode: 0x09, command_id: 2, prp1: 0, cdw10: 0x7, cdw11: 0 }
}

/// The create-CQ admin command for I/O queue 1: opcode 0x05, command id 3,
/// PRP1 the completion ring's physical address, dword 10 packing cqid 1 and
/// the queue size minus one, dword 11 the PHYS_CONTIG and IRQ_ENABLED flags.
pub open spec fn create_cq_record(cq_pa: usize, q_depth: usize) -> AdminRecord {
    AdminRecord {
        opcode: 0x05,
        command_id: 3,
        prp1: cq_pa as u64,
        cdw10: (1u16 as u32) | ((((q_depth - 1) as u16) as u32) << 16),
        cdw11: (((crate::defs::NVME_QUEUE_PHYS_CONTIG | crate::defs::NVME_CQ_IRQ_ENABLED) as u32)
            | ((0u16 as u32) << 16)),
    }
}

/// The create-SQ admin command for I/O queue 1: opcode 0x01, command id 4,
/// PRP1 the submission ring's physical address, dword 10 packing sqid 1 and
/// the queue size minus one, dword 11 packing the PHYS_CONTIG flag and the
/// bound cqid 1.
pub open spec fn create_sq_record(sq_pa: usize, q_depth: usize) -> AdminRecord {
    AdminRecord {
        opcode: 0x01,
        command_id: 4,
        prp1: sq_pa as u64,
        cdw10: (1u16 as u32) | ((((q_depth - 1) as u16) as u32) << 16),
        cdw11: ((1u16 as u32) | ((1u16 as u32) << 16)),
    }
}

/// The read or write command the datapath submits for one block: nsid 1,
/// PRP1 naming the DMA region the data moves through, PRP2 zero (a single
/// block fits one page), the block id as the starting LBA, length zero (one
/// 512-byte block).
pub open spec fn rw_cmd_for(
    opcode: u8,
    block_id: usize,
    prp1: u64,
    cid: u16,
    control: u16,
    dsmgmt: u32,
) -> NvmeRWCommand {
    NvmeRWCommand {
        opcode,
        flags: 0,
        command_id: cid,
        nsid: 1,
        rsvd2: 0,
        metadata: 0,
        prp1,
        prp2: 0,
        slba: block_id as u64,
        length: 0,
        control,
        dsmgmt,
        reftag: 0,
        apptag: 0,
        appmask: 0,
    }
}

fn copy_in_slice(data: &mut Vec<u8>, buf: &[u8])
    requires
        old(data)@.len() >= crate::device::BLOCK_SIZE,
        buf@.len() == crate::device::BLOCK_SIZE,
    ensures
        final(data)@ == buf@ + old(data)@.skip(crate::device::BLOCK_SIZE as int),
{
    let mut i: usize = 0;
    while i < crate::device::BLOCK_SIZE
        invariant
            i <= crate::device::BLOCK_SIZE,
            buf@.len() == crate::device::BLOCK_SIZE,
            data@.len() == old(data)@.len() >= crate::device::BLOCK_SIZE,
            forall|j: int| 0 <= j < i ==> data@[j] == buf@[j],
            forall|j: int| i <= j < data@.len() ==> data@[j] == old(data)@[j],
        decreases crate::device::BLOCK_SIZE - i,
    {
        let b = buf[i];
        data[i] = b;
        i = i + 1;
    }
    proof {
        assert(data@ =~= buf@ + old(data)@.skip(crate::device::BLOCK_SIZE as int));
    }
}

fn copy_out_block(buf: &mut Vec<u8>, data: &Vec<u8>)
    requires
        old(buf)@.len() == crate::device::BLOCK_SIZE,
        data@.len() >= crate::device::BLOCK_SIZE,
    ensures
        final(buf)@ == data@.subrange(0, crate::device::BLOCK_SIZE as int),
{
    let mut i: usize = 0;
    while i < crate::device::BLOCK_SIZE
        invariant
            i <= crate::device::BLOCK_SIZE,
            data@.len() >= crate::device::BLOCK_SIZE,
            buf@.len() == old(buf)@.len() == crate::device::BLOCK_SIZE,
            forall|j: int| 0 <= j < i ==> buf@[j] == data@[j],
        decreases crate::device::BLOCK_SIZE - i,
    {
        let b = data[i];
        buf[i] = b;
        i = i + 1;
    }
    proof {
        assert(buf@ =~= data@.subrange(0, crate::device::BLOCK_SIZE as int));
    }
}

/// The controller engine: owns the admin queue pair, I/O queue pair 1, and
/// the modelled device they drive.
pub struct NvmeInterface {
    pub bar: usize,
    pub admin_queue: NvmeQueue,
    pub io_queue: NvmeQueue,
    pub device: NvmeDevice,
    pub irq: usize,
}

impl NvmeInterface {
    /// The admin queue pair is configured, the controller enabled, and no
    /// admin command is outstanding.
    pub open spec fn admin_ok(self) -> bool {
        &&& self.device.wf()
        &&& self.device.bar == self.bar
        &&& self.device.enabled
        &&& self.admin_queue.qid == 0
        &&& self.admin_queue.db_offset == 0
        &&& synced(self.device.admin_qs, self.admin_queue)
    }

    /// I/O queue pair 1 exists on the device and no I/O command is
    /// outstanding.
    pub open spec fn io_ok(self) -> bool {
        &&& self.device.io_cq_created
        &&& self.device.io_sq_created
        &&& self.io_queue.qid == 1
        &&& self.io_queue.db_offset == 8
        &&& synced(self.device.io_qs, self.io_queue)
    }

    /// I/O queue pair 1 has exactly one posted, unconsumed completion.
    pub open spec fn io_pending(self) -> bool {
        &&& self.device.io_cq_created
        &&& self.device.io_sq_created
        &&& self.io_queue.qid == 1
        &&& self.io_queue.db_offset == 8
        &&& pending_one(self.device.io_qs, self.io_queue)
    }

    /// Ready to serve block I/O.
    pub open spec fn wf(self) -> bool {
        self.admin_ok() && self.io_ok()
    }

    /// The namespace contents, block by block.
    pub open spec fn store(self) -> Seq<Seq<u8>> {
        self.device.store()
    }

    /// The number of blocks in the namespace.
    pub open spec fn num_blocks(self) -> nat {
        self.device.store().len()
    }

    /// Allocate and initialize both queue pairs, then bring the controller
    /// up: enable handshake followed by I/O queue creation. `device` is the
    /// controller at `bar` as the host first sees it, nothing yet recorded.
    pub fn new<D: DmaAllocator>(dma: &mut D, bar: usize, device: NvmeDevice) -> (r: NvmeInterface)
        requires
            device.wf(),
            device.bar == bar,
            device.reg_log@ == Seq::<RegWrite>::empty(),
            device.db_log@ == Seq::<DbWrite>::empty(),
            device.admin_log@ == Seq::<AdminRecord>::empty(),
            device.csts_log@ == Seq::<u32>::empty(),
            old(dma).spec_alloc_base() + crate::queue::queue_dma_bytes(NVME_ADMIN_QUEUE_DEPTH)
                + crate::queue::queue_dma_bytes(NVME_QUEUE_DEPTH) <= usize::MAX,
        ensures
            r.wf(),
            r.bar == bar,
            r.irq == 33,
            r.admin_queue.data_pa == old(dma).spec_alloc_base(),
            r.admin_queue.sq_pa == old(dma).spec_alloc_base() + 4 * crate::queue::PAGE_SIZE,
            r.admin_queue.cq_pa == old(dma).spec_alloc_base() + 4 * crate::queue::PAGE_SIZE
                + NVME_ADMIN_QUEUE_DEPTH * 64,
            r.io_queue.data_pa == old(dma).spec_alloc_base() + crate::queue::queue_dma_bytes(
                NVME_ADMIN_QUEUE_DEPTH,
            ),
            r.io_queue.sq_pa == old(dma).spec_alloc_base() + crate::queue::queue_dma_bytes(
                NVME_ADMIN_QUEUE_DEPTH,
            ) + 4 * crate::queue::PAGE_SIZE,
            r.io_queue.cq_pa == old(dma).spec_alloc_base() + crate::queue::queue_dma_bytes(
                NVME_ADMIN_QUEUE_DEPTH,
            ) + 4 * crate::queue::PAGE_SIZE + NVME_QUEUE_DEPTH * 64,
            r.store() == device.store(),
            r.num_blocks() == device.store().len(),
            r.admin_queue.q_depth == NVME_ADMIN_QUEUE_DEPTH,
            r.io_queue.q_depth == NVME_QUEUE_DEPTH,
            r.io_queue.sq_tail == 0,
            r.io_queue.cq_head == 0,
            r.io_queue.cq_phase == 1,
            r.device.aqa == aqa_for(NVME_ADMIN_QUEUE_DEPTH),
            r.device.asq == r.admin_queue.sq_pa as u64,
            r.device.acq == r.admin_queue.cq_pa as u64,
            r.device.cc == NVME_CC_CONFIG,
            r.device.reg_log@ == seq![
                (RegWrite {
                    addr: (bar + crate::defs::NVME_REG_AQA) as usize,
                    value: aqa_for(NVME_ADMIN_QUEUE_DEPTH) as u64,
                }),
                (RegWrite {
                    addr: (bar + crate::defs::NVME_REG_ASQ) as usize,
                    value: r.admin_queue.sq_pa as u64,
                }),
                (RegWrite {
                    addr: (bar + crate::defs::NVME_REG_ACQ) as usize,
                    value: r.admin_queue.cq_pa as u64,
                }),
                (RegWrite {
                    addr: (bar + crate::defs::NVME_REG_CC) as usize,
                    value: NVME_CC_CONFIG as u64,
                }),
            ],
            r.device.admin_log@ == seq![
                set_queue_count_record(),
                create_cq_record(r.io_queue.cq_pa, r.io_queue.q_depth),
                create_sq_record(r.io_queue.sq_pa, r.io_queue.q_depth),
            ],
            r.device.csts_log@ == Seq::<u32>::empty().push(crate::defs::NVME_CSTS_RDY),
            r.device.blocks == device.blocks,
    {
        let admin_queue = NvmeQueue::new(dma, 0, 0, NVME_ADMIN_QUEUE_DEPTH);
        let io_queue = NvmeQueue::new(dma, 1, 0x8, NVME_QUEUE_DEPTH);
        let mut interface = NvmeInterface { bar, admin_queue, io_queue, device, irq: 33 };
        interface.init();
        interface
    }

    /// Configure the admin queue and create the I/O queue pair.
    pub fn init(&mut self)
        requires
            old(self).device.wf(),
            old(self).device.bar == old(self).bar,
            old(self).admin_queue.wf(),
            old(self).admin_queue.fresh(),
            old(self).admin_queue.qid == 0,
            old(self).admin_queue.db_offset == 0,
            old(self).io_queue.wf(),
            old(self).io_queue.fresh(),
            old(self).io_queue.qid == 1,
            old(self).io_queue.db_offset == 8,
        ensures
            final(self).wf(),
            final(self).bar == old(self).bar,
            final(self).irq == old(self).irq,
            final(self).io_queue == old(self).io_queue,
            final(self).admin_queue.q_depth == old(self).admin_queue.q_depth,
            final(self).admin_queue.sq_pa == old(self).admin_queue.sq_pa,
            final(self).admin_queue.cq_pa == old(self).admin_queue.cq_pa,
            final(self).admin_queue.data_pa == old(self).admin_queue.data_pa,
            final(self).device.aqa == aqa_for(old(self).admin_queue.q_depth),
            final(self).device.asq == old(self).admin_queue.sq_pa as u64,
            final(self).device.acq == old(self).admin_queue.cq_pa as u64,
            final(self).device.cc == NVME_CC_CONFIG,
            final(self).device.reg_log@ == old(self).device.reg_log@ + seq![
                (RegWrite {
                    addr: (old(self).bar + crate::defs::NVME_REG_AQA) as usize,
                    value: aqa_for(old(self).admin_queue.q_depth) as u64,
                }),
                (RegWrite {
                    addr: (old(self).bar + crate::defs::NVME_REG_ASQ) as usize,
                    value: old(self).admin_queue.sq_pa as u64,
                }),
                (RegWrite {
                    addr: (old(self).bar + crate::defs::NVME_REG_ACQ) as usize,
                    value: old(self).admin_queue.cq_pa as u64,
                }),
                (RegWrite {
                    addr: (old(self).bar + crate::defs::NVME_REG_CC) as usize,
                    value: NVME_CC_CONFIG as u64,
                }),
            ],
            final(self).device.admin_log@ == old(self).device.admin_log@ + seq![
                set_queue_count_record(),
                create_cq_record(old(self).io_queue.cq_pa, old(self).io_queue.q_depth),
                create_sq_record(old(self).io_queue.sq_pa, old(self).io_queue.q_depth),
            ],
            final(self).device.csts_log@ == old(self).device.csts_log@.push(
                crate::defs::NVME_CSTS_RDY,
            ),
            final(self).device.blocks == old(self).device.blocks,
    {
        self.nvme_configure_admin_queue();
        self.nvme_alloc_io_queue();
        proof {
            assert(self.device.admin_log@ =~= old(self).device.admin_log@ + seq![
                set_queue_count_record(),
                create_cq_record(old(self).io_queue.cq_pa, old(self).io_queue.q_depth),
                create_sq_record(old(self).io_queue.sq_pa, old(self).io_queue.q_depth),
            ]);
        }
    }

    /// The controller enable handshake, in the mandated order: AQA gets both
    /// admin depths minus one, ASQ and ACQ the admin ring base addresses
    /// (full 64 bits), then CC is written last with the enable bit, and CSTS
    /// is observed non-zero before the function returns. No block I/O is
    /// accepted before that observation: every datapath entry requires the
    /// state this function establishes.
    pub fn nvme_configure_admin_queue(&mut self)
        requires
            old(self).device.wf(),
            old(self).device.bar == old(self).bar,
            old(self).admin_queue.wf(),
            old(self).admin_queue.fresh(),
            old(self).admin_queue.qid == 0,
            old(self).admin_queue.db_offset == 0,
        ensures
            final(self).admin_ok(),
            final(self).admin_queue == old(self).admin_queue,
            final(self).io_queue == old(self).io_queue,
            final(self).bar == old(self).bar,
            final(self).irq == old(self).irq,
            final(self).device.aqa == aqa_for(old(self).admin_queue.q_depth),
            final(self).device.asq == old(self).admin_queue.sq_pa as u64,
            final(self).device.acq == old(self).admin_queue.cq_pa as u64,
            final(self).device.cc == NVME_CC_CONFIG,
            final(self).device.admin_qs == DevQueue::reset(old(self).admin_queue.q_depth),
            final(self).device.reg_log@ == old(self).device.reg_log@ + seq![
                (RegWrite {
                    addr: (old(self).bar + crate::defs::NVME_REG_AQA) as usize,
                    value: aqa_for(old(self).admin_queue.q_depth) as u64,
                }),
                (RegWrite {
                    addr: (old(self).bar + crate::defs::NVME_REG_ASQ) as usize,
                    value: old(self).admin_queue.sq_pa as u64,
                }),
                (RegWrite {
                    addr: (old(self).bar + crate::defs::NVME_REG_ACQ) as usize,
                    value: old(self).admin_queue.cq_pa as u64,
                }),
                (RegWrite {
                    addr: (old(self).bar + crate::defs::NVME_REG_CC) as usize,
                    value: NVME_CC_CONFIG as u64,
                }),
            ],
            final(self).device.db_log == old(self).device.db_log,
            final(self).device.admin_log == old(self).device.admin_log,
            final(self).device.blocks == old(self).device.blocks,
            final(self).device.io_cq_created == old(self).device.io_cq_created,
            final(self).device.io_sq_created == old(self).device.io_sq_created,
            final(self).device.io_qs == old(self).device.io_qs,
            final(self).device.csts_log@ == old(self).device.csts_log@.push(
                crate::defs::NVME_CSTS_RDY,
            ),
    {
        let bar = self.bar;
        let sq_dma_pa = self.admin_queue.sq_pa;
        let cq_dma_pa = self.admin_queue.cq_pa;

        // both halves of AQA carry the admin ring depth minus one
        let depth_m1 = (self.admin_queue.q_depth - 1) as u32;
        let aqa = depth_m1 | (depth_m1 << 16);
        self.device.write_reg32(bar + crate::defs::NVME_REG_AQA, aqa);

        self.device.write_reg64(bar + crate::defs::NVME_REG_ASQ, sq_dma_pa as u64);
        self.device.write_reg64(bar + crate::defs::NVME_REG_ACQ, cq_dma_pa as u64);

        let ctrl_config = crate::defs::NVME_CC_ENABLE | crate::defs::NVME_CC_CSS_NVM | (0
            << crate::defs::NVME_CC_MPS_SHIFT) | crate::defs::NVME_CC_ARB_RR
            | crate::defs::NVME_CC_SHN_NONE | crate::defs::NVME_CC_IOSQES
            | crate::defs::NVME_CC_IOCQES;
        proof {
            assert(ctrl_config == (1u32 << 0) | (0u32 << 4) | (0u32 << 7) | (0u32 << 11) | (0u32
                << 14) | (6u32 << 16) | (4u32 << 20));
            assert(ctrl_config == (1u32 << 0) | (0u32 << 4) | (0u32 << 7) | (0u32 << 11) | (0u32
                << 14) | (6u32 << 16) | (4u32 << 20) ==> (ctrl_config & (1u32 << 0)) != 0)
                by (bit_vector);
            assert((1u32 << 0) != 0) by (bit_vector);
            let d = (old(self).admin_queue.q_depth - 1) as u32;
            assert(d <= 0xffff ==> ((d | (d << 16)) & 0xffff) == d) by (bit_vector);
        }
        self.device.write_reg32(bar + crate::defs::NVME_REG_CC, ctrl_config);

        // the model raises RDY together with the enable write, so a single
        // status read observes the controller ready; hardware needs the read
        // repeated until RDY appears
        let dev_status = self.device.read_reg32(bar + crate::defs::NVME_REG_CSTS);
        proof {
            assert(((1u32 << 0) & (1u32 << 0)) != 0) by (bit_vector);
        }
        assert(dev_status & crate::defs::NVME_CSTS_RDY != 0);
        proof {
            assert(self.device.reg_log@ =~= old(self).device.reg_log@ + seq![
                (RegWrite {
                    addr: (old(self).bar + crate::defs::NVME_REG_AQA) as usize,
                    value: aqa_for(old(self).admin_queue.q_depth) as u64,
                }),
                (RegWrite {
                    addr: (old(self).bar + crate::defs::NVME_REG_ASQ) as usize,
                    value: old(self).admin_queue.sq_pa as u64,
                }),
                (RegWrite {
                    addr: (old(self).bar + crate::defs::NVME_REG_ACQ) as usize,
                    value: old(self).admin_queue.cq_pa as u64,
                }),
                (RegWrite {
                    addr: (old(self).bar + crate::defs::NVME_REG_CC) as usize,
                    value: NVME_CC_CONFIG as u64,
                }),
            ]);
        }
    }

    /// Submit one admin command and consume its completion before returning.
    pub fn submit_sync_command(&mut self, cmd: NvmeCommonCommand)
        requires
            old(self).admin_ok(),
        ensures
            final(self).admin_ok(),
            final(self).bar == old(self).bar,
            final(self).irq == old(self).irq,
            final(self).io_queue == old(self).io_queue,
            final(self).admin_queue.q_depth == old(self).admin_queue.q_depth,
            final(self).admin_queue.sq_pa == old(self).admin_queue.sq_pa,
            final(self).admin_queue.cq_pa == old(self).admin_queue.cq_pa,
            final(self).admin_queue.data_pa == old(self).admin_queue.data_pa,
            final(self).admin_queue.sq@ == old(self).admin_queue.sq@.update(
                old(self).admin_queue.sq_tail as int,
                cmd,
            ),
            final(self).admin_queue.sq_tail == next_index(
                old(self).admin_queue.sq_tail as int,
                old(self).admin_queue.q_depth as int,
            ),
            final(self).admin_queue.last_sq_tail == final(self).admin_queue.sq_tail,
            final(self).admin_queue.cq_head == next_index(
                old(self).admin_queue.cq_head as int,
                old(self).admin_queue.q_depth as int,
            ),
            final(self).admin_queue.cq_phase == next_phase(
                old(self).admin_queue.cq_head as int,
                old(self).admin_queue.cq_phase as int,
                old(self).admin_queue.q_depth as int,
            ),
            final(self).device.admin_log@ == old(self).device.admin_log@.push(
                admin_record_of(cmd),
            ),
            final(self).device.reg_log == old(self).device.reg_log,
            final(self).device.csts_log == old(self).device.csts_log,
            final(self).device.db_log@ == old(self).device.db_log@ + seq![
                (DbWrite {
                    addr: (old(self).bar + NVME_REG_DBS) as usize,
                    value: next_index(
                        old(self).admin_queue.sq_tail as int,
                        old(self).admin_queue.q_depth as int,
                    ) as usize,
                }),
                (DbWrite {
                    addr: (old(self).bar + NVME_REG_DBS + 4) as usize,
                    value: next_index(
                        old(self).admin_queue.cq_head as int,
                        old(self).admin_queue.q_depth as int,
                    ) as usize,
                }),
            ],
            final(self).device.io_cq_created == (old(self).device.io_cq_created || cmd.opcode
                == crate::defs::NVME_OP_ADMIN_CREATE_CQ),
            final(self).device.io_sq_created == (old(self).device.io_sq_created || cmd.opcode
                == crate::defs::NVME_OP_ADMIN_CREATE_SQ),
            final(self).device.io_qs == if cmd.opcode == crate::defs::NVME_OP_ADMIN_CREATE_CQ {
                DevQueue::reset(((((cmd.cdw10 >> 16) & 0xffff) + 1) as usize))
            } else {
                old(self).device.io_qs
            },
            final(self).device.blocks == old(self).device.blocks,
            final(self).device.aqa == old(self).device.aqa,
            final(self).device.asq == old(self).device.asq,
            final(self).device.acq == old(self).device.acq,
            final(self).device.cc == old(self).device.cc,
            final(self).device.enabled == old(self).device.enabled,
    {
        send_command(&mut self.device, &mut self.admin_queue, self.bar, cmd);
        nvme_poll_cq(&mut self.device, &mut self.admin_queue, self.bar);
        proof {
            assert(self.device.db_log@ =~= old(self).device.db_log@ + seq![
                (DbWrite {
                    addr: (old(self).bar + NVME_REG_DBS) as usize,
                    value: next_index(
                        old(self).admin_queue.sq_tail as int,
                        old(self).admin_queue.q_depth as int,
                    ) as usize,
                }),
                (DbWrite {
                    addr: (old(self).bar + NVME_REG_DBS + 4) as usize,
                    value: next_index(
                        old(self).admin_queue.cq_head as int,
                        old(self).admin_queue.q_depth as int,
                    ) as usize,
                }),
            ]);
        }
    }

    /// Create I/O queue pair 1 by admin commands, in the mandated order:
    /// set-features requesting the queue count, create-CQ with the ring's
    /// physical address and size, then create-SQ bound to that CQ.
    pub fn nvme_alloc_io_queue(&mut self)
        requires
            old(self).admin_ok(),
            old(self).io_queue.wf(),
            old(self).io_queue.fresh(),
            old(self).io_queue.qid == 1,
            old(self).io_queue.db_offset == 8,
        ensures
            final(self).wf(),
            final(self).bar == old(self).bar,
            final(self).irq == old(self).irq,
            final(self).io_queue == old(self).io_queue,
            final(self).admin_queue.q_depth == old(self).admin_queue.q_depth,
            final(self).admin_queue.sq_pa == old(self).admin_queue.sq_pa,
            final(self).admin_queue.cq_pa == old(self).admin_queue.cq_pa,
            final(self).admin_queue.data_pa == old(self).admin_queue.data_pa,
            final(self).device.admin_log@ == old(self).device.admin_log@ + seq![
                set_queue_count_record(),
                create_cq_record(old(self).io_queue.cq_pa, old(self).io_queue.q_depth),
                create_sq_record(old(self).io_queue.sq_pa, old(self).io_queue.q_depth),
            ],
            final(self).device.reg_log == old(self).device.reg_log,
            final(self).device.csts_log == old(self).device.csts_log,
            final(self).device.db_log@.len() == old(self).device.db_log@.len() + 6,
            final(self).device.io_qs == DevQueue::reset(old(self).io_queue.q_depth),
            final(self).device.blocks == old(self).device.blocks,
            final(self).device.aqa == old(self).device.aqa,
            final(self).device.asq == old(self).device.asq,
            final(self).device.acq == old(self).device.acq,
            final(self).device.cc == old(self).device.cc,
    {
        let cq_pa = self.io_queue.cq_pa;
        let sq_pa = self.io_queue.sq_pa;
        let qsize = (self.io_queue.q_depth - 1) as u16;

        // request (NSQ, NCQ) = (7, 7) via the queue-count feature
        let mut cmd = NvmeCommonCommand::new();
        cmd.opcode = 0x09;
        cmd.command_id = 0x2;
        cmd.nsid = 0;
        cmd.cdw10 = 0x7;
        self.submit_sync_command(cmd);

        // create the I/O completion queue
        let mut ccq = crate::defs::NvmeCreateCq::new();
        ccq.opcode = 0x05;
        ccq.command_id = 0x3;
        ccq.nsid = 0;
        ccq.prp1 = cq_pa as u64;
        ccq.cqid = 1;
        ccq.qsize = qsize;
        ccq.cq_flags = crate::defs::NVME_QUEUE_PHYS_CONTIG | crate::defs::NVME_CQ_IRQ_ENABLED;
        let common_cmd = ccq.into_common();
        proof {
            let s = qsize;
            assert(((((1u32) | ((s as u32) << 16)) >> 16) & 0xffff) == s as u32) by (bit_vector);
        }
        self.submit_sync_command(common_cmd);

        // create the I/O submission queue, bound to CQ 1
        let mut csq = crate::defs::NvmeCreateSq::new();
        csq.opcode = 0x01;
        csq.command_id = 0x4;
        csq.nsid = 0;
        csq.prp1 = sq_pa as u64;
        csq.sqid = 1;
        csq.qsize = qsize;
        csq.sq_flags = 0x1;
        csq.cqid = 0x1;
        let common_cmd = csq.into_common();
        self.submit_sync_command(common_cmd);

        proof {
            assert(self.device.admin_log@ =~= old(self).device.admin_log@ + seq![
                set_queue_count_record(),
                create_cq_record(old(self).io_queue.cq_pa, old(self).io_queue.q_depth),
                create_sq_record(old(self).io_queue.sq_pa, old(self).io_queue.q_depth),
            ]);
        }
    }

    /// Write one 512-byte block: move the payload into the queue's DMA
    /// scratch region (the page PRP1 names), submit a write command for
    /// `block_id` on I/O queue 1, and poll its completion. On return the
    /// namespace holds the payload at `block_id` and nothing else changed.
    pub fn write_block(&mut self, block_id: usize, write_buf: &[u8])
        requires
            old(self).wf(),
            write_buf@.len() == crate::device::BLOCK_SIZE,
            block_id < old(self).num_blocks(),
        ensures
            final(self).wf(),
            final(self).store() == old(self).store().update(block_id as int, write_buf@),
            final(self).num_blocks() == old(self).num_blocks(),
            final(self).bar == old(self).bar,
            final(self).irq == old(self).irq,
            final(self).admin_queue == old(self).admin_queue,
            final(self).device.reg_log == old(self).device.reg_log,
            final(self).device.admin_log == old(self).device.admin_log,
            final(self).device.csts_log == old(self).device.csts_log,
            final(self).io_queue.q_depth == old(self).io_queue.q_depth,
            final(self).io_queue.sq_tail == next_index(
                old(self).io_queue.sq_tail as int,
                old(self).io_queue.q_depth as int,
            ),
            final(self).io_queue.cq_head == next_index(
                old(self).io_queue.cq_head as int,
                old(self).io_queue.q_depth as int,
            ),
            final(self).io_queue.cq_phase == next_phase(
                old(self).io_queue.cq_head as int,
                old(self).io_queue.cq_phase as int,
                old(self).io_queue.q_depth as int,
            ),
            final(self).io_queue.sq@.len() == old(self).io_queue.sq@.len(),
            forall|j: int|
                0 <= j < old(self).io_queue.sq@.len() && j != old(self).io_queue.sq_tail
                    ==> #[trigger] final(self).io_queue.sq@[j] == old(self).io_queue.sq@[j],
            common_cmd_bytes(final(self).io_queue.sq@[old(self).io_queue.sq_tail as int])
                == rw_cmd_bytes(
                rw_cmd_for(0x01, block_id, old(self).io_queue.data_pa as u64, 100, 0, 0),
            ),
            final(self).device.db_log@ == old(self).device.db_log@ + seq![
                (DbWrite {
                    addr: (old(self).bar + NVME_REG_DBS + 8) as usize,
                    value: next_index(
                        old(self).io_queue.sq_tail as int,
                        old(self).io_queue.q_depth as int,
                    ) as usize,
                }),
                (DbWrite {
                    addr: (old(self).bar + NVME_REG_DBS + 8 + 4) as usize,
                    value: next_index(
                        old(self).io_queue.cq_head as int,
                        old(self).io_queue.q_depth as int,
                    ) as usize,
                }),
            ],
    {
        copy_in_slice(&mut self.io_queue.data, write_buf);

        let mut cmd = crate::defs::NvmeRWCommand::new_write_command();
        cmd.nsid = 1;
        cmd.prp1 = self.io_queue.data_pa as u64;
        cmd.length = 0;
        cmd.command_id = 100;
        cmd.slba = block_id as u64;
        cmd.control = 0;
        cmd.dsmgmt = 0;
        let common_cmd = cmd.into_common();
        proof {
            crate::defs::lemma_u64_split_join(block_id as u64);
        }

        send_command(&mut self.device, &mut self.io_queue, self.bar, common_cmd);
        nvme_poll_cq(&mut self.device, &mut self.io_queue, self.bar);

        proof {
            assert(old(self).io_queue.data@.len() >= crate::device::BLOCK_SIZE);
            assert((write_buf@ + old(self).io_queue.data@.skip(
                crate::device::BLOCK_SIZE as int,
            )).subrange(0, crate::device::BLOCK_SIZE as int) =~= write_buf@);
            assert(self.store() =~= old(self).store().update(block_id as int, write_buf@));
            crate::defs::lemma_rw_to_common_layout(
                rw_cmd_for(0x01, block_id, old(self).io_queue.data_pa as u64, 100, 0, 0),
                common_cmd,
            );
            assert(self.device.db_log@ =~= old(self).device.db_log@ + seq![
                (DbWrite {
                    addr: (old(self).bar + NVME_REG_DBS + 8) as usize,
                    value: next_index(
                        old(self).io_queue.sq_tail as int,
                        old(self).io_queue.q_depth as int,
                    ) as usize,
                }),
                (DbWrite {
                    addr: (old(self).bar + NVME_REG_DBS + 8 + 4) as usize,
                    value: next_index(
                        old(self).io_queue.cq_head as int,
                        old(self).io_queue.q_depth as int,
                    ) as usize,
                }),
            ]);
        }
    }

    /// Read one 512-byte block: submit a read command for `block_id` on I/O
    /// queue 1, poll its completion, and copy the block out of the queue's
    /// DMA scratch region (the page PRP1 names) into the caller's buffer. On
    /// return the buffer holds the namespace content at `block_id` and the
    /// store is unchanged.
    pub fn read_block(&mut self, block_id: usize, read_buf: &mut Vec<u8>)
        requires
            old(self).wf(),
            old(read_buf)@.len() == crate::device::BLOCK_SIZE,
            block_id < old(self).num_blocks(),
        ensures
            final(self).wf(),
            final(read_buf)@ == old(self).store()[block_id as int],
            final(self).store() == old(self).store(),
            final(self).num_blocks() == old(self).num_blocks(),
            final(self).bar == old(self).bar,
            final(self).irq == old(self).irq,
            final(self).admin_queue == old(self).admin_queue,
            final(self).device.reg_log == old(self).device.reg_log,
            final(self).device.admin_log == old(self).device.admin_log,
            final(self).device.csts_log == old(self).device.csts_log,
            final(self).io_queue.q_depth == old(self).io_queue.q_depth,
            final(self).io_queue.sq_tail == next_index(
                old(self).io_queue.sq_tail as int,
                old(self).io_queue.q_depth as int,
            ),
            final(self).io_queue.cq_head == next_index(
                old(self).io_queue.cq_head as int,
                old(self).io_queue.q_depth as int,
            ),
            final(self).io_queue.cq_phase == next_phase(
                old(self).io_queue.cq_head as int,
                old(self).io_queue.cq_phase as int,
                old(self).io_queue.q_depth as int,
            ),
            final(self).io_queue.sq@.len() == old(self).io_queue.sq@.len(),
            forall|j: int|
                0 <= j < old(self).io_queue.sq@.len() && j != old(self).io_queue.sq_tail
                    ==> #[trigger] final(self).io_queue.sq@[j] == old(self).io_queue.sq@[j],
            common_cmd_bytes(final(self).io_queue.sq@[old(self).io_queue.sq_tail as int])
                == rw_cmd_bytes(
                rw_cmd_for(0x02, block_id, old(self).io_queue.data_pa as u64, 101, 0x8000, 0x7),
            ),
            final(self).device.db_log@ == old(self).device.db_log@ + seq![
                (DbWrite {
                    addr: (old(self).bar + NVME_REG_DBS + 8) as usize,
                    value: next_index(
                        old(self).io_queue.sq_tail as int,
                        old(self).io_queue.q_depth as int,
                    ) as usize,
                }),
                (DbWrite {
                    addr: (old(self).bar + NVME_REG_DBS + 8 + 4) as usize,
                    value: next_index(
                        old(self).io_queue.cq_head as int,
                        old(self).io_queue.q_depth as int,
                    ) as usize,
                }),
            ],
    {
        let mut cmd = crate::defs::NvmeRWCommand::new_read_command();
        cmd.nsid = 1;
        cmd.prp1 = self.io_queue.data_pa as u64;
        cmd.command_id = 101;
        cmd.length = 0;
        cmd.control = 0x8000;
        cmd.dsmgmt = 0x7;
        cmd.slba = block_id as u64;
        let common_cmd = cmd.into_common();
        proof {
            crate::defs::lemma_u64_split_join(block_id as u64);
        }

        send_command(&mut self.device, &mut self.io_queue, self.bar, common_cmd);
        nvme_poll_cq(&mut self.device, &mut self.io_queue, self.bar);

        copy_out_block(read_buf, &self.io_queue.data);
        proof {
            assert(old(self).store()[block_id as int].len() == crate::device::BLOCK_SIZE);
            assert(read_buf@ =~= old(self).store()[block_id as int]);
            crate::defs::lemma_rw_to_common_layout(
                rw_cmd_for(0x02, block_id, old(self).io_queue.data_pa as u64, 101, 0x8000, 0x7),
                common_cmd,
            );
            assert(self.device.db_log@ =~= old(self).device.db_log@ + seq![
                (DbWrite {
                    addr: (old(self).bar + NVME_REG_DBS + 8) as usize,
                    value: next_index(
                        old(self).io_queue.sq_tail as int,
                        old(self).io_queue.q_depth as int,
                    ) as usize,
                }),
                (DbWrite {
                    addr: (old(self).bar + NVME_REG_DBS + 8 + 4) as usize,
                    value: next_index(
                        old(self).io_queue.cq_head as int,
                        old(self).io_queue.q_depth as int,
                    ) as usize,
                }),
            ]);
        }
    }

    /// Submit a write for `block_id` with command id `cid` without polling:
    /// the completion stays pending until `handle_irq` (or a poll) consumes
    /// it. Returns `cid`.
    pub fn send_write_command(&mut self, block_id: usize, write_buf: &[u8], cid: usize) -> (r:
        usize)
        requires
            old(self).wf(),
            write_buf@.len() == crate::device::BLOCK_SIZE,
            block_id < old(self).num_blocks(),
            cid <= 0xffff,
        ensures
            r == cid,
            final(self).admin_ok(),
            final(self).io_pending(),
            final(self).store() == old(self).store().update(block_id as int, write_buf@),
            final(self).num_blocks() == old(self).num_blocks(),
            final(self).bar == old(self).bar,
            final(self).admin_queue == old(self).admin_queue,
            final(self).device.reg_log == old(self).device.reg_log,
            final(self).device.admin_log == old(self).device.admin_log,
            final(self).device.csts_log == old(self).device.csts_log,
            final(self).io_queue.q_depth == old(self).io_queue.q_depth,
            final(self).io_queue.sq_tail == next_index(
                old(self).io_queue.sq_tail as int,
                old(self).io_queue.q_depth as int,
            ),
            final(self).io_queue.last_sq_tail == final(self).io_queue.sq_tail,
            final(self).io_queue.cq_head == old(self).io_queue.cq_head,
            final(self).io_queue.cq_phase == old(self).io_queue.cq_phase,
            final(self).io_queue.sq@.len() == old(self).io_queue.sq@.len(),
            forall|j: int|
                0 <= j < old(self).io_queue.sq@.len() && j != old(self).io_queue.sq_tail
                    ==> #[trigger] final(self).io_queue.sq@[j] == old(self).io_queue.sq@[j],
            common_cmd_bytes(final(self).io_queue.sq@[old(self).io_queue.sq_tail as int])
                == rw_cmd_bytes(
                rw_cmd_for(0x01, block_id, old(self).io_queue.data_pa as u64, cid as u16, 0, 0),
            ),
            final(self).device.db_log@ == old(self).device.db_log@.push(
                (DbWrite {
                    addr: (old(self).bar + NVME_REG_DBS + 8) as usize,
                    value: next_index(
                        old(self).io_queue.sq_tail as int,
                        old(self).io_queue.q_depth as int,
                    ) as usize,
                }),
            ),
    {
        copy_in_slice(&mut self.io_queue.data, write_buf);

        let mut cmd = crate::defs::NvmeRWCommand::new_write_command();
        cmd.nsid = 1;
        cmd.prp1 = self.io_queue.data_pa as u64;
        cmd.length = 0;
        cmd.command_id = cid as u16;
        cmd.slba = block_id as u64;
        let common_cmd = cmd.into_common();
        proof {
            crate::defs::lemma_u64_split_join(block_id as u64);
        }

        send_command(&mut self.device, &mut self.io_queue, self.bar, common_cmd);
        proof {
            assert((write_buf@ + old(self).io_queue.data@.skip(
                crate::device::BLOCK_SIZE as int,
            )).subrange(0, crate::device::BLOCK_SIZE as int) =~= write_buf@);
            assert(self.store() =~= old(self).store().update(block_id as int, write_buf@));
            crate::defs::lemma_rw_to_common_layout(
                rw_cmd_for(0x01, block_id, old(self).io_queue.data_pa as u64, cid as u16, 0, 0),
                common_cmd,
            );
        }
        cid
    }

    /// Submit a read for `block_id` with command id `cid` without polling:
    /// the device moves the block into the DMA scratch region and the
    /// caller's buffer at once, but the completion stays pending until
    /// `handle_irq` (or a poll) consumes it. Returns `cid`.
    pub fn send_read_command(&mut self, block_id: usize, read_buf: &mut Vec<u8>, cid: usize) -> (r:
        usize)
        requires
            old(self).wf(),
            old(read_buf)@.len() == crate::device::BLOCK_SIZE,
            block_id < old(self).num_blocks(),
            cid <= 0xffff,
        ensures
            r == cid,
            final(self).admin_ok(),
            final(self).io_pending(),
            final(read_buf)@ == old(self).store()[block_id as int],
            final(self).store() == old(self).store(),
            final(self).num_blocks() == old(self).num_blocks(),
            final(self).bar == old(self).bar,
            final(self).admin_queue == old(self).admin_queue,
            final(self).device.reg_log == old(self).device.reg_log,
            final(self).device.admin_log == old(self).device.admin_log,
            final(self).device.csts_log == old(self).device.csts_log,
            final(self).io_queue.q_depth == old(self).io_queue.q_depth,
            final(self).io_queue.sq_tail == next_index(
                old(self).io_queue.sq_tail as int,
                old(self).io_queue.q_depth as int,
            ),
            final(self).io_queue.last_sq_tail == final(self).io_queue.sq_tail,
            final(self).io_queue.cq_head == old(self).io_queue.cq_head,
            final(self).io_queue.cq_phase == old(self).io_queue.cq_phase,
            final(self).io_queue.sq@.len() == old(self).io_queue.sq@.len(),
            forall|j: int|
                0 <= j < old(self).io_queue.sq@.len() && j != old(self).io_queue.sq_tail
                    ==> #[trigger] final(self).io_queue.sq@[j] == old(self).io_queue.sq@[j],
            common_cmd_bytes(final(self).io_queue.sq@[old(self).io_queue.sq_tail as int])
                == rw_cmd_bytes(
                rw_cmd_for(0x02, block_id, old(self).io_queue.data_pa as u64, cid as u16, 0, 0),
            ),
            final(self).device.db_log@ == old(self).device.db_log@.push(
                (DbWrite {
                    addr: (old(self).bar + NVME_REG_DBS + 8) as usize,
                    value: next_index(
                        old(self).io_queue.sq_tail as int,
                        old(self).io_queue.q_depth as int,
                    ) as usize,
                }),
            ),
    {
        let mut cmd = crate::defs::NvmeRWCommand::new_read_command();
        cmd.nsid = 1;
        cmd.prp1 = self.io_queue.data_pa as u64;
        cmd.command_id = cid as u16;
        cmd.length = 0;
        cmd.slba = block_id as u64;
        let common_cmd = cmd.into_common();
        proof {
            crate::defs::lemma_u64_split_join(block_id as u64);
        }

        send_command(&mut self.device, &mut self.io_queue, self.bar, common_cmd);

        copy_out_block(read_buf, &self.io_queue.data);
        proof {
            assert(old(self).store()[block_id as int].len() == crate::device::BLOCK_SIZE);
            assert(read_buf@ =~= old(self).store()[block_id as int]);
            crate::defs::lemma_rw_to_common_layout(
                rw_cmd_for(0x02, block_id, old(self).io_queue.data_pa as u64, cid as u16, 0, 0),
                common_cmd,
            );
        }
        cid
    }

    /// Drain at most one completion from I/O queue 1 and acknowledge its CQ
    /// head doorbell. With nothing outstanding this finds the phase bit at
    /// the CQ head stale and leaves everything untouched.
    pub fn handle_irq(&mut self)
        requires
            old(self).admin_ok(),
            old(self).io_ok() || old(self).io_pending(),
        ensures
            final(self).wf(),
            old(self).io_ok() ==> *final(self) == *old(self),
            old(self).io_pending() ==> ({
                &&& final(self).store() == old(self).store()
                &&& final(self).io_queue.cq_head == next_index(
                    old(self).io_queue.cq_head as int,
                    old(self).io_queue.q_depth as int,
                )
                &&& final(self).io_queue.cq_phase == next_phase(
                    old(self).io_queue.cq_head as int,
                    old(self).io_queue.cq_phase as int,
                    old(self).io_queue.q_depth as int,
                )
                &&& final(self).io_queue.sq_tail == old(self).io_queue.sq_tail
                &&& final(self).admin_queue == old(self).admin_queue
                &&& final(self).device.reg_log == old(self).device.reg_log
                &&& final(self).device.admin_log == old(self).device.admin_log
                &&& final(self).device.csts_log == old(self).device.csts_log
                &&& final(self).device.db_log@ == old(self).device.db_log@.push(
                    (DbWrite {
                        addr: (old(self).bar + NVME_REG_DBS + 8 + 4) as usize,
                        value: next_index(
                            old(self).io_queue.cq_head as int,
                            old(self).io_queue.q_depth as int,
                        ) as usize,
                    }),
                )
            }),
    {
        let pending = nvme_cqe_pending(&self.io_queue);
        if pending {
            nvme_update_cq_head(&mut self.io_queue);
            nvme_ring_cq_doorbell(&mut self.device, &self.io_queue, self.bar);
        }
    }

    /// Issue a synchronous set-features admin command with the given feature
    /// id in dword 10 and feature value in dword 11.
    pub fn set_features(&mut self, fid: u32, dword11: u32)
        requires
            old(self).wf(),
        ensures
            final(self).wf(),
            final(self).store() == old(self).store(),
            final(self).io_queue == old(self).io_queue,
            final(self).bar == old(self).bar,
            final(self).device.reg_log == old(self).device.reg_log,
            final(self).device.csts_log == old(self).device.csts_log,
            final(self).device.admin_log@ == old(self).device.admin_log@.push(
                (AdminRecord { opcode: 0x09, command_id: 0, prp1: 0, cdw10: fid, cdw11: dword11 }),
            ),
    {
        let cmd = crate::defs::NvmeFeatures::new(fid, dword11);
        let common_cmd = cmd.into_common();
        self.submit_sync_command(common_cmd);
    }

    /// Mask and unmask the controller's interrupt line around a poll, for
    /// environments where the interrupt handler shares the queue.
    pub fn nvme_poll_irqdisable<I: crate::irq::IrqController>(&self) {
        I::disable_irq(self.irq);
        I::enable_irq(self.irq);
    }
}

/// Writing a block and then reading it back returns the payload written:
/// `write_block` leaves the store updated at the block written and
/// `read_block` returns the store at the block read, so the update is what
/// the read sees.
pub proof fn lemma_write_read_round_trip(s: Seq<Seq<u8>>, i: int, b: Seq<u8>)
    requires
        0 <= i < s.len(),
    ensures
        s.update(i, b).len() == s.len(),
        s.update(i, b)[i] == b,
{
}

/// Writes to distinct blocks commute, and a write leaves every other block
/// unchanged: reads after any permutation of writes to disjoint blocks
/// therefore return each block's last written content.
pub proof fn lemma_disjoint_writes_commute(s: Seq<Seq<u8>>, i: int, j: int, a: Seq<u8>, b: Seq<u8>)
    requires
        0 <= i < s.len(),
        0 <= j < s.len(),
        i != j,
    ensures
        s.update(i, a).update(j, b) == s.update(j, b).update(i, a),
        s.update(i, a)[j] == s[j],
{
    assert(s.update(i, a).update(j, b) =~= s.update(j, b).update(i, a));
}

/// The store after a batch of block writes, applied first to last; each pair
/// is a block id and its 512-byte payload, as `write_block` takes them.
pub open spec fn apply_writes(s: Seq<Seq<u8>>, ops: Seq<(int, Seq<u8>)>) -> Seq<Seq<u8>>
    decreases ops.len(),
{
    if ops.len() == 0 {
        s
    } else {
        apply_writes(s.update(ops[0].0, ops[0].1), ops.skip(1))
    }
}

/// Order independence across blocks: after a batch of writes to pairwise
/// distinct blocks, every written block holds its own payload and every
/// other block its initial content. The outcome names no position in the
/// batch, so every permutation of such a batch leaves the same store.
pub proof fn lemma_batch_writes(s: Seq<Seq<u8>>, ops: Seq<(int, Seq<u8>)>)
    requires
        forall|i: int, j: int|
            0 <= i < j < ops.len() ==> (#[trigger] ops[i]).0 != (#[trigger] ops[j]).0,
        forall|i: int| 0 <= i < ops.len() ==> 0 <= (#[trigger] ops[i]).0 < s.len(),
    ensures
        apply_writes(s, ops).len() == s.len(),
        forall|i: int|
            0 <= i < ops.len() ==> apply_writes(s, ops)[(#[trigger] ops[i]).0] == ops[i].1,
        forall|k: int|
            0 <= k < s.len() && (forall|i: int| 0 <= i < ops.len() ==> (#[trigger] ops[i]).0 != k)
                ==> #[trigger] apply_writes(s, ops)[k] == s[k],
    decreases ops.len(),
{
    if ops.len() > 0 {
        let s1 = s.update(ops[0].0, ops[0].1);
        let rest = ops.skip(1);
        assert forall|i: int, j: int| 0 <= i < j < rest.len() implies (#[trigger] rest[i]).0 != (
        #[trigger] rest[j]).0 by {
            assert(rest[i] == ops[i + 1]);
            assert(rest[j] == ops[j + 1]);
        }
        assert forall|i: int| 0 <= i < rest.len() implies 0 <= (#[trigger] rest[i]).0 < s1.len() by {
            assert(rest[i] == ops[i + 1]);
        }
        lemma_batch_writes(s1, rest);
        assert forall|i: int| 0 <= i < rest.len() implies (#[trigger] rest[i]).0 != ops[0].0 by {
            assert(rest[i] == ops[i + 1]);
        }
        assert(apply_writes(s, ops)[ops[0].0] == ops[0].1);
        assert forall|i: int| 0 <= i < ops.len() implies apply_writes(s, ops)[(
        #[trigger] ops[i]).0] == ops[i].1 by {
            if i > 0 {
                assert(ops[i] == rest[i - 1]);
            }
        }
        assert forall|k: int|
            0 <= k < s.len() && (forall|i: int|
                0 <= i < ops.len() ==> (#[trigger] ops[i]).0 != k) implies #[trigger] apply_writes(
            s,
            ops,
        )[k] == s[k] by {
            assert(ops[0].0 != k);
            assert forall|i: int| 0 <= i < rest.len() implies (#[trigger] rest[i]).0 != k by {
                assert(rest[i] == ops[i + 1]);
            }
            assert(s1[k] == s[k]);
        }
    }
}

} // verus!
