//! A model of an NVMe controller as the host sees it: the MMIO registers of
//! the enable handshake, the SQ tail and CQ head doorbells, and the block
//! store behind the default namespace.
//!
//! The model is the verified counterpart of the hardware at the other end of
//! the BAR. Register and doorbell writes are method calls whose `requires`
//! pin the exact addresses the NVMe register map mandates; ringing an SQ
//! tail doorbell makes the device consume the newly submitted entry from the
//! submission ring, act on the block store or the DMA data region, and post
//! a completion whose status carries the device's current phase bit, exactly
//! as a real controller does over DMA.

use vstd::prelude::*;
use crate::defs::NvmeCommonCommand;
use crate::defs::NvmeCompletion;
use crate::defs::NVME_CC_ENABLE;
use crate::defs::NVME_CSTS_RDY;
use crate::defs::NVME_OP_ADMIN_CREATE_CQ;
use crate::defs::NVME_OP_ADMIN_CREATE_SQ;
use crate::defs::NVME_REG_ACQ;
use crate::defs::NVME_REG_AQA;
use crate::defs::NVME_REG_ASQ;
use crate::defs::NVME_REG_CC;
use crate::defs::NVME_REG_CSTS;
use crate::defs::NVME_REG_DBS;
use crate::defs::NVME_OP_IO_READ;
use crate::defs::NVME_OP_IO_WRITE;
use crate::queue::next_index;
use crate::queue::next_phase;

verus! {

/// Bytes per logical block of the default namespace.
pub const BLOCK_SIZE: usize = 512;

/// One recorded write to a controller configuration register.
#[derive(Debug, Clone, Copy, PartialEq, Eq, Structural)]
pub struct RegWrite {
    pub addr: usize,
    pub value: u64,
}

/// One recorded write to a doorbell register.
#[derive(Debug, Clone, Copy, PartialEq, Eq, Structural)]
pub struct DbWrite {
    pub addr: usize,
    pub value: usize,
}

/// One admin command as the device saw it: the opcode and command id, the
/// data pointer, and dwords 10 and 11, which carry every field the admin
/// commands of this driver use.
#[derive(Debug, Clone, Copy, PartialEq, Eq, Structural)]
pub struct AdminRecord {
    pub opcode: u8,
    pub command_id: u16,
    pub prp1: u64,
    pub cdw10: u32,
    pub cdw11: u32,
}

/// The admin record for a command, as the device logs it.
pub open spec fn admin_record_of(cmd: NvmeCommonCommand) -> AdminRecord {
    AdminRecord {
        opcode: cmd.opcode,
        command_id: cmd.command_id,
        prp1: cmd.prp1,
        cdw10: cmd.cdw10,
        cdw11: cmd.cdw11,
    }
}

/// The device-side state of one queue pair: how far it has consumed the
/// submission ring, where it will post the next completion, the phase bit it
/// will post with, and the last CQ head the host acknowledged.
#[derive(Debug, Clone, Copy, PartialEq, Eq, Structural)]
pub struct DevQueue {
    pub sq_head: usize,
    pub cq_tail: usize,
    pub phase: usize,
    pub depth: usize,
    pub cq_head_db: usize,
}

impl DevQueue {
    /// Indices in range for the depth, phase a single bit.
    pub open spec fn wf(self) -> bool {
        &&& 1 <= self.depth <= 0x10000
        &&& self.sq_head < self.depth
        &&& self.cq_tail < self.depth
        &&& self.phase <= 1
    }

    /// The state after consuming one submission and posting its completion:
    /// both ring positions advance one slot and the phase toggles when the
    /// completion position wraps.
    pub open spec fn advanced(self) -> DevQueue {
        DevQueue {
            sq_head: next_index(self.sq_head as int, self.depth as int) as usize,
            cq_tail: next_index(self.cq_tail as int, self.depth as int) as usize,
            phase: next_phase(self.cq_tail as int, self.phase as int, self.depth as int) as usize,
            ..self
        }
    }

    /// A freshly created queue of the given depth.
    pub open spec fn reset(depth: usize) -> DevQueue {
        DevQueue { sq_head: 0, cq_tail: 0, phase: 1, depth, cq_head_db: 0 }
    }

    fn advance(self) -> (r: DevQueue)
        requires
            self.wf(),
        ensures
            r == self.advanced(),
            r.wf(),
    {
        let sq_head = if self.sq_head + 1 == self.depth {
            0
        } else {
            self.sq_head + 1
        };
        let cq_tail = if self.cq_tail + 1 == self.depth {
            0
        } else {
            self.cq_tail + 1
        };
        let phase = if self.cq_tail + 1 == self.depth {
            1 - self.phase
        } else {
            self.phase
        };
        DevQueue { sq_head, cq_tail, phase, depth: self.depth, cq_head_db: self.cq_head_db }
    }
}

/// The starting logical block address carried in dwords 10 and 11 of an I/O
/// command.
pub open spec fn slba_of(cmd: NvmeCommonCommand) -> u64 {
    (cmd.cdw10 as u64) | ((cmd.cdw11 as u64) << 32)
}

/// The completion a queue in state `qs` posts for `cmd` after its SQ head
/// advanced to `sq_head`: success, with the device's current phase in bit 0
/// of the status.
pub open spec fn cqe_for(cmd: NvmeCommonCommand, qs: DevQueue, sq_id: u16, sq_head: usize) -> NvmeCompletion {
    NvmeCompletion {
        result: 0,
        sq_head: sq_head as u16,
        sq_id,
        command_id: cmd.command_id,
        status: qs.phase as u16,
    }
}

/// The modelled NVMe controller: configuration registers, the device side of
/// the admin queue (id 0) and of I/O queue 1, the namespace block store, and
/// logs of every register, doorbell and admin command it saw.
pub struct NvmeDevice {
    pub bar: usize,
    pub aqa: u32,
    pub asq: u64,
    pub acq: u64,
    pub cc: u32,
    pub enabled: bool,
    pub io_cq_created: bool,
    pub io_sq_created: bool,
    pub admin_qs: DevQueue,
    pub io_qs: DevQueue,
    pub blocks: Vec<Vec<u8>>,
    pub reg_log: Vec<RegWrite>,
    pub db_log: Vec<DbWrite>,
    pub admin_log: Vec<AdminRecord>,
    pub csts_log: Vec<u32>,
}

/// A 512-byte block of zeroes, the initial content of every block.
pub open spec fn zero_block() -> Seq<u8> {
    Seq::new(BLOCK_SIZE as nat, |i: int| 0u8)
}

fn make_zero_block() -> (r: Vec<u8>)
    ensures
        r@ == zero_block(),
{
    let mut v: Vec<u8> = Vec::new();
    let mut i: usize = 0;
    while i < BLOCK_SIZE
        invariant
            i <= BLOCK_SIZE,
            v@.len() == i,
            forall|j: int| 0 <= j < i ==> v@[j] == 0,
        decreases BLOCK_SIZE - i,
    {
        v.push(0);
        i = i + 1;
    }
    proof {
        assert(v@ =~= zero_block());
    }
    v
}

fn copy_block_out(data: &Vec<u8>) -> (r: Vec<u8>)
    requires
        data@.len() >= BLOCK_SIZE,
    ensures
        r@ == data@.subrange(0, BLOCK_SIZE as int),
{
    let mut v: Vec<u8> = Vec::new();
    let mut i: usize = 0;
    while i < BLOCK_SIZE
        invariant
            i <= BLOCK_SIZE,
            v@.len() == i,
            data@.len() >= BLOCK_SIZE,
            forall|j: int| 0 <= j < i ==> v@[j] == data@[j],
        decreases BLOCK_SIZE - i,
    {
        v.push(data[i]);
        i = i + 1;
    }
    proof {
        assert(v@ =~= data@.subrange(0, BLOCK_SIZE as int));
    }
    v
}

fn copy_block_in(data: &mut Vec<u8>, blk: &Vec<u8>)
    requires
        old(data)@.len() >= BLOCK_SIZE,
        blk@.len() == BLOCK_SIZE,
    ensures
        final(data)@ == blk@ + old(data)@.skip(BLOCK_SIZE as int),
{
    let mut i: usize = 0;
    while i < BLOCK_SIZE
        invariant
            i <= BLOCK_SIZE,
            blk@.len() == BLOCK_SIZE,
            data@.len() == old(data)@.len() >= BLOCK_SIZE,
            forall|j: int| 0 <= j < i ==> data@[j] == blk@[j],
            forall|j: int| i <= j < data@.len() ==> data@[j] == old(data)@[j],
        decreases BLOCK_SIZE - i,
    {
        let b = blk[i];
        data[i] = b;
        i = i + 1;
    }
    proof {
        assert(data@ =~= blk@ + old(data)@.skip(BLOCK_SIZE as int));
    }
}

impl NvmeDevice {
    /// The block store as a sequence of 512-byte sequences.
    pub open spec fn store(self) -> Seq<Seq<u8>> {
        self.blocks@.map_values(|b: Vec<u8>| b@)
    }

    /// The doorbell window fits in the address space and every block of the
    /// store is one block long.
    pub open spec fn wf(self) -> bool {
        &&& self.bar + 0x2000 <= usize::MAX
        &&& forall|i: int| 0 <= i < self.blocks@.len() ==> (#[trigger] self.blocks@[i])@.len()
            == BLOCK_SIZE
    }

    /// A powered-on but not yet enabled controller over `num_blocks` zeroed
    /// blocks, with nothing recorded in any log.
    pub fn new(bar: usize, num_blocks: usize) -> (r: NvmeDevice)
        requires
            bar + 0x2000 <= usize::MAX,
        ensures
            r.wf(),
            r.bar == bar,
            r.aqa == 0,
            r.asq == 0,
            r.acq == 0,
            r.cc == 0,
            !r.enabled,
            !r.io_cq_created,
            !r.io_sq_created,
            r.reg_log@ == Seq::<RegWrite>::empty(),
            r.db_log@ == Seq::<DbWrite>::empty(),
            r.admin_log@ == Seq::<AdminRecord>::empty(),
            r.csts_log@ == Seq::<u32>::empty(),
            r.store().len() == num_blocks,
            forall|i: int| 0 <= i < num_blocks ==> r.store()[i] == zero_block(),
    {
        let mut blocks: Vec<Vec<u8>> = Vec::new();
        let mut i: usize = 0;
        while i < num_blocks
            invariant
                i <= num_blocks,
                blocks@.len() == i,
                forall|j: int| 0 <= j < i ==> (#[trigger] blocks@[j])@ == zero_block(),
            decreases num_blocks - i,
        {
            blocks.push(make_zero_block());
            i = i + 1;
        }
        NvmeDevice {
            bar,
            aqa: 0,
            asq: 0,
            acq: 0,
            cc: 0,
            enabled: false,
            io_cq_created: false,
            io_sq_created: false,
            admin_qs: DevQueue { sq_head: 0, cq_tail: 0, phase: 1, depth: 1, cq_head_db: 0 },
            io_qs: DevQueue { sq_head: 0, cq_tail: 0, phase: 1, depth: 1, cq_head_db: 0 },
            blocks,
            reg_log: Vec::new(),
            db_log: Vec::new(),
            admin_log: Vec::new(),
            csts_log: Vec::new(),
        }
    }

    /// A write to a 32-bit configuration register: AQA records the admin
    /// queue depths; CC with the enable bit set brings the controller up,
    /// resetting the device side of the admin queue to the depth the low
    /// half of AQA announced.
    pub fn write_reg32(&mut self, addr: usize, value: u32)
        requires
            old(self).wf(),
            addr == old(self).bar + NVME_REG_AQA || addr == old(self).bar + NVME_REG_CC,
        ensures
            final(self).wf(),
            final(self).reg_log@ == old(self).reg_log@.push(
                RegWrite { addr, value: value as u64 },
            ),
            addr == old(self).bar + NVME_REG_AQA ==> {
                &&& final(self).aqa == value
                &&& final(self).cc == old(self).cc
                &&& final(self).enabled == old(self).enabled
                &&& final(self).admin_qs == old(self).admin_qs
            },
            addr == old(self).bar + NVME_REG_CC ==> {
                &&& final(self).aqa == old(self).aqa
                &&& final(self).cc == value
                &&& final(self).enabled == ((value & NVME_CC_ENABLE) != 0)
                &&& final(self).admin_qs == if (value & NVME_CC_ENABLE) != 0 {
                    DevQueue::reset(((old(self).aqa & 0xffff) + 1) as usize)
                } else {
                    old(self).admin_qs
                }
            },
            final(self).bar == old(self).bar,
            final(self).asq == old(self).asq,
            final(self).acq == old(self).acq,
            final(self).io_cq_created == old(self).io_cq_created,
            final(self).io_sq_created == old(self).io_sq_created,
            final(self).io_qs == old(self).io_qs,
            final(self).blocks == old(self).blocks,
            final(self).db_log == old(self).db_log,
            final(self).admin_log == old(self).admin_log,
            final(self).csts_log == old(self).csts_log,
    {
        self.reg_log.push(RegWrite { addr, value: value as u64 });
        if addr == self.bar + NVME_REG_AQA {
            self.aqa = value;
        } else {
            self.cc = value;
            if (value & NVME_CC_ENABLE) != 0 {
                self.enabled = true;
                proof {
                    let a = self.aqa;
                    assert((a & 0xffff) <= 0xffff) by (bit_vector);
                }
                let depth = ((self.aqa & 0xffff) as usize) + 1;
                self.admin_qs = DevQueue {
                    sq_head: 0,
                    cq_tail: 0,
                    phase: 1,
                    depth,
                    cq_head_db: 0,
                };
            } else {
                self.enabled = false;
            }
        }
    }

    /// A write to a 64-bit configuration register: ASQ and ACQ record the
    /// physical base addresses of the admin rings, full width.
    pub fn write_reg64(&mut self, addr: usize, value: u64)
        requires
            old(self).wf(),
            addr == old(self).bar + NVME_REG_ASQ || addr == old(self).bar + NVME_REG_ACQ,
        ensures
            final(self).wf(),
            final(self).reg_log@ == old(self).reg_log@.push(RegWrite { addr, value }),
            addr == old(self).bar + NVME_REG_ASQ ==> final(self).asq == value && final(self).acq
                == old(self).acq,
            addr == old(self).bar + NVME_REG_ACQ ==> final(self).acq == value && final(self).asq
                == old(self).asq,
            final(self).bar == old(self).bar,
            final(self).aqa == old(self).aqa,
            final(self).cc == old(self).cc,
            final(self).enabled == old(self).enabled,
            final(self).io_cq_created == old(self).io_cq_created,
            final(self).io_sq_created == old(self).io_sq_created,
            final(self).admin_qs == old(self).admin_qs,
            final(self).io_qs == old(self).io_qs,
            final(self).blocks == old(self).blocks,
            final(self).db_log == old(self).db_log,
            final(self).admin_log == old(self).admin_log,
            final(self).csts_log == old(self).csts_log,
    {
        self.reg_log.push(RegWrite { addr, value });
        if addr == self.bar + NVME_REG_ASQ {
            self.asq = value;
        } else {
            self.acq = value;
        }
    }

    /// A read of the 32-bit controller status register: RDY exactly when the
    /// controller has been enabled. Every value read is recorded, so a
    /// caller's contract can state what it observed.
    pub fn read_reg32(&mut self, addr: usize) -> (r: u32)
        requires
            old(self).wf(),
            addr == old(self).bar + NVME_REG_CSTS,
        ensures
            final(self).wf(),
            r == if old(self).enabled {
                NVME_CSTS_RDY
            } else {
                0u32
            },
            final(self).csts_log@ == old(self).csts_log@.push(r),
            final(self).bar == old(self).bar,
            final(self).aqa == old(self).aqa,
            final(self).asq == old(self).asq,
            final(self).acq == old(self).acq,
            final(self).cc == old(self).cc,
            final(self).enabled == old(self).enabled,
            final(self).io_cq_created == old(self).io_cq_created,
            final(self).io_sq_created == old(self).io_sq_created,
            final(self).admin_qs == old(self).admin_qs,
            final(self).io_qs == old(self).io_qs,
            final(self).blocks == old(self).blocks,
            final(self).reg_log == old(self).reg_log,
            final(self).db_log == old(self).db_log,
            final(self).admin_log == old(self).admin_log,
    {
        let r = if self.enabled {
            NVME_CSTS_RDY
        } else {
            0
        };
        self.csts_log.push(r);
        r
    }

    /// A write to an SQ tail doorbell: the admin queue's sits at the
    /// doorbell base, I/O queue 1's at base + 8 (stride 4, two doorbells per
    /// queue). The device consumes the newly submitted entry at its SQ head
    /// from the submission ring, acts on it, and posts a completion at its
    /// CQ tail whose status carries the device's current phase bit. Admin
    /// create-CQ and create-SQ commands set up the device side of I/O queue
    /// 1; I/O writes and reads move one block between the block store and
    /// the DMA region PRP1 names -- `data` is the region at physical address
    /// `data_pa`, and the device touches it only when the command's PRP1
    /// points there.
    pub fn sq_doorbell(
        &mut self,
        addr: usize,
        tail: usize,
        sq: &Vec<NvmeCommonCommand>,
        cq: &mut Vec<NvmeCompletion>,
        data: &mut Vec<u8>,
        data_pa: usize,
    )
        requires
            old(self).wf(),
            addr == old(self).bar + NVME_REG_DBS || addr == old(self).bar + NVME_REG_DBS + 8,
            ({
                let qs = if addr == old(self).bar + NVME_REG_DBS {
                    old(self).admin_qs
                } else {
                    old(self).io_qs
                };
                &&& qs.wf()
                &&& sq@.len() == qs.depth
                &&& old(cq)@.len() == qs.depth
                &&& tail == next_index(qs.sq_head as int, qs.depth as int)
            }),
            old(self).enabled,
            addr != old(self).bar + NVME_REG_DBS ==> old(self).io_cq_created && old(
                self,
            ).io_sq_created,
            old(data)@.len() >= BLOCK_SIZE,
        ensures
            final(self).wf(),
            final(self).db_log@ == old(self).db_log@.push(DbWrite { addr, value: tail }),
            final(self).bar == old(self).bar,
            final(self).aqa == old(self).aqa,
            final(self).asq == old(self).asq,
            final(self).acq == old(self).acq,
            final(self).cc == old(self).cc,
            final(self).enabled == old(self).enabled,
            final(self).reg_log == old(self).reg_log,
            final(self).csts_log == old(self).csts_log,
            final(cq)@.len() == old(cq)@.len(),
            final(data)@.len() == old(data)@.len(),
            final(self).store().len() == old(self).store().len(),
            addr == old(self).bar + NVME_REG_DBS ==> ({
                let cmd = sq@[old(self).admin_qs.sq_head as int];
                &&& final(self).admin_qs == old(self).admin_qs.advanced()
                &&& final(self).admin_log@ == old(self).admin_log@.push(admin_record_of(cmd))
                &&& final(self).io_cq_created == (old(self).io_cq_created || cmd.opcode
                    == NVME_OP_ADMIN_CREATE_CQ)
                &&& final(self).io_sq_created == (old(self).io_sq_created || cmd.opcode
                    == NVME_OP_ADMIN_CREATE_SQ)
                &&& final(self).io_qs == if cmd.opcode == NVME_OP_ADMIN_CREATE_CQ {
                    DevQueue::reset(((((cmd.cdw10 >> 16) & 0xffff) + 1) as usize))
                } else {
                    old(self).io_qs
                }
                &&& final(cq)@ == old(cq)@.update(
                    old(self).admin_qs.cq_tail as int,
                    cqe_for(cmd, old(self).admin_qs, 0, tail),
                )
                &&& final(data)@ == old(data)@
                &&& final(self).blocks == old(self).blocks
            }),
            addr != old(self).bar + NVME_REG_DBS ==> ({
                let cmd = sq@[old(self).io_qs.sq_head as int];
                &&& final(self).io_qs == old(self).io_qs.advanced()
                &&& final(self).admin_qs == old(self).admin_qs
                &&& final(self).admin_log == old(self).admin_log
                &&& final(self).io_cq_created == old(self).io_cq_created
                &&& final(self).io_sq_created == old(self).io_sq_created
                &&& final(cq)@ == old(cq)@.update(
                    old(self).io_qs.cq_tail as int,
                    cqe_for(cmd, old(self).io_qs, 1, tail),
                )
                &&& (cmd.opcode == NVME_OP_IO_WRITE && slba_of(cmd) < old(self).store().len()
                    && cmd.prp1 == data_pa as u64) ==> final(self).store() == old(
                    self,
                ).store().update(
                    slba_of(cmd) as int,
                    old(data)@.subrange(0, BLOCK_SIZE as int),
                ) && final(data)@ == old(data)@
                &&& (cmd.opcode == NVME_OP_IO_READ && slba_of(cmd) < old(self).store().len()
                    && cmd.prp1 == data_pa as u64) ==> final(self).blocks == old(self).blocks
                    && final(data)@ == old(self).store()[slba_of(cmd) as int] + old(data)@.skip(
                    BLOCK_SIZE as int,
                )
                &&& !((cmd.opcode == NVME_OP_IO_WRITE || cmd.opcode == NVME_OP_IO_READ)
                    && slba_of(cmd) < old(self).store().len() && cmd.prp1 == data_pa as u64)
                    ==> final(self).blocks == old(self).blocks && final(data)@ == old(data)@
            }),
    {
        self.db_log.push(DbWrite { addr, value: tail });
        let base = self.bar + NVME_REG_DBS;
        if addr == base {
            let head = self.admin_qs.sq_head;
            let cmd = sq[head];
            self.admin_log.push(
                AdminRecord {
                    opcode: cmd.opcode,
                    command_id: cmd.command_id,
                    prp1: cmd.prp1,
                    cdw10: cmd.cdw10,
                    cdw11: cmd.cdw11,
                },
            );
            if cmd.opcode == NVME_OP_ADMIN_CREATE_CQ {
                self.io_cq_created = true;
                proof {
                    let c = cmd.cdw10;
                    assert(((c >> 16) & 0xffff) <= 0xffff) by (bit_vector);
                }
                let qsize = ((cmd.cdw10 >> 16) & 0xffff) as usize;
                self.io_qs = DevQueue {
                    sq_head: 0,
                    cq_tail: 0,
                    phase: 1,
                    depth: qsize + 1,
                    cq_head_db: 0,
                };
            }
            if cmd.opcode == NVME_OP_ADMIN_CREATE_SQ {
                self.io_sq_created = true;
            }
            let cqe = NvmeCompletion {
                result: 0,
                sq_head: tail as u16,
                sq_id: 0,
                command_id: cmd.command_id,
                status: self.admin_qs.phase as u16,
            };
            let tailpos = self.admin_qs.cq_tail;
            cq[tailpos] = cqe;
            self.admin_qs = self.admin_qs.advance();
        } else {
            let head = self.io_qs.sq_head;
            let cmd = sq[head];
            if cmd.opcode == NVME_OP_IO_WRITE || cmd.opcode == NVME_OP_IO_READ {
                let slba = (cmd.cdw10 as u64) | ((cmd.cdw11 as u64) << 32);
                if slba < self.blocks.len() as u64 && cmd.prp1 == data_pa as u64 {
                    let bi = slba as usize;
                    if cmd.opcode == NVME_OP_IO_WRITE {
                        let newblk = copy_block_out(data);
                        self.blocks[bi] = newblk;
                        proof {
                            assert(self.store() =~= old(self).store().update(
                                slba_of(cmd) as int,
                                old(data)@.subrange(0, BLOCK_SIZE as int),
                            ));
                        }
                    } else {
                        let blk = &self.blocks[bi];
                        copy_block_in(data, blk);
                        proof {
                            assert(old(self).store()[slba_of(cmd) as int] == old(
                                self,
                            ).blocks@[slba_of(cmd) as int]@);
                        }
                    }
                }
            }
            let cqe = NvmeCompletion {
                result: 0,
                sq_head: tail as u16,
                sq_id: 1,
                command_id: cmd.command_id,
                status: self.io_qs.phase as u16,
            };
            let tailpos = self.io_qs.cq_tail;
            cq[tailpos] = cqe;
            self.io_qs = self.io_qs.advance();
        }
    }

    /// A write to a CQ head doorbell (admin at base + 4, I/O queue 1 at
    /// base + 12): the device records how far the host has consumed its
    /// completion ring.
    pub fn cq_doorbell(&mut self, addr: usize, head: usize)
        requires
            old(self).wf(),
            addr == old(self).bar + NVME_REG_DBS + 4 || addr == old(self).bar + NVME_REG_DBS + 12,
        ensures
            final(self).wf(),
            final(self).db_log@ == old(self).db_log@.push(DbWrite { addr, value: head }),
            addr == old(self).bar + NVME_REG_DBS + 4 ==> final(self).admin_qs == (DevQueue {
                cq_head_db: head,
                ..old(self).admin_qs
            }) && final(self).io_qs == old(self).io_qs,
            addr == old(self).bar + NVME_REG_DBS + 12 ==> final(self).io_qs == (DevQueue {
                cq_head_db: head,
                ..old(self).io_qs
            }) && final(self).admin_qs == old(self).admin_qs,
            final(self).bar == old(self).bar,
            final(self).aqa == old(self).aqa,
            final(self).asq == old(self).asq,
            final(self).acq == old(self).acq,
            final(self).cc == old(self).cc,
            final(self).enabled == old(self).enabled,
            final(self).io_cq_created == old(self).io_cq_created,
            final(self).io_sq_created == old(self).io_sq_created,
            final(self).blocks == old(self).blocks,
            final(self).reg_log == old(self).reg_log,
            final(self).admin_log == old(self).admin_log,
            final(self).csts_log == old(self).csts_log,
    {
        self.db_log.push(DbWrite { addr, value: head });
        if addr == self.bar + NVME_REG_DBS + 4 {
            self.admin_qs.cq_head_db = head;
        } else {
            self.io_qs.cq_head_db = head;
        }
    }
}

} // verus!
