//! NVMe command and completion records with their byte-exact wire layout.
//!
//! Every submission-queue entry is exactly 64 bytes, every completion-queue
//! entry exactly 16 bytes, with little-endian fields at fixed offsets. The
//! typed command families (read/write, create-CQ, create-SQ, identify,
//! set-features) reinterpret dwords 10..15 of the common form; the lemmas at
//! the end of this module prove that converting a typed command to the common
//! form preserves the wire bytes exactly.

use vstd::prelude::*;

verus! {

// Controller register offsets from the BAR.
pub const NVME_REG_CAP: usize = 0x0000;
pub const NVME_REG_VS: usize = 0x0008;
pub const NVME_REG_INTMS: usize = 0x000c;
pub const NVME_REG_INTMC: usize = 0x0010;
pub const NVME_REG_CC: usize = 0x0014;
pub const NVME_REG_CSTS: usize = 0x001c;
pub const NVME_REG_NSSR: usize = 0x0020;
pub const NVME_REG_AQA: usize = 0x0024;
pub const NVME_REG_ASQ: usize = 0x0028;
pub const NVME_REG_ACQ: usize = 0x0030;
pub const NVME_REG_DBS: usize = 0x1000;

// Controller configuration (CC) fields.
pub const NVME_CC_ENABLE: u32 = 1 << 0;
pub const NVME_CC_CSS_NVM: u32 = 0 << 4;
pub const NVME_CC_MPS_SHIFT: u32 = 7;
pub const NVME_CC_ARB_RR: u32 = 0 << 11;
pub const NVME_CC_ARB_WRRU: u32 = 1 << 11;
pub const NVME_CC_ARB_VS: u32 = 7 << 11;
pub const NVME_CC_SHN_NONE: u32 = 0 << 14;
pub const NVME_CC_SHN_NORMAL: u32 = 1 << 14;
pub const NVME_CC_SHN_ABRUPT: u32 = 2 << 14;
pub const NVME_CC_IOSQES: u32 = 6 << 16;
pub const NVME_CC_IOCQES: u32 = 4 << 20;

// Controller status (CSTS) fields.
pub const NVME_CSTS_RDY: u32 = 1 << 0;
pub const NVME_CSTS_CFS: u32 = 1 << 1;
pub const NVME_CSTS_SHST_NORMAL: u32 = 0 << 2;
pub const NVME_CSTS_SHST_OCCUR: u32 = 1 << 2;
pub const NVME_CSTS_SHST_CMPLT: u32 = 2 << 2;

// Queue creation flags.
pub const NVME_QUEUE_PHYS_CONTIG: u16 = 1 << 0;
pub const NVME_CQ_IRQ_ENABLED: u16 = 1 << 1;
pub const NVME_SQ_PRIO_URGENT: u16 = 0 << 1;
pub const NVME_SQ_PRIO_HIGH: u16 = 1 << 1;
pub const NVME_SQ_PRIO_MEDIUM: u16 = 2 << 1;
pub const NVME_SQ_PRIO_LOW: u16 = 3 << 1;

// Feature identifiers for the set-features command.
pub const NVME_FEAT_ARBITRATION: u32 = 0x01;
pub const NVME_FEAT_POWER_MGMT: u32 = 0x02;
pub const NVME_FEAT_LBA_RANGE: u32 = 0x03;
pub const NVME_FEAT_TEMP_THRESH: u32 = 0x04;
pub const NVME_FEAT_ERR_RECOVERY: u32 = 0x05;
pub const NVME_FEAT_VOLATILE_WC: u32 = 0x06;
pub const NVME_FEAT_NUM_QUEUES: u32 = 0x07;
pub const NVME_FEAT_IRQ_COALESCE: u32 = 0x08;
pub const NVME_FEAT_IRQ_CONFIG: u32 = 0x09;
pub const NVME_FEAT_WRITE_ATOMIC: u32 = 0x0a;
pub const NVME_FEAT_ASYNC_EVENT: u32 = 0x0b;
pub const NVME_FEAT_SW_PROGRESS: u32 = 0x0c;

// I/O opcodes (on an I/O queue) and admin opcodes (on the admin queue).
pub const NVME_OP_IO_WRITE: u8 = 0x01;
pub const NVME_OP_IO_READ: u8 = 0x02;
pub const NVME_OP_ADMIN_CREATE_SQ: u8 = 0x01;
pub const NVME_OP_ADMIN_CREATE_CQ: u8 = 0x05;
pub const NVME_OP_ADMIN_IDENTIFY: u8 = 0x06;
pub const NVME_OP_ADMIN_SET_FEATURES: u8 = 0x09;

/// The two bytes of a `u16`, least significant first.
pub open spec fn u16_le(x: u16) -> Seq<u8> {
    seq![(x & 0xff) as u8, ((x >> 8) & 0xff) as u8]
}

/// The four bytes of a `u32`, least significant first.
pub open spec fn u32_le(x: u32) -> Seq<u8> {
    seq![
        (x & 0xff) as u8,
        ((x >> 8) & 0xff) as u8,
        ((x >> 16) & 0xff) as u8,
        ((x >> 24) & 0xff) as u8,
    ]
}

/// The eight bytes of a `u64`, least significant first.
pub open spec fn u64_le(x: u64) -> Seq<u8> {
    seq![
        (x & 0xff) as u8,
        ((x >> 8) & 0xff) as u8,
        ((x >> 16) & 0xff) as u8,
        ((x >> 24) & 0xff) as u8,
        ((x >> 32) & 0xff) as u8,
        ((x >> 40) & 0xff) as u8,
        ((x >> 48) & 0xff) as u8,
        ((x >> 56) & 0xff) as u8,
    ]
}

/// The common 64-byte submission-queue entry. Dwords 10..15 are opaque here
/// and are given meaning by the typed command families below.
#[derive(Debug, Clone, Copy)]
pub struct NvmeCommonCommand {
    pub opcode: u8,
    pub flags: u8,
    pub command_id: u16,
    pub nsid: u32,
    pub cdw2: [u32; 2],
    pub metadata: u64,
    pub prp1: u64,
    pub prp2: u64,
    pub cdw10: u32,
    pub cdw11: u32,
    pub cdw12: u32,
    pub cdw13: u32,
    pub cdw14: u32,
    pub cdw15: u32,
}

/// The wire bytes of a common command: every field little-endian at its
/// NVMe-mandated offset (opcode 0, flags 1, cid 2, nsid 4, cdw2 8, metadata
/// 16, prp1 24, prp2 32, cdw10..cdw15 from 40).
pub open spec fn common_cmd_bytes(c: NvmeCommonCommand) -> Seq<u8> {
    seq![c.opcode, c.flags] + u16_le(c.command_id) + u32_le(c.nsid) + u32_le(c.cdw2[0]) + u32_le(
        c.cdw2[1],
    ) + u64_le(c.metadata) + u64_le(c.prp1) + u64_le(c.prp2) + u32_le(c.cdw10) + u32_le(c.cdw11)
        + u32_le(c.cdw12) + u32_le(c.cdw13) + u32_le(c.cdw14) + u32_le(c.cdw15)
}

pub proof fn lemma_common_cmd_bytes_len(c: NvmeCommonCommand)
    ensures
        common_cmd_bytes(c).len() == 64,
{
}

fn push_u16(v: &mut Vec<u8>, x: u16)
    ensures
        final(v)@ == old(v)@ + u16_le(x),
{
    v.push((x & 0xff) as u8);
    v.push(((x >> 8) & 0xff) as u8);
    proof {
        assert(v@ =~= old(v)@ + u16_le(x));
    }
}

fn push_u32(v: &mut Vec<u8>, x: u32)
    ensures
        final(v)@ == old(v)@ + u32_le(x),
{
    v.push((x & 0xff) as u8);
    v.push(((x >> 8) & 0xff) as u8);
    v.push(((x >> 16) & 0xff) as u8);
    v.push(((x >> 24) & 0xff) as u8);
    proof {
        assert(v@ =~= old(v)@ + u32_le(x));
    }
}

fn push_u64(v: &mut Vec<u8>, x: u64)
    ensures
        final(v)@ == old(v)@ + u64_le(x),
{
    v.push((x & 0xff) as u8);
    v.push(((x >> 8) & 0xff) as u8);
    v.push(((x >> 16) & 0xff) as u8);
    v.push(((x >> 24) & 0xff) as u8);
    v.push(((x >> 32) & 0xff) as u8);
    v.push(((x >> 40) & 0xff) as u8);
    v.push(((x >> 48) & 0xff) as u8);
    v.push(((x >> 56) & 0xff) as u8);
    proof {
        assert(v@ =~= old(v)@ + u64_le(x));
    }
}

impl NvmeCommonCommand {
    /// A command with every byte zero.
    pub fn new() -> (r: Self)
        ensures
            r.opcode == 0,
            r.flags == 0,
            r.command_id == 0,
            r.nsid == 0,
            r.cdw2[0] == 0,
            r.cdw2[1] == 0,
            r.metadata == 0,
            r.prp1 == 0,
            r.prp2 == 0,
            r.cdw10 == 0,
            r.cdw11 == 0,
            r.cdw12 == 0,
            r.cdw13 == 0,
            r.cdw14 == 0,
            r.cdw15 == 0,
    {
        NvmeCommonCommand {
            opcode: 0,
            flags: 0,
            command_id: 0,
            nsid: 0,
            cdw2: [0, 0],
            metadata: 0,
            prp1: 0,
            prp2: 0,
            cdw10: 0,
            cdw11: 0,
            cdw12: 0,
            cdw13: 0,
            cdw14: 0,
            cdw15: 0,
        }
    }

    /// Serialise to the 64 wire bytes.
    pub fn to_bytes(&self) -> (r: Vec<u8>)
        ensures
            r@ == common_cmd_bytes(*self),
            r@.len() == 64,
    {
        let mut v: Vec<u8> = Vec::new();
        v.push(self.opcode);
        v.push(self.flags);
        push_u16(&mut v, self.command_id);
        push_u32(&mut v, self.nsid);
        push_u32(&mut v, self.cdw2[0]);
        push_u32(&mut v, self.cdw2[1]);
        push_u64(&mut v, self.metadata);
        push_u64(&mut v, self.prp1);
        push_u64(&mut v, self.prp2);
        push_u32(&mut v, self.cdw10);
        push_u32(&mut v, self.cdw11);
        push_u32(&mut v, self.cdw12);
        push_u32(&mut v, self.cdw13);
        push_u32(&mut v, self.cdw14);
        push_u32(&mut v, self.cdw15);
        proof {
            assert(v@ =~= common_cmd_bytes(*self));
        }
        v
    }
}

/// The 16-byte completion-queue entry. Bit 0 of `status` is the phase bit.
#[derive(Debug, Clone, Copy)]
pub struct NvmeCompletion {
    pub result: u64,
    pub sq_head: u16,
    pub sq_id: u16,
    pub command_id: u16,
    pub status: u16,
}

/// The wire bytes of a completion: result at 0, sq_head at 8, sq_id at 10,
/// command_id at 12, status at 14, all little-endian.
pub open spec fn completion_bytes(c: NvmeCompletion) -> Seq<u8> {
    u64_le(c.result) + u16_le(c.sq_head) + u16_le(c.sq_id) + u16_le(c.command_id) + u16_le(c.status)
}

impl NvmeCompletion {
    /// A completion with every byte zero; a freshly allocated completion ring
    /// holds entries of this shape, whose phase bit is clear.
    pub fn new() -> (r: Self)
        ensures
            r.result == 0,
            r.sq_head == 0,
            r.sq_id == 0,
            r.command_id == 0,
            r.status == 0,
    {
        NvmeCompletion { result: 0, sq_head: 0, sq_id: 0, command_id: 0, status: 0 }
    }

    /// Serialise to the 16 wire bytes.
    pub fn to_bytes(&self) -> (r: Vec<u8>)
        ensures
            r@ == completion_bytes(*self),
            r@.len() == 16,
    {
        let mut v: Vec<u8> = Vec::new();
        push_u64(&mut v, self.result);
        push_u16(&mut v, self.sq_head);
        push_u16(&mut v, self.sq_id);
        push_u16(&mut v, self.command_id);
        push_u16(&mut v, self.status);
        proof {
            assert(v@ =~= completion_bytes(*self));
        }
        v
    }
}

/// Splitting a `u64` into its low and high `u32` halves splits its bytes.
pub proof fn lemma_u64_le_parts(x: u64)
    ensures
        u32_le((x & 0xffffffff) as u32) + u32_le((x >> 32) as u32) == u64_le(x),
{
    assert(((x & 0xffffffff) as u32 & 0xff) as u8 == (x & 0xff) as u8 && (((x & 0xffffffff) as u32
        >> 8) & 0xff) as u8 == ((x >> 8) & 0xff) as u8 && (((x & 0xffffffff) as u32 >> 16)
        & 0xff) as u8 == ((x >> 16) & 0xff) as u8 && (((x & 0xffffffff) as u32 >> 24) & 0xff) as u8
        == ((x >> 24) & 0xff) as u8 && ((x >> 32) as u32 & 0xff) as u8 == ((x >> 32) & 0xff) as u8
        && (((x >> 32) as u32 >> 8) & 0xff) as u8 == ((x >> 40) & 0xff) as u8 && (((x >> 32) as u32
        >> 16) & 0xff) as u8 == ((x >> 48) & 0xff) as u8 && (((x >> 32) as u32 >> 24) & 0xff) as u8
        == ((x >> 56) & 0xff) as u8) by (bit_vector);
    assert(u32_le((x & 0xffffffff) as u32) + u32_le((x >> 32) as u32) =~= u64_le(x));
}

/// Packing two `u32` values into a `u64` concatenates their bytes.
pub proof fn lemma_u64_from_u32s(lo: u32, hi: u32)
    ensures
        u64_le((lo as u64) | ((hi as u64) << 32)) == u32_le(lo) + u32_le(hi),
{
    assert((((lo as u64) | ((hi as u64) << 32)) & 0xff) as u8 == (lo & 0xff) as u8 && ((((
    lo as u64) | ((hi as u64) << 32)) >> 8) & 0xff) as u8 == ((lo >> 8) & 0xff) as u8 && ((((
    lo as u64) | ((hi as u64) << 32)) >> 16) & 0xff) as u8 == ((lo >> 16) & 0xff) as u8 && ((((
    lo as u64) | ((hi as u64) << 32)) >> 24) & 0xff) as u8 == ((lo >> 24) & 0xff) as u8 && ((((
    lo as u64) | ((hi as u64) << 32)) >> 32) & 0xff) as u8 == (hi & 0xff) as u8 && ((((lo as u64)
        | ((hi as u64) << 32)) >> 40) & 0xff) as u8 == ((hi >> 8) & 0xff) as u8 && ((((lo as u64)
        | ((hi as u64) << 32)) >> 48) & 0xff) as u8 == ((hi >> 16) & 0xff) as u8 && ((((lo as u64)
        | ((hi as u64) << 32)) >> 56) & 0xff) as u8 == ((hi >> 24) & 0xff) as u8) by (bit_vector);
    assert(u64_le((lo as u64) | ((hi as u64) << 32)) =~= u32_le(lo) + u32_le(hi));
}

/// Packing two `u16` values into a `u32` concatenates their bytes.
pub proof fn lemma_u32_from_u16s(lo: u16, hi: u16)
    ensures
        u32_le((lo as u32) | ((hi as u32) << 16)) == u16_le(lo) + u16_le(hi),
{
    assert((((lo as u32) | ((hi as u32) << 16)) & 0xff) as u8 == (lo & 0xff) as u8 && ((((
    lo as u32) | ((hi as u32) << 16)) >> 8) & 0xff) as u8 == ((lo >> 8) & 0xff) as u8 && ((((
    lo as u32) | ((hi as u32) << 16)) >> 16) & 0xff) as u8 == (hi & 0xff) as u8 && ((((lo as u32)
        | ((hi as u32) << 16)) >> 24) & 0xff) as u8 == ((hi >> 8) & 0xff) as u8) by (bit_vector);
    assert(u32_le((lo as u32) | ((hi as u32) << 16)) =~= u16_le(lo) + u16_le(hi));
}

/// Packing a byte, a byte and a `u16` into a `u32` concatenates their bytes.
pub proof fn lemma_u32_from_8_8_16(a: u8, b: u8, c: u16)
    ensures
        u32_le((a as u32) | ((b as u32) << 8) | ((c as u32) << 16)) == seq![a, b] + u16_le(c),
{
    assert((((a as u32) | ((b as u32) << 8) | ((c as u32) << 16)) & 0xff) as u8 == a && ((((
    a as u32) | ((b as u32) << 8) | ((c as u32) << 16)) >> 8) & 0xff) as u8 == b && ((((a as u32)
        | ((b as u32) << 8) | ((c as u32) << 16)) >> 16) & 0xff) as u8 == (c & 0xff) as u8 && ((((
    a as u32) | ((b as u32) << 8) | ((c as u32) << 16)) >> 24) & 0xff) as u8 == ((c >> 8)
        & 0xff) as u8) by (bit_vector);
    assert(u32_le((a as u32) | ((b as u32) << 8) | ((c as u32) << 16)) =~= seq![a, b] + u16_le(c));
}

/// Packing four bytes into a `u32` concatenates them.
pub proof fn lemma_u32_from_bytes(a: u8, b: u8, c: u8, d: u8)
    ensures
        u32_le((a as u32) | ((b as u32) << 8) | ((c as u32) << 16) | ((d as u32) << 24)) == seq![a, b, c, d],
{
    assert((((a as u32) | ((b as u32) << 8) | ((c as u32) << 16) | ((d as u32) << 24))
        & 0xff) as u8 == a && ((((a as u32) | ((b as u32) << 8) | ((c as u32) << 16) | ((d as u32)
        << 24)) >> 8) & 0xff) as u8 == b && ((((a as u32) | ((b as u32) << 8) | ((c as u32) << 16)
        | ((d as u32) << 24)) >> 16) & 0xff) as u8 == c && ((((a as u32) | ((b as u32) << 8) | ((
    c as u32) << 16) | ((d as u32) << 24)) >> 24) & 0xff) as u8 == d) by (bit_vector);
    assert(u32_le((a as u32) | ((b as u32) << 8) | ((c as u32) << 16) | ((d as u32) << 24)) =~= seq![a, b, c, d]);
}

/// Splitting a `u64` into `u32` halves and joining them again is the identity.
pub proof fn lemma_u64_split_join(x: u64)
    ensures
        (((x & 0xffffffff) as u32) as u64) | ((((x >> 32) as u32) as u64) << 32) == x,
{
    assert(((((x & 0xffffffff) as u32) as u64) | ((((x >> 32) as u32) as u64) << 32)) == x)
        by (bit_vector);
}

/// The read/write I/O command: dwords 10..15 carry the starting logical
/// block address, transfer length and data-protection fields.
#[derive(Debug, Clone, Copy)]
pub struct NvmeRWCommand {
    pub opcode: u8,
    pub flags: u8,
    pub command_id: u16,
    pub nsid: u32,
    pub rsvd2: u64,
    pub metadata: u64,
    pub prp1: u64,
    pub prp2: u64,
    pub slba: u64,
    pub length: u16,
    pub control: u16,
    pub dsmgmt: u32,
    pub reftag: u32,
    pub apptag: u16,
    pub appmask: u16,
}

/// The wire bytes of a read/write command: slba at offset 40, length at 48,
/// control at 50, dsmgmt at 52, reftag at 56, apptag at 60, appmask at 62.
pub open spec fn rw_cmd_bytes(c: NvmeRWCommand) -> Seq<u8> {
    seq![c.opcode, c.flags] + u16_le(c.command_id) + u32_le(c.nsid) + u64_le(c.rsvd2) + u64_le(
        c.metadata,
    ) + u64_le(c.prp1) + u64_le(c.prp2) + u64_le(c.slba) + u16_le(c.length) + u16_le(c.control)
        + u32_le(c.dsmgmt) + u32_le(c.reftag) + u16_le(c.apptag) + u16_le(c.appmask)
}

impl NvmeRWCommand {
    /// A write command (opcode 0x01); every other byte zero.
    pub fn new_write_command() -> (r: Self)
        ensures
            r.opcode == 0x01,
            r.flags == 0,
            r.command_id == 0,
            r.nsid == 0,
            r.rsvd2 == 0,
            r.metadata == 0,
            r.prp1 == 0,
            r.prp2 == 0,
            r.slba == 0,
            r.length == 0,
            r.control == 0,
            r.dsmgmt == 0,
            r.reftag == 0,
            r.apptag == 0,
            r.appmask == 0,
    {
        NvmeRWCommand {
            opcode: 0x01,
            flags: 0,
            command_id: 0,
            nsid: 0,
            rsvd2: 0,
            metadata: 0,
            prp1: 0,
            prp2: 0,
            slba: 0,
            length: 0,
            control: 0,
            dsmgmt: 0,
            reftag: 0,
            apptag: 0,
            appmask: 0,
        }
    }

    /// A read command (opcode 0x02); every other byte zero.
    pub fn new_read_command() -> (r: Self)
        ensures
            r.opcode == 0x02,
            r.flags == 0,
            r.command_id == 0,
            r.nsid == 0,
            r.rsvd2 == 0,
            r.metadata == 0,
            r.prp1 == 0,
            r.prp2 == 0,
            r.slba == 0,
            r.length == 0,
            r.control == 0,
            r.dsmgmt == 0,
            r.reftag == 0,
            r.apptag == 0,
            r.appmask == 0,
    {
        NvmeRWCommand {
            opcode: 0x02,
            flags: 0,
            command_id: 0,
            nsid: 0,
            rsvd2: 0,
            metadata: 0,
            prp1: 0,
            prp2: 0,
            slba: 0,
            length: 0,
            control: 0,
            dsmgmt: 0,
            reftag: 0,
            apptag: 0,
            appmask: 0,
        }
    }

    /// Reinterpret as the common form, field by field at the same offsets.
    pub fn into_common(self) -> (r: NvmeCommonCommand)
        ensures
            r.opcode == self.opcode,
            r.flags == self.flags,
            r.command_id == self.command_id,
            r.nsid == self.nsid,
            r.cdw2[0] == (self.rsvd2 & 0xffffffff) as u32,
            r.cdw2[1] == (self.rsvd2 >> 32) as u32,
            r.metadata == self.metadata,
            r.prp1 == self.prp1,
            r.prp2 == self.prp2,
            r.cdw10 == (self.slba & 0xffffffff) as u32,
            r.cdw11 == (self.slba >> 32) as u32,
            r.cdw12 == (self.length as u32) | ((self.control as u32) << 16),
            r.cdw13 == self.dsmgmt,
            r.cdw14 == self.reftag,
            r.cdw15 == (self.apptag as u32) | ((self.appmask as u32) << 16),
            common_cmd_bytes(r) == rw_cmd_bytes(self),
    {
        let r = NvmeCommonCommand {
            opcode: self.opcode,
            flags: self.flags,
            command_id: self.command_id,
            nsid: self.nsid,
            cdw2: [(self.rsvd2 & 0xffffffff) as u32, (self.rsvd2 >> 32) as u32],
            metadata: self.metadata,
            prp1: self.prp1,
            prp2: self.prp2,
            cdw10: (self.slba & 0xffffffff) as u32,
            cdw11: (self.slba >> 32) as u32,
            cdw12: (self.length as u32) | ((self.control as u32) << 16),
            cdw13: self.dsmgmt,
            cdw14: self.reftag,
            cdw15: (self.apptag as u32) | ((self.appmask as u32) << 16),
        };
        proof {
            lemma_rw_to_common_layout(self, r);
        }
        r
    }
}

/// Reinterpreting a read/write command as the common form is the identity on
/// the wire bytes.
pub proof fn lemma_rw_to_common_layout(c: NvmeRWCommand, r: NvmeCommonCommand)
    requires
        r.opcode == c.opcode,
        r.flags == c.flags,
        r.command_id == c.command_id,
        r.nsid == c.nsid,
        r.cdw2[0] == (c.rsvd2 & 0xffffffff) as u32,
        r.cdw2[1] == (c.rsvd2 >> 32) as u32,
        r.metadata == c.metadata,
        r.prp1 == c.prp1,
        r.prp2 == c.prp2,
        r.cdw10 == (c.slba & 0xffffffff) as u32,
        r.cdw11 == (c.slba >> 32) as u32,
        r.cdw12 == (c.length as u32) | ((c.control as u32) << 16),
        r.cdw13 == c.dsmgmt,
        r.cdw14 == c.reftag,
        r.cdw15 == (c.apptag as u32) | ((c.appmask as u32) << 16),
    ensures
        common_cmd_bytes(r) == rw_cmd_bytes(c),
{
    lemma_u64_le_parts(c.rsvd2);
    lemma_u64_le_parts(c.slba);
    lemma_u32_from_u16s(c.length, c.control);
    lemma_u32_from_u16s(c.apptag, c.appmask);
    assert(common_cmd_bytes(r) =~= rw_cmd_bytes(c));
}

/// The create-I/O-completion-queue admin command: dword 10 carries the queue
/// id and size, dword 11 the queue flags and interrupt vector.
#[derive(Debug, Clone, Copy)]
pub struct NvmeCreateCq {
    pub opcode: u8,
    pub flags: u8,
    pub command_id: u16,
    pub nsid: u32,
    pub rsvd1: [u32; 4],
    pub prp1: u64,
    pub rsvd8: u64,
    pub cqid: u16,
    pub qsize: u16,
    pub cq_flags: u16,
    pub irq_vector: u16,
    pub rsvd12: [u32; 4],
}

/// The wire bytes of a create-CQ command: cqid at offset 40, qsize at 42,
/// cq_flags at 44, irq_vector at 46.
pub open spec fn create_cq_bytes(c: NvmeCreateCq) -> Seq<u8> {
    seq![c.opcode, c.flags] + u16_le(c.command_id) + u32_le(c.nsid) + u32_le(c.rsvd1[0]) + u32_le(
        c.rsvd1[1],
    ) + u32_le(c.rsvd1[2]) + u32_le(c.rsvd1[3]) + u64_le(c.prp1) + u64_le(c.rsvd8) + u16_le(c.cqid)
        + u16_le(c.qsize) + u16_le(c.cq_flags) + u16_le(c.irq_vector) + u32_le(c.rsvd12[0])
        + u32_le(c.rsvd12[1]) + u32_le(c.rsvd12[2]) + u32_le(c.rsvd12[3])
}

impl NvmeCreateCq {
    /// A create-CQ command (opcode 0x05); every other byte zero.
    pub fn new() -> (r: Self)
        ensures
            r.opcode == 0x05,
            r.flags == 0,
            r.command_id == 0,
            r.nsid == 0,
            r.rsvd1[0] == 0,
            r.rsvd1[1] == 0,
            r.rsvd1[2] == 0,
            r.rsvd1[3] == 0,
            r.prp1 == 0,
            r.rsvd8 == 0,
            r.cqid == 0,
            r.qsize == 0,
            r.cq_flags == 0,
            r.irq_vector == 0,
            r.rsvd12[0] == 0,
            r.rsvd12[1] == 0,
            r.rsvd12[2] == 0,
            r.rsvd12[3] == 0,
    {
        NvmeCreateCq {
            opcode: 0x05,
            flags: 0,
            command_id: 0,
            nsid: 0,
            rsvd1: [0, 0, 0, 0],
            prp1: 0,
            rsvd8: 0,
            cqid: 0,
            qsize: 0,
            cq_flags: 0,
            irq_vector: 0,
            rsvd12: [0, 0, 0, 0],
        }
    }

    /// Reinterpret as the common form, field by field at the same offsets.
    pub fn into_common(self) -> (r: NvmeCommonCommand)
        ensures
            r.opcode == self.opcode,
            r.flags == self.flags,
            r.command_id == self.command_id,
            r.nsid == self.nsid,
            r.cdw2[0] == self.rsvd1[0],
            r.cdw2[1] == self.rsvd1[1],
            r.metadata == (self.rsvd1[2] as u64) | ((self.rsvd1[3] as u64) << 32),
            r.prp1 == self.prp1,
            r.prp2 == self.rsvd8,
            r.cdw10 == (self.cqid as u32) | ((self.qsize as u32) << 16),
            r.cdw11 == (self.cq_flags as u32) | ((self.irq_vector as u32) << 16),
            r.cdw12 == self.rsvd12[0],
            r.cdw13 == self.rsvd12[1],
            r.cdw14 == self.rsvd12[2],
            r.cdw15 == self.rsvd12[3],
            common_cmd_bytes(r) == create_cq_bytes(self),
    {
        let r = NvmeCommonCommand {
            opcode: self.opcode,
            flags: self.flags,
            command_id: self.command_id,
            nsid: self.nsid,
            cdw2: [self.rsvd1[0], self.rsvd1[1]],
            metadata: (self.rsvd1[2] as u64) | ((self.rsvd1[3] as u64) << 32),
            prp1: self.prp1,
            prp2: self.rsvd8,
            cdw10: (self.cqid as u32) | ((self.qsize as u32) << 16),
            cdw11: (self.cq_flags as u32) | ((self.irq_vector as u32) << 16),
            cdw12: self.rsvd12[0],
            cdw13: self.rsvd12[1],
            cdw14: self.rsvd12[2],
            cdw15: self.rsvd12[3],
        };
        proof {
            lemma_u64_from_u32s(self.rsvd1[2], self.rsvd1[3]);
            lemma_u32_from_u16s(self.cqid, self.qsize);
            lemma_u32_from_u16s(self.cq_flags, self.irq_vector);
            assert(common_cmd_bytes(r) =~= create_cq_bytes(self));
        }
        r
    }
}

/// The create-I/O-submission-queue admin command: dword 10 carries the queue
/// id and size, dword 11 the queue flags and the paired completion queue id.
#[derive(Debug, Clone, Copy)]
pub struct NvmeCreateSq {
    pub opcode: u8,
    pub flags: u8,
    pub command_id: u16,
    pub nsid: u32,
    pub rsvd1: [u32; 4],
    pub prp1: u64,
    pub rsvd8: u64,
    pub sqid: u16,
    pub qsize: u16,
    pub sq_flags: u16,
    pub cqid: u16,
    pub rsvd12: [u32; 4],
}

/// The wire bytes of a create-SQ command: sqid at offset 40, qsize at 42,
/// sq_flags at 44, cqid at 46.
pub open spec fn create_sq_bytes(c: NvmeCreateSq) -> Seq<u8> {
    seq![c.opcode, c.flags] + u16_le(c.command_id) + u32_le(c.nsid) + u32_le(c.rsvd1[0]) + u32_le(
        c.rsvd1[1],
    ) + u32_le(c.rsvd1[2]) + u32_le(c.rsvd1[3]) + u64_le(c.prp1) + u64_le(c.rsvd8) + u16_le(c.sqid)
        + u16_le(c.qsize) + u16_le(c.sq_flags) + u16_le(c.cqid) + u32_le(c.rsvd12[0]) + u32_le(
        c.rsvd12[1],
    ) + u32_le(c.rsvd12[2]) + u32_le(c.rsvd12[3])
}

impl NvmeCreateSq {
    /// A create-SQ command (opcode 0x01); every other byte zero.
    pub fn new() -> (r: Self)
        ensures
            r.opcode == 0x01,
            r.flags == 0,
            r.command_id == 0,
            r.nsid == 0,
            r.rsvd1[0] == 0,
            r.rsvd1[1] == 0,
            r.rsvd1[2] == 0,
            r.rsvd1[3] == 0,
            r.prp1 == 0,
            r.rsvd8 == 0,
            r.sqid == 0,
            r.qsize == 0,
            r.sq_flags == 0,
            r.cqid == 0,
            r.rsvd12[0] == 0,
            r.rsvd12[1] == 0,
            r.rsvd12[2] == 0,
            r.rsvd12[3] == 0,
    {
        NvmeCreateSq {
            opcode: 0x01,
            flags: 0,
            command_id: 0,
            nsid: 0,
            rsvd1: [0, 0, 0, 0],
            prp1: 0,
            rsvd8: 0,
            sqid: 0,
            qsize: 0,
            sq_flags: 0,
            cqid: 0,
            rsvd12: [0, 0, 0, 0],
        }
    }

    /// Reinterpret as the common form, field by field at the same offsets.
    pub fn into_common(self) -> (r: NvmeCommonCommand)
        ensures
            r.opcode == self.opcode,
            r.flags == self.flags,
            r.command_id == self.command_id,
            r.nsid == self.nsid,
            r.cdw2[0] == self.rsvd1[0],
            r.cdw2[1] == self.rsvd1[1],
            r.metadata == (self.rsvd1[2] as u64) | ((self.rsvd1[3] as u64) << 32),
            r.prp1 == self.prp1,
            r.prp2 == self.rsvd8,
            r.cdw10 == (self.sqid as u32) | ((self.qsize as u32) << 16),
            r.cdw11 == (self.sq_flags as u32) | ((self.cqid as u32) << 16),
            r.cdw12 == self.rsvd12[0],
            r.cdw13 == self.rsvd12[1],
            r.cdw14 == self.rsvd12[2],
            r.cdw15 == self.rsvd12[3],
            common_cmd_bytes(r) == create_sq_bytes(self),
    {
        let r = NvmeCommonCommand {
            opcode: self.opcode,
            flags: self.flags,
            command_id: self.command_id,
            nsid: self.nsid,
            cdw2: [self.rsvd1[0], self.rsvd1[1]],
            metadata: (self.rsvd1[2] as u64) | ((self.rsvd1[3] as u64) << 32),
            prp1: self.prp1,
            prp2: self.rsvd8,
            cdw10: (self.sqid as u32) | ((self.qsize as u32) << 16),
            cdw11: (self.sq_flags as u32) | ((self.cqid as u32) << 16),
            cdw12: self.rsvd12[0],
            cdw13: self.rsvd12[1],
            cdw14: self.rsvd12[2],
            cdw15: self.rsvd12[3],
        };
        proof {
            lemma_u64_from_u32s(self.rsvd1[2], self.rsvd1[3]);
            lemma_u32_from_u16s(self.sqid, self.qsize);
            lemma_u32_from_u16s(self.sq_flags, self.cqid);
            assert(common_cmd_bytes(r) =~= create_sq_bytes(self));
        }
        r
    }
}

/// The identify admin command: dword 10 carries the CNS value and controller
/// id, dword 11 the command-set identifier.
#[derive(Debug, Clone, Copy)]
pub struct NvmeIdentify {
    pub opcode: u8,
    pub flags: u8,
    pub command_id: u16,
    pub nsid: u32,
    pub rsvd2: [u64; 2],
    pub prp1: u64,
    pub prp2: u64,
    pub cns: u8,
    pub rsvd3: u8,
    pub ctrlid: u16,
    pub rsvd11: [u8; 3],
    pub csi: u8,
    pub rsvd12: [u32; 4],
}

/// The wire bytes of an identify command: cns at offset 40, ctrlid at 42,
/// csi at 47.
pub open spec fn identify_bytes(c: NvmeIdentify) -> Seq<u8> {
    seq![c.opcode, c.flags] + u16_le(c.command_id) + u32_le(c.nsid) + u64_le(c.rsvd2[0]) + u64_le(
        c.rsvd2[1],
    ) + u64_le(c.prp1) + u64_le(c.prp2) + seq![c.cns, c.rsvd3] + u16_le(c.ctrlid) + seq![
        c.rsvd11[0],
        c.rsvd11[1],
        c.rsvd11[2],
        c.csi,
    ] + u32_le(c.rsvd12[0]) + u32_le(c.rsvd12[1]) + u32_le(c.rsvd12[2]) + u32_le(c.rsvd12[3])
}

impl NvmeIdentify {
    /// An identify-namespace command (opcode 0x06, cns 1, nsid 1, cid 1);
    /// every other byte zero.
    pub fn new() -> (r: Self)
        ensures
            r.opcode == 0x06,
            r.flags == 0,
            r.command_id == 1,
            r.nsid == 1,
            r.rsvd2[0] == 0,
            r.rsvd2[1] == 0,
            r.prp1 == 0,
            r.prp2 == 0,
            r.cns == 1,
            r.rsvd3 == 0,
            r.ctrlid == 0,
            r.rsvd11[0] == 0,
            r.rsvd11[1] == 0,
            r.rsvd11[2] == 0,
            r.csi == 0,
            r.rsvd12[0] == 0,
            r.rsvd12[1] == 0,
            r.rsvd12[2] == 0,
            r.rsvd12[3] == 0,
    {
        NvmeIdentify {
            opcode: 0x06,
            flags: 0,
            command_id: 1,
            nsid: 1,
            rsvd2: [0, 0],
            prp1: 0,
            prp2: 0,
            cns: 1,
            rsvd3: 0,
            ctrlid: 0,
            rsvd11: [0, 0, 0],
            csi: 0,
            rsvd12: [0, 0, 0, 0],
        }
    }

    /// Reinterpret as the common form, field by field at the same offsets.
    pub fn into_common(self) -> (r: NvmeCommonCommand)
        ensures
            r.opcode == self.opcode,
            r.flags == self.flags,
            r.command_id == self.command_id,
            r.nsid == self.nsid,
            r.cdw2[0] == (self.rsvd2[0] & 0xffffffff) as u32,
            r.cdw2[1] == (self.rsvd2[0] >> 32) as u32,
            r.metadata == self.rsvd2[1],
            r.prp1 == self.prp1,
            r.prp2 == self.prp2,
            r.cdw10 == (self.cns as u32) | ((self.rsvd3 as u32) << 8) | ((self.ctrlid as u32)
                << 16),
            r.cdw11 == (self.rsvd11[0] as u32) | ((self.rsvd11[1] as u32) << 8) | ((
            self.rsvd11[2] as u32) << 16) | ((self.csi as u32) << 24),
            r.cdw12 == self.rsvd12[0],
            r.cdw13 == self.rsvd12[1],
            r.cdw14 == self.rsvd12[2],
            r.cdw15 == self.rsvd12[3],
            common_cmd_bytes(r) == identify_bytes(self),
    {
        let r = NvmeCommonCommand {
            opcode: self.opcode,
            flags: self.flags,
            command_id: self.command_id,
            nsid: self.nsid,
            cdw2: [(self.rsvd2[0] & 0xffffffff) as u32, (self.rsvd2[0] >> 32) as u32],
            metadata: self.rsvd2[1],
            prp1: self.prp1,
            prp2: self.prp2,
            cdw10: (self.cns as u32) | ((self.rsvd3 as u32) << 8) | ((self.ctrlid as u32) << 16),
            cdw11: (self.rsvd11[0] as u32) | ((self.rsvd11[1] as u32) << 8) | ((
            self.rsvd11[2] as u32) << 16) | ((self.csi as u32) << 24),
            cdw12: self.rsvd12[0],
            cdw13: self.rsvd12[1],
            cdw14: self.rsvd12[2],
            cdw15: self.rsvd12[3],
        };
        proof {
            lemma_u64_le_parts(self.rsvd2[0]);
            lemma_u32_from_8_8_16(self.cns, self.rsvd3, self.ctrlid);
            lemma_u32_from_bytes(self.rsvd11[0], self.rsvd11[1], self.rsvd11[2], self.csi);
            assert(common_cmd_bytes(r) =~= identify_bytes(self));
        }
        r
    }
}

/// The set-features admin command: dword 10 carries the feature id, dword 11
/// the feature value.
#[derive(Debug, Clone, Copy)]
pub struct NvmeFeatures {
    pub opcode: u8,
    pub flags: u8,
    pub command_id: u16,
    pub nsid: u32,
    pub rsvd2: [u64; 2],
    pub prp1: u64,
    pub prp2: u64,
    pub fid: u32,
    pub dword11: u32,
    pub rsvd12: [u32; 4],
}

/// The wire bytes of a set-features command: fid at offset 40, dword11 at 44.
pub open spec fn features_bytes(c: NvmeFeatures) -> Seq<u8> {
    seq![c.opcode, c.flags] + u16_le(c.command_id) + u32_le(c.nsid) + u64_le(c.rsvd2[0]) + u64_le(
        c.rsvd2[1],
    ) + u64_le(c.prp1) + u64_le(c.prp2) + u32_le(c.fid) + u32_le(c.dword11) + u32_le(c.rsvd12[0])
        + u32_le(c.rsvd12[1]) + u32_le(c.rsvd12[2]) + u32_le(c.rsvd12[3])
}

impl NvmeFeatures {
    /// A set-features command (opcode 0x09) for the given feature id and
    /// value; every other byte zero.
    pub fn new(fid: u32, dword11: u32) -> (r: Self)
        ensures
            r.opcode == 0x09,
            r.flags == 0,
            r.command_id == 0,
            r.nsid == 0,
            r.rsvd2[0] == 0,
            r.rsvd2[1] == 0,
            r.prp1 == 0,
            r.prp2 == 0,
            r.fid == fid,
            r.dword11 == dword11,
            r.rsvd12[0] == 0,
            r.rsvd12[1] == 0,
            r.rsvd12[2] == 0,
            r.rsvd12[3] == 0,
    {
        NvmeFeatures {
            opcode: 0x09,
            flags: 0,
            command_id: 0,
            nsid: 0,
            rsvd2: [0, 0],
            prp1: 0,
            prp2: 0,
            fid,
            dword11,
            rsvd12: [0, 0, 0, 0],
        }
    }

    /// Reinterpret as the common form, field by field at the same offsets.
    pub fn into_common(self) -> (r: NvmeCommonCommand)
        ensures
            r.opcode == self.opcode,
            r.flags == self.flags,
            r.command_id == self.command_id,
            r.nsid == self.nsid,
            r.cdw2[0] == (self.rsvd2[0] & 0xffffffff) as u32,
            r.cdw2[1] == (self.rsvd2[0] >> 32) as u32,
            r.metadata == self.rsvd2[1],
            r.prp1 == self.prp1,
            r.prp2 == self.prp2,
            r.cdw10 == self.fid,
            r.cdw11 == self.dword11,
            r.cdw12 == self.rsvd12[0],
            r.cdw13 == self.rsvd12[1],
            r.cdw14 == self.rsvd12[2],
            r.cdw15 == self.rsvd12[3],
            common_cmd_bytes(r) == features_bytes(self),
    {
        let r = NvmeCommonCommand {
            opcode: self.opcode,
            flags: self.flags,
            command_id: self.command_id,
            nsid: self.nsid,
            cdw2: [(self.rsvd2[0] & 0xffffffff) as u32, (self.rsvd2[0] >> 32) as u32],
            metadata: self.rsvd2[1],
            prp1: self.prp1,
            prp2: self.prp2,
            cdw10: self.fid,
            cdw11: self.dword11,
            cdw12: self.rsvd12[0],
            cdw13: self.rsvd12[1],
            cdw14: self.rsvd12[2],
            cdw15: self.rsvd12[3],
        };
        proof {
            lemma_u64_le_parts(self.rsvd2[0]);
            assert(common_cmd_bytes(r) =~= features_bytes(self));
        }
        r
    }
}

} // verus!
