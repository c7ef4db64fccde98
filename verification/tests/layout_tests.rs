//! Byte-exact wire layout of the command and completion records.

use nvme_driver::NvmeCommonCommand;
use nvme_driver::NvmeCompletion;
use nvme_driver::NvmeCreateCq;
use nvme_driver::NvmeCreateSq;
use nvme_driver::NvmeFeatures;
use nvme_driver::NvmeIdentify;
use nvme_driver::NvmeRWCommand;

#[test]
fn test_common_command_is_64_bytes_of_zeroes() {
    let cmd = NvmeCommonCommand::new();
    let bytes = cmd.to_bytes();
    assert_eq!(bytes.len(), 64);
    assert!(bytes.iter().all(|&b| b == 0));
}

#[test]
fn test_common_command_field_offsets() {
    let mut cmd = NvmeCommonCommand::new();
    cmd.opcode = 0xab;
    cmd.flags = 0x5a;
    cmd.command_id = 0x1234;
    cmd.nsid = 0xa1b2c3d4;
    cmd.cdw2 = [0x01020304, 0x05060708];
    cmd.metadata = 0x1112131415161718;
    cmd.prp1 = 0x2122232425262728;
    cmd.prp2 = 0x3132333435363738;
    cmd.cdw10 = 0x41424344;
    cmd.cdw11 = 0x51525354;
    cmd.cdw12 = 0x61626364;
    cmd.cdw13 = 0x71727374;
    cmd.cdw14 = 0x81828384;
    cmd.cdw15 = 0x91929394;
    let b = cmd.to_bytes();
    assert_eq!(b.len(), 64);
    assert_eq!(b[0], 0xab);
    assert_eq!(b[1], 0x5a);
    assert_eq!(&b[2..4], &[0x34, 0x12]);
    assert_eq!(&b[4..8], &[0xd4, 0xc3, 0xb2, 0xa1]);
    assert_eq!(&b[8..12], &[0x04, 0x03, 0x02, 0x01]);
    assert_eq!(&b[12..16], &[0x08, 0x07, 0x06, 0x05]);
    assert_eq!(&b[16..24], &[0x18, 0x17, 0x16, 0x15, 0x14, 0x13, 0x12, 0x11]);
    assert_eq!(&b[24..32], &[0x28, 0x27, 0x26, 0x25, 0x24, 0x23, 0x22, 0x21]);
    assert_eq!(&b[32..40], &[0x38, 0x37, 0x36, 0x35, 0x34, 0x33, 0x32, 0x31]);
    assert_eq!(&b[40..44], &[0x44, 0x43, 0x42, 0x41]);
    assert_eq!(&b[44..48], &[0x54, 0x53, 0x52, 0x51]);
    assert_eq!(&b[48..52], &[0x64, 0x63, 0x62, 0x61]);
    assert_eq!(&b[52..56], &[0x74, 0x73, 0x72, 0x71]);
    assert_eq!(&b[56..60], &[0x84, 0x83, 0x82, 0x81]);
    assert_eq!(&b[60..64], &[0x94, 0x93, 0x92, 0x91]);
}

#[test]
fn test_rw_command_constructors() {
    let w = NvmeRWCommand::new_write_command();
    assert_eq!(w.opcode, 0x01);
    assert_eq!(w.command_id, 0);
    assert_eq!(w.nsid, 0);
    assert_eq!(w.prp1, 0);
    assert_eq!(w.slba, 0);
    assert_eq!(w.length, 0);
    let r = NvmeRWCommand::new_read_command();
    assert_eq!(r.opcode, 0x02);
    assert_eq!(r.command_id, 0);
    assert_eq!(r.slba, 0);
}

#[test]
fn test_rw_command_layout_as_common_is_identity() {
    let mut cmd = NvmeRWCommand::new_read_command();
    cmd.command_id = 0x0201;
    cmd.nsid = 1;
    cmd.rsvd2 = 0xf1f2f3f4f5f6f7f8;
    cmd.metadata = 0xe1e2e3e4e5e6e7e8;
    cmd.prp1 = 0xd1d2d3d4d5d6d7d8;
    cmd.prp2 = 0xc1c2c3c4c5c6c7c8;
    cmd.slba = 0x0102030405060708;
    cmd.length = 0xaabb;
    cmd.control = 0xccdd;
    cmd.dsmgmt = 0x11223344;
    cmd.reftag = 0x55667788;
    cmd.apptag = 0x99aa;
    cmd.appmask = 0xbbcc;
    let b = cmd.into_common().to_bytes();
    assert_eq!(b.len(), 64);
    assert_eq!(b[0], 0x02);
    assert_eq!(&b[2..4], &[0x01, 0x02]);
    assert_eq!(&b[4..8], &[1, 0, 0, 0]);
    assert_eq!(&b[8..16], &[0xf8, 0xf7, 0xf6, 0xf5, 0xf4, 0xf3, 0xf2, 0xf1]);
    assert_eq!(&b[16..24], &[0xe8, 0xe7, 0xe6, 0xe5, 0xe4, 0xe3, 0xe2, 0xe1]);
    assert_eq!(&b[24..32], &[0xd8, 0xd7, 0xd6, 0xd5, 0xd4, 0xd3, 0xd2, 0xd1]);
    assert_eq!(&b[32..40], &[0xc8, 0xc7, 0xc6, 0xc5, 0xc4, 0xc3, 0xc2, 0xc1]);
    // slba at 40..48, little-endian
    assert_eq!(&b[40..48], &[0x08, 0x07, 0x06, 0x05, 0x04, 0x03, 0x02, 0x01]);
    // length at 48, control at 50
    assert_eq!(&b[48..50], &[0xbb, 0xaa]);
    assert_eq!(&b[50..52], &[0xdd, 0xcc]);
    // dsmgmt at 52, reftag at 56
    assert_eq!(&b[52..56], &[0x44, 0x33, 0x22, 0x11]);
    assert_eq!(&b[56..60], &[0x88, 0x77, 0x66, 0x55]);
    // apptag at 60, appmask at 62
    assert_eq!(&b[60..62], &[0xaa, 0x99]);
    assert_eq!(&b[62..64], &[0xcc, 0xbb]);
}

#[test]
fn test_create_cq_layout() {
    let mut cmd = NvmeCreateCq::new();
    assert_eq!(cmd.opcode, 0x05);
    cmd.command_id = 3;
    cmd.prp1 = 0x0000000081234000;
    cmd.cqid = 1;
    cmd.qsize = 1023;
    cmd.cq_flags = 0x0003;
    cmd.irq_vector = 0x0007;
    let b = cmd.into_common().to_bytes();
    assert_eq!(b.len(), 64);
    assert_eq!(b[0], 0x05);
    assert_eq!(&b[2..4], &[3, 0]);
    assert_eq!(&b[24..32], &[0x00, 0x40, 0x23, 0x81, 0x00, 0x00, 0x00, 0x00]);
    // cqid at 40, qsize at 42 (1023 = 0x03ff), flags at 44, irq vector at 46
    assert_eq!(&b[40..42], &[1, 0]);
    assert_eq!(&b[42..44], &[0xff, 0x03]);
    assert_eq!(&b[44..46], &[0x03, 0x00]);
    assert_eq!(&b[46..48], &[0x07, 0x00]);
}

#[test]
fn test_create_sq_layout() {
    let mut cmd = NvmeCreateSq::new();
    assert_eq!(cmd.opcode, 0x01);
    cmd.command_id = 4;
    cmd.prp1 = 0x0000000081230000;
    cmd.sqid = 1;
    cmd.qsize = 1023;
    cmd.sq_flags = 0x0001;
    cmd.cqid = 1;
    let b = cmd.into_common().to_bytes();
    assert_eq!(b.len(), 64);
    assert_eq!(b[0], 0x01);
    assert_eq!(&b[2..4], &[4, 0]);
    assert_eq!(&b[24..32], &[0x00, 0x00, 0x23, 0x81, 0x00, 0x00, 0x00, 0x00]);
    // sqid at 40, qsize at 42, flags at 44, bound cqid at 46
    assert_eq!(&b[40..42], &[1, 0]);
    assert_eq!(&b[42..44], &[0xff, 0x03]);
    assert_eq!(&b[44..46], &[0x01, 0x00]);
    assert_eq!(&b[46..48], &[0x01, 0x00]);
}

#[test]
fn test_identify_layout() {
    let cmd = NvmeIdentify::new();
    assert_eq!(cmd.opcode, 0x06);
    assert_eq!(cmd.command_id, 1);
    assert_eq!(cmd.nsid, 1);
    assert_eq!(cmd.cns, 1);
    let b = cmd.into_common().to_bytes();
    assert_eq!(b.len(), 64);
    assert_eq!(b[0], 0x06);
    assert_eq!(&b[2..4], &[1, 0]);
    assert_eq!(&b[4..8], &[1, 0, 0, 0]);
    // cns at offset 40
    assert_eq!(b[40], 1);
    assert!(b[41..64].iter().all(|&x| x == 0));
}

#[test]
fn test_features_layout() {
    let cmd = NvmeFeatures::new(0x07, 0x00070007);
    assert_eq!(cmd.opcode, 0x09);
    assert_eq!(cmd.fid, 0x07);
    assert_eq!(cmd.dword11, 0x00070007);
    let b = cmd.into_common().to_bytes();
    assert_eq!(b.len(), 64);
    assert_eq!(b[0], 0x09);
    // fid in dword 10 (offset 40), value in dword 11 (offset 44)
    assert_eq!(&b[40..44], &[0x07, 0, 0, 0]);
    assert_eq!(&b[44..48], &[0x07, 0x00, 0x07, 0x00]);
}

#[test]
fn test_completion_layout() {
    let mut cqe = NvmeCompletion::new();
    assert_eq!(cqe.status, 0);
    cqe.result = 0x1020304050607080;
    cqe.sq_head = 0x0102;
    cqe.sq_id = 0x0304;
    cqe.command_id = 0x0506;
    cqe.status = 0x0708;
    let b = cqe.to_bytes();
    assert_eq!(b.len(), 16);
    assert_eq!(&b[0..8], &[0x80, 0x70, 0x60, 0x50, 0x40, 0x30, 0x20, 0x10]);
    assert_eq!(&b[8..10], &[0x02, 0x01]);
    assert_eq!(&b[10..12], &[0x04, 0x03]);
    assert_eq!(&b[12..14], &[0x06, 0x05]);
    assert_eq!(&b[14..16], &[0x08, 0x07]);
}
