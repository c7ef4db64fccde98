//! The interrupt hook and the polling-mode interrupt provider.

use nvme_driver::irq_handler;
use nvme_driver::DmaProvider;
use nvme_driver::IrqProvider;
use nvme_driver::NvmeDevice;
use nvme_driver::NvmeInterface;

#[test]
fn test_irq_handler_drains_one_completion() {
    let mut dma = DmaProvider::new(0x81000000);
    let device = NvmeDevice::new(0x40000000, 16);
    let mut nvme = NvmeInterface::new(&mut dma, 0x40000000, device);
    let buf = [4u8; 512];
    nvme.send_write_command(2, &buf, 11);
    assert_eq!(nvme.io_queue.cq_head, 0);
    irq_handler(&mut nvme);
    assert_eq!(nvme.io_queue.cq_head, 1);
    // nothing left to drain: a second call changes nothing
    irq_handler(&mut nvme);
    assert_eq!(nvme.io_queue.cq_head, 1);
}

#[test]
fn test_poll_irqdisable_uses_the_controller() {
    let mut dma = DmaProvider::new(0x81000000);
    let device = NvmeDevice::new(0x40000000, 16);
    let nvme = NvmeInterface::new(&mut dma, 0x40000000, device);
    assert_eq!(nvme.irq, 33);
    nvme.nvme_poll_irqdisable::<IrqProvider>();
}
