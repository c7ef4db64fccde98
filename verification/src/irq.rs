//! The interrupt-line capability the core consumes, a no-op provider for
//! pure polling mode, and the interrupt-service hook.

use vstd::prelude::*;
use crate::defs::NVME_REG_DBS;
use crate::device::DbWrite;
use crate::nvme::NvmeInterface;
use crate::queue::next_index;
use crate::queue::next_phase;

verus! {

/// Control over one interrupt line. Called only from the interrupt-mode
/// entry points; the core is correct in pure polling mode.
pub trait IrqController {
    /// Mask the line.
    fn disable_irq(irq_num: usize);

    /// Unmask the line.
    fn enable_irq(irq_num: usize);
}

/// An interrupt controller for pure polling mode: both operations do
/// nothing, as no interrupt is ever awaited.
pub struct IrqProvider;

impl IrqController for IrqProvider {
    fn disable_irq(irq_num: usize) {
    }

    fn enable_irq(irq_num: usize) {
    }
}

/// The interrupt-service hook: drain at most one completion from I/O queue 1
/// and acknowledge its doorbell. With nothing outstanding it changes
/// nothing; with one pending completion it advances the CQ head one slot
/// (toggling the phase on wrap) and writes the new head to the I/O queue's
/// CQ head doorbell.
pub fn irq_handler(nvme: &mut NvmeInterface)
    requires
        old(nvme).admin_ok(),
        old(nvme).io_ok() || old(nvme).io_pending(),
    ensures
        final(nvme).wf(),
        old(nvme).io_ok() ==> *final(nvme) == *old(nvme),
        old(nvme).io_pending() ==> ({
            &&& final(nvme).store() == old(nvme).store()
            &&& final(nvme).io_queue.cq_head == next_index(
                old(nvme).io_queue.cq_head as int,
                old(nvme).io_queue.q_depth as int,
            )
            &&& final(nvme).io_queue.cq_phase == next_phase(
                old(nvme).io_queue.cq_head as int,
                old(nvme).io_queue.cq_phase as int,
                old(nvme).io_queue.q_depth as int,
            )
            &&& final(nvme).io_queue.sq_tail == old(nvme).io_queue.sq_tail
            &&& final(nvme).admin_queue == old(nvme).admin_queue
            &&& final(nvme).device.reg_log == old(nvme).device.reg_log
            &&& final(nvme).device.admin_log == old(nvme).device.admin_log
            &&& final(nvme).device.csts_log == old(nvme).device.csts_log
            &&& final(nvme).device.db_log@ == old(nvme).device.db_log@.push(
                (DbWrite {
                    addr: (old(nvme).bar + NVME_REG_DBS + 8 + 4) as usize,
                    value: next_index(
                        old(nvme).io_queue.cq_head as int,
                        old(nvme).io_queue.q_depth as int,
                    ) as usize,
                }),
            )
        }),
{
    nvme.handle_irq();
}

} // verus!
