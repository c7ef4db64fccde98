//! Core of a bare-metal NVMe block-device driver, verified against an
//! in-crate model of the controller.
//!
//! The crate is organised around four pieces:
//! - [`defs`]: the fixed-width NVMe command and completion records, their
//!   byte-exact wire layout, and proofs that every typed command family
//!   serialises to the same bytes as its common form;
//! - [`queue`]: a submission/completion queue pair with its index arithmetic
//!   (tail advance, head advance, phase toggling);
//! - [`device`]: a model of an NVMe controller as seen through its MMIO
//!   registers, doorbells and DMA rings -- the semantics the engine is
//!   verified against;
//! - [`nvme`]: the controller engine, which drives the enable handshake,
//!   creates the I/O queue pair, and serves single-block reads and writes.

pub mod defs;
pub mod dma;
pub mod irq;
pub mod queue;
pub mod device;
pub mod nvme;

pub use crate::defs::NvmeCommonCommand;
pub use crate::defs::NvmeCompletion;
pub use crate::defs::NvmeCreateCq;
pub use crate::defs::NvmeCreateSq;
pub use crate::defs::NvmeFeatures;
pub use crate::defs::NvmeIdentify;
pub use crate::defs::NvmeRWCommand;
pub use crate::device::NvmeDevice;
pub use crate::dma::DmaAllocator;
pub use crate::dma::DmaProvider;
pub use crate::dma::phys_to_virt;
pub use crate::dma::virt_to_phys;
pub use crate::irq::irq_handler;
pub use crate::irq::IrqController;
pub use crate::irq::IrqProvider;
pub use crate::nvme::NvmeInterface;
pub use crate::queue::NvmeQueue;
