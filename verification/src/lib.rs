//! Verified core of a block-storage adapter for AHCI (SATA) controllers.
//!
//! The crate holds the controller's descriptor model and the decisions the
//! adapter makes around each hardware call: how many blocks a buffer covers,
//! what is handed to the controller, and when a completed call counts as a
//! success. The hardware calls themselves are made by the embedding driver.

pub mod blocks;
pub mod descriptor;
pub mod driver;
pub mod error;
pub mod transfer;

pub use descriptor::{ahci_blk_dev, ahci_cmd_hdr, ahci_device, ahci_ioport, ahci_sg};
pub use driver::AhciDriver;
pub use error::{DevError, DeviceType};
pub use transfer::{Direction, Transfer};
