//! The block adapter: one initialised host bus adapter, seen as a block
//! device.
//!
//! The adapter decides; it does not touch the hardware. The embedding driver
//! hands the controller an empty descriptor, passes what came back to
//! [`AhciDriver::try_new`], and for each request performs the [`Transfer`]
//! that [`AhciDriver::read_block`] or [`AhciDriver::write_block`] made and
//! reports the controller's answer to [`Transfer::finish`].

use crate::descriptor::ahci_device;
use crate::error::{DevError, DeviceType};
use crate::transfer::{Direction, Transfer};
use vstd::prelude::*;

verus! {

/// Block adapter over one initialised AHCI host bus adapter.
///
/// An adapter exists only for a controller whose initialisation succeeded; it
/// owns the descriptor that initialisation filled in and never changes it.
pub struct AhciDriver {
    device: ahci_device,
}

impl View for AhciDriver {
    type V = ahci_device;

    /// The descriptor the adapter owns.
    closed spec fn view(&self) -> ahci_device {
        self.device
    }
}

impl AhciDriver {
    /// Bytes per block, as the device reported them.
    pub open spec fn spec_block_size(&self) -> usize {
        self@.blk_dev.blksz as usize
    }

    /// Number of addressable blocks, as the device reported it.
    pub open spec fn spec_num_blocks(&self) -> u64 {
        self@.blk_dev.lba
    }

    /// Makes the adapter from the controller's answer to initialisation.
    ///
    /// `status` is the completion code of the initialisation and `device` the
    /// descriptor it filled in, handed to it empty (see
    /// [`ahci_device::zeroed`]). A zero status yields the adapter over
    /// `device`; any other status is an I/O error and yields no adapter. The
    /// status is not read beyond that.
    pub fn try_new(status: i32, device: ahci_device) -> (r: Result<AhciDriver, DevError>)
        ensures
            match r {
                Ok(driver) => status == 0 && driver@ == device,
                Err(e) => status != 0 && e == DevError::Io,
            },
    {
        if status == 0 {
            Ok(AhciDriver { device })
        } else {
            Err(DevError::Io)
        }
    }

    /// The descriptor of the underlying controller.
    pub fn device(&self) -> (device: &ahci_device)
        ensures
            *device == self@,
    {
        &self.device
    }

    /// The class of the device: always a block device.
    pub fn device_type(&self) -> (class: DeviceType)
        ensures
            class == DeviceType::Block,
    {
        DeviceType::Block
    }

    /// The name of the device: always `"ahci"`.
    pub fn device_name(&self) -> (name: &str)
        ensures
            name@ == "ahci"@,
    {
        "ahci"
    }

    /// Number of addressable blocks of the device.
    #[verifier::when_used_as_spec(spec_num_blocks)]
    pub fn num_blocks(&self) -> (blocks: u64)
        ensures
            blocks == self.spec_num_blocks(),
    {
        self.device.blk_dev.lba
    }

    /// Bytes per block of the device.
    #[verifier::when_used_as_spec(spec_block_size)]
    pub fn block_size(&self) -> (bytes: usize)
        ensures
            bytes == self.spec_block_size(),
    {
        #[verifier::truncate]
        (self.device.blk_dev.blksz as usize)
    }

    /// Makes the transfer that reads a buffer of `buf_len` bytes, starting at
    /// block `block_id`.
    ///
    /// The transfer covers `buf_len / block_size` blocks, rounded up. A
    /// `buf_len` that is not a whole number of blocks is not an error: the
    /// transfer is marked as not aligned and still covers the last block in
    /// full. The adapter is left as it was.
    pub fn read_block(&mut self, block_id: u64, buf_len: usize) -> (t: Transfer)
        requires
            old(self).block_size() > 0,
        ensures
            *final(self) == *old(self),
            t == Transfer::planned(Direction::Read, old(self).block_size(), block_id, buf_len),
    {
        let block_size: usize = self.block_size();
        Transfer::plan(Direction::Read, block_size, block_id, buf_len)
    }

    /// Makes the transfer that writes a buffer of `buf_len` bytes, starting at
    /// block `block_id`. It is the transfer of a read of the same buffer at
    /// the same block, in the other direction.
    pub fn write_block(&mut self, block_id: u64, buf_len: usize) -> (t: Transfer)
        requires
            old(self).block_size() > 0,
        ensures
            *final(self) == *old(self),
            t == Transfer::planned(Direction::Write, old(self).block_size(), block_id, buf_len),
    {
        let block_size: usize = self.block_size();
        Transfer::plan(Direction::Write, block_size, block_id, buf_len)
    }

    /// Flushes pending writes. The controller flushes its cache as part of
    /// every write, so nothing is left to do: the call always succeeds and
    /// leaves the adapter as it was.
    pub fn flush(&mut self) -> (r: Result<(), DevError>)
        ensures
            r == Ok::<(), DevError>(()),
            *final(self) == *old(self),
    {
        Ok(())
    }
}

/// Geometry is read off the descriptor and nothing else: adapters over equal
/// descriptors report the same block size and the same number of blocks.
pub proof fn lemma_geometry_of_descriptor(a: AhciDriver, b: AhciDriver)
    requires
        a@ == b@,
    ensures
        a.block_size() == b.block_size(),
        a.num_blocks() == b.num_blocks(),
        a.num_blocks() == a@.blk_dev.lba,
        a.block_size() == a@.blk_dev.blksz as usize,
{
}

} // verus!
