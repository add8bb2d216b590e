//! Plain-value model of one AHCI host bus adapter: its register snapshot, its
//! ports and their command and DMA tables, and the block device found behind
//! it.
//!
//! Every structure lists its fields in the order the controller code lays them
//! out in memory, padding included. Addresses are held as integers; zero
//! stands for "no buffer".

use vstd::prelude::*;

verus! {

/// Length of the serial number reported by ATA IDENTIFY DEVICE, in bytes.
pub const ATA_ID_SERNO_LEN: usize = 20;

/// Length of the firmware revision reported by ATA IDENTIFY DEVICE, in bytes.
pub const ATA_ID_FW_REV_LEN: usize = 8;

/// Length of the product name reported by ATA IDENTIFY DEVICE, in bytes.
pub const ATA_ID_PROD_LEN: usize = 40;

/// Bytes held for the product name: the name and a terminating NUL.
pub const PRODUCT_BYTES: usize = 41;

/// Bytes held for the serial number: the number and a terminating NUL.
pub const SERIAL_BYTES: usize = 21;

/// Bytes held for the firmware revision: the revision and a terminating NUL.
pub const REVISION_BYTES: usize = 9;

/// Number of port slots of a host bus adapter, whatever number is populated.
pub const AHCI_MAX_PORTS: usize = 32;

/// Whether every byte of `bytes` is zero.
pub open spec fn all_zero(bytes: Seq<u8>) -> bool {
    forall|i: int| 0 <= i < bytes.len() ==> bytes[i] == 0
}

/// Whether `bytes` is a text padded with NUL to its fixed length: the last
/// byte is NUL, and after the first NUL only NUL follows.
pub open spec fn null_padded(bytes: Seq<u8>) -> bool {
    &&& bytes.len() > 0
    &&& bytes[bytes.len() - 1] == 0
    &&& forall|i: int, j: int| 0 <= i <= j < bytes.len() && bytes[i] == 0 ==> bytes[j] == 0
}

/// Whether a logical address and the DMA address of the same buffer are
/// paired: both absent or both present.
pub open spec fn paired(logical: int, dma: int) -> bool {
    (logical == 0) == (dma == 0)
}

/// Whether `index` names a port slot whose bit is set in the bitmap `map`.
pub open spec fn port_in_map(map: u32, index: u8) -> bool {
    index < 32 && (map >> (index as u32)) & 1 == 1
}

/// One command slot of a port's command list.
#[allow(non_camel_case_types)]
#[derive(Clone, Copy, Debug, PartialEq, Eq)]
pub struct ahci_cmd_hdr {
    /// Option and flag word.
    pub opts: u32,
    /// Status word.
    pub status: u32,
    /// Low half of the command table's physical address.
    pub tbl_addr_lo: u32,
    /// High half of the command table's physical address.
    pub tbl_addr_hi: u32,
    /// Reserved words, kept as they are.
    pub reserved: [u32; 4],
}

/// One scatter-gather entry: a physically contiguous segment of a transfer.
#[allow(non_camel_case_types)]
#[derive(Clone, Copy, Debug, PartialEq, Eq)]
pub struct ahci_sg {
    /// Low half of the segment's physical address.
    pub addr_lo: u32,
    /// High half of the segment's physical address.
    pub addr_hi: u32,
    /// Reserved word.
    pub reserved: u32,
    /// Flags and byte count of the segment, in one word.
    pub flags_size: u32,
}

/// Command and DMA resources of one SATA port.
#[allow(non_camel_case_types)]
#[derive(Clone, Copy, Debug, PartialEq, Eq)]
pub struct ahci_ioport {
    /// Base address of the port's registers.
    pub port_mmio: u64,
    /// Address of the command list, a table of [`ahci_cmd_hdr`].
    pub cmd_slot: usize,
    /// DMA address of the command list.
    pub cmd_slot_dma: u64,
    /// Address of the received-FIS buffer.
    pub rx_fis: u64,
    /// DMA address of the received-FIS buffer.
    pub rx_fis_dma: u64,
    /// Address of the command table.
    pub cmd_tbl: u64,
    /// DMA address of the command table.
    pub cmd_tbl_dma: u64,
    /// Address of the scatter-gather table, a table of [`ahci_sg`].
    pub cmd_tbl_sg: usize,
}

/// Geometry and identity of the block device behind the active port.
#[allow(non_camel_case_types)]
#[derive(Clone, Copy, Debug, PartialEq, Eq)]
pub struct ahci_blk_dev {
    /// Whether the device takes 48-bit block addresses.
    pub lba48: bool,
    pub _pad1: [u8; 7],
    /// Number of addressable blocks.
    pub lba: u64,
    /// Bytes per block.
    pub blksz: u64,
    /// Depth of the command queue.
    pub queue_depth: u32,
    pub _pad2: [u8; 4],
    /// Product name, NUL-padded.
    pub product: [u8; PRODUCT_BYTES],
    pub _pad3: [u8; 7],
    /// Serial number, NUL-padded.
    pub serial: [u8; SERIAL_BYTES],
    pub _pad4: [u8; 3],
    /// Firmware revision, NUL-padded.
    pub revision: [u8; REVISION_BYTES],
    pub _pad5: [u8; 7],
}

/// One host bus adapter.
#[allow(non_camel_case_types)]
#[derive(Clone, Copy, Debug, PartialEq, Eq)]
pub struct ahci_device {
    /// Base address of the adapter's registers.
    pub mmio_base: u64,
    pub flags: u32,
    /// First capability word.
    pub cap: u32,
    /// Second capability word.
    pub cap2: u32,
    /// Revision of the interface the adapter implements.
    pub version: u32,
    /// Bitmap of the ports the adapter implements.
    pub port_map: u32,
    /// Bitmask of the PIO modes supported.
    pub pio_mask: u32,
    /// Bitmask of the UDMA modes supported.
    pub udma_mask: u32,
    /// Number of ports discovered.
    pub n_ports: u8,
    /// Bitmap of the ports whose link is up.
    pub port_map_linkup: u32,
    /// The port slots.
    pub port: [ahci_ioport; AHCI_MAX_PORTS],
    /// Index of the port in use; zero until one is chosen.
    pub port_idx: u8,
    /// The block device behind the port in use.
    pub blk_dev: ahci_blk_dev,
}

impl ahci_ioport {
    /// Whether the port holds nothing: no register base and no buffer.
    pub open spec fn is_zeroed(&self) -> bool {
        &&& self.port_mmio == 0
        &&& self.cmd_slot == 0
        &&& self.cmd_slot_dma == 0
        &&& self.rx_fis == 0
        &&& self.rx_fis_dma == 0
        &&& self.cmd_tbl == 0
        &&& self.cmd_tbl_dma == 0
        &&& self.cmd_tbl_sg == 0
    }

    /// The port's invariant: each buffer's logical address is paired with its
    /// DMA address.
    pub open spec fn wf(&self) -> bool {
        &&& paired(self.cmd_slot as int, self.cmd_slot_dma as int)
        &&& paired(self.rx_fis as int, self.rx_fis_dma as int)
        &&& paired(self.cmd_tbl as int, self.cmd_tbl_dma as int)
    }

    /// A port that holds nothing.
    pub fn zeroed() -> (port: ahci_ioport)
        ensures
            port.is_zeroed(),
            port.wf(),
    {
        ahci_ioport {
            port_mmio: 0,
            cmd_slot: 0,
            cmd_slot_dma: 0,
            rx_fis: 0,
            rx_fis_dma: 0,
            cmd_tbl: 0,
            cmd_tbl_dma: 0,
            cmd_tbl_sg: 0,
        }
    }
}

impl ahci_blk_dev {
    /// Whether the summary holds nothing: no geometry, empty identity
    /// strings, zero padding.
    pub open spec fn is_zeroed(&self) -> bool {
        &&& !self.lba48
        &&& self.lba == 0
        &&& self.blksz == 0
        &&& self.queue_depth == 0
        &&& all_zero(self.product@)
        &&& all_zero(self.serial@)
        &&& all_zero(self.revision@)
        &&& self.padding_is_zero()
    }

    /// Whether every padding byte is zero.
    pub open spec fn padding_is_zero(&self) -> bool {
        &&& all_zero(self._pad1@)
        &&& all_zero(self._pad2@)
        &&& all_zero(self._pad3@)
        &&& all_zero(self._pad4@)
        &&& all_zero(self._pad5@)
    }

    /// The summary's invariant: padding is zero and each identity string is
    /// NUL-padded to its fixed length.
    pub open spec fn wf(&self) -> bool {
        &&& self.padding_is_zero()
        &&& null_padded(self.product@)
        &&& null_padded(self.serial@)
        &&& null_padded(self.revision@)
    }

    /// A summary that holds nothing.
    pub fn zeroed() -> (dev: ahci_blk_dev)
        ensures
            dev.is_zeroed(),
            dev.wf(),
    {
        ahci_blk_dev {
            lba48: false,
            _pad1: [0u8; 7],
            lba: 0,
            blksz: 0,
            queue_depth: 0,
            _pad2: [0u8; 4],
            product: [0u8; PRODUCT_BYTES],
            _pad3: [0u8; 7],
            serial: [0u8; SERIAL_BYTES],
            _pad4: [0u8; 3],
            revision: [0u8; REVISION_BYTES],
            _pad5: [0u8; 7],
        }
    }
}

impl ahci_device {
    /// Whether the descriptor holds nothing: every register snapshot is zero,
    /// every port slot is empty and the block device summary is empty.
    pub open spec fn is_zeroed(&self) -> bool {
        &&& self.mmio_base == 0
        &&& self.flags == 0
        &&& self.cap == 0
        &&& self.cap2 == 0
        &&& self.version == 0
        &&& self.port_map == 0
        &&& self.pio_mask == 0
        &&& self.udma_mask == 0
        &&& self.n_ports == 0
        &&& self.port_map_linkup == 0
        &&& forall|i: int| 0 <= i < AHCI_MAX_PORTS ==> (#[trigger] self.port@[i]).is_zeroed()
        &&& self.port_idx == 0
        &&& self.blk_dev.is_zeroed()
    }

    /// The descriptor's invariant: the port in use is either not chosen yet
    /// or one whose link is up, and every port slot and the block device
    /// summary keep their own invariants.
    pub open spec fn wf(&self) -> bool {
        &&& self.port_idx == 0 || port_in_map(self.port_map_linkup, self.port_idx)
        &&& forall|i: int| 0 <= i < AHCI_MAX_PORTS ==> (#[trigger] self.port@[i]).wf()
        &&& self.blk_dev.wf()
    }

    /// A descriptor that holds nothing, as it is handed to the controller's
    /// initialisation.
    pub fn zeroed() -> (dev: ahci_device)
        ensures
            dev.is_zeroed(),
            dev.wf(),
    {
        ahci_device {
            mmio_base: 0,
            flags: 0,
            cap: 0,
            cap2: 0,
            version: 0,
            port_map: 0,
            pio_mask: 0,
            udma_mask: 0,
            n_ports: 0,
            port_map_linkup: 0,
            port: [ahci_ioport::zeroed(); AHCI_MAX_PORTS],
            port_idx: 0,
            blk_dev: ahci_blk_dev::zeroed(),
        }
    }
}

/// There is one empty descriptor: two descriptors that both hold nothing are
/// equal, field for field.
pub proof fn lemma_zeroed_is_unique(a: ahci_device, b: ahci_device)
    requires
        a.is_zeroed(),
        b.is_zeroed(),
    ensures
        a == b,
{
    assert(a.port =~= b.port);
    assert(a.blk_dev._pad1 =~= b.blk_dev._pad1);
    assert(a.blk_dev._pad2 =~= b.blk_dev._pad2);
    assert(a.blk_dev._pad3 =~= b.blk_dev._pad3);
    assert(a.blk_dev._pad4 =~= b.blk_dev._pad4);
    assert(a.blk_dev._pad5 =~= b.blk_dev._pad5);
    assert(a.blk_dev.product =~= b.blk_dev.product);
    assert(a.blk_dev.serial =~= b.blk_dev.serial);
    assert(a.blk_dev.revision =~= b.blk_dev.revision);
}

} // verus!
