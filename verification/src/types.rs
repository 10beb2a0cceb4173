//! Validated value types for VM configuration.
//!
//! Each newtype admits exactly the range its limit allows, so a value of one
//! of these types is legal by construction.

use vstd::prelude::*;
use vstd::string::StrSliceExecFns;
use vstd::string::StringExecFns;
use crate::text::{dec_string, hex_val, is_hex_digit, u32_to_dec_string, u64_to_dec_string};

verus! {

// ---------------------------------------------------------------------------
// Memory size
// ---------------------------------------------------------------------------

/// Memory size in megabytes, between 32 MB and 12 TB.
#[derive(Debug, Clone, Copy, PartialEq, Eq, PartialOrd, Ord, Hash)]
pub struct MemoryMB(pub u64);

impl MemoryMB {
    /// Minimum memory in MB (32 MB).
    pub const MIN: u64 = 32;

    /// Maximum memory in MB (12 TB).
    pub const MAX: u64 = 12 * 1024 * 1024;

    /// Create from megabytes; `None` outside 32 MB - 12 TB.
    pub fn new(mb: u64) -> (r: Option<Self>)
        ensures
            r matches Some(m) <==> (MemoryMB::MIN <= mb <= MemoryMB::MAX),
            r matches Some(m) ==> m.0 == mb,
    {
        if mb >= Self::MIN && mb <= Self::MAX {
            Some(MemoryMB(mb))
        } else {
            None
        }
    }

    /// Create from gigabytes; the multiplication saturates before the range
    /// check, so an enormous input fails the upper bound.
    pub fn from_gb(gb: u64) -> (r: Option<Self>)
        ensures
            gb * 1024 <= u64::MAX ==> (r matches Some(m) <==> (MemoryMB::MIN <= gb * 1024
                && gb * 1024 <= MemoryMB::MAX)),
            gb * 1024 <= u64::MAX ==> (r matches Some(m) ==> m.0 == gb * 1024),
            gb * 1024 > u64::MAX ==> r is None,
    {
        let mb = match gb.checked_mul(1024) {
            Some(v) => v,
            None => u64::MAX,
        };
        Self::new(mb)
    }

    /// Get the value in megabytes.
    pub fn as_mb(&self) -> (r: u64)
        ensures
            r == self.0,
    {
        self.0
    }

    /// Get the value in gigabytes, rounded down.
    pub fn as_gb(&self) -> (r: u64)
        ensures
            r == self.0 / 1024,
    {
        self.0 / 1024
    }

    /// Get the value in bytes; saturates at the largest `u64`.
    pub fn as_bytes(&self) -> (r: u64)
        ensures
            self.0 * 1048576 <= u64::MAX ==> r == self.0 * 1048576,
            self.0 * 1048576 > u64::MAX ==> r == u64::MAX,
    {
        match self.0.checked_mul(1024 * 1024) {
            Some(v) => v,
            None => u64::MAX,
        }
    }

    /// 512 MB.
    pub fn mb_512() -> (r: Self)
        ensures
            r.0 == 512,
    {
        MemoryMB(512)
    }

    /// 1 GB.
    pub fn gb_1() -> (r: Self)
        ensures
            r.0 == 1024,
    {
        MemoryMB(1024)
    }

    /// 2 GB.
    pub fn gb_2() -> (r: Self)
        ensures
            r.0 == 2048,
    {
        MemoryMB(2048)
    }

    /// 4 GB.
    pub fn gb_4() -> (r: Self)
        ensures
            r.0 == 4096,
    {
        MemoryMB(4096)
    }

    /// 8 GB.
    pub fn gb_8() -> (r: Self)
        ensures
            r.0 == 8192,
    {
        MemoryMB(8192)
    }

    /// 16 GB.
    pub fn gb_16() -> (r: Self)
        ensures
            r.0 == 16384,
    {
        MemoryMB(16384)
    }

    /// 32 GB.
    pub fn gb_32() -> (r: Self)
        ensures
            r.0 == 32768,
    {
        MemoryMB(32768)
    }

    /// Rendering of this size: whole gigabytes as `N GB`, anything else as
    /// `N MB`.
    pub open spec fn spec_display(self) -> Seq<char> {
        if self.0 >= 1024 && self.0 % 1024 == 0 {
            dec_string((self.0 / 1024) as int) + " GB"@
        } else {
            dec_string(self.0 as int) + " MB"@
        }
    }

    /// Human-readable form of this size.
    pub fn display_string(&self) -> (r: String)
        ensures
            r@ == self.spec_display(),
    {
        if self.0 >= 1024 && self.0 % 1024 == 0 {
            let mut s = u64_to_dec_string(self.0 / 1024);
            s.append(" GB");
            s
        } else {
            let mut s = u64_to_dec_string(self.0);
            s.append(" MB");
            s
        }
    }
}

impl Default for MemoryMB {
    /// 1 GB is the default.
    fn default() -> (r: Self)
        ensures
            r.0 == 1024,
    {
        MemoryMB(1024)
    }
}

// ---------------------------------------------------------------------------
// Processor count
// ---------------------------------------------------------------------------

/// Virtual processor count, between 1 and 240.
#[derive(Debug, Clone, Copy, PartialEq, Eq, PartialOrd, Ord, Hash)]
pub struct ProcessorCount(pub u32);

impl ProcessorCount {
    /// Minimum processor count.
    pub const MIN: u32 = 1;

    /// Maximum processor count.
    pub const MAX: u32 = 240;

    /// Create a new processor count; `None` outside 1-240.
    pub fn new(count: u32) -> (r: Option<Self>)
        ensures
            r matches Some(c) <==> (ProcessorCount::MIN <= count <= ProcessorCount::MAX),
            r matches Some(c) ==> c.0 == count,
    {
        if count >= Self::MIN && count <= Self::MAX {
            Some(ProcessorCount(count))
        } else {
            None
        }
    }

    /// Get the processor count.
    pub fn get(&self) -> (r: u32)
        ensures
            r == self.0,
    {
        self.0
    }

    /// One processor.
    pub fn one() -> (r: Self)
        ensures
            r.0 == 1,
    {
        ProcessorCount(1)
    }

    /// Two processors.
    pub fn two() -> (r: Self)
        ensures
            r.0 == 2,
    {
        ProcessorCount(2)
    }

    /// Four processors.
    pub fn four() -> (r: Self)
        ensures
            r.0 == 4,
    {
        ProcessorCount(4)
    }

    /// Eight processors.
    pub fn eight() -> (r: Self)
        ensures
            r.0 == 8,
    {
        ProcessorCount(8)
    }

    /// Rendering of this count: `N vCPU`, pluralized except for one.
    pub open spec fn spec_display(self) -> Seq<char> {
        if self.0 == 1 {
            dec_string(self.0 as int) + " vCPU"@
        } else {
            dec_string(self.0 as int) + " vCPUs"@
        }
    }

    /// Human-readable form of this count.
    pub fn display_string(&self) -> (r: String)
        ensures
            r@ == self.spec_display(),
    {
        let mut s = u32_to_dec_string(self.0);
        if self.0 == 1 {
            s.append(" vCPU");
        } else {
            s.append(" vCPUs");
        }
        s
    }
}

impl Default for ProcessorCount {
    /// One processor is the default.
    fn default() -> (r: Self)
        ensures
            r.0 == 1,
    {
        ProcessorCount(1)
    }
}

// ---------------------------------------------------------------------------
// Percentages and weights
// ---------------------------------------------------------------------------

/// Memory buffer percentage for dynamic memory (0-100).
#[derive(Debug, Clone, Copy, PartialEq, Eq, PartialOrd, Ord, Hash)]
pub struct MemoryBufferPercent(pub u32);

impl MemoryBufferPercent {
    /// Create a new memory buffer percentage; `None` above 100.
    pub fn new(percent: u32) -> (r: Option<Self>)
        ensures
            r matches Some(p) <==> percent <= 100,
            r matches Some(p) ==> p.0 == percent,
    {
        if percent <= 100 {
            Some(MemoryBufferPercent(percent))
        } else {
            None
        }
    }

    /// Get the percentage value.
    pub fn get(&self) -> (r: u32)
        ensures
            r == self.0,
    {
        self.0
    }

    /// The usual 20% buffer.
    pub fn default_20() -> (r: Self)
        ensures
            r.0 == 20,
    {
        MemoryBufferPercent(20)
    }

    /// Rendering of this percentage: `N%`.
    pub open spec fn spec_display(self) -> Seq<char> {
        dec_string(self.0 as int) + "%"@
    }

    /// Human-readable form of this percentage.
    pub fn display_string(&self) -> (r: String)
        ensures
            r@ == self.spec_display(),
    {
        let mut s = u32_to_dec_string(self.0);
        s.append("%");
        s
    }
}

impl Default for MemoryBufferPercent {
    /// Zero percent is the default.
    fn default() -> (r: Self)
        ensures
            r.0 == 0,
    {
        MemoryBufferPercent(0)
    }
}

/// Memory weight for resource allocation priority (0-10000).
#[derive(Debug, Clone, Copy, PartialEq, Eq, PartialOrd, Ord, Hash)]
pub struct MemoryWeight(pub u32);

impl MemoryWeight {
    /// Minimum weight.
    pub const MIN: u32 = 0;

    /// Maximum weight.
    pub const MAX: u32 = 10000;

    /// Default weight.
    pub const DEFAULT: u32 = 5000;

    /// Create a new memory weight; `None` above 10000.
    pub fn new(weight: u32) -> (r: Option<Self>)
        ensures
            r matches Some(w) <==> weight <= MemoryWeight::MAX,
            r matches Some(w) ==> w.0 == weight,
    {
        if weight <= Self::MAX {
            Some(MemoryWeight(weight))
        } else {
            None
        }
    }

    /// Get the weight value.
    pub fn get(&self) -> (r: u32)
        ensures
            r == self.0,
    {
        self.0
    }
}

impl Default for MemoryWeight {
    /// The middle weight is the default.
    fn default() -> (r: Self)
        ensures
            r.0 == MemoryWeight::DEFAULT,
    {
        MemoryWeight(5000)
    }
}

/// Processor weight for resource allocation priority (0-10000).
#[derive(Debug, Clone, Copy, PartialEq, Eq, PartialOrd, Ord, Hash)]
pub struct ProcessorWeight(pub u32);

impl ProcessorWeight {
    /// Minimum weight.
    pub const MIN: u32 = 0;

    /// Maximum weight.
    pub const MAX: u32 = 10000;

    /// Default weight.
    pub const DEFAULT: u32 = 100;

    /// Create a new processor weight; `None` above 10000.
    pub fn new(weight: u32) -> (r: Option<Self>)
        ensures
            r matches Some(w) <==> weight <= ProcessorWeight::MAX,
            r matches Some(w) ==> w.0 == weight,
    {
        if weight <= Self::MAX {
            Some(ProcessorWeight(weight))
        } else {
            None
        }
    }

    /// Get the weight value.
    pub fn get(&self) -> (r: u32)
        ensures
            r == self.0,
    {
        self.0
    }
}

impl Default for ProcessorWeight {
    /// The usual priority is the default.
    fn default() -> (r: Self)
        ensures
            r.0 == ProcessorWeight::DEFAULT,
    {
        ProcessorWeight(100)
    }
}

/// Processor reservation/limit in thousandths of a percent (0-100000).
#[derive(Debug, Clone, Copy, PartialEq, Eq, PartialOrd, Ord, Hash)]
pub struct ProcessorPercent(pub u64);

impl ProcessorPercent {
    /// Maximum value (100000 = 100%).
    pub const MAX: u64 = 100000;

    /// Create from a raw value (0-100000); `None` above the maximum.
    pub fn new(value: u64) -> (r: Option<Self>)
        ensures
            r matches Some(p) <==> value <= ProcessorPercent::MAX,
            r matches Some(p) ==> p.0 == value,
    {
        if value <= Self::MAX {
            Some(ProcessorPercent(value))
        } else {
            None
        }
    }

    /// Create from a whole percentage (0-100); `None` above 100.
    pub fn from_percent(percent: u32) -> (r: Option<Self>)
        ensures
            r matches Some(p) <==> percent <= 100,
            r matches Some(p) ==> p.0 == percent * 1000,
    {
        if percent <= 100 {
            Some(ProcessorPercent((percent as u64) * 1000))
        } else {
            None
        }
    }

    /// Get the raw value.
    pub fn get(&self) -> (r: u64)
        ensures
            r == self.0,
    {
        self.0
    }
}

impl Default for ProcessorPercent {
    /// 100% is the default.
    fn default() -> (r: Self)
        ensures
            r.0 == ProcessorPercent::MAX,
    {
        ProcessorPercent(100000)
    }
}

// ---------------------------------------------------------------------------
// Disk location
// ---------------------------------------------------------------------------

/// A drive location on a controller: 0-63 on the modern bus, 0-1 on the
/// legacy bus.
#[derive(Debug, Clone, Copy, PartialEq, Eq, Hash)]
pub struct DiskLocation(pub u32);

impl DiskLocation {
    /// Maximum location on the modern bus.
    pub const MAX_SCSI: u32 = 63;

    /// Maximum location on the legacy bus.
    pub const MAX_IDE: u32 = 1;

    /// Create a modern-bus disk location (0-63).
    pub fn scsi(location: u32) -> (r: Option<Self>)
        ensures
            r matches Some(l) <==> location <= DiskLocation::MAX_SCSI,
            r matches Some(l) ==> l.0 == location,
    {
        if location <= Self::MAX_SCSI {
            Some(DiskLocation(location))
        } else {
            None
        }
    }

    /// Create a legacy-bus disk location (0-1).
    pub fn ide(location: u32) -> (r: Option<Self>)
        ensures
            r matches Some(l) <==> location <= DiskLocation::MAX_IDE,
            r matches Some(l) ==> l.0 == location,
    {
        if location <= Self::MAX_IDE {
            Some(DiskLocation(location))
        } else {
            None
        }
    }

    /// Get the location value.
    pub fn get(&self) -> (r: u32)
        ensures
            r == self.0,
    {
        self.0
    }

    /// Rendering of this location: `Location N`.
    pub open spec fn spec_display(self) -> Seq<char> {
        "Location "@ + dec_string(self.0 as int)
    }

    /// Human-readable form of this location.
    pub fn display_string(&self) -> (r: String)
        ensures
            r@ == self.spec_display(),
    {
        let mut s = String::from_str("Location ");
        let num = u32_to_dec_string(self.0);
        s.append(num.as_str());
        s
    }
}

impl Default for DiskLocation {
    /// Location zero is the default.
    fn default() -> (r: Self)
        ensures
            r.0 == 0,
    {
        DiskLocation(0)
    }
}

// ---------------------------------------------------------------------------
// Sector and block sizes
// ---------------------------------------------------------------------------

/// Sector size of a virtual disk: 512 bytes or 4096 bytes.
#[derive(Debug, Clone, Copy, PartialEq, Eq, Hash, Structural)]
pub enum SectorSize {
    /// 512 bytes (legacy).
    Bytes512,
    /// 4096 bytes (4K native).
    Bytes4K,
}

impl SectorSize {
    /// Size in bytes of this sector size.
    pub open spec fn spec_as_bytes(self) -> u32 {
        match self {
            SectorSize::Bytes512 => 512,
            SectorSize::Bytes4K => 4096,
        }
    }

    /// Get the size in bytes.
    pub fn as_bytes(&self) -> (r: u32)
        ensures
            r == self.spec_as_bytes(),
    {
        match self {
            SectorSize::Bytes512 => 512,
            SectorSize::Bytes4K => 4096,
        }
    }

    /// Sector size denoted by a byte count, if legal.
    pub open spec fn spec_from_bytes(bytes: u32) -> Option<SectorSize> {
        if bytes == 512 {
            Some(SectorSize::Bytes512)
        } else if bytes == 4096 {
            Some(SectorSize::Bytes4K)
        } else {
            None
        }
    }

    /// Parse from a byte count; `None` for anything but 512 and 4096.
    pub fn from_bytes(bytes: u32) -> (r: Option<Self>)
        ensures
            r == Self::spec_from_bytes(bytes),
    {
        if bytes == 512 {
            Some(SectorSize::Bytes512)
        } else if bytes == 4096 {
            Some(SectorSize::Bytes4K)
        } else {
            None
        }
    }

    /// Rendering of this sector size.
    pub open spec fn spec_display(self) -> Seq<char> {
        match self {
            SectorSize::Bytes512 => "512 bytes"@,
            SectorSize::Bytes4K => "4K"@,
        }
    }

    /// Human-readable form of this sector size.
    pub fn display_string(&self) -> (r: String)
        ensures
            r@ == self.spec_display(),
    {
        match self {
            SectorSize::Bytes512 => String::from_str("512 bytes"),
            SectorSize::Bytes4K => String::from_str("4K"),
        }
    }
}

impl Default for SectorSize {
    /// 512-byte sectors are the default.
    fn default() -> (r: Self)
        ensures
            r == SectorSize::Bytes512,
    {
        SectorSize::Bytes512
    }
}

/// Virtual disk block size.  Legal values: 512 KB, 1 MB, 2 MB, 16 MB, 32 MB,
/// 64 MB, 128 MB, 256 MB.
#[derive(Debug, Clone, Copy, PartialEq, Eq, Hash)]
pub struct BlockSize(pub u32);

/// `bytes` is one of the block sizes a virtual disk accepts.
pub open spec fn legal_block_size(bytes: u32) -> bool {
    bytes == 512 * 1024 || bytes == 1024 * 1024 || bytes == 2 * 1024 * 1024 || bytes == 16 * 1024
        * 1024 || bytes == 32 * 1024 * 1024 || bytes == 64 * 1024 * 1024 || bytes == 128 * 1024
        * 1024 || bytes == 256 * 1024 * 1024
}

impl BlockSize {
    /// 512 KB block size.
    pub fn kb_512() -> (r: Self)
        ensures
            r.0 == 512 * 1024,
    {
        BlockSize(512 * 1024)
    }

    /// 1 MB block size.
    pub fn mb_1() -> (r: Self)
        ensures
            r.0 == 1024 * 1024,
    {
        BlockSize(1024 * 1024)
    }

    /// 2 MB block size.
    pub fn mb_2() -> (r: Self)
        ensures
            r.0 == 2 * 1024 * 1024,
    {
        BlockSize(2 * 1024 * 1024)
    }

    /// 16 MB block size.
    pub fn mb_16() -> (r: Self)
        ensures
            r.0 == 16 * 1024 * 1024,
    {
        BlockSize(16 * 1024 * 1024)
    }

    /// 32 MB block size.
    pub fn mb_32() -> (r: Self)
        ensures
            r.0 == 32 * 1024 * 1024,
    {
        BlockSize(32 * 1024 * 1024)
    }

    /// 64 MB block size.
    pub fn mb_64() -> (r: Self)
        ensures
            r.0 == 64 * 1024 * 1024,
    {
        BlockSize(64 * 1024 * 1024)
    }

    /// 128 MB block size.
    pub fn mb_128() -> (r: Self)
        ensures
            r.0 == 128 * 1024 * 1024,
    {
        BlockSize(128 * 1024 * 1024)
    }

    /// 256 MB block size.
    pub fn mb_256() -> (r: Self)
        ensures
            r.0 == 256 * 1024 * 1024,
    {
        BlockSize(256 * 1024 * 1024)
    }

    /// Create from bytes; `None` for anything but the legal block sizes.
    pub fn from_bytes(bytes: u32) -> (r: Option<Self>)
        ensures
            r matches Some(b) <==> legal_block_size(bytes),
            r matches Some(b) ==> b.0 == bytes,
    {
        if bytes == 512 * 1024 || bytes == 1024 * 1024 || bytes == 2 * 1024 * 1024 || bytes == 16
            * 1024 * 1024 || bytes == 32 * 1024 * 1024 || bytes == 64 * 1024 * 1024 || bytes == 128
            * 1024 * 1024 || bytes == 256 * 1024 * 1024 {
            Some(BlockSize(bytes))
        } else {
            None
        }
    }

    /// Get the size in bytes.
    pub fn as_bytes(&self) -> (r: u32)
        ensures
            r == self.0,
    {
        self.0
    }

    /// Rendering of this block size: whole megabytes as `N MB`, smaller
    /// sizes as `N KB`.
    pub open spec fn spec_display(self) -> Seq<char> {
        if self.0 >= 1024 * 1024 {
            dec_string((self.0 / 1048576u32) as int) + " MB"@
        } else {
            dec_string((self.0 / 1024) as int) + " KB"@
        }
    }

    /// Human-readable form of this block size.
    pub fn display_string(&self) -> (r: String)
        ensures
            r@ == self.spec_display(),
    {
        if self.0 >= 1024 * 1024 {
            let mut s = u32_to_dec_string(self.0 / (1024 * 1024));
            s.append(" MB");
            s
        } else {
            let mut s = u32_to_dec_string(self.0 / 1024);
            s.append(" KB");
            s
        }
    }
}

impl Default for BlockSize {
    /// 32 MB blocks are the default.
    fn default() -> (r: Self)
        ensures
            r.0 == 32 * 1024 * 1024,
    {
        BlockSize(32 * 1024 * 1024)
    }
}

// ---------------------------------------------------------------------------
// Disk size
// ---------------------------------------------------------------------------

/// Size of a virtual disk in bytes, with the per-format caps: 2 TB for the
/// legacy format, 64 TB for the modern one.
#[derive(Debug, Clone, Copy, PartialEq, Eq, PartialOrd, Ord, Hash)]
pub struct DiskSize(pub u64);

impl DiskSize {
    /// Maximum legacy-format size (2 TB).
    pub const MAX_VHD: u64 = 2 * 1024 * 1024 * 1024 * 1024;

    /// Maximum modern-format size (64 TB).
    pub const MAX_VHDX: u64 = 64 * 1024 * 1024 * 1024 * 1024;

    /// Create from bytes.
    pub fn from_bytes(bytes: u64) -> (r: Self)
        ensures
            r.0 == bytes,
    {
        DiskSize(bytes)
    }

    /// Create from gigabytes; saturates at the largest `u64`.
    pub fn from_gb(gb: u64) -> (r: Self)
        ensures
            gb * 1073741824 <= u64::MAX ==> r.0 == gb * 1073741824,
            gb * 1073741824 > u64::MAX ==> r.0 == u64::MAX,
    {
        match gb.checked_mul(1024 * 1024 * 1024) {
            Some(v) => DiskSize(v),
            None => DiskSize(u64::MAX),
        }
    }

    /// Create from terabytes; saturates at the largest `u64`.
    pub fn from_tb(tb: u64) -> (r: Self)
        ensures
            tb * 1099511627776 <= u64::MAX ==> r.0 == tb * 1099511627776,
            tb * 1099511627776 > u64::MAX ==> r.0 == u64::MAX,
    {
        match tb.checked_mul(1024 * 1024 * 1024 * 1024) {
            Some(v) => DiskSize(v),
            None => DiskSize(u64::MAX),
        }
    }

    /// Get the size in bytes.
    pub fn as_bytes(&self) -> (r: u64)
        ensures
            r == self.0,
    {
        self.0
    }

    /// Get the size in gigabytes, rounded down.
    pub fn as_gb(&self) -> (r: u64)
        ensures
            r == self.0 / 1073741824,
    {
        self.0 / (1024 * 1024 * 1024)
    }

    /// Check if this size is legal for the legacy format: positive and at
    /// most 2 TB.
    pub fn is_valid_vhd(&self) -> (r: bool)
        ensures
            r == (0 < self.0 <= DiskSize::MAX_VHD),
    {
        self.0 > 0 && self.0 <= Self::MAX_VHD
    }

    /// Check if this size is legal for the modern format: positive and at
    /// most 64 TB.
    pub fn is_valid_vhdx(&self) -> (r: bool)
        ensures
            r == (0 < self.0 <= DiskSize::MAX_VHDX),
    {
        self.0 > 0 && self.0 <= Self::MAX_VHDX
    }

    /// Rendering of this size: whole terabytes as `N TB`, whole gigabytes as
    /// `N GB`, anything else as `N bytes`.
    pub open spec fn spec_display(self) -> Seq<char> {
        if self.0 >= 1099511627776 && self.0 % 1099511627776 == 0 {
            dec_string((self.0 / 1099511627776) as int) + " TB"@
        } else if self.0 >= 1073741824 && self.0 % 1073741824 == 0 {
            dec_string((self.0 / 1073741824) as int) + " GB"@
        } else {
            dec_string(self.0 as int) + " bytes"@
        }
    }

    /// Human-readable form of this size.
    pub fn display_string(&self) -> (r: String)
        ensures
            r@ == self.spec_display(),
    {
        let tb: u64 = 1024 * 1024 * 1024 * 1024;
        let gb: u64 = 1024 * 1024 * 1024;
        if self.0 >= tb && self.0 % tb == 0 {
            let mut s = u64_to_dec_string(self.0 / tb);
            s.append(" TB");
            s
        } else if self.0 >= gb && self.0 % gb == 0 {
            let mut s = u64_to_dec_string(self.0 / gb);
            s.append(" GB");
            s
        } else {
            let mut s = u64_to_dec_string(self.0);
            s.append(" bytes");
            s
        }
    }
}

// ---------------------------------------------------------------------------
// VLAN identifier
// ---------------------------------------------------------------------------

/// VLAN identifier (0-4094).
#[derive(Debug, Clone, Copy, PartialEq, Eq, PartialOrd, Ord, Hash)]
pub struct VlanId(pub u16);

impl VlanId {
    /// Maximum VLAN ID.
    pub const MAX: u16 = 4094;

    /// Create a new VLAN ID; `None` above 4094.
    pub fn new(id: u16) -> (r: Option<Self>)
        ensures
            r matches Some(v) <==> id <= VlanId::MAX,
            r matches Some(v) ==> v.0 == id,
    {
        if id <= Self::MAX {
            Some(VlanId(id))
        } else {
            None
        }
    }

    /// Get the VLAN ID.
    pub fn get(&self) -> (r: u16)
        ensures
            r == self.0,
    {
        self.0
    }

    /// Rendering of this VLAN ID: `VLAN N`.
    pub open spec fn spec_display(self) -> Seq<char> {
        "VLAN "@ + dec_string(self.0 as int)
    }

    /// Human-readable form of this VLAN ID.
    pub fn display_string(&self) -> (r: String)
        ensures
            r@ == self.spec_display(),
    {
        let mut s = String::from_str("VLAN ");
        let num = u32_to_dec_string(self.0 as u32);
        s.append(num.as_str());
        s
    }
}

// ---------------------------------------------------------------------------
// Bandwidth weight
// ---------------------------------------------------------------------------

/// Bandwidth weight for network adapters (1-100).
#[derive(Debug, Clone, Copy, PartialEq, Eq, PartialOrd, Ord, Hash)]
pub struct BandwidthWeight(pub u32);

impl BandwidthWeight {
    /// Minimum weight.
    pub const MIN: u32 = 1;

    /// Maximum weight.
    pub const MAX: u32 = 100;

    /// Create a new bandwidth weight; `None` outside 1-100.
    pub fn new(weight: u32) -> (r: Option<Self>)
        ensures
            r matches Some(w) <==> (BandwidthWeight::MIN <= weight <= BandwidthWeight::MAX),
            r matches Some(w) ==> w.0 == weight,
    {
        if weight >= Self::MIN && weight <= Self::MAX {
            Some(BandwidthWeight(weight))
        } else {
            None
        }
    }

    /// Get the weight value.
    pub fn get(&self) -> (r: u32)
        ensures
            r == self.0,
    {
        self.0
    }

    /// Rendering of this weight: `N%`.
    pub open spec fn spec_display(self) -> Seq<char> {
        dec_string(self.0 as int) + "%"@
    }

    /// Human-readable form of this weight.
    pub fn display_string(&self) -> (r: String)
        ensures
            r@ == self.spec_display(),
    {
        let mut s = u32_to_dec_string(self.0);
        s.append("%");
        s
    }
}

impl Default for BandwidthWeight {
    /// The middle weight is the default.
    fn default() -> (r: Self)
        ensures
            r.0 == 50,
    {
        BandwidthWeight(50)
    }
}

// ---------------------------------------------------------------------------
// MAC address
// ---------------------------------------------------------------------------

/// Character sequence kept by the MAC parser: the hexadecimal digits of `s`,
/// in order, with every other character dropped.
pub open spec fn hex_digit_chars(s: Seq<char>) -> Seq<char>
    decreases s.len(),
{
    if s.len() == 0 {
        Seq::empty()
    } else {
        hex_digit_chars(s.drop_last()) + if is_hex_digit(s.last()) {
            seq![s.last()]
        } else {
            Seq::empty()
        }
    }
}

/// Byte denoted by a pair of hexadecimal digits.
pub open spec fn hex_pair_val(hi: char, lo: char) -> int {
    hex_val(hi) * 16 + hex_val(lo)
}

/// The six bytes denoted by twelve hexadecimal digits.
pub open spec fn mac_bytes_of(hd: Seq<char>) -> Seq<u8> {
    Seq::new(6, |i: int| hex_pair_val(hd[2 * i], hd[2 * i + 1]) as u8)
}

/// Upper-case hexadecimal character of a nibble.
pub open spec fn hex_upper_char(d: int) -> char {
    if d == 0 { '0' }
    else if d == 1 { '1' }
    else if d == 2 { '2' }
    else if d == 3 { '3' }
    else if d == 4 { '4' }
    else if d == 5 { '5' }
    else if d == 6 { '6' }
    else if d == 7 { '7' }
    else if d == 8 { '8' }
    else if d == 9 { '9' }
    else if d == 10 { 'A' }
    else if d == 11 { 'B' }
    else if d == 12 { 'C' }
    else if d == 13 { 'D' }
    else if d == 14 { 'E' }
    else { 'F' }
}

/// Two upper-case hexadecimal characters of a byte.
pub open spec fn byte_hex_chars(b: u8) -> Seq<char> {
    seq![hex_upper_char(b as int / 16), hex_upper_char(b as int % 16)]
}

/// One upper-case hexadecimal character as a string slice.
fn hex_upper_str(d: u8) -> (r: &'static str)
    requires
        d < 16,
    ensures
        r@ =~= seq![hex_upper_char(d as int)],
{
    proof {
        reveal_strlit("0");
        reveal_strlit("1");
        reveal_strlit("2");
        reveal_strlit("3");
        reveal_strlit("4");
        reveal_strlit("5");
        reveal_strlit("6");
        reveal_strlit("7");
        reveal_strlit("8");
        reveal_strlit("9");
        reveal_strlit("A");
        reveal_strlit("B");
        reveal_strlit("C");
        reveal_strlit("D");
        reveal_strlit("E");
        reveal_strlit("F");
    }
    if d == 0 { "0" }
    else if d == 1 { "1" }
    else if d == 2 { "2" }
    else if d == 3 { "3" }
    else if d == 4 { "4" }
    else if d == 5 { "5" }
    else if d == 6 { "6" }
    else if d == 7 { "7" }
    else if d == 8 { "8" }
    else if d == 9 { "9" }
    else if d == 10 { "A" }
    else if d == 11 { "B" }
    else if d == 12 { "C" }
    else if d == 13 { "D" }
    else if d == 14 { "E" }
    else { "F" }
}

/// A MAC address, stored as its six bytes.
#[derive(Debug, Clone, PartialEq, Eq, Hash)]
pub struct MacAddress(pub [u8; 6]);

impl MacAddress {
    /// Create from six bytes.
    pub fn new(bytes: [u8; 6]) -> (r: Self)
        ensures
            r.0 == bytes,
    {
        MacAddress(bytes)
    }

    /// Parse from text.  Exactly the strings whose hexadecimal digits number
    /// twelve are accepted (so colon and dash separated forms and the bare
    /// form all work); the address is those digits, pairwise.
    pub fn parse(s: &str) -> (r: Option<Self>)
        ensures
            r is Some <==> hex_digit_chars(s@).len() == 12,
            r matches Some(m) ==> m.0@ == mac_bytes_of(hex_digit_chars(s@)),
    {
        let n = s.unicode_len();
        let mut digits: Vec<u8> = Vec::new();
        let ghost mut ghost_chars: Seq<char> = Seq::empty();
        let mut i: usize = 0;
        while i < n
            invariant
                n == s@.len(),
                i <= n,
                ghost_chars == hex_digit_chars(s@.subrange(0, i as int)),
                digits@.len() == ghost_chars.len(),
                forall|k: int| 0 <= k < ghost_chars.len()
                    ==> is_hex_digit(#[trigger] ghost_chars[k]) && digits@[k] as int == hex_val(
                    ghost_chars[k],
                ),
            decreases n - i,
        {
            let c = s.get_char(i);
            let code = c as u32;
            proof {
                assert(s@.subrange(0, i + 1).drop_last() =~= s@.subrange(0, i as int));
                assert(s@.subrange(0, i + 1).last() == s@[i as int]);
            }
            if 48 <= code && code <= 57 {
                digits.push((code - 48) as u8);
                proof {
                    ghost_chars = ghost_chars + seq![s@[i as int]];
                }
            } else if 65 <= code && code <= 70 {
                digits.push((code - 55) as u8);
                proof {
                    ghost_chars = ghost_chars + seq![s@[i as int]];
                }
            } else if 97 <= code && code <= 102 {
                digits.push((code - 87) as u8);
                proof {
                    ghost_chars = ghost_chars + seq![s@[i as int]];
                }
            } else {
                proof {
                    assert(!is_hex_digit(s@[i as int]));
                }
            }
            i += 1;
        }
        proof {
            assert(s@.subrange(0, n as int) =~= s@);
        }
        if digits.len() != 12 {
            return None;
        }
        proof {
            assert forall|k: int| 0 <= k < 12 implies digits@[k] < 16 by {
                assert(is_hex_digit(ghost_chars[k]));
            }
        }
        let b0: u8 = digits[0] * 16 + digits[1];
        let b1: u8 = digits[2] * 16 + digits[3];
        let b2: u8 = digits[4] * 16 + digits[5];
        let b3: u8 = digits[6] * 16 + digits[7];
        let b4: u8 = digits[8] * 16 + digits[9];
        let b5: u8 = digits[10] * 16 + digits[11];
        let bytes: [u8; 6] = [b0, b1, b2, b3, b4, b5];
        proof {
            assert(bytes@ =~= mac_bytes_of(hex_digit_chars(s@)));
        }
        Some(MacAddress(bytes))
    }

    /// Get the raw bytes.
    pub fn as_bytes(&self) -> (r: &[u8; 6])
        ensures
            r == &self.0,
    {
        &self.0
    }

    /// Rendering of the address with colon separators, upper-case.
    pub open spec fn spec_colon_string(self) -> Seq<char> {
        byte_hex_chars(self.0[0]) + ":"@ + byte_hex_chars(self.0[1]) + ":"@ + byte_hex_chars(
            self.0[2],
        ) + ":"@ + byte_hex_chars(self.0[3]) + ":"@ + byte_hex_chars(self.0[4]) + ":"@
            + byte_hex_chars(self.0[5])
    }

    /// Rendering of the address without separators, upper-case.
    pub open spec fn spec_plain_string(self) -> Seq<char> {
        byte_hex_chars(self.0[0]) + byte_hex_chars(self.0[1]) + byte_hex_chars(self.0[2])
            + byte_hex_chars(self.0[3]) + byte_hex_chars(self.0[4]) + byte_hex_chars(self.0[5])
    }

    /// Format as a colon-separated string.
    pub fn to_colon_string(&self) -> (r: String)
        ensures
            r@ == self.spec_colon_string(),
    {
        let mut s = String::new();
        s.append(hex_upper_str(self.0[0] / 16));
        s.append(hex_upper_str(self.0[0] % 16));
        s.append(":");
        s.append(hex_upper_str(self.0[1] / 16));
        s.append(hex_upper_str(self.0[1] % 16));
        s.append(":");
        s.append(hex_upper_str(self.0[2] / 16));
        s.append(hex_upper_str(self.0[2] % 16));
        s.append(":");
        s.append(hex_upper_str(self.0[3] / 16));
        s.append(hex_upper_str(self.0[3] % 16));
        s.append(":");
        s.append(hex_upper_str(self.0[4] / 16));
        s.append(hex_upper_str(self.0[4] % 16));
        s.append(":");
        s.append(hex_upper_str(self.0[5] / 16));
        s.append(hex_upper_str(self.0[5] % 16));
        proof {
            assert(s@ =~= self.spec_colon_string());
        }
        s
    }

    /// Format without separators, as the management schema expects.
    pub fn to_hyperv_string(&self) -> (r: String)
        ensures
            r@ == self.spec_plain_string(),
    {
        let mut s = String::new();
        s.append(hex_upper_str(self.0[0] / 16));
        s.append(hex_upper_str(self.0[0] % 16));
        s.append(hex_upper_str(self.0[1] / 16));
        s.append(hex_upper_str(self.0[1] % 16));
        s.append(hex_upper_str(self.0[2] / 16));
        s.append(hex_upper_str(self.0[2] % 16));
        s.append(hex_upper_str(self.0[3] / 16));
        s.append(hex_upper_str(self.0[3] % 16));
        s.append(hex_upper_str(self.0[4] / 16));
        s.append(hex_upper_str(self.0[4] % 16));
        s.append(hex_upper_str(self.0[5] / 16));
        s.append(hex_upper_str(self.0[5] % 16));
        proof {
            assert(s@ =~= self.spec_plain_string());
        }
        s
    }

    /// Human-readable form: the colon-separated rendering.
    pub fn display_string(&self) -> (r: String)
        ensures
            r@ == self.spec_colon_string(),
    {
        self.to_colon_string()
    }
}

} // verus!
