//! Virtual hard disk formats, types and creation settings.
//!
//! A VHD settings value that validates satisfies exactly
//! [`VhdSettings::spec_valid`]: the path extension matches the declared
//! format, the size respects the per-format cap, a differencing disk names a
//! parent, and sector sizes are 512 or 4096.

use vstd::prelude::*;
use vstd::string::StrSliceExecFns;
use vstd::string::StringExecFns;
use crate::error::Error;
use crate::text::{ends_with_fold, ends_with_ignore_ascii_case};

verus! {

/// Largest legal size of a legacy-format disk (2 TB), in bytes.
pub const MAX_VHD_BYTES: u64 = 2 * 1024 * 1024 * 1024 * 1024;

/// Largest legal size of a modern-format disk (64 TB), in bytes.
pub const MAX_VHDX_BYTES: u64 = 64 * 1024 * 1024 * 1024 * 1024;

/// Virtual hard disk format.
#[derive(Debug, Clone, Copy, PartialEq, Eq, Structural)]
pub enum VhdFormat {
    /// Legacy VHD format (max 2 TB).
    Vhd,
    /// Modern VHDX format (max 64 TB).
    Vhdx,
}

impl VhdFormat {
    /// File extension of this format.
    pub open spec fn spec_extension(self) -> Seq<char> {
        match self {
            VhdFormat::Vhd => "vhd"@,
            VhdFormat::Vhdx => "vhdx"@,
        }
    }

    /// File extension of this format.
    pub fn extension(&self) -> (r: &'static str)
        ensures
            r@ == self.spec_extension(),
    {
        match self {
            VhdFormat::Vhd => "vhd",
            VhdFormat::Vhdx => "vhdx",
        }
    }

    /// Format inferred from a path: a (case-folded) `.vhd` suffix means the
    /// legacy format, everything else the modern one.
    pub open spec fn spec_from_path(path: Seq<char>) -> VhdFormat {
        if ends_with_fold(path, ".vhd"@) {
            VhdFormat::Vhd
        } else {
            VhdFormat::Vhdx
        }
    }

    /// Infer the format from a file path.
    pub fn from_path(path: &str) -> (r: Self)
        ensures
            r == Self::spec_from_path(path@),
    {
        if ends_with_ignore_ascii_case(path, ".vhd") {
            VhdFormat::Vhd
        } else {
            VhdFormat::Vhdx
        }
    }
}

impl Default for VhdFormat {
    /// The modern format is the default.
    fn default() -> (r: Self)
        ensures
            r == VhdFormat::Vhdx,
    {
        VhdFormat::Vhdx
    }
}

/// Virtual hard disk type.
#[derive(Debug, Clone, Copy, PartialEq, Eq, Structural)]
pub enum VhdType {
    /// Fixed size - all space allocated upfront.
    Fixed,
    /// Dynamic - grows as needed.
    Dynamic,
    /// Differencing - based on a parent disk.
    Differencing,
}

impl VhdType {
    /// Numeric code of this disk type in the management schema.
    pub open spec fn spec_to_wmi_value(self) -> u16 {
        match self {
            VhdType::Fixed => 2,
            VhdType::Dynamic => 3,
            VhdType::Differencing => 4,
        }
    }

    /// Disk type denoted by a code; unknown codes fall back to `Dynamic`.
    pub open spec fn spec_from_wmi_value(value: u16) -> VhdType {
        match value {
            2u16 => VhdType::Fixed,
            3u16 => VhdType::Dynamic,
            4u16 => VhdType::Differencing,
            _ => VhdType::Dynamic,
        }
    }

    /// Numeric code of this disk type.
    pub fn to_wmi_value(&self) -> (v: u16)
        ensures
            v == self.spec_to_wmi_value(),
    {
        match self {
            VhdType::Fixed => 2,
            VhdType::Dynamic => 3,
            VhdType::Differencing => 4,
        }
    }

    /// Parse from a numeric code.
    pub fn from_wmi_value(value: u16) -> (r: Self)
        ensures
            r == Self::spec_from_wmi_value(value),
    {
        if value == 2 { VhdType::Fixed }
        else if value == 3 { VhdType::Dynamic }
        else if value == 4 { VhdType::Differencing }
        else { VhdType::Dynamic }
    }
}

impl Default for VhdType {
    /// Dynamically expanding disks are the default.
    fn default() -> (r: Self)
        ensures
            r == VhdType::Dynamic,
    {
        VhdType::Dynamic
    }
}

/// Disk-type codes round-trip on the defined subset; unknown codes fall back
/// to `Dynamic`, never to a panic.
pub proof fn lemma_vhd_type_round_trip(t: VhdType, v: u16)
    ensures
        VhdType::spec_from_wmi_value(t.spec_to_wmi_value()) == t,
        2 <= v <= 4 ==> VhdType::spec_from_wmi_value(v).spec_to_wmi_value() == v,
{
}

/// A virtual hard disk as reported by the image management service.
#[derive(Debug)]
pub struct Vhd {
    /// Full path to the disk file.
    pub path: String,
    /// Disk format.
    pub format: VhdFormat,
    /// Disk type.
    pub disk_type: VhdType,
    /// Maximum size in bytes.
    pub max_size_bytes: u64,
    /// Current file size in bytes.
    pub file_size_bytes: u64,
    /// Block size in bytes.
    pub block_size_bytes: u32,
    /// Logical sector size.
    pub logical_sector_size: u32,
    /// Physical sector size.
    pub physical_sector_size: u32,
    /// Parent path for differencing disks.
    pub parent_path: Option<String>,
}

impl Vhd {
    /// The basic description of the disk at `path`, as reported before the
    /// full settings are parsed: format inferred from the path, dynamic
    /// type, zero sizes, and the usual 512/4096 sector pair.
    pub fn basic_info(path: &str) -> (r: Vhd)
        ensures
            r.path@ == path@,
            r.format == VhdFormat::spec_from_path(path@),
            r.disk_type == VhdType::Dynamic,
            r.max_size_bytes == 0,
            r.file_size_bytes == 0,
            r.block_size_bytes == 0,
            r.logical_sector_size == 512,
            r.physical_sector_size == 4096,
            r.parent_path is None,
    {
        Vhd {
            path: String::from_str(path),
            format: VhdFormat::from_path(path),
            disk_type: VhdType::Dynamic,
            max_size_bytes: 0,
            file_size_bytes: 0,
            block_size_bytes: 0,
            logical_sector_size: 512,
            physical_sector_size: 4096,
            parent_path: None,
        }
    }
}

/// Settings for creating a new virtual hard disk.
#[derive(Debug, Clone)]
pub struct VhdSettings {
    /// Path where the disk will be created.
    pub path: String,
    /// Disk format.
    pub format: VhdFormat,
    /// Disk type.
    pub disk_type: VhdType,
    /// Size in bytes.
    pub size_bytes: u64,
    /// Block size in bytes.
    pub block_size_bytes: Option<u32>,
    /// Logical sector size (512 or 4096).
    pub logical_sector_size: Option<u32>,
    /// Physical sector size (512 or 4096).
    pub physical_sector_size: Option<u32>,
    /// Parent path for differencing disks.
    pub parent_path: Option<String>,
}

impl VhdSettings {
    /// The settings are legal: nonempty path whose extension matches the
    /// format, a positive size (except for differencing disks) within the
    /// per-format cap, a parent for differencing disks, and sector sizes
    /// restricted to 512 or 4096.
    pub open spec fn spec_valid(self) -> bool {
        &&& self.path@.len() > 0
        &&& (self.format is Vhd ==> ends_with_fold(self.path@, ".vhd"@))
        &&& (self.format is Vhdx ==> ends_with_fold(self.path@, ".vhdx"@))
        &&& (self.size_bytes == 0 ==> self.disk_type is Differencing)
        &&& (self.format is Vhd ==> self.size_bytes <= MAX_VHD_BYTES)
        &&& (self.format is Vhdx ==> self.size_bytes <= MAX_VHDX_BYTES)
        &&& (self.disk_type is Differencing ==> self.parent_path is Some)
        &&& (self.logical_sector_size matches Some(s) ==> s == 512 || s == 4096)
        &&& (self.physical_sector_size matches Some(s) ==> s == 512 || s == 4096)
    }

    /// Field and message of the first validation check that fails, in the
    /// order the checks are made.  Meaningful only when `!self.spec_valid()`.
    pub open spec fn spec_validation_error(self) -> (Seq<char>, Seq<char>) {
        if self.path@.len() == 0 {
            ("path"@, "VHD path cannot be empty"@)
        } else if self.format is Vhd && !ends_with_fold(self.path@, ".vhd"@) {
            ("path"@, "VHD format requires .vhd extension"@)
        } else if self.format is Vhdx && !ends_with_fold(self.path@, ".vhdx"@) {
            ("path"@, "VHDX format requires .vhdx extension"@)
        } else if self.size_bytes == 0 && !(self.disk_type is Differencing) {
            ("size_bytes"@, "Size must be greater than 0"@)
        } else if self.format is Vhd && self.size_bytes > MAX_VHD_BYTES {
            ("size_bytes"@, "VHD format supports maximum 2 TB"@)
        } else if self.format is Vhdx && self.size_bytes > MAX_VHDX_BYTES {
            ("size_bytes"@, "VHDX format supports maximum 64 TB"@)
        } else if self.disk_type is Differencing && self.parent_path is None {
            ("parent_path"@, "Differencing disk requires parent path"@)
        } else if self.logical_sector_size matches Some(s) && s != 512 && s != 4096 {
            ("logical_sector_size"@, "Logical sector size must be 512 or 4096"@)
        } else if self.physical_sector_size matches Some(s) && s != 512 && s != 4096 {
            ("physical_sector_size"@, "Physical sector size must be 512 or 4096"@)
        } else {
            (Seq::empty(), Seq::empty())
        }
    }

    /// Create a new builder.
    pub fn builder() -> (b: VhdSettingsBuilder)
        ensures
            b == VhdSettingsBuilder::spec_empty(),
    {
        VhdSettingsBuilder::new()
    }

    /// Validate the settings: succeeds exactly on legal settings, and
    /// otherwise reports the first violated rule as a validation error.
    pub fn validate(&self) -> (r: Result<(), Error>)
        ensures
            r is Ok <==> self.spec_valid(),
            r matches Err(e) ==> e matches Error::Validation { field, message }
                && field@ == self.spec_validation_error().0
                && message@ == self.spec_validation_error().1,
    {
        if self.path.as_str().unicode_len() == 0 {
            return Err(Error::Validation {
                field: "path",
                message: String::from_str("VHD path cannot be empty"),
            });
        }
        match self.format {
            VhdFormat::Vhd => {
                if !ends_with_ignore_ascii_case(self.path.as_str(), ".vhd") {
                    return Err(Error::Validation {
                        field: "path",
                        message: String::from_str("VHD format requires .vhd extension"),
                    });
                }
            },
            VhdFormat::Vhdx => {
                if !ends_with_ignore_ascii_case(self.path.as_str(), ".vhdx") {
                    return Err(Error::Validation {
                        field: "path",
                        message: String::from_str("VHDX format requires .vhdx extension"),
                    });
                }
            },
        }
        if self.size_bytes == 0 && !matches!(self.disk_type, VhdType::Differencing) {
            return Err(Error::Validation {
                field: "size_bytes",
                message: String::from_str("Size must be greater than 0"),
            });
        }
        if matches!(self.format, VhdFormat::Vhd) && self.size_bytes > MAX_VHD_BYTES {
            return Err(Error::Validation {
                field: "size_bytes",
                message: String::from_str("VHD format supports maximum 2 TB"),
            });
        }
        if matches!(self.format, VhdFormat::Vhdx) && self.size_bytes > MAX_VHDX_BYTES {
            return Err(Error::Validation {
                field: "size_bytes",
                message: String::from_str("VHDX format supports maximum 64 TB"),
            });
        }
        if matches!(self.disk_type, VhdType::Differencing) && self.parent_path.is_none() {
            return Err(Error::Validation {
                field: "parent_path",
                message: String::from_str("Differencing disk requires parent path"),
            });
        }
        if let Some(sector) = self.logical_sector_size {
            if sector != 512 && sector != 4096 {
                return Err(Error::Validation {
                    field: "logical_sector_size",
                    message: String::from_str("Logical sector size must be 512 or 4096"),
                });
            }
        }
        if let Some(sector) = self.physical_sector_size {
            if sector != 512 && sector != 4096 {
                return Err(Error::Validation {
                    field: "physical_sector_size",
                    message: String::from_str("Physical sector size must be 512 or 4096"),
                });
            }
        }
        Ok(())
    }
}

/// Builder for [`VhdSettings`].
#[derive(Debug)]
pub struct VhdSettingsBuilder {
    pub path: Option<String>,
    pub format: VhdFormat,
    pub disk_type: VhdType,
    pub size_bytes: Option<u64>,
    pub block_size_bytes: Option<u32>,
    pub logical_sector_size: Option<u32>,
    pub physical_sector_size: Option<u32>,
    pub parent_path: Option<String>,
}

impl VhdSettingsBuilder {
    /// The builder with nothing set.
    pub open spec fn spec_empty() -> VhdSettingsBuilder {
        VhdSettingsBuilder {
            path: None,
            format: VhdFormat::Vhdx,
            disk_type: VhdType::Dynamic,
            size_bytes: None,
            block_size_bytes: None,
            logical_sector_size: None,
            physical_sector_size: None,
            parent_path: None,
        }
    }

    /// Start from an empty builder.
    pub fn new() -> (b: Self)
        ensures
            b == Self::spec_empty(),
    {
        VhdSettingsBuilder {
            path: None,
            format: VhdFormat::Vhdx,
            disk_type: VhdType::Dynamic,
            size_bytes: None,
            block_size_bytes: None,
            logical_sector_size: None,
            physical_sector_size: None,
            parent_path: None,
        }
    }

    /// Set the disk file path (required).  The format is auto-detected from
    /// the path's extension.
    pub fn path(self, path: &str) -> (r: Self)
        ensures
            r.path matches Some(p) && p@ == path@,
            r.format == VhdFormat::spec_from_path(path@),
            r == (VhdSettingsBuilder { path: r.path, format: r.format, ..self }),
    {
        let format = VhdFormat::from_path(path);
        VhdSettingsBuilder { path: Some(String::from_str(path)), format, ..self }
    }

    /// Set the disk format explicitly, overriding auto-detection.
    pub fn format(self, format: VhdFormat) -> (r: Self)
        ensures
            r == (VhdSettingsBuilder { format: format, ..self }),
    {
        VhdSettingsBuilder { format, ..self }
    }

    /// Set the disk type.
    pub fn disk_type(self, disk_type: VhdType) -> (r: Self)
        ensures
            r == (VhdSettingsBuilder { disk_type: disk_type, ..self }),
    {
        VhdSettingsBuilder { disk_type, ..self }
    }

    /// Set the size in bytes.
    pub fn size_bytes(self, size: u64) -> (r: Self)
        ensures
            r == (VhdSettingsBuilder { size_bytes: Some(size), ..self }),
    {
        VhdSettingsBuilder { size_bytes: Some(size), ..self }
    }

    /// Set the size in gigabytes.
    pub fn size_gb(self, gb: u64) -> (r: Self)
        requires
            gb * 1024 * 1024 * 1024 <= u64::MAX,
        ensures
            r == (VhdSettingsBuilder { size_bytes: Some((gb * 1024 * 1024 * 1024) as u64), ..self }),
    {
        VhdSettingsBuilder { size_bytes: Some(gb * 1024 * 1024 * 1024), ..self }
    }

    /// Set the block size in bytes.
    pub fn block_size_bytes(self, size: u32) -> (r: Self)
        ensures
            r == (VhdSettingsBuilder { block_size_bytes: Some(size), ..self }),
    {
        VhdSettingsBuilder { block_size_bytes: Some(size), ..self }
    }

    /// Set the logical sector size (512 or 4096).
    pub fn logical_sector_size(self, size: u32) -> (r: Self)
        ensures
            r == (VhdSettingsBuilder { logical_sector_size: Some(size), ..self }),
    {
        VhdSettingsBuilder { logical_sector_size: Some(size), ..self }
    }

    /// Set the physical sector size (512 or 4096).
    pub fn physical_sector_size(self, size: u32) -> (r: Self)
        ensures
            r == (VhdSettingsBuilder { physical_sector_size: Some(size), ..self }),
    {
        VhdSettingsBuilder { physical_sector_size: Some(size), ..self }
    }

    /// Set the parent path, making this a differencing disk.
    pub fn parent_path(self, path: &str) -> (r: Self)
        ensures
            r.parent_path matches Some(p) && p@ == path@,
            r.disk_type == VhdType::Differencing,
            r == (VhdSettingsBuilder { parent_path: r.parent_path, disk_type: r.disk_type, ..self }),
    {
        VhdSettingsBuilder {
            parent_path: Some(String::from_str(path)),
            disk_type: VhdType::Differencing,
            ..self
        }
    }

    /// The settings value this builder assembles (size 0 when never set).
    pub open spec fn spec_settings(self) -> VhdSettings {
        VhdSettings {
            path: self.path->0,
            format: self.format,
            disk_type: self.disk_type,
            size_bytes: if self.size_bytes is Some { self.size_bytes->0 } else { 0 },
            block_size_bytes: self.block_size_bytes,
            logical_sector_size: self.logical_sector_size,
            physical_sector_size: self.physical_sector_size,
            parent_path: self.parent_path,
        }
    }

    /// Build and validate the settings.  Fails with `MissingRequired` when no
    /// path was set, and with the validation error of the assembled settings
    /// when they are not legal; otherwise returns exactly the assembled
    /// settings.
    pub fn build(self) -> (r: Result<VhdSettings, Error>)
        ensures
            r is Ok <==> self.path is Some && self.spec_settings().spec_valid(),
            r matches Ok(s) ==> s == self.spec_settings(),
            self.path is None
                ==> (r matches Err(e) && (e matches Error::MissingRequired(g) && g@ == "path"@)),
            self.path is Some && !self.spec_settings().spec_valid()
                ==> (r matches Err(e) && (e matches Error::Validation { field, message }
                    && field@ == self.spec_settings().spec_validation_error().0
                    && message@ == self.spec_settings().spec_validation_error().1)),
    {
        let path = match self.path {
            Some(p) => p,
            None => {
                return Err(Error::MissingRequired("path"));
            },
        };
        let size_bytes = match self.size_bytes {
            Some(s) => s,
            None => 0,
        };
        let settings = VhdSettings {
            path,
            format: self.format,
            disk_type: self.disk_type,
            size_bytes,
            block_size_bytes: self.block_size_bytes,
            logical_sector_size: self.logical_sector_size,
            physical_sector_size: self.physical_sector_size,
            parent_path: self.parent_path,
        };
        match settings.validate() {
            Ok(()) => Ok(settings),
            Err(e) => Err(e),
        }
    }
}

} // verus!
