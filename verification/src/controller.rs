//! Storage controllers and the disk/ISO attachment descriptors.
//!
//! Two controller variants exist, with different capacity limits and
//! addressing: the legacy bus offers locations 0-1 on controllers 0-1, the
//! modern bus locations 0-63 on controllers 0-3.

use vstd::prelude::*;
use vstd::string::StrSliceExecFns;
use vstd::string::StringExecFns;
use crate::error::Error;
use crate::text::{ends_with_fold, ends_with_ignore_ascii_case};

verus! {

/// Largest legal controller number of the legacy bus.
pub const MAX_IDE_CONTROLLER: u32 = 1;

/// Largest legal location on a legacy controller.
pub const MAX_IDE_LOCATION: u32 = 1;

/// Largest legal controller number of the modern bus.
pub const MAX_SCSI_CONTROLLER: u32 = 3;

/// Largest legal location on a modern controller.
pub const MAX_SCSI_LOCATION: u32 = 63;

/// Storage controller type.
#[derive(Debug, Clone, Copy, PartialEq, Eq, Structural)]
pub enum ControllerType {
    /// IDE controller (legacy generation only, 2 channels, 2 devices each).
    Ide,
    /// SCSI controller (both generations, up to 64 devices).
    Scsi,
}

impl ControllerType {
    /// Schema class that describes resources of this controller type.
    pub open spec fn spec_wmi_class(self) -> Seq<char> {
        "Msvm_ResourceAllocationSettingData"@
    }

    /// Schema class that describes resources of this controller type.
    pub fn wmi_class(&self) -> (r: &'static str)
        ensures
            r@ == self.spec_wmi_class(),
    {
        "Msvm_ResourceAllocationSettingData"
    }

    /// Resource subtype string that identifies this controller type.
    pub open spec fn spec_resource_subtype(self) -> Seq<char> {
        match self {
            ControllerType::Ide => "Microsoft:Hyper-V:Emulated IDE Controller"@,
            ControllerType::Scsi => "Microsoft:Hyper-V:Synthetic SCSI Controller"@,
        }
    }

    /// Resource subtype string that identifies this controller type.
    pub fn resource_subtype(&self) -> (r: &'static str)
        ensures
            r@ == self.spec_resource_subtype(),
    {
        match self {
            ControllerType::Ide => "Microsoft:Hyper-V:Emulated IDE Controller",
            ControllerType::Scsi => "Microsoft:Hyper-V:Synthetic SCSI Controller",
        }
    }

    /// Largest legal controller number for this type.
    pub open spec fn spec_max_number(self) -> u32 {
        match self {
            ControllerType::Ide => MAX_IDE_CONTROLLER,
            ControllerType::Scsi => MAX_SCSI_CONTROLLER,
        }
    }

    /// Largest legal location for this type.
    pub open spec fn spec_max_location(self) -> u32 {
        match self {
            ControllerType::Ide => MAX_IDE_LOCATION,
            ControllerType::Scsi => MAX_SCSI_LOCATION,
        }
    }
}

/// A storage controller attached to a VM.
#[derive(Debug)]
pub struct StorageController {
    /// Controller type.
    pub controller_type: ControllerType,
    /// Controller instance ID.
    pub instance_id: String,
    /// Controller address/number.
    pub address: u32,
    /// Document path of the controller resource.
    pub path: String,
}

/// Disk attachment settings.
#[derive(Debug, Clone)]
pub struct DiskAttachment {
    /// Path to the VHD/VHDX file.
    pub vhd_path: String,
    /// Controller type.
    pub controller_type: ControllerType,
    /// Controller number (0-3 for SCSI, 0-1 for IDE).
    pub controller_number: u32,
    /// Controller location (0-63 for SCSI, 0-1 for IDE).
    pub controller_location: u32,
}

/// The controller address of an attachment is legal for its type.
pub open spec fn controller_address_ok(t: ControllerType, number: u32, location: u32) -> bool {
    number <= t.spec_max_number() && location <= t.spec_max_location()
}

/// Field and message of the first failing controller-address check, shared by
/// disk and ISO attachments.  Meaningful only when the address is not legal.
pub open spec fn controller_address_error(t: ControllerType, number: u32, location: u32) -> (
    Seq<char>,
    Seq<char>,
) {
    if t is Ide {
        if number > MAX_IDE_CONTROLLER {
            ("controller_number"@, "IDE controller number must be 0 or 1"@)
        } else if location > MAX_IDE_LOCATION {
            ("controller_location"@, "IDE controller location must be 0 or 1"@)
        } else {
            (Seq::empty(), Seq::empty())
        }
    } else {
        if number > MAX_SCSI_CONTROLLER {
            ("controller_number"@, "SCSI controller number must be 0-3"@)
        } else if location > MAX_SCSI_LOCATION {
            ("controller_location"@, "SCSI controller location must be 0-63"@)
        } else {
            (Seq::empty(), Seq::empty())
        }
    }
}

/// Validate a controller address, reporting the first violated rule.
fn validate_controller_address(t: ControllerType, number: u32, location: u32) -> (r: Result<
    (),
    Error,
>)
    ensures
        r is Ok <==> controller_address_ok(t, number, location),
        r matches Err(e) ==> e matches Error::Validation { field, message }
            && field@ == controller_address_error(t, number, location).0
            && message@ == controller_address_error(t, number, location).1,
{
    match t {
        ControllerType::Ide => {
            if number > MAX_IDE_CONTROLLER {
                return Err(Error::Validation {
                    field: "controller_number",
                    message: String::from_str("IDE controller number must be 0 or 1"),
                });
            }
            if location > MAX_IDE_LOCATION {
                return Err(Error::Validation {
                    field: "controller_location",
                    message: String::from_str("IDE controller location must be 0 or 1"),
                });
            }
        },
        ControllerType::Scsi => {
            if number > MAX_SCSI_CONTROLLER {
                return Err(Error::Validation {
                    field: "controller_number",
                    message: String::from_str("SCSI controller number must be 0-3"),
                });
            }
            if location > MAX_SCSI_LOCATION {
                return Err(Error::Validation {
                    field: "controller_location",
                    message: String::from_str("SCSI controller location must be 0-63"),
                });
            }
        },
    }
    Ok(())
}

impl DiskAttachment {
    /// The attachment is legal: nonempty media path and a controller address
    /// within the bounds of its controller type.
    pub open spec fn spec_valid(self) -> bool {
        &&& self.vhd_path@.len() > 0
        &&& controller_address_ok(
            self.controller_type,
            self.controller_number,
            self.controller_location,
        )
    }

    /// Field and message of the first validation check that fails.
    pub open spec fn spec_validation_error(self) -> (Seq<char>, Seq<char>) {
        if self.vhd_path@.len() == 0 {
            ("vhd_path"@, "VHD path cannot be empty"@)
        } else {
            controller_address_error(
                self.controller_type,
                self.controller_number,
                self.controller_location,
            )
        }
    }

    /// Create a new disk attachment for the given media path, on the modern
    /// bus at controller 0, location 0.
    pub fn new(vhd_path: &str) -> (r: Self)
        ensures
            r.vhd_path@ == vhd_path@,
            r.controller_type == ControllerType::Scsi,
            r.controller_number == 0u32,
            r.controller_location == 0u32,
    {
        DiskAttachment {
            vhd_path: String::from_str(vhd_path),
            controller_type: ControllerType::Scsi,
            controller_number: 0,
            controller_location: 0,
        }
    }

    /// Set the controller type.
    pub fn controller_type(self, controller_type: ControllerType) -> (r: Self)
        ensures
            r == (DiskAttachment { controller_type: controller_type, ..self }),
    {
        DiskAttachment { controller_type, ..self }
    }

    /// Set the controller number.
    pub fn controller_number(self, number: u32) -> (r: Self)
        ensures
            r == (DiskAttachment { controller_number: number, ..self }),
    {
        DiskAttachment { controller_number: number, ..self }
    }

    /// Set the controller location.
    pub fn controller_location(self, location: u32) -> (r: Self)
        ensures
            r == (DiskAttachment { controller_location: location, ..self }),
    {
        DiskAttachment { controller_location: location, ..self }
    }

    /// Validate the attachment: succeeds exactly on legal attachments, and
    /// otherwise reports the first violated rule as a validation error.
    pub fn validate(&self) -> (r: Result<(), Error>)
        ensures
            r is Ok <==> self.spec_valid(),
            r matches Err(e) ==> e matches Error::Validation { field, message }
                && field@ == self.spec_validation_error().0
                && message@ == self.spec_validation_error().1,
    {
        if self.vhd_path.as_str().unicode_len() == 0 {
            return Err(Error::Validation {
                field: "vhd_path",
                message: String::from_str("VHD path cannot be empty"),
            });
        }
        validate_controller_address(
            self.controller_type,
            self.controller_number,
            self.controller_location,
        )
    }
}

/// ISO attachment settings.
#[derive(Debug, Clone)]
pub struct IsoAttachment {
    /// Path to the ISO file.
    pub iso_path: String,
    /// Controller type (usually IDE for the legacy generation, SCSI for the
    /// UEFI-capable one).
    pub controller_type: ControllerType,
    /// Controller number.
    pub controller_number: u32,
    /// Controller location.
    pub controller_location: u32,
}

impl IsoAttachment {
    /// The attachment is legal: nonempty media path ending in `.iso`
    /// (case-folded) and a controller address within the bounds of its
    /// controller type.
    pub open spec fn spec_valid(self) -> bool {
        &&& self.iso_path@.len() > 0
        &&& ends_with_fold(self.iso_path@, ".iso"@)
        &&& controller_address_ok(
            self.controller_type,
            self.controller_number,
            self.controller_location,
        )
    }

    /// Field and message of the first validation check that fails.
    pub open spec fn spec_validation_error(self) -> (Seq<char>, Seq<char>) {
        if self.iso_path@.len() == 0 {
            ("iso_path"@, "ISO path cannot be empty"@)
        } else if !ends_with_fold(self.iso_path@, ".iso"@) {
            ("iso_path"@, "ISO path must end with .iso"@)
        } else {
            controller_address_error(
                self.controller_type,
                self.controller_number,
                self.controller_location,
            )
        }
    }

    /// Create a new ISO attachment for the given media path, on the legacy
    /// bus at controller 1 (secondary), location 0.
    pub fn new(iso_path: &str) -> (r: Self)
        ensures
            r.iso_path@ == iso_path@,
            r.controller_type == ControllerType::Ide,
            r.controller_number == 1u32,
            r.controller_location == 0u32,
    {
        IsoAttachment {
            iso_path: String::from_str(iso_path),
            controller_type: ControllerType::Ide,
            controller_number: 1,
            controller_location: 0,
        }
    }

    /// Set the controller type.
    pub fn controller_type(self, controller_type: ControllerType) -> (r: Self)
        ensures
            r == (IsoAttachment { controller_type: controller_type, ..self }),
    {
        IsoAttachment { controller_type, ..self }
    }

    /// Set the controller number.
    pub fn controller_number(self, number: u32) -> (r: Self)
        ensures
            r == (IsoAttachment { controller_number: number, ..self }),
    {
        IsoAttachment { controller_number: number, ..self }
    }

    /// Set the controller location.
    pub fn controller_location(self, location: u32) -> (r: Self)
        ensures
            r == (IsoAttachment { controller_location: location, ..self }),
    {
        IsoAttachment { controller_location: location, ..self }
    }

    /// Validate the attachment: succeeds exactly on legal attachments, and
    /// otherwise reports the first violated rule as a validation error.
    pub fn validate(&self) -> (r: Result<(), Error>)
        ensures
            r is Ok <==> self.spec_valid(),
            r matches Err(e) ==> e matches Error::Validation { field, message }
                && field@ == self.spec_validation_error().0
                && message@ == self.spec_validation_error().1,
    {
        if self.iso_path.as_str().unicode_len() == 0 {
            return Err(Error::Validation {
                field: "iso_path",
                message: String::from_str("ISO path cannot be empty"),
            });
        }
        if !ends_with_ignore_ascii_case(self.iso_path.as_str(), ".iso") {
            return Err(Error::Validation {
                field: "iso_path",
                message: String::from_str("ISO path must end with .iso"),
            });
        }
        validate_controller_address(
            self.controller_type,
            self.controller_number,
            self.controller_location,
        )
    }
}

} // verus!
