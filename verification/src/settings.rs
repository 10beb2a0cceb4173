//! VM settings: an immutable, validated configuration value, and the builder
//! that enforces required fields before validation.
//!
//! Validation runs locally, before any round trip to the management service:
//! a settings value that validates is exactly one that satisfies
//! [`VmSettings::spec_valid`].

use vstd::prelude::*;
use vstd::string::StringExecFns;
use crate::error::Error;
use crate::state::{AutomaticStartAction, AutomaticStopAction, CheckpointType, Generation};
use crate::text::{contains_reserved_name_char, has_reserved_name_char};

verus! {

/// Smallest legal memory size in MB.
pub const MIN_MEMORY_MB: u64 = 32;

/// Largest legal memory size in MB (12 TB).
pub const MAX_MEMORY_MB: u64 = 12582912;

/// Smallest legal processor count.
pub const MIN_PROCESSORS: u32 = 1;

/// Largest legal processor count.
pub const MAX_PROCESSORS: u32 = 240;

/// Longest legal entity name, in characters.
pub const MAX_NAME_CHARS: usize = 100;

/// An entity name is legal when it is nonempty, at most 100 characters, and
/// free of path-reserved characters.
pub open spec fn name_ok(s: Seq<char>) -> bool {
    0 < s.len() <= MAX_NAME_CHARS && !has_reserved_name_char(s)
}

/// VM settings for creation and modification.
///
/// Use [`VmSettingsBuilder`] to construct with validation.
#[derive(Debug, Clone)]
pub struct VmSettings {
    /// VM display name (required).
    pub name: String,
    /// VM generation (required).
    pub generation: Generation,
    /// Memory in MB (required, 32 MB to 12 TB).
    pub memory_mb: u64,
    /// Number of virtual processors (required, 1 to 240).
    pub processor_count: u32,
    /// Path to store VM configuration files.
    pub config_path: Option<String>,
    /// Path to store VM snapshots.
    pub snapshot_path: Option<String>,
    /// Path for the smart paging file.
    pub smart_paging_path: Option<String>,
    /// Enable dynamic memory.
    pub dynamic_memory: bool,
    /// Minimum memory when using dynamic memory (MB).
    pub dynamic_memory_min_mb: Option<u64>,
    /// Maximum memory when using dynamic memory (MB).
    pub dynamic_memory_max_mb: Option<u64>,
    /// Memory buffer percentage for dynamic memory.
    pub memory_buffer_percentage: Option<u32>,
    /// Enable secure boot (UEFI-capable generation only).
    pub secure_boot: bool,
    /// Secure boot template name.
    pub secure_boot_template: Option<String>,
    /// Enable TPM.
    pub tpm_enabled: bool,
    /// Enable nested virtualization.
    pub nested_virtualization: bool,
    /// Automatic start action.
    pub automatic_start_action: AutomaticStartAction,
    /// Automatic start delay in seconds.
    pub automatic_start_delay: u32,
    /// Automatic stop action.
    pub automatic_stop_action: AutomaticStopAction,
    /// Checkpoint type.
    pub checkpoint_type: CheckpointType,
    /// VM notes/description.
    pub notes: Option<String>,
}

impl VmSettings {
    /// The dynamic-memory cross-field invariants hold: when dynamic memory is
    /// enabled, a given minimum lies in [32, startup], a given maximum is at
    /// least the startup amount, the minimum never exceeds the maximum, and a
    /// given buffer is at most 100%.
    pub open spec fn spec_dynamic_memory_ok(self) -> bool {
        self.dynamic_memory ==> {
            &&& (self.dynamic_memory_min_mb matches Some(min)
                ==> MIN_MEMORY_MB <= min <= self.memory_mb)
            &&& (self.dynamic_memory_max_mb matches Some(max) ==> max >= self.memory_mb)
            &&& (self.dynamic_memory_min_mb matches Some(min)
                ==> (self.dynamic_memory_max_mb matches Some(max) ==> min <= max))
            &&& (self.memory_buffer_percentage matches Some(buffer) ==> buffer <= 100)
        }
    }

    /// The settings are legal: name well-formed, memory and processor count
    /// in range, dynamic-memory invariants hold, and secure boot is only
    /// requested on the UEFI-capable generation.
    pub open spec fn spec_valid(self) -> bool {
        &&& name_ok(self.name@)
        &&& MIN_MEMORY_MB <= self.memory_mb <= MAX_MEMORY_MB
        &&& MIN_PROCESSORS <= self.processor_count <= MAX_PROCESSORS
        &&& self.spec_dynamic_memory_ok()
        &&& (self.generation is Gen1 ==> !self.secure_boot)
    }

    /// Field and message of the first validation check that fails, in the
    /// order the checks are made.  Meaningful only when `!self.spec_valid()`.
    pub open spec fn spec_validation_error(self) -> (Seq<char>, Seq<char>) {
        if self.name@.len() == 0 {
            ("name"@, "VM name cannot be empty"@)
        } else if self.name@.len() > MAX_NAME_CHARS {
            ("name"@, "VM name cannot exceed 100 characters"@)
        } else if has_reserved_name_char(self.name@) {
            ("name"@, "VM name contains invalid characters"@)
        } else if self.memory_mb < MIN_MEMORY_MB {
            ("memory_mb"@, "Memory must be at least 32 MB"@)
        } else if self.memory_mb > MAX_MEMORY_MB {
            ("memory_mb"@, "Memory cannot exceed 12 TB"@)
        } else if self.processor_count < MIN_PROCESSORS {
            ("processor_count"@, "Processor count must be at least 1"@)
        } else if self.processor_count > MAX_PROCESSORS {
            ("processor_count"@, "Processor count cannot exceed 240"@)
        } else if self.dynamic_memory && self.dynamic_memory_min_mb is Some
            && self.dynamic_memory_min_mb->0 < MIN_MEMORY_MB {
            ("dynamic_memory_min_mb"@, "Minimum dynamic memory must be at least 32 MB"@)
        } else if self.dynamic_memory && self.dynamic_memory_min_mb is Some
            && self.dynamic_memory_min_mb->0 > self.memory_mb {
            ("dynamic_memory_min_mb"@, "Minimum memory cannot exceed startup memory"@)
        } else if self.dynamic_memory && self.dynamic_memory_max_mb is Some
            && self.dynamic_memory_max_mb->0 < self.memory_mb {
            ("dynamic_memory_max_mb"@, "Maximum memory cannot be less than startup memory"@)
        } else if self.dynamic_memory && self.dynamic_memory_min_mb is Some
            && self.dynamic_memory_max_mb is Some
            && self.dynamic_memory_min_mb->0 > self.dynamic_memory_max_mb->0 {
            ("dynamic_memory"@, "Minimum memory cannot exceed maximum memory"@)
        } else if self.dynamic_memory && self.memory_buffer_percentage is Some
            && self.memory_buffer_percentage->0 > 100 {
            ("memory_buffer_percentage"@, "Memory buffer cannot exceed 100%"@)
        } else if self.generation is Gen1 && self.secure_boot {
            ("secure_boot"@, "Secure Boot is only available for Generation 2 VMs"@)
        } else {
            (Seq::empty(), Seq::empty())
        }
    }

    /// Create a new builder.
    pub fn builder() -> (b: VmSettingsBuilder)
        ensures
            b == VmSettingsBuilder::spec_empty(),
    {
        VmSettingsBuilder::new()
    }

    /// Validate the settings: succeeds exactly on legal settings, and
    /// otherwise reports the first violated rule as a validation error.
    pub fn validate(&self) -> (r: Result<(), Error>)
        ensures
            r is Ok <==> self.spec_valid(),
            r matches Err(e) ==> e matches Error::Validation { field, message }
                && field@ == self.spec_validation_error().0
                && message@ == self.spec_validation_error().1,
    {
        let name_len = self.name.as_str().unicode_len();
        if name_len == 0 {
            return Err(Error::Validation {
                field: "name",
                message: String::from_str("VM name cannot be empty"),
            });
        }
        if name_len > MAX_NAME_CHARS {
            return Err(Error::Validation {
                field: "name",
                message: String::from_str("VM name cannot exceed 100 characters"),
            });
        }
        if contains_reserved_name_char(self.name.as_str()) {
            return Err(Error::Validation {
                field: "name",
                message: String::from_str("VM name contains invalid characters"),
            });
        }
        if self.memory_mb < MIN_MEMORY_MB {
            return Err(Error::Validation {
                field: "memory_mb",
                message: String::from_str("Memory must be at least 32 MB"),
            });
        }
        if self.memory_mb > MAX_MEMORY_MB {
            return Err(Error::Validation {
                field: "memory_mb",
                message: String::from_str("Memory cannot exceed 12 TB"),
            });
        }
        if self.processor_count < MIN_PROCESSORS {
            return Err(Error::Validation {
                field: "processor_count",
                message: String::from_str("Processor count must be at least 1"),
            });
        }
        if self.processor_count > MAX_PROCESSORS {
            return Err(Error::Validation {
                field: "processor_count",
                message: String::from_str("Processor count cannot exceed 240"),
            });
        }
        if self.dynamic_memory {
            if let Some(min) = self.dynamic_memory_min_mb {
                if min < MIN_MEMORY_MB {
                    return Err(Error::Validation {
                        field: "dynamic_memory_min_mb",
                        message: String::from_str(
                            "Minimum dynamic memory must be at least 32 MB",
                        ),
                    });
                }
                if min > self.memory_mb {
                    return Err(Error::Validation {
                        field: "dynamic_memory_min_mb",
                        message: String::from_str("Minimum memory cannot exceed startup memory"),
                    });
                }
            }
            if let Some(max) = self.dynamic_memory_max_mb {
                if max < self.memory_mb {
                    return Err(Error::Validation {
                        field: "dynamic_memory_max_mb",
                        message: String::from_str(
                            "Maximum memory cannot be less than startup memory",
                        ),
                    });
                }
            }
            if let Some(min) = self.dynamic_memory_min_mb {
                if let Some(max) = self.dynamic_memory_max_mb {
                    if min > max {
                        return Err(Error::Validation {
                            field: "dynamic_memory",
                            message: String::from_str(
                                "Minimum memory cannot exceed maximum memory",
                            ),
                        });
                    }
                }
            }
            if let Some(buffer) = self.memory_buffer_percentage {
                if buffer > 100 {
                    return Err(Error::Validation {
                        field: "memory_buffer_percentage",
                        message: String::from_str("Memory buffer cannot exceed 100%"),
                    });
                }
            }
        }
        if matches!(self.generation, Generation::Gen1) && self.secure_boot {
            return Err(Error::Validation {
                field: "secure_boot",
                message: String::from_str("Secure Boot is only available for Generation 2 VMs"),
            });
        }
        Ok(())
    }
}

/// Builder for [`VmSettings`] with required-field enforcement.
#[derive(Debug)]
pub struct VmSettingsBuilder {
    pub name: Option<String>,
    pub generation: Option<Generation>,
    pub memory_mb: Option<u64>,
    pub processor_count: Option<u32>,
    pub config_path: Option<String>,
    pub snapshot_path: Option<String>,
    pub smart_paging_path: Option<String>,
    pub dynamic_memory: bool,
    pub dynamic_memory_min_mb: Option<u64>,
    pub dynamic_memory_max_mb: Option<u64>,
    pub memory_buffer_percentage: Option<u32>,
    pub secure_boot: bool,
    pub secure_boot_template: Option<String>,
    pub tpm_enabled: bool,
    pub nested_virtualization: bool,
    pub automatic_start_action: AutomaticStartAction,
    pub automatic_start_delay: u32,
    pub automatic_stop_action: AutomaticStopAction,
    pub checkpoint_type: CheckpointType,
    pub notes: Option<String>,
}

impl VmSettingsBuilder {
    /// The builder with nothing set.
    pub open spec fn spec_empty() -> VmSettingsBuilder {
        VmSettingsBuilder {
            name: None,
            generation: None,
            memory_mb: None,
            processor_count: None,
            config_path: None,
            snapshot_path: None,
            smart_paging_path: None,
            dynamic_memory: false,
            dynamic_memory_min_mb: None,
            dynamic_memory_max_mb: None,
            memory_buffer_percentage: None,
            secure_boot: false,
            secure_boot_template: None,
            tpm_enabled: false,
            nested_virtualization: false,
            automatic_start_action: AutomaticStartAction::Nothing,
            automatic_start_delay: 0,
            automatic_stop_action: AutomaticStopAction::Save,
            checkpoint_type: CheckpointType::Production,
            notes: None,
        }
    }

    /// Start from an empty builder.
    pub fn new() -> (b: Self)
        ensures
            b == Self::spec_empty(),
    {
        VmSettingsBuilder {
            name: None,
            generation: None,
            memory_mb: None,
            processor_count: None,
            config_path: None,
            snapshot_path: None,
            smart_paging_path: None,
            dynamic_memory: false,
            dynamic_memory_min_mb: None,
            dynamic_memory_max_mb: None,
            memory_buffer_percentage: None,
            secure_boot: false,
            secure_boot_template: None,
            tpm_enabled: false,
            nested_virtualization: false,
            automatic_start_action: AutomaticStartAction::Nothing,
            automatic_start_delay: 0,
            automatic_stop_action: AutomaticStopAction::Save,
            checkpoint_type: CheckpointType::Production,
            notes: None,
        }
    }

    /// Set the VM name (required).
    pub fn name(self, name: &str) -> (r: Self)
        ensures
            r.name matches Some(n) && n@ == name@,
            r == (VmSettingsBuilder { name: r.name, ..self }),
    {
        VmSettingsBuilder { name: Some(String::from_str(name)), ..self }
    }

    /// Set the VM generation (required).
    pub fn generation(self, generation: Generation) -> (r: Self)
        ensures
            r == (VmSettingsBuilder { generation: Some(generation), ..self }),
    {
        VmSettingsBuilder { generation: Some(generation), ..self }
    }

    /// Set the memory size in MB (required).
    pub fn memory_mb(self, mb: u64) -> (r: Self)
        ensures
            r == (VmSettingsBuilder { memory_mb: Some(mb), ..self }),
    {
        VmSettingsBuilder { memory_mb: Some(mb), ..self }
    }

    /// Set the number of virtual processors (required).
    pub fn processor_count(self, count: u32) -> (r: Self)
        ensures
            r == (VmSettingsBuilder { processor_count: Some(count), ..self }),
    {
        VmSettingsBuilder { processor_count: Some(count), ..self }
    }

    /// Set the configuration file storage path.
    pub fn config_path(self, path: &str) -> (r: Self)
        ensures
            r.config_path matches Some(p) && p@ == path@,
            r == (VmSettingsBuilder { config_path: r.config_path, ..self }),
    {
        VmSettingsBuilder { config_path: Some(String::from_str(path)), ..self }
    }

    /// Set the snapshot storage path.
    pub fn snapshot_path(self, path: &str) -> (r: Self)
        ensures
            r.snapshot_path matches Some(p) && p@ == path@,
            r == (VmSettingsBuilder { snapshot_path: r.snapshot_path, ..self }),
    {
        VmSettingsBuilder { snapshot_path: Some(String::from_str(path)), ..self }
    }

    /// Set the smart paging file path.
    pub fn smart_paging_path(self, path: &str) -> (r: Self)
        ensures
            r.smart_paging_path matches Some(p) && p@ == path@,
            r == (VmSettingsBuilder { smart_paging_path: r.smart_paging_path, ..self }),
    {
        VmSettingsBuilder { smart_paging_path: Some(String::from_str(path)), ..self }
    }

    /// Enable or disable dynamic memory.
    pub fn dynamic_memory(self, enabled: bool) -> (r: Self)
        ensures
            r == (VmSettingsBuilder { dynamic_memory: enabled, ..self }),
    {
        VmSettingsBuilder { dynamic_memory: enabled, ..self }
    }

    /// Set the minimum memory for dynamic memory (MB).
    pub fn dynamic_memory_min_mb(self, mb: u64) -> (r: Self)
        ensures
            r == (VmSettingsBuilder { dynamic_memory_min_mb: Some(mb), ..self }),
    {
        VmSettingsBuilder { dynamic_memory_min_mb: Some(mb), ..self }
    }

    /// Set the maximum memory for dynamic memory (MB).
    pub fn dynamic_memory_max_mb(self, mb: u64) -> (r: Self)
        ensures
            r == (VmSettingsBuilder { dynamic_memory_max_mb: Some(mb), ..self }),
    {
        VmSettingsBuilder { dynamic_memory_max_mb: Some(mb), ..self }
    }

    /// Set the memory buffer percentage for dynamic memory.
    pub fn memory_buffer_percentage(self, percent: u32) -> (r: Self)
        ensures
            r == (VmSettingsBuilder { memory_buffer_percentage: Some(percent), ..self }),
    {
        VmSettingsBuilder { memory_buffer_percentage: Some(percent), ..self }
    }

    /// Enable or disable secure boot.
    pub fn secure_boot(self, enabled: bool) -> (r: Self)
        ensures
            r == (VmSettingsBuilder { secure_boot: enabled, ..self }),
    {
        VmSettingsBuilder { secure_boot: enabled, ..self }
    }

    /// Set the secure boot template.
    pub fn secure_boot_template(self, template: &str) -> (r: Self)
        ensures
            r.secure_boot_template matches Some(t) && t@ == template@,
            r == (VmSettingsBuilder { secure_boot_template: r.secure_boot_template, ..self }),
    {
        VmSettingsBuilder { secure_boot_template: Some(String::from_str(template)), ..self }
    }

    /// Enable or disable the TPM.
    pub fn tpm_enabled(self, enabled: bool) -> (r: Self)
        ensures
            r == (VmSettingsBuilder { tpm_enabled: enabled, ..self }),
    {
        VmSettingsBuilder { tpm_enabled: enabled, ..self }
    }

    /// Enable or disable nested virtualization.
    pub fn nested_virtualization(self, enabled: bool) -> (r: Self)
        ensures
            r == (VmSettingsBuilder { nested_virtualization: enabled, ..self }),
    {
        VmSettingsBuilder { nested_virtualization: enabled, ..self }
    }

    /// Set the automatic start action.
    pub fn automatic_start_action(self, action: AutomaticStartAction) -> (r: Self)
        ensures
            r == (VmSettingsBuilder { automatic_start_action: action, ..self }),
    {
        VmSettingsBuilder { automatic_start_action: action, ..self }
    }

    /// Set the automatic start delay in seconds.
    pub fn automatic_start_delay(self, seconds: u32) -> (r: Self)
        ensures
            r == (VmSettingsBuilder { automatic_start_delay: seconds, ..self }),
    {
        VmSettingsBuilder { automatic_start_delay: seconds, ..self }
    }

    /// Set the automatic stop action.
    pub fn automatic_stop_action(self, action: AutomaticStopAction) -> (r: Self)
        ensures
            r == (VmSettingsBuilder { automatic_stop_action: action, ..self }),
    {
        VmSettingsBuilder { automatic_stop_action: action, ..self }
    }

    /// Set the checkpoint type.
    pub fn checkpoint_type(self, checkpoint_type: CheckpointType) -> (r: Self)
        ensures
            r == (VmSettingsBuilder { checkpoint_type: checkpoint_type, ..self }),
    {
        VmSettingsBuilder { checkpoint_type: checkpoint_type, ..self }
    }

    /// Set the VM notes/description.
    pub fn notes(self, notes: &str) -> (r: Self)
        ensures
            r.notes matches Some(n) && n@ == notes@,
            r == (VmSettingsBuilder { notes: r.notes, ..self }),
    {
        VmSettingsBuilder { notes: Some(String::from_str(notes)), ..self }
    }

    /// The settings value this builder assembles, once every required field
    /// is present.
    pub open spec fn spec_settings(self) -> VmSettings {
        VmSettings {
            name: self.name->0,
            generation: self.generation->0,
            memory_mb: self.memory_mb->0,
            processor_count: self.processor_count->0,
            config_path: self.config_path,
            snapshot_path: self.snapshot_path,
            smart_paging_path: self.smart_paging_path,
            dynamic_memory: self.dynamic_memory,
            dynamic_memory_min_mb: self.dynamic_memory_min_mb,
            dynamic_memory_max_mb: self.dynamic_memory_max_mb,
            memory_buffer_percentage: self.memory_buffer_percentage,
            secure_boot: self.secure_boot,
            secure_boot_template: self.secure_boot_template,
            tpm_enabled: self.tpm_enabled,
            nested_virtualization: self.nested_virtualization,
            automatic_start_action: self.automatic_start_action,
            automatic_start_delay: self.automatic_start_delay,
            automatic_stop_action: self.automatic_stop_action,
            checkpoint_type: self.checkpoint_type,
            notes: self.notes,
        }
    }

    /// Name of the first required field that is missing, if any, in the
    /// order the fields are checked.
    pub open spec fn spec_missing_field(self) -> Option<Seq<char>> {
        if self.name is None {
            Some("name"@)
        } else if self.generation is None {
            Some("generation"@)
        } else if self.memory_mb is None {
            Some("memory_mb"@)
        } else if self.processor_count is None {
            Some("processor_count"@)
        } else {
            None
        }
    }

    /// Build and validate the settings.  Fails with `MissingRequired` when a
    /// required field was never set, and with the validation error of the
    /// assembled settings when they are not legal; otherwise returns exactly
    /// the assembled settings.
    pub fn build(self) -> (r: Result<VmSettings, Error>)
        ensures
            r is Ok <==> self.spec_missing_field() is None && self.spec_settings().spec_valid(),
            r matches Ok(s) ==> s == self.spec_settings(),
            self.spec_missing_field() matches Some(f)
                ==> (r matches Err(e) && (e matches Error::MissingRequired(g) && g@ == f)),
            self.spec_missing_field() is None && !self.spec_settings().spec_valid()
                ==> (r matches Err(e) && (e matches Error::Validation { field, message }
                    && field@ == self.spec_settings().spec_validation_error().0
                    && message@ == self.spec_settings().spec_validation_error().1)),
    {
        let name = match self.name {
            Some(n) => n,
            None => {
                return Err(Error::MissingRequired("name"));
            },
        };
        let generation = match self.generation {
            Some(g) => g,
            None => {
                return Err(Error::MissingRequired("generation"));
            },
        };
        let memory_mb = match self.memory_mb {
            Some(m) => m,
            None => {
                return Err(Error::MissingRequired("memory_mb"));
            },
        };
        let processor_count = match self.processor_count {
            Some(p) => p,
            None => {
                return Err(Error::MissingRequired("processor_count"));
            },
        };
        let settings = VmSettings {
            name,
            generation,
            memory_mb,
            processor_count,
            config_path: self.config_path,
            snapshot_path: self.snapshot_path,
            smart_paging_path: self.smart_paging_path,
            dynamic_memory: self.dynamic_memory,
            dynamic_memory_min_mb: self.dynamic_memory_min_mb,
            dynamic_memory_max_mb: self.dynamic_memory_max_mb,
            memory_buffer_percentage: self.memory_buffer_percentage,
            secure_boot: self.secure_boot,
            secure_boot_template: self.secure_boot_template,
            tpm_enabled: self.tpm_enabled,
            nested_virtualization: self.nested_virtualization,
            automatic_start_action: self.automatic_start_action,
            automatic_start_delay: self.automatic_start_delay,
            automatic_stop_action: self.automatic_stop_action,
            checkpoint_type: self.checkpoint_type,
            notes: self.notes,
        };
        match settings.validate() {
            Ok(()) => Ok(settings),
            Err(e) => Err(e),
        }
    }
}

} // verus!
