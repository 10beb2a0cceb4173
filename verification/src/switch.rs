//! Virtual switches: type inference from port connections, bandwidth
//! reservation modes, and validated creation settings.
//!
//! A switch's type is not a stored scalar: it is inferred from which kind of
//! port the switch is associated with (an external port makes it externally
//! bridged, an internal port makes it host-visible, neither makes it
//! isolated).

use vstd::prelude::*;
use vstd::string::StrSliceExecFns;
use vstd::string::StringExecFns;
use crate::error::Error;
use crate::settings::MAX_NAME_CHARS;
use crate::text::{contains_reserved_name_char, has_reserved_name_char};

verus! {

/// Virtual switch type.
#[derive(Debug, Clone, Copy, PartialEq, Eq, Structural)]
pub enum SwitchType {
    /// Externally bridged - connected to a physical network adapter.
    External,
    /// Internal - accessible from the host and from VMs.
    Internal,
    /// Private - only accessible between VMs.
    Private,
}

impl SwitchType {
    /// Switch type denoted by a code; unknown codes fall back to `Private`.
    pub open spec fn spec_from_value(value: u32) -> SwitchType {
        match value {
            0u32 => SwitchType::Private,
            1u32 => SwitchType::Internal,
            2u32 => SwitchType::External,
            _ => SwitchType::Private,
        }
    }

    /// Numeric code of this switch type.
    pub open spec fn spec_to_value(self) -> u32 {
        match self {
            SwitchType::Private => 0,
            SwitchType::Internal => 1,
            SwitchType::External => 2,
        }
    }

    /// Parse from a numeric code.
    pub fn from_value(value: u32) -> (r: Self)
        ensures
            r == Self::spec_from_value(value),
    {
        if value == 0 { SwitchType::Private }
        else if value == 1 { SwitchType::Internal }
        else if value == 2 { SwitchType::External }
        else { SwitchType::Private }
    }

    /// Numeric code of this switch type.
    pub fn to_value(&self) -> (v: u32)
        ensures
            v == self.spec_to_value(),
    {
        match self {
            SwitchType::Private => 0,
            SwitchType::Internal => 1,
            SwitchType::External => 2,
        }
    }

    /// One-line description of this switch type.
    pub open spec fn spec_description(self) -> Seq<char> {
        match self {
            SwitchType::External => "Connected to physical network adapter"@,
            SwitchType::Internal => "Accessible from host and VMs"@,
            SwitchType::Private => "Only accessible between VMs"@,
        }
    }

    /// One-line description of this switch type.
    pub fn description(&self) -> (r: &'static str)
        ensures
            r@ == self.spec_description(),
    {
        match self {
            SwitchType::External => "Connected to physical network adapter",
            SwitchType::Internal => "Accessible from host and VMs",
            SwitchType::Private => "Only accessible between VMs",
        }
    }

    /// Human-readable name of this switch type.
    pub open spec fn spec_display(self) -> Seq<char> {
        match self {
            SwitchType::External => "External"@,
            SwitchType::Internal => "Internal"@,
            SwitchType::Private => "Private"@,
        }
    }

    /// Human-readable name of this switch type.
    pub fn display_string(&self) -> (r: String)
        ensures
            r@ == self.spec_display(),
    {
        match self {
            SwitchType::External => String::from_str("External"),
            SwitchType::Internal => String::from_str("Internal"),
            SwitchType::Private => String::from_str("Private"),
        }
    }

    /// Type of a switch that is associated with the given kinds of ports:
    /// an external port makes it externally bridged, otherwise an internal
    /// port makes it host-visible, otherwise it is isolated.
    pub open spec fn spec_infer(has_external_port: bool, has_internal_port: bool) -> SwitchType {
        if has_external_port {
            SwitchType::External
        } else if has_internal_port {
            SwitchType::Internal
        } else {
            SwitchType::Private
        }
    }

    /// Infer the switch type from its port connections.
    pub fn infer(has_external_port: bool, has_internal_port: bool) -> (r: Self)
        ensures
            r == Self::spec_infer(has_external_port, has_internal_port),
    {
        if has_external_port {
            SwitchType::External
        } else if has_internal_port {
            SwitchType::Internal
        } else {
            SwitchType::Private
        }
    }
}

impl Default for SwitchType {
    /// Isolated switches are the default.
    fn default() -> (r: Self)
        ensures
            r == SwitchType::Private,
    {
        SwitchType::Private
    }
}

/// Switch-type codes round-trip on the defined subset; unknown codes fall
/// back to `Private`, never to a panic.
pub proof fn lemma_switch_type_round_trip(t: SwitchType, v: u32)
    ensures
        SwitchType::spec_from_value(t.spec_to_value()) == t,
        v <= 2 ==> SwitchType::spec_from_value(v).spec_to_value() == v,
{
}

/// Single-root I/O virtualization mode of a switch.
#[derive(Debug, Clone, Copy, PartialEq, Eq, Structural)]
pub enum IovMode {
    /// IOV is disabled.
    Disabled,
    /// IOV is enabled.
    Enabled,
}

impl IovMode {
    /// Mode denoted by a flag.
    pub open spec fn spec_from_bool(enabled: bool) -> IovMode {
        if enabled { IovMode::Enabled } else { IovMode::Disabled }
    }

    /// Convert from a flag.
    pub fn from_bool(enabled: bool) -> (r: Self)
        ensures
            r == Self::spec_from_bool(enabled),
    {
        if enabled { IovMode::Enabled } else { IovMode::Disabled }
    }

    /// Whether IOV is enabled.
    pub fn is_enabled(&self) -> (r: bool)
        ensures
            r == (*self is Enabled),
    {
        matches!(self, IovMode::Enabled)
    }
}

impl Default for IovMode {
    /// IOV is disabled by default.
    fn default() -> (r: Self)
        ensures
            r == IovMode::Disabled,
    {
        IovMode::Disabled
    }
}

/// Bandwidth reservation mode of a virtual switch.
#[derive(Debug, Clone, Copy, PartialEq, Eq, Structural)]
pub enum BandwidthReservationMode {
    /// No bandwidth reservation.
    NoReservation,
    /// Default mode.
    Default,
    /// Weight-based reservation (1-100).
    Weight,
    /// Absolute reservation (bits/second).
    Absolute,
}

impl BandwidthReservationMode {
    /// Mode denoted by a code; unknown codes fall back to `None`.
    pub open spec fn spec_from_value(value: u32) -> BandwidthReservationMode {
        match value {
            0u32 => BandwidthReservationMode::NoReservation,
            1u32 => BandwidthReservationMode::Default,
            2u32 => BandwidthReservationMode::Weight,
            3u32 => BandwidthReservationMode::Absolute,
            _ => BandwidthReservationMode::NoReservation,
        }
    }

    /// Numeric code of this mode.
    pub open spec fn spec_to_value(self) -> u32 {
        match self {
            BandwidthReservationMode::NoReservation => 0,
            BandwidthReservationMode::Default => 1,
            BandwidthReservationMode::Weight => 2,
            BandwidthReservationMode::Absolute => 3,
        }
    }

    /// Parse from a numeric code.
    pub fn from_value(value: u32) -> (r: Self)
        ensures
            r == Self::spec_from_value(value),
    {
        if value == 0 { BandwidthReservationMode::NoReservation }
        else if value == 1 { BandwidthReservationMode::Default }
        else if value == 2 { BandwidthReservationMode::Weight }
        else if value == 3 { BandwidthReservationMode::Absolute }
        else { BandwidthReservationMode::NoReservation }
    }

    /// Numeric code of this mode.
    pub fn to_value(&self) -> (v: u32)
        ensures
            v == self.spec_to_value(),
    {
        match self {
            BandwidthReservationMode::NoReservation => 0,
            BandwidthReservationMode::Default => 1,
            BandwidthReservationMode::Weight => 2,
            BandwidthReservationMode::Absolute => 3,
        }
    }
}

impl Default for BandwidthReservationMode {
    /// No reservation by default.
    fn default() -> (r: Self)
        ensures
            r == BandwidthReservationMode::NoReservation,
    {
        BandwidthReservationMode::NoReservation
    }
}

/// Bandwidth-mode codes round-trip on the defined subset; unknown codes fall
/// back to `None`, never to a panic.
pub proof fn lemma_bandwidth_mode_round_trip(m: BandwidthReservationMode, v: u32)
    ensures
        BandwidthReservationMode::spec_from_value(m.spec_to_value()) == m,
        v <= 3 ==> BandwidthReservationMode::spec_from_value(v).spec_to_value() == v,
{
}

/// Fields observed on a switch's settings document.
#[derive(Debug)]
pub struct SwitchSettingsData {
    /// Path of the settings document.
    pub path: String,
    /// Notes on the settings document.
    pub notes: Option<String>,
    /// The `IOVPreferred` flag, if present.
    pub iov_preferred: Option<bool>,
    /// The bandwidth reservation mode code, if present.
    pub bandwidth_reservation_mode: Option<u32>,
    /// The absolute default-flow bandwidth, if present.
    pub default_flow_bandwidth_absolute: Option<u64>,
    /// The weight default-flow bandwidth, if present.
    pub default_flow_bandwidth_weight: Option<u32>,
}

/// A virtual switch known to the management service.
#[derive(Debug)]
pub struct VirtualSwitch {
    /// Switch display name.
    pub name: String,
    /// Switch unique ID (GUID).
    pub id: String,
    /// Switch type.
    pub switch_type: SwitchType,
    /// Description/notes.
    pub notes: Option<String>,
    /// Whether the switch allows management OS access.
    pub allow_management_os: bool,
    /// IOV mode.
    pub iov_mode: IovMode,
    /// Bandwidth reservation mode.
    pub bandwidth_reservation_mode: BandwidthReservationMode,
    /// Default flow minimum bandwidth (absolute, in bits/second).
    pub default_flow_min_bandwidth_absolute: u64,
    /// Default flow minimum bandwidth (weight, 1-100).
    pub default_flow_min_bandwidth_weight: u32,
    /// Document path of the switch object.
    pub path: String,
    /// Document path of the switch's settings, when resolved.
    pub settings_path: Option<String>,
}

impl VirtualSwitch {
    /// Assemble a switch from the properties of its document, all-or-nothing:
    /// display name, identifier and path are required, notes are optional.
    /// Type and feature fields start at their defaults until settings are
    /// applied.
    pub fn from_properties(
        name: Option<String>,
        id: Option<String>,
        path: Option<String>,
        notes: Option<String>,
    ) -> (r: Result<VirtualSwitch, Error>)
        ensures
            r is Ok <==> name is Some && id is Some && path is Some,
            r matches Ok(s) ==> {
                &&& s.name == name->0
                &&& s.id == id->0
                &&& s.path == path->0
                &&& s.notes == notes
                &&& s.switch_type == SwitchType::Private
                &&& s.allow_management_os == false
                &&& s.iov_mode == IovMode::Disabled
                &&& s.bandwidth_reservation_mode == BandwidthReservationMode::NoReservation
                &&& s.default_flow_min_bandwidth_absolute == 0
                &&& s.default_flow_min_bandwidth_weight == 0
                &&& s.settings_path is None
            },
            name is None ==> (r matches Err(e) && (e matches Error::MissingRequired(f)
                && f@ == "ElementName"@)),
            name is Some && id is None ==> (r matches Err(e)
                && (e matches Error::MissingRequired(f) && f@ == "Name"@)),
            name is Some && id is Some && path is None ==> (r matches Err(e)
                && (e matches Error::MissingRequired(f) && f@ == "__PATH"@)),
    {
        let name = match name {
            Some(n) => n,
            None => {
                return Err(Error::MissingRequired("ElementName"));
            },
        };
        let id = match id {
            Some(i) => i,
            None => {
                return Err(Error::MissingRequired("Name"));
            },
        };
        let path = match path {
            Some(p) => p,
            None => {
                return Err(Error::MissingRequired("__PATH"));
            },
        };
        Ok(VirtualSwitch {
            name,
            id,
            switch_type: SwitchType::Private,
            notes,
            allow_management_os: false,
            iov_mode: IovMode::Disabled,
            bandwidth_reservation_mode: BandwidthReservationMode::NoReservation,
            default_flow_min_bandwidth_absolute: 0,
            default_flow_min_bandwidth_weight: 0,
            path,
            settings_path: None,
        })
    }

    /// Fold the observed port connections and settings document into the
    /// switch: the type is inferred from the ports, management-OS access from
    /// the internal port, and each settings field is applied when present.
    pub fn apply_discovery(
        &mut self,
        settings: Option<SwitchSettingsData>,
        has_external_port: bool,
        has_internal_port: bool,
    )
        ensures
            final(self).name == old(self).name,
            final(self).id == old(self).id,
            final(self).path == old(self).path,
            final(self).switch_type == SwitchType::spec_infer(has_external_port, has_internal_port),
            final(self).allow_management_os == has_internal_port,
            settings matches Some(d) ==> {
                &&& final(self).settings_path matches Some(p) && p == d.path
                &&& final(self).notes == d.notes
                &&& final(self).iov_mode == (match d.iov_preferred {
                    Some(b) => IovMode::spec_from_bool(b),
                    None => old(self).iov_mode,
                })
                &&& final(self).bandwidth_reservation_mode == (match d.bandwidth_reservation_mode {
                    Some(m) => BandwidthReservationMode::spec_from_value(m),
                    None => old(self).bandwidth_reservation_mode,
                })
                &&& final(self).default_flow_min_bandwidth_absolute == (
                    match d.default_flow_bandwidth_absolute {
                        Some(a) => a,
                        None => old(self).default_flow_min_bandwidth_absolute,
                    })
                &&& final(self).default_flow_min_bandwidth_weight == (
                    match d.default_flow_bandwidth_weight {
                        Some(w) => w,
                        None => old(self).default_flow_min_bandwidth_weight,
                    })
            },
            settings is None ==> {
                &&& final(self).settings_path == old(self).settings_path
                &&& final(self).notes == old(self).notes
                &&& final(self).iov_mode == old(self).iov_mode
                &&& final(self).bandwidth_reservation_mode == old(
                    self,
                ).bandwidth_reservation_mode
                &&& final(self).default_flow_min_bandwidth_absolute == old(
                    self,
                ).default_flow_min_bandwidth_absolute
                &&& final(self).default_flow_min_bandwidth_weight == old(
                    self,
                ).default_flow_min_bandwidth_weight
            },
    {
        self.switch_type = SwitchType::infer(has_external_port, has_internal_port);
        if let Some(data) = settings {
            self.settings_path = Some(data.path);
            self.notes = data.notes;
            if let Some(iov) = data.iov_preferred {
                self.iov_mode = IovMode::from_bool(iov);
            }
            if let Some(mode) = data.bandwidth_reservation_mode {
                self.bandwidth_reservation_mode = BandwidthReservationMode::from_value(mode);
            }
            if let Some(abs) = data.default_flow_bandwidth_absolute {
                self.default_flow_min_bandwidth_absolute = abs;
            }
            if let Some(weight) = data.default_flow_bandwidth_weight {
                self.default_flow_min_bandwidth_weight = weight;
            }
        }
        self.allow_management_os = has_internal_port;
    }

    /// Get the switch name.
    pub fn name(&self) -> (r: &str)
        ensures
            r@ == self.name@,
    {
        self.name.as_str()
    }

    /// Get the switch ID (GUID).
    pub fn id(&self) -> (r: &str)
        ensures
            r@ == self.id@,
    {
        self.id.as_str()
    }

    /// Get the switch type.
    pub fn switch_type(&self) -> (r: SwitchType)
        ensures
            r == self.switch_type,
    {
        self.switch_type
    }

    /// Get the notes/description.
    pub fn notes(&self) -> (r: Option<&str>)
        ensures
            r is Some <==> self.notes is Some,
            r matches Some(n) ==> n@ == self.notes->0@,
    {
        match &self.notes {
            Some(n) => Some(n.as_str()),
            None => None,
        }
    }

    /// Check if the management OS can access this switch.
    pub fn allows_management_os(&self) -> (r: bool)
        ensures
            r == self.allow_management_os,
    {
        self.allow_management_os
    }

    /// Get the IOV mode.
    pub fn iov_mode(&self) -> (r: IovMode)
        ensures
            r == self.iov_mode,
    {
        self.iov_mode
    }

    /// Get the bandwidth reservation mode.
    pub fn bandwidth_reservation_mode(&self) -> (r: BandwidthReservationMode)
        ensures
            r == self.bandwidth_reservation_mode,
    {
        self.bandwidth_reservation_mode
    }

    /// Get the document path of the switch object.
    pub fn path(&self) -> (r: &str)
        ensures
            r@ == self.path@,
    {
        self.path.as_str()
    }

    /// Get the document path of the switch's settings, when resolved.
    pub fn settings_path(&self) -> (r: Option<&str>)
        ensures
            r is Some <==> self.settings_path is Some,
            r matches Some(p) ==> p@ == self.settings_path->0@,
    {
        match &self.settings_path {
            Some(p) => Some(p.as_str()),
            None => None,
        }
    }
}

/// Settings for creating a virtual switch.
#[derive(Debug, Clone)]
pub struct VirtualSwitchSettings {
    /// Switch name (required).
    pub name: String,
    /// Switch type (required).
    pub switch_type: SwitchType,
    /// Notes/description.
    pub notes: Option<String>,
    /// Allow the management OS to use this switch (External/Internal only).
    pub allow_management_os: bool,
    /// Physical adapter device ID (required for the external type).
    pub external_adapter_id: Option<String>,
    /// Enable IOV (SR-IOV) - requires compatible hardware.
    pub enable_iov: bool,
    /// Bandwidth reservation mode.
    pub bandwidth_reservation_mode: BandwidthReservationMode,
    /// Default flow minimum bandwidth (absolute, in Mbps), for absolute mode.
    pub default_flow_min_bandwidth_mbps: Option<u64>,
    /// Default flow minimum bandwidth (weight, 1-100), for weight mode.
    pub default_flow_min_bandwidth_weight: Option<u32>,
    /// Enable packet direct for improved performance.
    pub enable_packet_direct: bool,
    /// Enable switch embedded teaming.
    pub enable_embedded_teaming: bool,
}

impl VirtualSwitchSettings {
    /// The settings are legal: name well-formed; an externally-bridged switch
    /// names a physical adapter; an isolated switch neither names an adapter
    /// nor allows management-OS access; a given weight lies in 1..=100 and the
    /// weight/absolute modes carry their respective value; offload features
    /// are restricted to externally-bridged switches.
    pub open spec fn spec_valid(self) -> bool {
        &&& self.name@.len() > 0
        &&& self.name@.len() <= MAX_NAME_CHARS
        &&& !has_reserved_name_char(self.name@)
        &&& (self.switch_type is External ==> self.external_adapter_id is Some)
        &&& (self.switch_type is Private ==> self.external_adapter_id is None)
        &&& (self.switch_type is Private ==> !self.allow_management_os)
        &&& (self.default_flow_min_bandwidth_weight matches Some(w) ==> 1 <= w <= 100)
        &&& (self.bandwidth_reservation_mode is Weight
            ==> self.default_flow_min_bandwidth_weight is Some)
        &&& (self.bandwidth_reservation_mode is Absolute
            ==> self.default_flow_min_bandwidth_mbps is Some)
        &&& (self.enable_iov ==> self.switch_type is External)
        &&& (self.enable_packet_direct ==> self.switch_type is External)
    }

    /// Field and message of the first validation check that fails, in the
    /// order the checks are made.  Meaningful only when `!self.spec_valid()`.
    pub open spec fn spec_validation_error(self) -> (Seq<char>, Seq<char>) {
        if self.name@.len() == 0 {
            ("name"@, "Switch name cannot be empty"@)
        } else if self.name@.len() > MAX_NAME_CHARS {
            ("name"@, "Switch name cannot exceed 100 characters"@)
        } else if has_reserved_name_char(self.name@) {
            ("name"@, "Switch name contains invalid characters"@)
        } else if self.switch_type is External && self.external_adapter_id is None {
            ("external_adapter_id"@, "External switch requires a physical network adapter"@)
        } else if self.switch_type is Private && self.external_adapter_id is Some {
            ("external_adapter_id"@, "Private switch cannot be connected to a physical adapter"@)
        } else if self.switch_type is Private && self.allow_management_os {
            ("allow_management_os"@, "Private switch cannot allow management OS access"@)
        } else if self.default_flow_min_bandwidth_weight matches Some(w) && (w == 0 || w > 100) {
            ("default_flow_min_bandwidth_weight"@, "Bandwidth weight must be between 1 and 100"@)
        } else if self.bandwidth_reservation_mode is Weight
            && self.default_flow_min_bandwidth_weight is None {
            (
                "default_flow_min_bandwidth_weight"@,
                "Weight-based bandwidth mode requires a weight value"@,
            )
        } else if self.bandwidth_reservation_mode is Absolute
            && self.default_flow_min_bandwidth_mbps is None {
            ("default_flow_min_bandwidth_mbps"@, "Absolute bandwidth mode requires a bandwidth value"@)
        } else if self.enable_iov && !(self.switch_type is External) {
            ("enable_iov"@, "IOV (SR-IOV) can only be enabled on external switches"@)
        } else if self.enable_packet_direct && !(self.switch_type is External) {
            ("enable_packet_direct"@, "Packet Direct can only be enabled on external switches"@)
        } else {
            (Seq::empty(), Seq::empty())
        }
    }

    /// Create a new builder.
    pub fn builder() -> (b: VirtualSwitchSettingsBuilder)
        ensures
            b == VirtualSwitchSettingsBuilder::spec_empty(),
    {
        VirtualSwitchSettingsBuilder::new()
    }

    /// Validate the settings: succeeds exactly on legal settings, and
    /// otherwise reports the first violated rule as a validation error.
    pub fn validate(&self) -> (r: Result<(), Error>)
        ensures
            r is Ok <==> self.spec_valid(),
            r matches Err(e) ==> e matches Error::Validation { field, message }
                && field@ == self.spec_validation_error().0
                && message@ == self.spec_validation_error().1,
    {
        let name_len = self.name.as_str().unicode_len();
        if name_len == 0 {
            return Err(Error::Validation {
                field: "name",
                message: String::from_str("Switch name cannot be empty"),
            });
        }
        if name_len > MAX_NAME_CHARS {
            return Err(Error::Validation {
                field: "name",
                message: String::from_str("Switch name cannot exceed 100 characters"),
            });
        }
        if contains_reserved_name_char(self.name.as_str()) {
            return Err(Error::Validation {
                field: "name",
                message: String::from_str("Switch name contains invalid characters"),
            });
        }
        if matches!(self.switch_type, SwitchType::External) && self.external_adapter_id.is_none() {
            return Err(Error::Validation {
                field: "external_adapter_id",
                message: String::from_str("External switch requires a physical network adapter"),
            });
        }
        if matches!(self.switch_type, SwitchType::Private) && self.external_adapter_id.is_some() {
            return Err(Error::Validation {
                field: "external_adapter_id",
                message: String::from_str(
                    "Private switch cannot be connected to a physical adapter",
                ),
            });
        }
        if matches!(self.switch_type, SwitchType::Private) && self.allow_management_os {
            return Err(Error::Validation {
                field: "allow_management_os",
                message: String::from_str("Private switch cannot allow management OS access"),
            });
        }
        if let Some(weight) = self.default_flow_min_bandwidth_weight {
            if weight == 0 || weight > 100 {
                return Err(Error::Validation {
                    field: "default_flow_min_bandwidth_weight",
                    message: String::from_str("Bandwidth weight must be between 1 and 100"),
                });
            }
        }
        if matches!(self.bandwidth_reservation_mode, BandwidthReservationMode::Weight)
            && self.default_flow_min_bandwidth_weight.is_none() {
            return Err(Error::Validation {
                field: "default_flow_min_bandwidth_weight",
                message: String::from_str("Weight-based bandwidth mode requires a weight value"),
            });
        }
        if matches!(self.bandwidth_reservation_mode, BandwidthReservationMode::Absolute)
            && self.default_flow_min_bandwidth_mbps.is_none() {
            return Err(Error::Validation {
                field: "default_flow_min_bandwidth_mbps",
                message: String::from_str("Absolute bandwidth mode requires a bandwidth value"),
            });
        }
        if self.enable_iov && !matches!(self.switch_type, SwitchType::External) {
            return Err(Error::Validation {
                field: "enable_iov",
                message: String::from_str("IOV (SR-IOV) can only be enabled on external switches"),
            });
        }
        if self.enable_packet_direct && !matches!(self.switch_type, SwitchType::External) {
            return Err(Error::Validation {
                field: "enable_packet_direct",
                message: String::from_str(
                    "Packet Direct can only be enabled on external switches",
                ),
            });
        }
        Ok(())
    }
}

/// Builder for [`VirtualSwitchSettings`].
#[derive(Debug)]
pub struct VirtualSwitchSettingsBuilder {
    pub name: Option<String>,
    pub switch_type: Option<SwitchType>,
    pub notes: Option<String>,
    pub allow_management_os: bool,
    pub external_adapter_id: Option<String>,
    pub enable_iov: bool,
    pub bandwidth_reservation_mode: BandwidthReservationMode,
    pub default_flow_min_bandwidth_mbps: Option<u64>,
    pub default_flow_min_bandwidth_weight: Option<u32>,
    pub enable_packet_direct: bool,
    pub enable_embedded_teaming: bool,
}

impl VirtualSwitchSettingsBuilder {
    /// The builder with nothing set.
    pub open spec fn spec_empty() -> VirtualSwitchSettingsBuilder {
        VirtualSwitchSettingsBuilder {
            name: None,
            switch_type: None,
            notes: None,
            allow_management_os: false,
            external_adapter_id: None,
            enable_iov: false,
            bandwidth_reservation_mode: BandwidthReservationMode::NoReservation,
            default_flow_min_bandwidth_mbps: None,
            default_flow_min_bandwidth_weight: None,
            enable_packet_direct: false,
            enable_embedded_teaming: false,
        }
    }

    /// Start from an empty builder.
    pub fn new() -> (b: Self)
        ensures
            b == Self::spec_empty(),
    {
        VirtualSwitchSettingsBuilder {
            name: None,
            switch_type: None,
            notes: None,
            allow_management_os: false,
            external_adapter_id: None,
            enable_iov: false,
            bandwidth_reservation_mode: BandwidthReservationMode::NoReservation,
            default_flow_min_bandwidth_mbps: None,
            default_flow_min_bandwidth_weight: None,
            enable_packet_direct: false,
            enable_embedded_teaming: false,
        }
    }

    /// Set the switch name (required).
    pub fn name(self, name: &str) -> (r: Self)
        ensures
            r.name matches Some(n) && n@ == name@,
            r == (VirtualSwitchSettingsBuilder { name: r.name, ..self }),
    {
        VirtualSwitchSettingsBuilder { name: Some(String::from_str(name)), ..self }
    }

    /// Set the switch type (required).
    pub fn switch_type(self, switch_type: SwitchType) -> (r: Self)
        ensures
            r == (VirtualSwitchSettingsBuilder { switch_type: Some(switch_type), ..self }),
    {
        VirtualSwitchSettingsBuilder { switch_type: Some(switch_type), ..self }
    }

    /// Make this an isolated switch (VMs only).
    pub fn private(self) -> (r: Self)
        ensures
            r == (VirtualSwitchSettingsBuilder {
                switch_type: Some(SwitchType::Private),
                allow_management_os: false,
                external_adapter_id: None,
                ..self
            }),
    {
        VirtualSwitchSettingsBuilder {
            switch_type: Some(SwitchType::Private),
            allow_management_os: false,
            external_adapter_id: None,
            ..self
        }
    }

    /// Make this an internal switch (host + VMs).
    pub fn internal(self) -> (r: Self)
        ensures
            r == (VirtualSwitchSettingsBuilder {
                switch_type: Some(SwitchType::Internal),
                allow_management_os: true,
                external_adapter_id: None,
                ..self
            }),
    {
        VirtualSwitchSettingsBuilder {
            switch_type: Some(SwitchType::Internal),
            allow_management_os: true,
            external_adapter_id: None,
            ..self
        }
    }

    /// Make this an externally-bridged switch on the given physical adapter.
    pub fn external(self, adapter_device_id: &str) -> (r: Self)
        ensures
            r.switch_type == Some(SwitchType::External),
            r.external_adapter_id matches Some(a) && a@ == adapter_device_id@,
            r == (VirtualSwitchSettingsBuilder {
                switch_type: r.switch_type,
                external_adapter_id: r.external_adapter_id,
                ..self
            }),
    {
        VirtualSwitchSettingsBuilder {
            switch_type: Some(SwitchType::External),
            external_adapter_id: Some(String::from_str(adapter_device_id)),
            ..self
        }
    }

    /// Set the notes/description.
    pub fn notes(self, notes: &str) -> (r: Self)
        ensures
            r.notes matches Some(n) && n@ == notes@,
            r == (VirtualSwitchSettingsBuilder { notes: r.notes, ..self }),
    {
        VirtualSwitchSettingsBuilder { notes: Some(String::from_str(notes)), ..self }
    }

    /// Allow the management OS to use this switch.
    pub fn allow_management_os(self, allow: bool) -> (r: Self)
        ensures
            r == (VirtualSwitchSettingsBuilder { allow_management_os: allow, ..self }),
    {
        VirtualSwitchSettingsBuilder { allow_management_os: allow, ..self }
    }

    /// Enable IOV (SR-IOV).
    pub fn enable_iov(self, enable: bool) -> (r: Self)
        ensures
            r == (VirtualSwitchSettingsBuilder { enable_iov: enable, ..self }),
    {
        VirtualSwitchSettingsBuilder { enable_iov: enable, ..self }
    }

    /// Set the bandwidth reservation mode.
    pub fn bandwidth_reservation_mode(self, mode: BandwidthReservationMode) -> (r: Self)
        ensures
            r == (VirtualSwitchSettingsBuilder { bandwidth_reservation_mode: mode, ..self }),
    {
        VirtualSwitchSettingsBuilder { bandwidth_reservation_mode: mode, ..self }
    }

    /// Set weight-based bandwidth reservation (1-100).
    pub fn bandwidth_weight(self, weight: u32) -> (r: Self)
        ensures
            r == (VirtualSwitchSettingsBuilder {
                bandwidth_reservation_mode: BandwidthReservationMode::Weight,
                default_flow_min_bandwidth_weight: Some(weight),
                ..self
            }),
    {
        VirtualSwitchSettingsBuilder {
            bandwidth_reservation_mode: BandwidthReservationMode::Weight,
            default_flow_min_bandwidth_weight: Some(weight),
            ..self
        }
    }

    /// Set absolute bandwidth reservation in Mbps.
    pub fn bandwidth_absolute_mbps(self, mbps: u64) -> (r: Self)
        ensures
            r == (VirtualSwitchSettingsBuilder {
                bandwidth_reservation_mode: BandwidthReservationMode::Absolute,
                default_flow_min_bandwidth_mbps: Some(mbps),
                ..self
            }),
    {
        VirtualSwitchSettingsBuilder {
            bandwidth_reservation_mode: BandwidthReservationMode::Absolute,
            default_flow_min_bandwidth_mbps: Some(mbps),
            ..self
        }
    }

    /// Enable packet direct.
    pub fn enable_packet_direct(self, enable: bool) -> (r: Self)
        ensures
            r == (VirtualSwitchSettingsBuilder { enable_packet_direct: enable, ..self }),
    {
        VirtualSwitchSettingsBuilder { enable_packet_direct: enable, ..self }
    }

    /// Enable switch embedded teaming.
    pub fn enable_embedded_teaming(self, enable: bool) -> (r: Self)
        ensures
            r == (VirtualSwitchSettingsBuilder { enable_embedded_teaming: enable, ..self }),
    {
        VirtualSwitchSettingsBuilder { enable_embedded_teaming: enable, ..self }
    }

    /// The settings value this builder assembles, once the required fields
    /// are present.
    pub open spec fn spec_settings(self) -> VirtualSwitchSettings {
        VirtualSwitchSettings {
            name: self.name->0,
            switch_type: self.switch_type->0,
            notes: self.notes,
            allow_management_os: self.allow_management_os,
            external_adapter_id: self.external_adapter_id,
            enable_iov: self.enable_iov,
            bandwidth_reservation_mode: self.bandwidth_reservation_mode,
            default_flow_min_bandwidth_mbps: self.default_flow_min_bandwidth_mbps,
            default_flow_min_bandwidth_weight: self.default_flow_min_bandwidth_weight,
            enable_packet_direct: self.enable_packet_direct,
            enable_embedded_teaming: self.enable_embedded_teaming,
        }
    }

    /// Name of the first required field that is missing, if any.
    pub open spec fn spec_missing_field(self) -> Option<Seq<char>> {
        if self.name is None {
            Some("name"@)
        } else if self.switch_type is None {
            Some("switch_type"@)
        } else {
            None
        }
    }

    /// Build and validate the settings.  Fails with `MissingRequired` when a
    /// required field was never set, and with the validation error of the
    /// assembled settings when they are not legal; otherwise returns exactly
    /// the assembled settings.
    pub fn build(self) -> (r: Result<VirtualSwitchSettings, Error>)
        ensures
            r is Ok <==> self.spec_missing_field() is None && self.spec_settings().spec_valid(),
            r matches Ok(s) ==> s == self.spec_settings(),
            self.spec_missing_field() matches Some(f)
                ==> (r matches Err(e) && (e matches Error::MissingRequired(g) && g@ == f)),
            self.spec_missing_field() is None && !self.spec_settings().spec_valid()
                ==> (r matches Err(e) && (e matches Error::Validation { field, message }
                    && field@ == self.spec_settings().spec_validation_error().0
                    && message@ == self.spec_settings().spec_validation_error().1)),
    {
        let name = match self.name {
            Some(n) => n,
            None => {
                return Err(Error::MissingRequired("name"));
            },
        };
        let switch_type = match self.switch_type {
            Some(t) => t,
            None => {
                return Err(Error::MissingRequired("switch_type"));
            },
        };
        let settings = VirtualSwitchSettings {
            name,
            switch_type,
            notes: self.notes,
            allow_management_os: self.allow_management_os,
            external_adapter_id: self.external_adapter_id,
            enable_iov: self.enable_iov,
            bandwidth_reservation_mode: self.bandwidth_reservation_mode,
            default_flow_min_bandwidth_mbps: self.default_flow_min_bandwidth_mbps,
            default_flow_min_bandwidth_weight: self.default_flow_min_bandwidth_weight,
            enable_packet_direct: self.enable_packet_direct,
            enable_embedded_teaming: self.enable_embedded_teaming,
        };
        match settings.validate() {
            Ok(()) => Ok(settings),
            Err(e) => Err(e),
        }
    }
}

} // verus!
