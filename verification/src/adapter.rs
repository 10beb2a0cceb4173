//! Network adapters: the adapter entity, its creation settings and their
//! validation, port mirroring modes and per-adapter bandwidth limits.
//!
//! An adapter is created as a standalone resource; connecting it to a switch
//! is an independent, separable step, so an adapter may legally exist
//! disconnected.

use vstd::prelude::*;
use vstd::string::StrSliceExecFns;
use vstd::string::StringExecFns;
use crate::error::Error;
use crate::text::{is_valid_mac_string, valid_mac_string};

verus! {

/// Largest legal VLAN identifier.
pub const MAX_VLAN_ID: u16 = 4094;

/// A virtual network adapter attached to a VM.
#[derive(Debug)]
pub struct NetworkAdapter {
    /// Adapter instance ID.
    pub instance_id: String,
    /// Adapter name/element name.
    pub name: String,
    /// MAC address (if static).
    pub mac_address: Option<String>,
    /// Whether the MAC is dynamic.
    pub dynamic_mac: bool,
    /// Connected switch name, when resolved.
    pub switch_name: Option<String>,
    /// VLAN ID, when configured.
    pub vlan_id: Option<u16>,
    /// Document path of the adapter resource.
    pub path: String,
}

impl NetworkAdapter {
    /// Assemble an adapter from the properties of its document,
    /// all-or-nothing: the instance ID and path are required; a missing name
    /// becomes empty; a missing static-MAC flag means the MAC is dynamic.
    pub fn from_properties(
        instance_id: Option<String>,
        name: Option<String>,
        path: Option<String>,
        mac_address: Option<String>,
        static_mac: Option<bool>,
    ) -> (r: Result<NetworkAdapter, Error>)
        ensures
            r is Ok <==> instance_id is Some && path is Some,
            r matches Ok(a) ==> {
                &&& a.instance_id == instance_id->0
                &&& (name matches Some(n) ==> a.name == n)
                &&& (name is None ==> a.name@.len() == 0)
                &&& a.path == path->0
                &&& a.mac_address == mac_address
                &&& a.dynamic_mac == (match static_mac {
                    Some(s) => !s,
                    None => true,
                })
                &&& a.switch_name is None
                &&& a.vlan_id is None
            },
            instance_id is None ==> (r matches Err(e) && (e matches Error::MissingRequired(f)
                && f@ == "InstanceID"@)),
            instance_id is Some && path is None ==> (r matches Err(e)
                && (e matches Error::MissingRequired(f) && f@ == "__PATH"@)),
    {
        let instance_id = match instance_id {
            Some(i) => i,
            None => {
                return Err(Error::MissingRequired("InstanceID"));
            },
        };
        let path = match path {
            Some(p) => p,
            None => {
                return Err(Error::MissingRequired("__PATH"));
            },
        };
        let name = match name {
            Some(n) => n,
            None => String::new(),
        };
        let dynamic_mac = match static_mac {
            Some(s) => !s,
            None => true,
        };
        Ok(NetworkAdapter {
            instance_id,
            name,
            mac_address,
            dynamic_mac,
            switch_name: None,
            vlan_id: None,
            path,
        })
    }

    /// Get the document path of the adapter resource.
    pub fn path(&self) -> (r: &str)
        ensures
            r@ == self.path@,
    {
        self.path.as_str()
    }
}

/// Port mirroring mode.
#[derive(Debug, Clone, Copy, PartialEq, Eq, Structural)]
pub enum PortMirroringMode {
    /// Mirroring is off.
    Disabled,
    /// This port is a mirroring source.
    Source,
    /// This port receives mirrored traffic.
    Destination,
}

impl PortMirroringMode {
    /// Numeric code of this mode.
    pub open spec fn spec_to_value(self) -> u32 {
        match self {
            PortMirroringMode::Disabled => 0,
            PortMirroringMode::Source => 1,
            PortMirroringMode::Destination => 2,
        }
    }

    /// Numeric code of this mode.
    pub fn to_value(&self) -> (v: u32)
        ensures
            v == self.spec_to_value(),
    {
        match self {
            PortMirroringMode::Disabled => 0,
            PortMirroringMode::Source => 1,
            PortMirroringMode::Destination => 2,
        }
    }
}

impl Default for PortMirroringMode {
    /// Mirroring is off by default.
    fn default() -> (r: Self)
        ensures
            r == PortMirroringMode::Disabled,
    {
        PortMirroringMode::Disabled
    }
}

/// Bandwidth management settings of an adapter.
#[derive(Debug, Clone)]
pub struct BandwidthSettings {
    /// Minimum bandwidth in Mbps.
    pub minimum_mbps: Option<u64>,
    /// Maximum bandwidth in Mbps.
    pub maximum_mbps: Option<u64>,
    /// Burst size in MB.
    pub burst_mb: Option<u64>,
}

impl BandwidthSettings {
    /// Start with no limits set.
    pub fn new() -> (r: Self)
        ensures
            r.minimum_mbps is None,
            r.maximum_mbps is None,
            r.burst_mb is None,
    {
        BandwidthSettings { minimum_mbps: None, maximum_mbps: None, burst_mb: None }
    }

    /// Set the minimum bandwidth in Mbps.
    pub fn minimum_mbps(self, mbps: u64) -> (r: Self)
        ensures
            r == (BandwidthSettings { minimum_mbps: Some(mbps), ..self }),
    {
        BandwidthSettings { minimum_mbps: Some(mbps), ..self }
    }

    /// Set the maximum bandwidth in Mbps.
    pub fn maximum_mbps(self, mbps: u64) -> (r: Self)
        ensures
            r == (BandwidthSettings { maximum_mbps: Some(mbps), ..self }),
    {
        BandwidthSettings { maximum_mbps: Some(mbps), ..self }
    }

    /// Set the burst size in MB.
    pub fn burst_mb(self, mb: u64) -> (r: Self)
        ensures
            r == (BandwidthSettings { burst_mb: Some(mb), ..self }),
    {
        BandwidthSettings { burst_mb: Some(mb), ..self }
    }
}

impl Default for BandwidthSettings {
    /// No limits by default.
    fn default() -> (r: Self)
        ensures
            r.minimum_mbps is None,
            r.maximum_mbps is None,
            r.burst_mb is None,
    {
        BandwidthSettings::new()
    }
}

/// Settings for creating a network adapter.
#[derive(Debug, Clone)]
pub struct NetworkAdapterSettings {
    /// Adapter name.
    pub name: Option<String>,
    /// Switch to connect to.
    pub switch_name: Option<String>,
    /// Static MAC address (when not dynamic).
    pub mac_address: Option<String>,
    /// Use a dynamic MAC address.
    pub dynamic_mac: bool,
    /// VLAN ID.
    pub vlan_id: Option<u16>,
    /// Enable MAC address spoofing.
    pub mac_spoofing: bool,
    /// Enable DHCP guard.
    pub dhcp_guard: bool,
    /// Enable router guard.
    pub router_guard: bool,
    /// Port mirroring mode.
    pub port_mirroring: PortMirroringMode,
    /// Bandwidth management settings.
    pub bandwidth: Option<BandwidthSettings>,
}

impl Default for NetworkAdapterSettings {
    /// Dynamic MAC, no switch, no VLAN, all guards off.
    fn default() -> (r: Self)
        ensures
            r.name is None,
            r.switch_name is None,
            r.mac_address is None,
            r.dynamic_mac == true,
            r.vlan_id is None,
            r.mac_spoofing == false,
            r.dhcp_guard == false,
            r.router_guard == false,
            r.port_mirroring == PortMirroringMode::Disabled,
            r.bandwidth is None,
    {
        NetworkAdapterSettings {
            name: None,
            switch_name: None,
            mac_address: None,
            dynamic_mac: true,
            vlan_id: None,
            mac_spoofing: false,
            dhcp_guard: false,
            router_guard: false,
            port_mirroring: PortMirroringMode::Disabled,
            bandwidth: None,
        }
    }
}

impl NetworkAdapterSettings {
    /// The settings are legal: a given MAC spells exactly 12 hexadecimal
    /// digits (colon or dash separators accepted), and a given VLAN ID is at
    /// most 4094.
    pub open spec fn spec_valid(self) -> bool {
        &&& (self.mac_address matches Some(mac) ==> valid_mac_string(mac@))
        &&& (self.vlan_id matches Some(vlan) ==> vlan <= MAX_VLAN_ID)
    }

    /// Field and message of the first validation check that fails.
    pub open spec fn spec_validation_error(self) -> (Seq<char>, Seq<char>) {
        if self.mac_address matches Some(mac) && !valid_mac_string(mac@) {
            ("mac_address"@, "Invalid MAC address format"@)
        } else if self.vlan_id matches Some(vlan) && vlan > MAX_VLAN_ID {
            ("vlan_id"@, "VLAN ID must be 0-4094"@)
        } else {
            (Seq::empty(), Seq::empty())
        }
    }

    /// Create a new builder.
    pub fn builder() -> (b: NetworkAdapterSettingsBuilder)
        ensures
            b == NetworkAdapterSettingsBuilder::spec_empty(),
    {
        NetworkAdapterSettingsBuilder::new()
    }

    /// Validate the settings: succeeds exactly on legal settings, and
    /// otherwise reports the first violated rule as a validation error.
    pub fn validate(&self) -> (r: Result<(), Error>)
        ensures
            r is Ok <==> self.spec_valid(),
            r matches Err(e) ==> e matches Error::Validation { field, message }
                && field@ == self.spec_validation_error().0
                && message@ == self.spec_validation_error().1,
    {
        if let Some(mac) = &self.mac_address {
            if !is_valid_mac_string(mac.as_str()) {
                return Err(Error::Validation {
                    field: "mac_address",
                    message: String::from_str("Invalid MAC address format"),
                });
            }
        }
        if let Some(vlan) = self.vlan_id {
            if vlan > MAX_VLAN_ID {
                return Err(Error::Validation {
                    field: "vlan_id",
                    message: String::from_str("VLAN ID must be 0-4094"),
                });
            }
        }
        Ok(())
    }
}

/// Builder for [`NetworkAdapterSettings`].
#[derive(Debug)]
pub struct NetworkAdapterSettingsBuilder {
    pub name: Option<String>,
    pub switch_name: Option<String>,
    pub mac_address: Option<String>,
    pub dynamic_mac: bool,
    pub vlan_id: Option<u16>,
    pub mac_spoofing: bool,
    pub dhcp_guard: bool,
    pub router_guard: bool,
    pub port_mirroring: PortMirroringMode,
    pub bandwidth: Option<BandwidthSettings>,
}

impl NetworkAdapterSettingsBuilder {
    /// The builder with nothing set: a dynamic MAC and everything else off.
    pub open spec fn spec_empty() -> NetworkAdapterSettingsBuilder {
        NetworkAdapterSettingsBuilder {
            name: None,
            switch_name: None,
            mac_address: None,
            dynamic_mac: true,
            vlan_id: None,
            mac_spoofing: false,
            dhcp_guard: false,
            router_guard: false,
            port_mirroring: PortMirroringMode::Disabled,
            bandwidth: None,
        }
    }

    /// Start from an empty builder with a dynamic MAC.
    pub fn new() -> (b: Self)
        ensures
            b == Self::spec_empty(),
    {
        NetworkAdapterSettingsBuilder {
            name: None,
            switch_name: None,
            mac_address: None,
            dynamic_mac: true,
            vlan_id: None,
            mac_spoofing: false,
            dhcp_guard: false,
            router_guard: false,
            port_mirroring: PortMirroringMode::Disabled,
            bandwidth: None,
        }
    }

    /// Set the adapter name.
    pub fn name(self, name: &str) -> (r: Self)
        ensures
            r.name matches Some(n) && n@ == name@,
            r == (NetworkAdapterSettingsBuilder { name: r.name, ..self }),
    {
        NetworkAdapterSettingsBuilder { name: Some(String::from_str(name)), ..self }
    }

    /// Connect to a virtual switch by name.
    pub fn switch(self, switch_name: &str) -> (r: Self)
        ensures
            r.switch_name matches Some(n) && n@ == switch_name@,
            r == (NetworkAdapterSettingsBuilder { switch_name: r.switch_name, ..self }),
    {
        NetworkAdapterSettingsBuilder { switch_name: Some(String::from_str(switch_name)), ..self }
    }

    /// Set a static MAC address.
    pub fn mac_address(self, mac: &str) -> (r: Self)
        ensures
            r.mac_address matches Some(m) && m@ == mac@,
            r.dynamic_mac == false,
            r == (NetworkAdapterSettingsBuilder {
                mac_address: r.mac_address,
                dynamic_mac: false,
                ..self
            }),
    {
        NetworkAdapterSettingsBuilder {
            mac_address: Some(String::from_str(mac)),
            dynamic_mac: false,
            ..self
        }
    }

    /// Choose a dynamic MAC address; enabling it clears any static MAC.
    pub fn dynamic_mac(self, dynamic: bool) -> (r: Self)
        ensures
            dynamic ==> r == (NetworkAdapterSettingsBuilder {
                dynamic_mac: true,
                mac_address: None,
                ..self
            }),
            !dynamic ==> r == (NetworkAdapterSettingsBuilder { dynamic_mac: false, ..self }),
    {
        if dynamic {
            NetworkAdapterSettingsBuilder { dynamic_mac: true, mac_address: None, ..self }
        } else {
            NetworkAdapterSettingsBuilder { dynamic_mac: false, ..self }
        }
    }

    /// Set the VLAN ID.
    pub fn vlan_id(self, vlan: u16) -> (r: Self)
        ensures
            r == (NetworkAdapterSettingsBuilder { vlan_id: Some(vlan), ..self }),
    {
        NetworkAdapterSettingsBuilder { vlan_id: Some(vlan), ..self }
    }

    /// Enable or disable MAC address spoofing.
    pub fn mac_spoofing(self, enabled: bool) -> (r: Self)
        ensures
            r == (NetworkAdapterSettingsBuilder { mac_spoofing: enabled, ..self }),
    {
        NetworkAdapterSettingsBuilder { mac_spoofing: enabled, ..self }
    }

    /// Enable or disable DHCP guard.
    pub fn dhcp_guard(self, enabled: bool) -> (r: Self)
        ensures
            r == (NetworkAdapterSettingsBuilder { dhcp_guard: enabled, ..self }),
    {
        NetworkAdapterSettingsBuilder { dhcp_guard: enabled, ..self }
    }

    /// Enable or disable router guard.
    pub fn router_guard(self, enabled: bool) -> (r: Self)
        ensures
            r == (NetworkAdapterSettingsBuilder { router_guard: enabled, ..self }),
    {
        NetworkAdapterSettingsBuilder { router_guard: enabled, ..self }
    }

    /// Set the port mirroring mode.
    pub fn port_mirroring(self, mode: PortMirroringMode) -> (r: Self)
        ensures
            r == (NetworkAdapterSettingsBuilder { port_mirroring: mode, ..self }),
    {
        NetworkAdapterSettingsBuilder { port_mirroring: mode, ..self }
    }

    /// Set the bandwidth limits.
    pub fn bandwidth(self, settings: BandwidthSettings) -> (r: Self)
        ensures
            r.bandwidth matches Some(b) && b == settings,
            r == (NetworkAdapterSettingsBuilder { bandwidth: r.bandwidth, ..self }),
    {
        NetworkAdapterSettingsBuilder { bandwidth: Some(settings), ..self }
    }

    /// The settings value this builder assembles.
    pub open spec fn spec_settings(self) -> NetworkAdapterSettings {
        NetworkAdapterSettings {
            name: self.name,
            switch_name: self.switch_name,
            mac_address: self.mac_address,
            dynamic_mac: self.dynamic_mac,
            vlan_id: self.vlan_id,
            mac_spoofing: self.mac_spoofing,
            dhcp_guard: self.dhcp_guard,
            router_guard: self.router_guard,
            port_mirroring: self.port_mirroring,
            bandwidth: self.bandwidth,
        }
    }

    /// Build and validate the settings: succeeds exactly when the assembled
    /// settings are legal, and returns exactly them.
    pub fn build(self) -> (r: Result<NetworkAdapterSettings, Error>)
        ensures
            r is Ok <==> self.spec_settings().spec_valid(),
            r matches Ok(s) ==> s == self.spec_settings(),
            !self.spec_settings().spec_valid()
                ==> (r matches Err(e) && (e matches Error::Validation { field, message }
                    && field@ == self.spec_settings().spec_validation_error().0
                    && message@ == self.spec_settings().spec_validation_error().1)),
    {
        let settings = NetworkAdapterSettings {
            name: self.name,
            switch_name: self.switch_name,
            mac_address: self.mac_address,
            dynamic_mac: self.dynamic_mac,
            vlan_id: self.vlan_id,
            mac_spoofing: self.mac_spoofing,
            dhcp_guard: self.dhcp_guard,
            router_guard: self.router_guard,
            port_mirroring: self.port_mirroring,
            bandwidth: self.bandwidth,
        };
        match settings.validate() {
            Ok(()) => Ok(settings),
            Err(e) => Err(e),
        }
    }
}

} // verus!
