//! Physical network adapters of the host, as candidates for externally
//! bridged switches.

use vstd::prelude::*;
use vstd::string::StrSliceExecFns;
use vstd::string::StringExecFns;
use crate::error::Error;
use crate::text::{dec_string, u32_to_dec_string};

verus! {

/// Connection status of a physical network adapter.
#[derive(Debug, Clone, Copy, PartialEq, Eq, Structural)]
pub enum ConnectionStatus {
    /// Status is unknown.
    Unknown,
    /// Adapter is connected and operational.
    Connected,
    /// Adapter is disconnected (no cable or link).
    Disconnected,
    /// Adapter is disabled.
    Disabled,
    /// Adapter has an error.
    Error,
    /// Other status code.
    Other(u16),
}

impl ConnectionStatus {
    /// Status denoted by an operational-status code; codes without a
    /// dedicated variant are preserved in `Other`.
    pub open spec fn spec_from_value(value: u16) -> ConnectionStatus {
        match value {
            0u16 => ConnectionStatus::Unknown,
            2u16 => ConnectionStatus::Connected,
            10u16 => ConnectionStatus::Disconnected,
            12u16 => ConnectionStatus::Disabled,
            6u16 => ConnectionStatus::Error,
            _ => ConnectionStatus::Other(value),
        }
    }

    /// Parse from an operational-status code.
    pub fn from_value(value: u16) -> (r: Self)
        ensures
            r == Self::spec_from_value(value),
    {
        if value == 0 { ConnectionStatus::Unknown }
        else if value == 2 { ConnectionStatus::Connected }
        else if value == 10 { ConnectionStatus::Disconnected }
        else if value == 12 { ConnectionStatus::Disabled }
        else if value == 6 { ConnectionStatus::Error }
        else { ConnectionStatus::Other(value) }
    }

    /// Check if the adapter is connected and usable.
    pub fn is_connected(&self) -> (r: bool)
        ensures
            r == (*self is Connected),
    {
        matches!(self, ConnectionStatus::Connected)
    }

    /// Rendering of this status; unlisted codes appear as `Other(N)`.
    pub open spec fn spec_display(self) -> Seq<char> {
        match self {
            ConnectionStatus::Unknown => "Unknown"@,
            ConnectionStatus::Connected => "Connected"@,
            ConnectionStatus::Disconnected => "Disconnected"@,
            ConnectionStatus::Disabled => "Disabled"@,
            ConnectionStatus::Error => "Error"@,
            ConnectionStatus::Other(v) => "Other("@ + dec_string(v as int) + ")"@,
        }
    }

    /// Human-readable form of this status.
    pub fn display_string(&self) -> (r: String)
        ensures
            r@ == self.spec_display(),
    {
        match self {
            ConnectionStatus::Unknown => String::from_str("Unknown"),
            ConnectionStatus::Connected => String::from_str("Connected"),
            ConnectionStatus::Disconnected => String::from_str("Disconnected"),
            ConnectionStatus::Disabled => String::from_str("Disabled"),
            ConnectionStatus::Error => String::from_str("Error"),
            ConnectionStatus::Other(v) => {
                let mut s = String::from_str("Other(");
                let num = u32_to_dec_string(*v as u32);
                s.append(num.as_str());
                s.append(")");
                s
            },
        }
    }
}

impl Default for ConnectionStatus {
    /// An unknown status is the default.
    fn default() -> (r: Self)
        ensures
            r == ConnectionStatus::Unknown,
    {
        ConnectionStatus::Unknown
    }
}

/// A physical network adapter that can back an externally bridged switch.
#[derive(Debug, Clone)]
pub struct PhysicalAdapter {
    /// Device ID (unique identifier).
    pub device_id: String,
    /// Adapter name/description.
    pub name: String,
    /// MAC address, when reported.
    pub mac_address: Option<String>,
    /// Whether the adapter is enabled.
    pub enabled: bool,
    /// Connection status.
    pub connection_status: ConnectionStatus,
    /// Speed in bits per second (0 if disconnected).
    pub speed_bps: u64,
    /// Document path of the adapter object.
    pub path: String,
}

impl PhysicalAdapter {
    /// Assemble an adapter from the properties of its document,
    /// all-or-nothing: the device ID and path are required; a missing name
    /// falls back to the device ID; missing flags and speeds default to off
    /// and zero; the first operational-status code classifies the
    /// connection.
    pub fn from_properties(
        device_id: Option<String>,
        name: Option<String>,
        path: Option<String>,
        mac_address: Option<String>,
        enabled: Option<bool>,
        operational_status: Option<u16>,
        speed_bps: Option<u64>,
    ) -> (r: Result<PhysicalAdapter, Error>)
        ensures
            r is Ok <==> device_id is Some && path is Some,
            r matches Ok(a) ==> {
                &&& a.device_id == device_id->0
                &&& (name matches Some(n) ==> a.name == n)
                &&& (name is None ==> a.name@ == device_id->0@)
                &&& a.path == path->0
                &&& a.mac_address == mac_address
                &&& a.enabled == (match enabled {
                    Some(e) => e,
                    None => false,
                })
                &&& a.connection_status == ConnectionStatus::spec_from_value(
                    match operational_status {
                        Some(v) => v,
                        None => 0,
                    },
                )
                &&& a.speed_bps == (match speed_bps {
                    Some(s) => s,
                    None => 0,
                })
            },
            device_id is None ==> (r matches Err(e) && (e matches Error::MissingRequired(f)
                && f@ == "DeviceID"@)),
            device_id is Some && path is None ==> (r matches Err(e)
                && (e matches Error::MissingRequired(f) && f@ == "__PATH"@)),
    {
        let device_id = match device_id {
            Some(d) => d,
            None => {
                return Err(Error::MissingRequired("DeviceID"));
            },
        };
        let path = match path {
            Some(p) => p,
            None => {
                return Err(Error::MissingRequired("__PATH"));
            },
        };
        let name = match name {
            Some(n) => n,
            None => device_id.clone(),
        };
        let enabled = match enabled {
            Some(e) => e,
            None => false,
        };
        let status_code = match operational_status {
            Some(v) => v,
            None => 0,
        };
        let speed_bps = match speed_bps {
            Some(s) => s,
            None => 0,
        };
        Ok(PhysicalAdapter {
            device_id,
            name,
            mac_address,
            enabled,
            connection_status: ConnectionStatus::from_value(status_code),
            speed_bps,
            path,
        })
    }

    /// Get the device ID.
    pub fn device_id(&self) -> (r: &str)
        ensures
            r@ == self.device_id@,
    {
        self.device_id.as_str()
    }

    /// Get the adapter name.
    pub fn name(&self) -> (r: &str)
        ensures
            r@ == self.name@,
    {
        self.name.as_str()
    }

    /// Get the MAC address if available.
    pub fn mac_address(&self) -> (r: Option<&str>)
        ensures
            r is Some <==> self.mac_address is Some,
            r matches Some(m) ==> m@ == self.mac_address->0@,
    {
        match &self.mac_address {
            Some(m) => Some(m.as_str()),
            None => None,
        }
    }

    /// Check if the adapter is enabled.
    pub fn is_enabled(&self) -> (r: bool)
        ensures
            r == self.enabled,
    {
        self.enabled
    }

    /// Get the connection status.
    pub fn connection_status(&self) -> (r: ConnectionStatus)
        ensures
            r == self.connection_status,
    {
        self.connection_status
    }

    /// Get the speed in megabits per second, rounded down.
    pub fn speed_mbps(&self) -> (r: u64)
        ensures
            r == self.speed_bps / 1000000,
    {
        self.speed_bps / 1_000_000
    }

    /// Get the document path of the adapter object.
    pub fn path(&self) -> (r: &str)
        ensures
            r@ == self.path@,
    {
        self.path.as_str()
    }
}

} // verus!
