//! Typed errors for management operations.
//!
//! Every failure is returned, never raised as an unrecoverable abort.
//! Validation errors are produced locally, before any round trip to the
//! management service; service and job errors carry the operation name and
//! the numeric code so that callers can make retry decisions.

use vstd::prelude::*;
use vstd::string::StringExecFns;
use crate::text::{dec_string, u32_to_dec_string};

verus! {

/// VM enabled state as carried inside an error (kept separate from the full
/// state enum so that error values stay plain and copyable).
#[derive(Debug, Clone, Copy, PartialEq, Eq, Structural)]
pub enum VmStateError {
    Unknown,
    Running,
    Off,
    ShuttingDown,
    Paused,
    Suspended,
    Starting,
    Stopping,
    Other(u16),
}

/// A failure reported by the underlying transport, reduced to plain values:
/// the raw result code and the message text that came with it.
#[derive(Debug)]
pub struct GatewayFault {
    /// Raw result code of the failed transport call.
    pub code: i32,
    /// Message text that accompanied the failure.
    pub message: String,
}

/// Management operation errors with typed context.
#[derive(Debug)]
pub enum Error {
    /// Failed to connect to the management service.
    WmiConnection(GatewayFault),

    /// Failed to execute a query, with the failing query text.
    WmiQuery { query: String, source: GatewayFault },

    /// Failed to invoke an operation on a document class.
    WmiMethod { class: &'static str, method: &'static str, source: GatewayFault },

    /// VM not found by name or ID.
    VmNotFound(String),

    /// Virtual switch not found.
    SwitchNotFound(String),

    /// VHD/VHDX file not found.
    VhdNotFound(String),

    /// Operation invalid for the current VM power state.
    InvalidState { vm_name: String, current: VmStateError, operation: &'static str },

    /// Property validation failed, before any service round trip.
    Validation { field: &'static str, message: String },

    /// Required property missing.
    MissingRequired(&'static str),

    /// Operation returned a failure code (neither success nor queued).
    OperationFailed { operation: &'static str, return_value: u32, message: String },

    /// A property did not hold the representation the caller expected.
    TypeConversion { property: &'static str, expected: &'static str },

    /// Job reached a failing terminal state during an async operation.
    JobFailed { operation: &'static str, error_code: u32, error_description: String },
}

impl VmStateError {
    /// Rendering of this state; codes without a dedicated variant appear as
    /// `State(N)`.
    pub open spec fn spec_display(self) -> Seq<char> {
        match self {
            VmStateError::Unknown => "Unknown"@,
            VmStateError::Running => "Running"@,
            VmStateError::Off => "Off"@,
            VmStateError::ShuttingDown => "Shutting Down"@,
            VmStateError::Paused => "Paused"@,
            VmStateError::Suspended => "Saved"@,
            VmStateError::Starting => "Starting"@,
            VmStateError::Stopping => "Stopping"@,
            VmStateError::Other(v) => "State("@ + dec_string(v as int) + ")"@,
        }
    }

    /// Human-readable form of this state.
    pub fn display_string(&self) -> (r: String)
        ensures
            r@ == self.spec_display(),
    {
        match self {
            VmStateError::Unknown => String::from_str("Unknown"),
            VmStateError::Running => String::from_str("Running"),
            VmStateError::Off => String::from_str("Off"),
            VmStateError::ShuttingDown => String::from_str("Shutting Down"),
            VmStateError::Paused => String::from_str("Paused"),
            VmStateError::Suspended => String::from_str("Saved"),
            VmStateError::Starting => String::from_str("Starting"),
            VmStateError::Stopping => String::from_str("Stopping"),
            VmStateError::Other(v) => {
                let mut s = String::from_str("State(");
                let num = u32_to_dec_string(*v as u32);
                s.append(num.as_str());
                s.append(")");
                s
            },
        }
    }
}

impl Error {
    /// The message text of this error, with the context each variant
    /// carries: operation names, numeric codes and the failing query or
    /// field.
    pub open spec fn spec_message(self) -> Seq<char> {
        match self {
            Error::WmiConnection(f) => "WMI connection failed: "@ + f.message@,
            Error::WmiQuery { query, source } => "WMI query failed: "@ + query@ + " - "@
                + source.message@,
            Error::WmiMethod { class, method, source } => "WMI method "@ + class@ + "."@
                + method@ + " failed: "@ + source.message@,
            Error::VmNotFound(name) => "VM not found: "@ + name@,
            Error::SwitchNotFound(name) => "Virtual switch not found: "@ + name@,
            Error::VhdNotFound(path) => "VHD not found: "@ + path@,
            Error::InvalidState { vm_name, current, operation } => "Cannot "@ + operation@
                + " VM '"@ + vm_name@ + "' in state "@ + current.spec_display(),
            Error::Validation { field, message } => "Validation failed for '"@ + field@ + "': "@
                + message@,
            Error::MissingRequired(field) => "Required field missing: "@ + field@,
            Error::OperationFailed { operation, return_value, message } => "Operation '"@
                + operation@ + "' failed with code "@ + dec_string(return_value as int) + ": "@
                + message@,
            Error::TypeConversion { property, expected } => "Cannot convert property '"@
                + property@ + "' to "@ + expected@,
            Error::JobFailed { operation, error_code, error_description } => "Job failed for '"@
                + operation@ + "' (code "@ + dec_string(error_code as int) + "): "@
                + error_description@,
        }
    }

    /// The message text of this error.
    pub fn message(&self) -> (r: String)
        ensures
            r@ == self.spec_message(),
    {
        match self {
            Error::WmiConnection(f) => {
                let mut s = String::from_str("WMI connection failed: ");
                s.append(f.message.as_str());
                s
            },
            Error::WmiQuery { query, source } => {
                let mut s = String::from_str("WMI query failed: ");
                s.append(query.as_str());
                s.append(" - ");
                s.append(source.message.as_str());
                s
            },
            Error::WmiMethod { class, method, source } => {
                let mut s = String::from_str("WMI method ");
                s.append(class);
                s.append(".");
                s.append(method);
                s.append(" failed: ");
                s.append(source.message.as_str());
                s
            },
            Error::VmNotFound(name) => {
                let mut s = String::from_str("VM not found: ");
                s.append(name.as_str());
                s
            },
            Error::SwitchNotFound(name) => {
                let mut s = String::from_str("Virtual switch not found: ");
                s.append(name.as_str());
                s
            },
            Error::VhdNotFound(path) => {
                let mut s = String::from_str("VHD not found: ");
                s.append(path.as_str());
                s
            },
            Error::InvalidState { vm_name, current, operation } => {
                let mut s = String::from_str("Cannot ");
                s.append(operation);
                s.append(" VM '");
                s.append(vm_name.as_str());
                s.append("' in state ");
                let state = current.display_string();
                s.append(state.as_str());
                s
            },
            Error::Validation { field, message } => {
                let mut s = String::from_str("Validation failed for '");
                s.append(field);
                s.append("': ");
                s.append(message.as_str());
                s
            },
            Error::MissingRequired(field) => {
                let mut s = String::from_str("Required field missing: ");
                s.append(field);
                s
            },
            Error::OperationFailed { operation, return_value, message } => {
                let mut s = String::from_str("Operation '");
                s.append(operation);
                s.append("' failed with code ");
                let num = u32_to_dec_string(*return_value);
                s.append(num.as_str());
                s.append(": ");
                s.append(message.as_str());
                s
            },
            Error::TypeConversion { property, expected } => {
                let mut s = String::from_str("Cannot convert property '");
                s.append(property);
                s.append("' to ");
                s.append(expected);
                s
            },
            Error::JobFailed { operation, error_code, error_description } => {
                let mut s = String::from_str("Job failed for '");
                s.append(operation);
                s.append("' (code ");
                let num = u32_to_dec_string(*error_code);
                s.append(num.as_str());
                s.append("): ");
                s.append(error_description.as_str());
                s
            },
        }
    }
}

} // verus!
