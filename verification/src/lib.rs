//! Typed management core for Hyper-V style virtual machine administration.
//!
//! The crate models the orchestration that sits on top of a remote,
//! document-oriented management service: a state machine for legal VM power
//! transitions, a job-completion protocol for asynchronous operations, a
//! discover-or-create provisioning protocol for controllers, disks, ISOs and
//! network adapters, and validated, immutable settings objects.  Every
//! decision the orchestration makes is a verified function from plain values
//! to plain values; the I/O shell that actually talks to the service feeds
//! those functions and carries out the actions they return.

pub mod adapter;
pub mod checkpoint;
pub mod computer_system;
pub mod controller;
pub mod document;
pub mod error;
pub mod job;
pub mod physical_adapter;
pub mod provision;
pub mod queries;
pub mod settings;
pub mod state;
pub mod switch;
pub mod text;
pub mod types;
pub mod vhd;

pub use error::{Error, GatewayFault, VmStateError};
pub use state::{
    AutomaticStartAction, AutomaticStopAction, CheckpointType, Generation, OperationalStatus,
    RequestedState, ShutdownType, VmState,
};
pub use settings::{VmSettings, VmSettingsBuilder};
pub use computer_system::{StopAction, VirtualMachine};
pub use checkpoint::{Checkpoint, CheckpointSettings, CheckpointSettingsBuilder, ConsistencyLevel};
pub use controller::{ControllerType, DiskAttachment, IsoAttachment, StorageController};
pub use vhd::{Vhd, VhdFormat, VhdSettings, VhdSettingsBuilder, VhdType};
pub use adapter::{
    BandwidthSettings, NetworkAdapter, NetworkAdapterSettings, NetworkAdapterSettingsBuilder,
    PortMirroringMode,
};
pub use physical_adapter::{ConnectionStatus, PhysicalAdapter};
pub use switch::{
    BandwidthReservationMode, IovMode, SwitchType, VirtualSwitch, VirtualSwitchSettings,
    VirtualSwitchSettingsBuilder,
};
pub use job::{JobProgress, JobState, OperationStart};
pub use provision::{ControllerResolution, DriveKind, ResourceEntry};
