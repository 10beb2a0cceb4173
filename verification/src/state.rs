//! VM power states, firmware generations, requested states and the other
//! enumerated codes of the management schema, with their exact numeric
//! mappings and the transition predicates of the lifecycle state machine.

use vstd::prelude::*;
use vstd::string::StringExecFns;
use crate::error::VmStateError;
use crate::text::{contains_seq, str_contains};

verus! {

// ---------------------------------------------------------------------------
// VmState
// ---------------------------------------------------------------------------

/// VM enabled state (`Msvm_ComputerSystem.EnabledState`).
#[derive(Debug, Clone, Copy, PartialEq, Eq, Hash, Structural)]
pub enum VmState {
    /// Unknown state.
    Unknown,
    /// VM is running.
    Running,
    /// VM is powered off.
    Off,
    /// VM is in the process of shutting down.
    ShuttingDown,
    /// Not applicable.
    NotApplicable,
    /// VM is disabled.
    Disabled,
    /// VM is paused.
    Paused,
    /// VM is suspended/saved.
    Suspended,
    /// VM is starting.
    Starting,
    /// VM is in a saved snapshot state.
    Snapshotting,
    /// VM is saving state.
    Saving,
    /// VM is stopping.
    Stopping,
    /// VM is pausing.
    Pausing,
    /// VM is resuming.
    Resuming,
}

impl VmState {
    /// Numeric code of this state in the management schema.
    pub open spec fn spec_to_value(self) -> u16 {
        match self {
            VmState::Unknown => 0,
            VmState::Running => 2,
            VmState::Off => 3,
            VmState::ShuttingDown => 4,
            VmState::NotApplicable => 5,
            VmState::Disabled => 6,
            VmState::Paused => 32768,
            VmState::Suspended => 32769,
            VmState::Starting => 32770,
            VmState::Snapshotting => 32771,
            VmState::Saving => 32773,
            VmState::Stopping => 32774,
            VmState::Pausing => 32776,
            VmState::Resuming => 32777,
        }
    }

    /// State denoted by a numeric code; unknown codes map to `Unknown`.
    pub open spec fn spec_from_enabled_state(value: u16) -> VmState {
        match value {
            2u16 => VmState::Running,
            3u16 => VmState::Off,
            4u16 => VmState::ShuttingDown,
            5u16 => VmState::NotApplicable,
            6u16 => VmState::Disabled,
            32768u16 => VmState::Paused,
            32769u16 => VmState::Suspended,
            32770u16 => VmState::Starting,
            32771u16 => VmState::Snapshotting,
            32773u16 => VmState::Saving,
            32774u16 => VmState::Stopping,
            32776u16 => VmState::Pausing,
            32777u16 => VmState::Resuming,
            _ => VmState::Unknown,
        }
    }

    /// Numeric code of this state.
    pub fn to_value(&self) -> (v: u16)
        ensures
            v == self.spec_to_value(),
    {
        match self {
            VmState::Unknown => 0,
            VmState::Running => 2,
            VmState::Off => 3,
            VmState::ShuttingDown => 4,
            VmState::NotApplicable => 5,
            VmState::Disabled => 6,
            VmState::Paused => 32768,
            VmState::Suspended => 32769,
            VmState::Starting => 32770,
            VmState::Snapshotting => 32771,
            VmState::Saving => 32773,
            VmState::Stopping => 32774,
            VmState::Pausing => 32776,
            VmState::Resuming => 32777,
        }
    }

    /// Parse from an `EnabledState` value.
    pub fn from_enabled_state(value: u16) -> (r: Self)
        ensures
            r == Self::spec_from_enabled_state(value),
    {
        if value == 2 { VmState::Running }
        else if value == 3 { VmState::Off }
        else if value == 4 { VmState::ShuttingDown }
        else if value == 5 { VmState::NotApplicable }
        else if value == 6 { VmState::Disabled }
        else if value == 32768 { VmState::Paused }
        else if value == 32769 { VmState::Suspended }
        else if value == 32770 { VmState::Starting }
        else if value == 32771 { VmState::Snapshotting }
        else if value == 32773 { VmState::Saving }
        else if value == 32774 { VmState::Stopping }
        else if value == 32776 { VmState::Pausing }
        else if value == 32777 { VmState::Resuming }
        else { VmState::Unknown }
    }

    /// The start operation is legal in this state.
    pub open spec fn spec_can_start(self) -> bool {
        self is Off || self is Suspended || self is Paused
    }

    /// The stop operation is legal in this state.
    pub open spec fn spec_can_stop(self) -> bool {
        self is Running || self is Paused || self is Suspended
    }

    /// The pause operation is legal in this state.
    pub open spec fn spec_can_pause(self) -> bool {
        self is Running
    }

    /// The save operation is legal in this state.
    pub open spec fn spec_can_save(self) -> bool {
        self is Running || self is Paused
    }

    /// Check if the VM can be started.
    pub fn can_start(&self) -> (r: bool)
        ensures
            r == self.spec_can_start(),
    {
        matches!(self, VmState::Off | VmState::Suspended | VmState::Paused)
    }

    /// Check if the VM can be stopped.
    pub fn can_stop(&self) -> (r: bool)
        ensures
            r == self.spec_can_stop(),
    {
        matches!(self, VmState::Running | VmState::Paused | VmState::Suspended)
    }

    /// Check if the VM can be paused.
    pub fn can_pause(&self) -> (r: bool)
        ensures
            r == self.spec_can_pause(),
    {
        matches!(self, VmState::Running)
    }

    /// Check if the VM can be saved.
    pub fn can_save(&self) -> (r: bool)
        ensures
            r == self.spec_can_save(),
    {
        matches!(self, VmState::Running | VmState::Paused)
    }

    /// This state is one of the transitional (in-progress) states.
    pub open spec fn spec_is_transitional(self) -> bool {
        self is Starting || self is Stopping || self is Saving || self is Pausing
            || self is Resuming || self is ShuttingDown || self is Snapshotting
    }

    /// Check if the VM is in a transitional state.
    pub fn is_transitional(&self) -> (r: bool)
        ensures
            r == self.spec_is_transitional(),
    {
        matches!(
            self,
            VmState::Starting
                | VmState::Stopping
                | VmState::Saving
                | VmState::Pausing
                | VmState::Resuming
                | VmState::ShuttingDown
                | VmState::Snapshotting
        )
    }

    /// The error-reporting form of this state.
    pub open spec fn spec_to_error(self) -> VmStateError {
        match self {
            VmState::Unknown => VmStateError::Unknown,
            VmState::Running => VmStateError::Running,
            VmState::Off => VmStateError::Off,
            VmState::ShuttingDown => VmStateError::ShuttingDown,
            VmState::Paused => VmStateError::Paused,
            VmState::Suspended => VmStateError::Suspended,
            VmState::Starting => VmStateError::Starting,
            VmState::Stopping => VmStateError::Stopping,
            _ => VmStateError::Other(self.spec_to_value()),
        }
    }

    /// Convert to the error-reporting form.
    pub fn to_error(&self) -> (r: VmStateError)
        ensures
            r == self.spec_to_error(),
    {
        match self {
            VmState::Unknown => VmStateError::Unknown,
            VmState::Running => VmStateError::Running,
            VmState::Off => VmStateError::Off,
            VmState::ShuttingDown => VmStateError::ShuttingDown,
            VmState::Paused => VmStateError::Paused,
            VmState::Suspended => VmStateError::Suspended,
            VmState::Starting => VmStateError::Starting,
            VmState::Stopping => VmStateError::Stopping,
            _ => VmStateError::Other(self.to_value()),
        }
    }

    /// Human-readable name of this state.
    pub open spec fn spec_display(self) -> Seq<char> {
        match self {
            VmState::Unknown => "Unknown"@,
            VmState::Running => "Running"@,
            VmState::Off => "Off"@,
            VmState::ShuttingDown => "Shutting Down"@,
            VmState::NotApplicable => "Not Applicable"@,
            VmState::Disabled => "Disabled"@,
            VmState::Paused => "Paused"@,
            VmState::Suspended => "Saved"@,
            VmState::Starting => "Starting"@,
            VmState::Snapshotting => "Taking Snapshot"@,
            VmState::Saving => "Saving"@,
            VmState::Stopping => "Stopping"@,
            VmState::Pausing => "Pausing"@,
            VmState::Resuming => "Resuming"@,
        }
    }

    /// Human-readable name of this state.
    pub fn display_string(&self) -> (r: String)
        ensures
            r@ == self.spec_display(),
    {
        match self {
            VmState::Unknown => String::from_str("Unknown"),
            VmState::Running => String::from_str("Running"),
            VmState::Off => String::from_str("Off"),
            VmState::ShuttingDown => String::from_str("Shutting Down"),
            VmState::NotApplicable => String::from_str("Not Applicable"),
            VmState::Disabled => String::from_str("Disabled"),
            VmState::Paused => String::from_str("Paused"),
            VmState::Suspended => String::from_str("Saved"),
            VmState::Starting => String::from_str("Starting"),
            VmState::Snapshotting => String::from_str("Taking Snapshot"),
            VmState::Saving => String::from_str("Saving"),
            VmState::Stopping => String::from_str("Stopping"),
            VmState::Pausing => String::from_str("Pausing"),
            VmState::Resuming => String::from_str("Resuming"),
        }
    }
}

/// Power-state codes round-trip: every state maps to its code and back to the
/// same state, and every defined code maps to a state and back to the same
/// code; undefined codes fall back to `Unknown`, never to a panic.
pub proof fn lemma_vm_state_code_round_trip(s: VmState, v: u16)
    ensures
        VmState::spec_from_enabled_state(s.spec_to_value()) == s,
        VmState::spec_from_enabled_state(v) != VmState::Unknown || v == 0
            ==> VmState::spec_from_enabled_state(v).spec_to_value() == v,
{
}

// ---------------------------------------------------------------------------
// Generation
// ---------------------------------------------------------------------------

/// VM generation: legacy BIOS-style firmware versus UEFI-capable firmware
/// with secure-boot support.
#[derive(Debug, Clone, Copy, PartialEq, Eq, Hash, Structural)]
pub enum Generation {
    /// BIOS-based VM (IDE boot).
    Gen1,
    /// UEFI-based VM (secure-boot capable).
    Gen2,
}

impl Generation {
    /// Schema subtype string of this generation.
    pub open spec fn spec_subtype(self) -> Seq<char> {
        match self {
            Generation::Gen1 => "Microsoft:Hyper-V:SubType:1"@,
            Generation::Gen2 => "Microsoft:Hyper-V:SubType:2"@,
        }
    }

    /// Get the `VirtualSystemSubType` value for this generation.
    pub fn to_subtype(&self) -> (r: &'static str)
        ensures
            r@ == self.spec_subtype(),
    {
        match self {
            Generation::Gen1 => "Microsoft:Hyper-V:SubType:1",
            Generation::Gen2 => "Microsoft:Hyper-V:SubType:2",
        }
    }

    /// Generation denoted by a subtype string: any string containing `":2"`
    /// is UEFI-capable, everything else is the legacy generation.
    pub open spec fn spec_from_subtype(subtype: Seq<char>) -> Generation {
        if contains_seq(subtype, ":2"@) {
            Generation::Gen2
        } else {
            Generation::Gen1
        }
    }

    /// Parse from a `VirtualSystemSubType` value.
    pub fn from_subtype(subtype: &str) -> (r: Self)
        ensures
            r == Self::spec_from_subtype(subtype@),
    {
        if str_contains(subtype, ":2") {
            Generation::Gen2
        } else {
            Generation::Gen1
        }
    }

    /// Human-readable name of this generation.
    pub open spec fn spec_display(self) -> Seq<char> {
        match self {
            Generation::Gen1 => "Generation 1"@,
            Generation::Gen2 => "Generation 2"@,
        }
    }

    /// Human-readable name of this generation.
    pub fn display_string(&self) -> (r: String)
        ensures
            r@ == self.spec_display(),
    {
        match self {
            Generation::Gen1 => String::from_str("Generation 1"),
            Generation::Gen2 => String::from_str("Generation 2"),
        }
    }
}

impl Default for Generation {
    /// The legacy generation is the default.
    fn default() -> (r: Self)
        ensures
            r == Generation::Gen1,
    {
        Generation::Gen1
    }
}

// ---------------------------------------------------------------------------
// OperationalStatus
// ---------------------------------------------------------------------------

/// VM operational status.
#[derive(Debug, Clone, Copy, PartialEq, Eq, Hash, Structural)]
pub enum OperationalStatus {
    Unknown,
    Okay,
    Degraded,
    Stressed,
    PredictiveFailure,
    Error,
    NonRecoverableError,
    Starting,
    Stopping,
    Stopped,
    InService,
    NoContact,
    LostCommunication,
    Aborted,
    Dormant,
    SupportingEntity,
    Completed,
    PowerMode,
    ProtocolVersionMismatch,
    ApplicationCriticalState,
    CommunicationTimedOut,
    CommunicationFailed,
}

impl OperationalStatus {
    /// Status denoted by a numeric code; unknown codes map to `Unknown`.
    pub open spec fn spec_from_value(value: u16) -> OperationalStatus {
        match value {
            2u16 => OperationalStatus::Okay,
            3u16 => OperationalStatus::Degraded,
            4u16 => OperationalStatus::Stressed,
            5u16 => OperationalStatus::PredictiveFailure,
            6u16 => OperationalStatus::Error,
            7u16 => OperationalStatus::NonRecoverableError,
            8u16 => OperationalStatus::Starting,
            9u16 => OperationalStatus::Stopping,
            10u16 => OperationalStatus::Stopped,
            11u16 => OperationalStatus::InService,
            12u16 => OperationalStatus::NoContact,
            13u16 => OperationalStatus::LostCommunication,
            14u16 => OperationalStatus::Aborted,
            15u16 => OperationalStatus::Dormant,
            16u16 => OperationalStatus::SupportingEntity,
            17u16 => OperationalStatus::Completed,
            18u16 => OperationalStatus::PowerMode,
            32775u16 => OperationalStatus::ProtocolVersionMismatch,
            32782u16 => OperationalStatus::ApplicationCriticalState,
            32783u16 => OperationalStatus::CommunicationTimedOut,
            32784u16 => OperationalStatus::CommunicationFailed,
            _ => OperationalStatus::Unknown,
        }
    }

    /// Parse from an `OperationalStatus` value.
    pub fn from_value(value: u16) -> (r: Self)
        ensures
            r == Self::spec_from_value(value),
    {
        if value == 2 { OperationalStatus::Okay }
        else if value == 3 { OperationalStatus::Degraded }
        else if value == 4 { OperationalStatus::Stressed }
        else if value == 5 { OperationalStatus::PredictiveFailure }
        else if value == 6 { OperationalStatus::Error }
        else if value == 7 { OperationalStatus::NonRecoverableError }
        else if value == 8 { OperationalStatus::Starting }
        else if value == 9 { OperationalStatus::Stopping }
        else if value == 10 { OperationalStatus::Stopped }
        else if value == 11 { OperationalStatus::InService }
        else if value == 12 { OperationalStatus::NoContact }
        else if value == 13 { OperationalStatus::LostCommunication }
        else if value == 14 { OperationalStatus::Aborted }
        else if value == 15 { OperationalStatus::Dormant }
        else if value == 16 { OperationalStatus::SupportingEntity }
        else if value == 17 { OperationalStatus::Completed }
        else if value == 18 { OperationalStatus::PowerMode }
        else if value == 32775 { OperationalStatus::ProtocolVersionMismatch }
        else if value == 32782 { OperationalStatus::ApplicationCriticalState }
        else if value == 32783 { OperationalStatus::CommunicationTimedOut }
        else if value == 32784 { OperationalStatus::CommunicationFailed }
        else { OperationalStatus::Unknown }
    }
}

// ---------------------------------------------------------------------------
// RequestedState
// ---------------------------------------------------------------------------

/// Requested state for VM state-change operations.
#[derive(Debug, Clone, Copy, PartialEq, Eq, Structural)]
pub enum RequestedState {
    /// Start the VM.
    Running,
    /// Power off the VM (hard stop).
    Off,
    /// Pause the VM.
    Paused,
    /// Save (suspend) the VM.
    Saved,
    /// Reset the VM.
    Reset,
}

impl RequestedState {
    /// Numeric code of this requested state.  The reset request has its own
    /// dedicated code; the others reuse the power-state numbering.
    pub open spec fn spec_to_value(self) -> u16 {
        match self {
            RequestedState::Running => 2,
            RequestedState::Off => 3,
            RequestedState::Paused => 32768,
            RequestedState::Saved => 32769,
            RequestedState::Reset => 11,
        }
    }

    /// Numeric code of this requested state.
    pub fn to_value(&self) -> (v: u16)
        ensures
            v == self.spec_to_value(),
    {
        match self {
            RequestedState::Running => 2,
            RequestedState::Off => 3,
            RequestedState::Paused => 32768,
            RequestedState::Saved => 32769,
            RequestedState::Reset => 11,
        }
    }
}

// ---------------------------------------------------------------------------
// ShutdownType
// ---------------------------------------------------------------------------

/// Shutdown type for stopping a VM.
#[derive(Debug, Clone, Copy, PartialEq, Eq, Structural)]
pub enum ShutdownType {
    /// Graceful shutdown through guest integration services.
    Graceful,
    /// Force power off.
    Force,
    /// Graceful shutdown, fall back to force if needed.
    GracefulWithForce,
}

// ---------------------------------------------------------------------------
// CheckpointType
// ---------------------------------------------------------------------------

/// Checkpoint type.
#[derive(Debug, Clone, Copy, PartialEq, Eq, Structural)]
pub enum CheckpointType {
    /// Disabled - no checkpoints.
    Disabled,
    /// Production checkpoint (application-consistent, preferred).
    Production,
    /// Production checkpoint only (fail if not possible).
    ProductionOnly,
    /// Standard checkpoint (crash-consistent).
    Standard,
}

impl CheckpointType {
    /// Numeric code of this checkpoint type.
    pub open spec fn spec_to_value(self) -> u16 {
        match self {
            CheckpointType::Disabled => 0,
            CheckpointType::Production => 1,
            CheckpointType::ProductionOnly => 2,
            CheckpointType::Standard => 3,
        }
    }

    /// Checkpoint type denoted by a code; unknown codes fall back to
    /// `Production`.
    pub open spec fn spec_from_value(value: u16) -> CheckpointType {
        match value {
            0u16 => CheckpointType::Disabled,
            1u16 => CheckpointType::Production,
            2u16 => CheckpointType::ProductionOnly,
            3u16 => CheckpointType::Standard,
            _ => CheckpointType::Production,
        }
    }

    /// Numeric code of this checkpoint type.
    pub fn to_value(&self) -> (v: u16)
        ensures
            v == self.spec_to_value(),
    {
        match self {
            CheckpointType::Disabled => 0,
            CheckpointType::Production => 1,
            CheckpointType::ProductionOnly => 2,
            CheckpointType::Standard => 3,
        }
    }

    /// Parse from a numeric code.
    pub fn from_value(value: u16) -> (r: Self)
        ensures
            r == Self::spec_from_value(value),
    {
        if value == 0 { CheckpointType::Disabled }
        else if value == 1 { CheckpointType::Production }
        else if value == 2 { CheckpointType::ProductionOnly }
        else if value == 3 { CheckpointType::Standard }
        else { CheckpointType::Production }
    }
}

impl Default for CheckpointType {
    /// Production checkpoints are the default.
    fn default() -> (r: Self)
        ensures
            r == CheckpointType::Production,
    {
        CheckpointType::Production
    }
}

/// Checkpoint-type codes round-trip on the defined subset; unknown codes fall
/// back to `Production`, never to a panic.
pub proof fn lemma_checkpoint_type_round_trip(t: CheckpointType, v: u16)
    ensures
        CheckpointType::spec_from_value(t.spec_to_value()) == t,
        v <= 3 ==> CheckpointType::spec_from_value(v).spec_to_value() == v,
{
}

// ---------------------------------------------------------------------------
// AutomaticStartAction
// ---------------------------------------------------------------------------

/// Automatic start action when the host starts.
#[derive(Debug, Clone, Copy, PartialEq, Eq, Structural)]
pub enum AutomaticStartAction {
    /// Do nothing on host start.
    Nothing,
    /// Automatically start if the VM was running.
    StartIfRunning,
    /// Always start the VM.
    AlwaysStart,
}

impl AutomaticStartAction {
    /// Numeric code of this action.
    pub open spec fn spec_to_value(self) -> u16 {
        match self {
            AutomaticStartAction::Nothing => 0,
            AutomaticStartAction::StartIfRunning => 1,
            AutomaticStartAction::AlwaysStart => 2,
        }
    }

    /// Action denoted by a code; unknown codes fall back to `Nothing`.
    pub open spec fn spec_from_value(value: u16) -> AutomaticStartAction {
        match value {
            0u16 => AutomaticStartAction::Nothing,
            1u16 => AutomaticStartAction::StartIfRunning,
            2u16 => AutomaticStartAction::AlwaysStart,
            _ => AutomaticStartAction::Nothing,
        }
    }

    /// Numeric code of this action.
    pub fn to_value(&self) -> (v: u16)
        ensures
            v == self.spec_to_value(),
    {
        match self {
            AutomaticStartAction::Nothing => 0,
            AutomaticStartAction::StartIfRunning => 1,
            AutomaticStartAction::AlwaysStart => 2,
        }
    }

    /// Parse from a numeric code.
    pub fn from_value(value: u16) -> (r: Self)
        ensures
            r == Self::spec_from_value(value),
    {
        if value == 0 { AutomaticStartAction::Nothing }
        else if value == 1 { AutomaticStartAction::StartIfRunning }
        else if value == 2 { AutomaticStartAction::AlwaysStart }
        else { AutomaticStartAction::Nothing }
    }
}

impl Default for AutomaticStartAction {
    /// Doing nothing on host start is the default.
    fn default() -> (r: Self)
        ensures
            r == AutomaticStartAction::Nothing,
    {
        AutomaticStartAction::Nothing
    }
}

/// Start-action codes round-trip on the defined subset; unknown codes fall
/// back to `Nothing`, never to a panic.
pub proof fn lemma_start_action_round_trip(a: AutomaticStartAction, v: u16)
    ensures
        AutomaticStartAction::spec_from_value(a.spec_to_value()) == a,
        v <= 2 ==> AutomaticStartAction::spec_from_value(v).spec_to_value() == v,
{
}

// ---------------------------------------------------------------------------
// AutomaticStopAction
// ---------------------------------------------------------------------------

/// Automatic stop action when the host shuts down.
#[derive(Debug, Clone, Copy, PartialEq, Eq, Structural)]
pub enum AutomaticStopAction {
    /// Turn off the VM.
    TurnOff,
    /// Save the VM state.
    Save,
    /// Graceful shutdown.
    Shutdown,
}

impl AutomaticStopAction {
    /// Numeric code of this action.
    pub open spec fn spec_to_value(self) -> u16 {
        match self {
            AutomaticStopAction::TurnOff => 0,
            AutomaticStopAction::Save => 1,
            AutomaticStopAction::Shutdown => 2,
        }
    }

    /// Action denoted by a code; unknown codes fall back to `Save`.
    pub open spec fn spec_from_value(value: u16) -> AutomaticStopAction {
        match value {
            0u16 => AutomaticStopAction::TurnOff,
            1u16 => AutomaticStopAction::Save,
            2u16 => AutomaticStopAction::Shutdown,
            _ => AutomaticStopAction::Save,
        }
    }

    /// Numeric code of this action.
    pub fn to_value(&self) -> (v: u16)
        ensures
            v == self.spec_to_value(),
    {
        match self {
            AutomaticStopAction::TurnOff => 0,
            AutomaticStopAction::Save => 1,
            AutomaticStopAction::Shutdown => 2,
        }
    }

    /// Parse from a numeric code.
    pub fn from_value(value: u16) -> (r: Self)
        ensures
            r == Self::spec_from_value(value),
    {
        if value == 0 { AutomaticStopAction::TurnOff }
        else if value == 1 { AutomaticStopAction::Save }
        else if value == 2 { AutomaticStopAction::Shutdown }
        else { AutomaticStopAction::Save }
    }
}

impl Default for AutomaticStopAction {
    /// Saving the VM state is the default.
    fn default() -> (r: Self)
        ensures
            r == AutomaticStopAction::Save,
    {
        AutomaticStopAction::Save
    }
}

/// Stop-action codes round-trip on the defined subset; unknown codes fall
/// back to `Save`, never to a panic.
pub proof fn lemma_stop_action_round_trip(a: AutomaticStopAction, v: u16)
    ensures
        AutomaticStopAction::spec_from_value(a.spec_to_value()) == a,
        v <= 2 ==> AutomaticStopAction::spec_from_value(v).spec_to_value() == v,
{
}

} // verus!
