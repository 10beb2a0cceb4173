//! The virtual machine entity and its lifecycle state machine.
//!
//! A `VirtualMachine` value holds a cached snapshot of the VM's power state:
//! it is stale after any successful transition until refreshed from the
//! service.  Each power operation is planned by a verified guard: the plan
//! names the state-change request to issue exactly when the transition table
//! allows it, and otherwise produces the invalid-state error naming the VM,
//! its current state and the attempted operation.  The I/O shell issues the
//! request, drives the job protocol and feeds the refreshed state back.

use vstd::prelude::*;
use vstd::string::StrSliceExecFns;
use vstd::string::StringExecFns;
use crate::error::{Error, VmStateError};
use crate::state::{Generation, RequestedState, ShutdownType, VmState};

verus! {

/// `e` is the invalid-state error for attempting `operation` on a VM named
/// `name` while it is in state `state`.
pub open spec fn is_invalid_state_error(
    e: Error,
    name: Seq<char>,
    state: VmState,
    operation: Seq<char>,
) -> bool {
    e matches Error::InvalidState { vm_name, current, operation: op } && vm_name@ == name
        && current == state.spec_to_error() && op@ == operation
}

/// What a stop operation does, once allowed.
#[derive(Debug, Clone, Copy, PartialEq, Eq, Structural)]
pub enum StopAction {
    /// Request the off state directly.
    ForceOff,
    /// Ask the in-guest shutdown capability to shut down; when
    /// `fallback_force` is set, any failure of the graceful path is followed
    /// by a forced power-off.
    Graceful { fallback_force: bool },
}

/// A virtual machine known to the management service.
#[derive(Debug)]
pub struct VirtualMachine {
    /// VM display name.
    pub name: String,
    /// VM unique identifier (GUID).
    pub id: String,
    /// Cached power state; authoritative only directly after a refresh.
    pub state: VmState,
    /// VM generation.
    pub generation: Generation,
    /// Document path of the VM object, for operation invocation.
    pub path: String,
}

impl VirtualMachine {
    /// Assemble a VM from the properties of its document, all-or-nothing:
    /// display name, identifier and path are required; a missing state code
    /// counts as zero (unknown); the generation is read from the settings
    /// subtype, defaulting to the legacy generation when absent or empty.
    pub fn from_properties(
        name: Option<String>,
        id: Option<String>,
        enabled_state: Option<u16>,
        path: Option<String>,
        subtype: Option<String>,
    ) -> (r: Result<VirtualMachine, Error>)
        ensures
            r is Ok <==> name is Some && id is Some && path is Some,
            r matches Ok(vm) ==> {
                &&& vm.name == name->0
                &&& vm.id == id->0
                &&& vm.path == path->0
                &&& vm.state == VmState::spec_from_enabled_state(
                    match enabled_state {
                        Some(v) => v,
                        None => 0,
                    },
                )
                &&& vm.generation == (match subtype {
                    Some(s) => if s@.len() > 0 {
                        Generation::spec_from_subtype(s@)
                    } else {
                        Generation::Gen1
                    },
                    None => Generation::Gen1,
                })
            },
            name is None ==> (r matches Err(e) && (e matches Error::MissingRequired(f)
                && f@ == "ElementName"@)),
            name is Some && id is None ==> (r matches Err(e)
                && (e matches Error::MissingRequired(f) && f@ == "Name"@)),
            name is Some && id is Some && path is None ==> (r matches Err(e)
                && (e matches Error::MissingRequired(f) && f@ == "__PATH"@)),
    {
        let name = match name {
            Some(n) => n,
            None => {
                return Err(Error::MissingRequired("ElementName"));
            },
        };
        let id = match id {
            Some(i) => i,
            None => {
                return Err(Error::MissingRequired("Name"));
            },
        };
        let path = match path {
            Some(p) => p,
            None => {
                return Err(Error::MissingRequired("__PATH"));
            },
        };
        let state_code = match enabled_state {
            Some(v) => v,
            None => 0,
        };
        let generation = match subtype {
            Some(s) => {
                if s.as_str().unicode_len() > 0 {
                    Generation::from_subtype(s.as_str())
                } else {
                    Generation::Gen1
                }
            },
            None => Generation::Gen1,
        };
        Ok(VirtualMachine {
            name,
            id,
            state: VmState::from_enabled_state(state_code),
            generation,
            path,
        })
    }

    /// Get the VM display name.
    pub fn name(&self) -> (r: &str)
        ensures
            r@ == self.name@,
    {
        self.name.as_str()
    }

    /// Get the VM unique identifier (GUID).
    pub fn id(&self) -> (r: &str)
        ensures
            r@ == self.id@,
    {
        self.id.as_str()
    }

    /// Get the cached VM power state.
    pub fn state(&self) -> (r: VmState)
        ensures
            r == self.state,
    {
        self.state
    }

    /// Get the VM generation.
    pub fn generation(&self) -> (r: Generation)
        ensures
            r == self.generation,
    {
        self.generation
    }

    /// Get the document path of the VM object.
    pub fn path(&self) -> (r: &str)
        ensures
            r@ == self.path@,
    {
        self.path.as_str()
    }

    /// Fold a freshly fetched state code into the cached state; nothing else
    /// changes.
    pub fn apply_refresh(&mut self, enabled_state: u16)
        ensures
            final(self).state == VmState::spec_from_enabled_state(enabled_state),
            final(self).name == old(self).name,
            final(self).id == old(self).id,
            final(self).generation == old(self).generation,
            final(self).path == old(self).path,
    {
        self.state = VmState::from_enabled_state(enabled_state);
    }

    /// Plan the start operation: allowed from off, saved and paused, in
    /// which case the running state is requested; any other state yields the
    /// invalid-state error for `start`.
    pub fn start_plan(&self) -> (r: Result<RequestedState, Error>)
        ensures
            self.state.spec_can_start() <==> r is Ok,
            r matches Ok(q) ==> q == RequestedState::Running,
            r matches Err(e) ==> is_invalid_state_error(e, self.name@, self.state, "start"@),
    {
        if !self.state.can_start() {
            return Err(Error::InvalidState {
                vm_name: self.name.clone(),
                current: self.state.to_error(),
                operation: "start",
            });
        }
        Ok(RequestedState::Running)
    }

    /// Plan the stop operation: allowed from running, paused and saved.  A
    /// forced stop requests the off state directly; a graceful stop defers
    /// to the in-guest shutdown capability, with or without a forced
    /// fallback.  Any other state yields the invalid-state error for `stop`.
    pub fn stop_plan(&self, shutdown_type: ShutdownType) -> (r: Result<StopAction, Error>)
        ensures
            self.state.spec_can_stop() <==> r is Ok,
            r matches Ok(a) ==> a == (match shutdown_type {
                ShutdownType::Force => StopAction::ForceOff,
                ShutdownType::Graceful => StopAction::Graceful { fallback_force: false },
                ShutdownType::GracefulWithForce => StopAction::Graceful { fallback_force: true },
            }),
            r matches Err(e) ==> is_invalid_state_error(e, self.name@, self.state, "stop"@),
    {
        if !self.state.can_stop() {
            return Err(Error::InvalidState {
                vm_name: self.name.clone(),
                current: self.state.to_error(),
                operation: "stop",
            });
        }
        match shutdown_type {
            ShutdownType::Force => Ok(StopAction::ForceOff),
            ShutdownType::Graceful => Ok(StopAction::Graceful { fallback_force: false }),
            ShutdownType::GracefulWithForce => Ok(StopAction::Graceful { fallback_force: true }),
        }
    }

    /// Plan the pause operation: allowed only from running, in which case
    /// the paused state is requested; any other state yields the
    /// invalid-state error for `pause`.
    pub fn pause_plan(&self) -> (r: Result<RequestedState, Error>)
        ensures
            self.state.spec_can_pause() <==> r is Ok,
            r matches Ok(q) ==> q == RequestedState::Paused,
            r matches Err(e) ==> is_invalid_state_error(e, self.name@, self.state, "pause"@),
    {
        if !self.state.can_pause() {
            return Err(Error::InvalidState {
                vm_name: self.name.clone(),
                current: self.state.to_error(),
                operation: "pause",
            });
        }
        Ok(RequestedState::Paused)
    }

    /// Plan the resume operation: allowed only from paused, in which case
    /// the running state is requested; any other state yields the
    /// invalid-state error for `resume`.
    pub fn resume_plan(&self) -> (r: Result<RequestedState, Error>)
        ensures
            self.state is Paused <==> r is Ok,
            r matches Ok(q) ==> q == RequestedState::Running,
            r matches Err(e) ==> is_invalid_state_error(e, self.name@, self.state, "resume"@),
    {
        if !matches!(self.state, VmState::Paused) {
            return Err(Error::InvalidState {
                vm_name: self.name.clone(),
                current: self.state.to_error(),
                operation: "resume",
            });
        }
        Ok(RequestedState::Running)
    }

    /// Plan the save operation: allowed from running and paused, in which
    /// case the saved state is requested; any other state yields the
    /// invalid-state error for `save`.
    pub fn save_plan(&self) -> (r: Result<RequestedState, Error>)
        ensures
            self.state.spec_can_save() <==> r is Ok,
            r matches Ok(q) ==> q == RequestedState::Saved,
            r matches Err(e) ==> is_invalid_state_error(e, self.name@, self.state, "save"@),
    {
        if !self.state.can_save() {
            return Err(Error::InvalidState {
                vm_name: self.name.clone(),
                current: self.state.to_error(),
                operation: "save",
            });
        }
        Ok(RequestedState::Saved)
    }

    /// Plan the reset operation: allowed only from running, in which case
    /// the dedicated reset request is issued; any other state yields the
    /// invalid-state error for `reset`.
    pub fn reset_plan(&self) -> (r: Result<RequestedState, Error>)
        ensures
            self.state is Running <==> r is Ok,
            r matches Ok(q) ==> q == RequestedState::Reset,
            r matches Err(e) ==> is_invalid_state_error(e, self.name@, self.state, "reset"@),
    {
        if !matches!(self.state, VmState::Running) {
            return Err(Error::InvalidState {
                vm_name: self.name.clone(),
                current: self.state.to_error(),
                operation: "reset",
            });
        }
        Ok(RequestedState::Reset)
    }

    /// Guard for deleting the VM: allowed only while off; any other state
    /// yields the invalid-state error for `delete`.
    pub fn delete_guard(&self) -> (r: Result<(), Error>)
        ensures
            self.state is Off <==> r is Ok,
            r matches Err(e) ==> is_invalid_state_error(e, self.name@, self.state, "delete"@),
    {
        if !matches!(self.state, VmState::Off) {
            return Err(Error::InvalidState {
                vm_name: self.name.clone(),
                current: self.state.to_error(),
                operation: "delete",
            });
        }
        Ok(())
    }

    /// Guard for applying a checkpoint: allowed only while off; any other
    /// state yields the invalid-state error for `apply checkpoint`.  (The
    /// checkpoint's captured state may differ, so the cached state must be
    /// refreshed after a successful apply.)
    pub fn apply_checkpoint_guard(&self) -> (r: Result<(), Error>)
        ensures
            self.state is Off <==> r is Ok,
            r matches Err(e) ==> is_invalid_state_error(
                e,
                self.name@,
                self.state,
                "apply checkpoint"@,
            ),
    {
        if !matches!(self.state, VmState::Off) {
            return Err(Error::InvalidState {
                vm_name: self.name.clone(),
                current: self.state.to_error(),
                operation: "apply checkpoint",
            });
        }
        Ok(())
    }
}

/// Outcome classification of the in-guest shutdown path: when no shutdown
/// capability exists for the VM the graceful stop fails without falling back
/// on its own; when the capability exists, return code zero means the guest
/// accepted the shutdown and anything else fails the operation.
pub fn graceful_shutdown_step(component_found: bool, return_value: u32) -> (r: Result<(), Error>)
    ensures
        r is Ok <==> component_found && return_value == 0,
        !component_found ==> (r matches Err(e) && (e
            matches Error::OperationFailed { operation: op, return_value: rv, message: m }
            && op@ == "GracefulShutdown"@ && rv == 0
            && m@ == "Shutdown integration service not available"@)),
        component_found && return_value != 0 ==> (r matches Err(e) && (e
            matches Error::OperationFailed { operation: op, return_value: rv, message: m }
            && op@ == "InitiateShutdown"@ && rv == return_value
            && m@ == "Graceful shutdown failed"@)),
{
    if !component_found {
        return Err(Error::OperationFailed {
            operation: "GracefulShutdown",
            return_value: 0,
            message: String::from_str("Shutdown integration service not available"),
        });
    }
    if return_value == 0 {
        Ok(())
    } else {
        Err(Error::OperationFailed {
            operation: "InitiateShutdown",
            return_value,
            message: String::from_str("Graceful shutdown failed"),
        })
    }
}

/// The legal power transitions match the lifecycle table exactly: start from
/// off, saved or paused; stop from running, paused or saved; pause only from
/// running; save from running or paused.
pub proof fn lemma_power_transition_table(s: VmState)
    ensures
        s.spec_can_start() <==> (s is Off || s is Suspended || s is Paused),
        s.spec_can_stop() <==> (s is Running || s is Paused || s is Suspended),
        s.spec_can_pause() <==> (s is Running),
        s.spec_can_save() <==> (s is Running || s is Paused),
{
}

} // verus!
