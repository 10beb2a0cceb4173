//! Tests for the job-completion protocol, the lifecycle plans and the
//! error texts.

use hyperv::computer_system::{
    graceful_shutdown_step, StopAction, VirtualMachine,
};
use hyperv::error::{Error, VmStateError};
use hyperv::job::{classify_return, job_step, JobProgress, JobState, OperationStart};
use hyperv::state::{RequestedState, ShutdownType, VmState};

fn vm_in_state(state_code: u16) -> VirtualMachine {
    VirtualMachine::from_properties(
        Some("TestVM".to_string()),
        Some("0a1b2c3d".to_string()),
        Some(state_code),
        Some("\\\\.\\root:Msvm_ComputerSystem.Name=\"0a1b2c3d\"".to_string()),
        Some("Microsoft:Hyper-V:SubType:2".to_string()),
    )
    .unwrap()
}

// ========== Job state codes ==========

#[test]
fn test_job_state_from_value() {
    assert_eq!(JobState::from_value(2), JobState::New);
    assert_eq!(JobState::from_value(3), JobState::Starting);
    assert_eq!(JobState::from_value(4), JobState::Running);
    assert_eq!(JobState::from_value(7), JobState::Completed);
    assert_eq!(JobState::from_value(8), JobState::Terminated);
    assert_eq!(JobState::from_value(9), JobState::Killed);
    assert_eq!(JobState::from_value(10), JobState::Exception);
    assert_eq!(JobState::from_value(11), JobState::ServiceError);
    assert_eq!(JobState::from_value(12345), JobState::Unknown);
}

#[test]
fn test_job_state_roundtrip() {
    for js in [
        JobState::New,
        JobState::Starting,
        JobState::Running,
        JobState::Completed,
        JobState::Terminated,
        JobState::Killed,
        JobState::Exception,
        JobState::ServiceError,
    ] {
        assert_eq!(JobState::from_value(js.to_value()), js);
    }
}

#[test]
fn test_job_state_terminal_and_failure() {
    assert!(JobState::Completed.is_terminal());
    assert!(!JobState::Completed.is_failure());
    for js in [JobState::Terminated, JobState::Killed, JobState::Exception, JobState::ServiceError]
    {
        assert!(js.is_terminal());
        assert!(js.is_failure());
    }
    for js in [JobState::New, JobState::Starting, JobState::Running, JobState::Unknown] {
        assert!(!js.is_terminal());
        assert!(!js.is_failure());
    }
}

// ========== Job polling ==========

#[test]
fn test_job_step_completed() {
    assert!(matches!(
        job_step("DefineSystem", 7, 0, String::new()),
        JobProgress::Completed
    ));
}

#[test]
fn test_job_step_failure_codes() {
    for code in [8u16, 9, 10, 11] {
        let progress = job_step("DefineSystem", code, 32768, "out of memory".to_string());
        match progress {
            JobProgress::Failed(Error::JobFailed { operation, error_code, error_description }) => {
                assert_eq!(operation, "DefineSystem");
                assert_eq!(error_code, 32768);
                assert_eq!(error_description, "out of memory");
            }
            other => panic!("job state {} must fail, got {:?}", code, other),
        }
    }
}

#[test]
fn test_job_step_transient_states_keep_polling() {
    // New, starting and running are transient, never misclassified as failures.
    for code in [2u16, 3, 4, 5, 6, 0, 12, 999] {
        assert!(matches!(
            job_step("AddResourceSettings", code, 0, String::new()),
            JobProgress::Pending
        ));
    }
}

// ========== Return-code classification ==========

#[test]
fn test_classify_return_synchronous() {
    assert!(matches!(
        classify_return("DefineSystem", 0, None),
        OperationStart::Synchronous
    ));
}

#[test]
fn test_classify_return_queued_with_path() {
    match classify_return("DefineSystem", 4096, Some("Msvm_ConcreteJob.InstanceID=\"7\"".to_string()))
    {
        OperationStart::Queued(path) => {
            assert_eq!(path, "Msvm_ConcreteJob.InstanceID=\"7\"");
        }
        other => panic!("expected a queued job, got {:?}", other),
    }
}

#[test]
fn test_classify_return_queued_without_path() {
    assert!(matches!(
        classify_return("DefineSystem", 4096, None),
        OperationStart::Synchronous
    ));
    assert!(matches!(
        classify_return("DefineSystem", 4096, Some(String::new())),
        OperationStart::Synchronous
    ));
}

#[test]
fn test_classify_return_failure() {
    match classify_return("DestroySystem", 32769, None) {
        OperationStart::Failed(Error::OperationFailed { operation, return_value, message }) => {
            assert_eq!(operation, "DestroySystem");
            assert_eq!(return_value, 32769);
            assert_eq!(message, "DestroySystem failed");
        }
        other => panic!("expected a failure, got {:?}", other),
    }
}

// ========== Lifecycle plans ==========

#[test]
fn test_start_plan_from_off() {
    let vm = vm_in_state(3);
    assert_eq!(vm.start_plan().unwrap(), RequestedState::Running);
}

#[test]
fn test_start_plan_from_running_is_invalid() {
    let vm = vm_in_state(2);
    match vm.start_plan() {
        Err(Error::InvalidState { vm_name, current, operation }) => {
            assert_eq!(vm_name, "TestVM");
            assert_eq!(current, VmStateError::Running);
            assert_eq!(operation, "start");
        }
        other => panic!("expected an invalid-state error, got {:?}", other),
    }
}

#[test]
fn test_stop_plan_variants() {
    let vm = vm_in_state(2);
    assert_eq!(vm.stop_plan(ShutdownType::Force).unwrap(), StopAction::ForceOff);
    assert_eq!(
        vm.stop_plan(ShutdownType::Graceful).unwrap(),
        StopAction::Graceful { fallback_force: false }
    );
    assert_eq!(
        vm.stop_plan(ShutdownType::GracefulWithForce).unwrap(),
        StopAction::Graceful { fallback_force: true }
    );
}

#[test]
fn test_stop_plan_from_off_is_invalid() {
    let vm = vm_in_state(3);
    match vm.stop_plan(ShutdownType::Force) {
        Err(Error::InvalidState { current, operation, .. }) => {
            assert_eq!(current, VmStateError::Off);
            assert_eq!(operation, "stop");
        }
        other => panic!("expected an invalid-state error, got {:?}", other),
    }
}

#[test]
fn test_pause_resume_save_reset_plans() {
    let running = vm_in_state(2);
    let paused = vm_in_state(32768);
    let off = vm_in_state(3);

    assert_eq!(running.pause_plan().unwrap(), RequestedState::Paused);
    assert!(paused.pause_plan().is_err());

    assert_eq!(paused.resume_plan().unwrap(), RequestedState::Running);
    assert!(running.resume_plan().is_err());

    assert_eq!(running.save_plan().unwrap(), RequestedState::Saved);
    assert_eq!(paused.save_plan().unwrap(), RequestedState::Saved);
    assert!(off.save_plan().is_err());

    assert_eq!(running.reset_plan().unwrap(), RequestedState::Reset);
    match off.reset_plan() {
        Err(Error::InvalidState { operation, .. }) => assert_eq!(operation, "reset"),
        other => panic!("expected an invalid-state error, got {:?}", other),
    }
}

#[test]
fn test_delete_guard_requires_off() {
    assert!(vm_in_state(3).delete_guard().is_ok());
    match vm_in_state(2).delete_guard() {
        Err(Error::InvalidState { operation, current, .. }) => {
            assert_eq!(operation, "delete");
            assert_eq!(current, VmStateError::Running);
        }
        other => panic!("expected an invalid-state error, got {:?}", other),
    }
}

#[test]
fn test_apply_refresh_updates_only_state() {
    let mut vm = vm_in_state(3);
    vm.apply_refresh(2);
    assert_eq!(vm.state(), VmState::Running);
    assert_eq!(vm.name(), "TestVM");
    assert_eq!(vm.id(), "0a1b2c3d");
}

#[test]
fn test_graceful_shutdown_step() {
    assert!(graceful_shutdown_step(true, 0).is_ok());
    match graceful_shutdown_step(false, 0) {
        Err(Error::OperationFailed { operation, return_value, message }) => {
            assert_eq!(operation, "GracefulShutdown");
            assert_eq!(return_value, 0);
            assert_eq!(message, "Shutdown integration service not available");
        }
        other => panic!("expected a failure, got {:?}", other),
    }
    match graceful_shutdown_step(true, 32768) {
        Err(Error::OperationFailed { operation, return_value, message }) => {
            assert_eq!(operation, "InitiateShutdown");
            assert_eq!(return_value, 32768);
            assert_eq!(message, "Graceful shutdown failed");
        }
        other => panic!("expected a failure, got {:?}", other),
    }
}

// ========== VM assembly from document properties ==========

#[test]
fn test_vm_from_properties_requires_fields() {
    let missing_name = VirtualMachine::from_properties(
        None,
        Some("id".to_string()),
        Some(3),
        Some("path".to_string()),
        None,
    );
    assert!(matches!(missing_name, Err(Error::MissingRequired("ElementName"))));

    let missing_id = VirtualMachine::from_properties(
        Some("A".to_string()),
        None,
        Some(3),
        Some("path".to_string()),
        None,
    );
    assert!(matches!(missing_id, Err(Error::MissingRequired("Name"))));

    let missing_path = VirtualMachine::from_properties(
        Some("A".to_string()),
        Some("id".to_string()),
        Some(3),
        None,
        None,
    );
    assert!(matches!(missing_path, Err(Error::MissingRequired("__PATH"))));
}

#[test]
fn test_vm_from_properties_defaults() {
    // A missing state code reads as unknown; a missing subtype means the
    // legacy generation.
    let vm = VirtualMachine::from_properties(
        Some("A".to_string()),
        Some("id".to_string()),
        None,
        Some("path".to_string()),
        None,
    )
    .unwrap();
    assert_eq!(vm.state(), VmState::Unknown);
    assert_eq!(vm.generation(), hyperv::state::Generation::Gen1);
}

// ========== Error texts ==========

#[test]
fn test_error_message_invalid_state() {
    let e = Error::InvalidState {
        vm_name: "TestVM".to_string(),
        current: VmStateError::Running,
        operation: "start",
    };
    assert_eq!(e.message(), "Cannot start VM 'TestVM' in state Running");
}

#[test]
fn test_error_message_operation_failed() {
    let e = Error::OperationFailed {
        operation: "DefineSystem",
        return_value: 4097,
        message: "access denied".to_string(),
    };
    assert_eq!(e.message(), "Operation 'DefineSystem' failed with code 4097: access denied");
}

#[test]
fn test_error_message_job_failed() {
    let e = Error::JobFailed {
        operation: "CreateSnapshot",
        error_code: 32768,
        error_description: "failed".to_string(),
    };
    assert_eq!(e.message(), "Job failed for 'CreateSnapshot' (code 32768): failed");
}

#[test]
fn test_error_message_validation_and_missing() {
    let v = Error::Validation { field: "name", message: "VM name cannot be empty".to_string() };
    assert_eq!(v.message(), "Validation failed for 'name': VM name cannot be empty");
    let m = Error::MissingRequired("generation");
    assert_eq!(m.message(), "Required field missing: generation");
}

#[test]
fn test_vm_state_error_display_other() {
    assert_eq!(VmStateError::Other(32771).display_string(), "State(32771)");
    assert_eq!(VmStateError::Suspended.display_string(), "Saved");
}
