use project_runner::registry::ProjectManager;
use project_runner::terminate::{
    close_project, forced_termination_outcome, terminate_process, termination_outcome,
    TerminationError, FORCED_EXIT_CODE,
};

// Above every limit that the system puts on process ids, so no process has it.
const NO_SUCH_PID: u32 = 0x7fff_fff0;

#[test]
fn new_registry_is_empty() {
    let manager: ProjectManager<&str> = ProjectManager::new();
    assert_eq!(manager.len(), 0);
}

#[test]
fn register_then_unregister_returns_the_process() {
    let mut manager = ProjectManager::new();
    manager.register(10, "server");
    assert_eq!(manager.len(), 1);
    assert_eq!(manager.unregister(10), Some("server"));
    assert_eq!(manager.len(), 0);
}

#[test]
fn unregister_unknown_handle_finds_nothing() {
    let mut manager = ProjectManager::new();
    manager.register(10, "server");
    assert_eq!(manager.unregister(11), None);
    assert_eq!(manager.len(), 1);
}

#[test]
fn unregister_twice_finds_nothing_the_second_time() {
    let mut manager = ProjectManager::new();
    manager.register(10, "server");
    assert_eq!(manager.unregister(10), Some("server"));
    assert_eq!(manager.unregister(10), None);
}

#[test]
fn register_overwrites_a_reused_handle() {
    let mut manager = ProjectManager::new();
    manager.register(10, "old");
    manager.register(10, "new");
    assert_eq!(manager.len(), 1);
    assert_eq!(manager.unregister(10), Some("new"));
    assert_eq!(manager.unregister(10), None);
}

#[test]
fn handles_are_independent() {
    let mut manager = ProjectManager::new();
    manager.register(1, "one");
    manager.register(2, "two");
    manager.register(3, "three");
    assert_eq!(manager.unregister(2), Some("two"));
    assert_eq!(manager.len(), 2);
    assert_eq!(manager.unregister(1), Some("one"));
    assert_eq!(manager.unregister(3), Some("three"));
}

#[test]
fn outcome_of_an_accepted_request_is_success() {
    assert_eq!(termination_outcome(Ok(())), Ok(()));
}

#[test]
fn outcome_tells_refusals_apart() {
    assert_eq!(termination_outcome(Err(3)), Err(TerminationError::NoSuchProcess));
    assert_eq!(termination_outcome(Err(1)), Err(TerminationError::PermissionDenied));
    assert_eq!(termination_outcome(Err(22)), Err(TerminationError::Os(22)));
}

#[test]
fn handle_zero_is_refused_without_a_signal() {
    assert_eq!(terminate_process(0), Err(TerminationError::InvalidHandle));
}

#[test]
fn handle_beyond_process_ids_is_refused_without_a_signal() {
    assert_eq!(terminate_process(0x8000_0000), Err(TerminationError::InvalidHandle));
    assert_eq!(terminate_process(u32::MAX), Err(TerminationError::InvalidHandle));
}

#[test]
fn terminating_a_process_that_is_gone_fails() {
    assert_eq!(terminate_process(NO_SUCH_PID), Err(TerminationError::NoSuchProcess));
}

#[test]
fn stop_of_unknown_handle_is_a_no_op_success() {
    let mut manager = ProjectManager::new();
    manager.register(5, "kept");
    assert_eq!(close_project(&mut manager, NO_SUCH_PID), Ok(()));
    assert_eq!(manager.len(), 1);
    assert_eq!(manager.unregister(5), Some("kept"));
}

#[test]
fn stop_removes_the_entry_even_when_termination_fails() {
    let mut manager = ProjectManager::new();
    manager.register(NO_SUCH_PID, "gone already");
    manager.register(5, "kept");
    assert_eq!(close_project(&mut manager, NO_SUCH_PID), Err(TerminationError::NoSuchProcess));
    assert_eq!(manager.len(), 1);
    assert_eq!(manager.unregister(NO_SUCH_PID), None);
    assert_eq!(manager.unregister(5), Some("kept"));
}

#[test]
fn second_stop_is_a_no_op_success() {
    let mut manager = ProjectManager::new();
    manager.register(NO_SUCH_PID, "gone already");
    let _ = close_project(&mut manager, NO_SUCH_PID);
    assert_eq!(close_project(&mut manager, NO_SUCH_PID), Ok(()));
    assert_eq!(manager.len(), 0);
}

#[test]
fn stop_of_an_invalid_registered_handle_sends_nothing() {
    let mut manager = ProjectManager::new();
    manager.register(0, "never a process");
    assert_eq!(close_project(&mut manager, 0), Err(TerminationError::InvalidHandle));
    assert_eq!(manager.len(), 0);
}

#[test]
fn termination_error_messages() {
    assert_eq!(TerminationError::InvalidHandle.message(), "Invalid process handle");
    assert_eq!(TerminationError::NoSuchProcess.message(), "ESRCH: No such process");
    assert_eq!(TerminationError::PermissionDenied.message(), "EPERM: Operation not permitted");
    assert_eq!(TerminationError::Os(22).message(), "Failed to terminate process (os error 22)");
    assert_eq!(TerminationError::OpenFailed.message(), "Failed to open process");
    assert_eq!(TerminationError::KillFailed.message(), "Failed to terminate process");
}

#[test]
fn forced_termination_releases_what_it_opened() {
    assert_eq!(forced_termination_outcome(false, false), (false, Err(TerminationError::OpenFailed)));
    assert_eq!(forced_termination_outcome(false, true), (false, Err(TerminationError::OpenFailed)));
    assert_eq!(forced_termination_outcome(true, false), (true, Err(TerminationError::KillFailed)));
    assert_eq!(forced_termination_outcome(true, true), (true, Ok(())));
    assert_eq!(FORCED_EXIT_CODE, 1);
}

#[test]
fn only_a_missing_process_counts_as_gone() {
    assert!(TerminationError::NoSuchProcess.process_is_gone());
    assert!(!TerminationError::PermissionDenied.process_is_gone());
    assert!(!TerminationError::InvalidHandle.process_is_gone());
    assert!(!TerminationError::Os(3).process_is_gone());
    assert!(!TerminationError::OpenFailed.process_is_gone());
    assert!(!TerminationError::KillFailed.process_is_gone());
}
