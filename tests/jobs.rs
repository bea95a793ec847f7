use wasm_mpi_rs::jobs::{Controller, JobPost, JobState, SubmitError, UpdateError};
use wasm_mpi_rs::spawn::{spawn_request, SANDBOX_HOST};

fn post(world_size: i32) -> JobPost {
    JobPost { path: "app.wasm".to_string(), argv: vec!["-n".to_string(), "3".to_string()], world_size }
}

#[test]
fn end_to_end_admission_scenario() {
    let mut c = Controller::new(5, "127.0.0.1:8080".to_string());
    assert_eq!(c.free_slots(), 4);

    let a = c.submit_with_id(1, post(3)).unwrap();
    assert_eq!(a.state, JobState::Submitted);
    assert_eq!(c.free_slots(), 1);

    let b = c.submit_with_id(2, post(2));
    assert_eq!(b.err(), Some(SubmitError::InsufficientSlots { requested: 2, free: 1 }));
    assert_eq!(c.free_slots(), 1);
    assert_eq!(c.list().len(), 1);

    assert_eq!(c.update_state(1, JobState::Running), Ok(()));
    assert_eq!(c.free_slots(), 1);
    assert_eq!(c.update_state(1, JobState::Completed), Ok(()));
    assert_eq!(c.free_slots(), 4);

    let b = c.submit_with_id(2, post(2)).unwrap();
    assert_eq!(b.world_size, 2);
    assert_eq!(c.free_slots(), 2);
    assert_eq!(c.list().len(), 2);
}

#[test]
fn reporting_the_current_state_twice_changes_nothing() {
    let mut c = Controller::new(5, "h:1".to_string());
    c.submit_with_id(7, post(2)).unwrap();
    assert_eq!(c.update_state(7, JobState::Running), Ok(()));
    assert_eq!(c.update_state(7, JobState::Running), Ok(()));
    assert_eq!(c.free_slots(), 2);
    assert_eq!(c.update_state(7, JobState::Failed), Ok(()));
    assert_eq!(c.free_slots(), 4);
    assert_eq!(c.update_state(7, JobState::Failed), Ok(()));
    assert_eq!(c.free_slots(), 4);
}

#[test]
fn terminal_state_is_final() {
    let mut c = Controller::new(3, "h:1".to_string());
    c.submit_with_id(9, post(1)).unwrap();
    assert_eq!(c.update_state(9, JobState::Completed), Ok(()));
    assert_eq!(c.update_state(9, JobState::Running), Err(UpdateError::FinalState));
    assert_eq!(c.update_state(9, JobState::Failed), Err(UpdateError::FinalState));
    assert_eq!(c.list()[0].state, JobState::Completed);
    assert_eq!(c.free_slots(), 2);
}

#[test]
fn unknown_job_is_not_found() {
    let mut c = Controller::new(3, "h:1".to_string());
    assert_eq!(c.update_state(42, JobState::Running), Err(UpdateError::NotFound));
}

#[test]
fn oversized_submission_leaves_registry_alone() {
    let mut c = Controller::new(2, "h:1".to_string());
    assert_eq!(c.free_slots(), 1);
    let r = c.submit_with_id(1, post(2));
    assert_eq!(r.err(), Some(SubmitError::InsufficientSlots { requested: 2, free: 1 }));
    assert_eq!(c.free_slots(), 1);
    assert!(c.list().is_empty());
}

#[test]
fn duplicate_id_is_turned_away() {
    let mut c = Controller::new(9, "h:1".to_string());
    c.submit_with_id(5, post(1)).unwrap();
    assert_eq!(c.submit_with_id(5, post(1)).err(), Some(SubmitError::DuplicateId));
    assert_eq!(c.free_slots(), 7);
}

#[test]
fn jump_to_completed_without_running_is_accepted() {
    let mut c = Controller::new(4, "h:1".to_string());
    c.submit_with_id(3, post(3)).unwrap();
    assert_eq!(c.update_state(3, JobState::Completed), Ok(()));
    assert_eq!(c.free_slots(), 3);
}

#[test]
fn callback_address_names_host_and_hyphenated_id() {
    let mut c = Controller::new(4, "10.0.0.1:8000".to_string());
    let j = c.submit_with_id(0x0123456789abcdef0123456789abcdef, post(1)).unwrap();
    assert_eq!(j.callback, "http://10.0.0.1:8000/jobs/01234567-89ab-cdef-0123-456789abcdef/callback");
    assert_eq!(j.path, "app.wasm");
    assert_eq!(j.argv, vec!["-n".to_string(), "3".to_string()]);
}

#[test]
fn submit_draws_distinct_ids() {
    let mut c = Controller::new(9, "h:1".to_string());
    let a = c.submit(post(1)).unwrap();
    let b = c.submit(post(1)).unwrap();
    assert_ne!(a.uuid, b.uuid);
    assert_eq!(c.free_slots(), 6);
}

#[test]
fn spawn_request_passes_callback_path_and_arguments() {
    let mut c = Controller::new(4, "h:1".to_string());
    let j = c.submit_with_id(1, post(2)).unwrap();
    let r = spawn_request(&j);
    assert_eq!(r.command, SANDBOX_HOST);
    assert_eq!(r.world_size, 2);
    assert_eq!(r.argv, vec!["--callback".to_string(), j.callback.clone(), "app.wasm".to_string(), "-n".to_string(), "3".to_string()]);
}

#[test]
fn distinct_ids_get_distinct_callback_addresses() {
    let mut c = Controller::new(9, "h:1".to_string());
    let a = c.submit_with_id(1, post(1)).unwrap();
    let b = c.submit_with_id(1 << 64, post(1)).unwrap();
    assert_eq!(a.callback, "http://h:1/jobs/00000000-0000-0000-0000-000000000001/callback");
    assert_eq!(b.callback, "http://h:1/jobs/00000000-0000-0001-0000-000000000000/callback");
    assert_ne!(a.callback, b.callback);
}
