use tipsy::endpoint::{
    pipe_connect_step, ConnectStep, PipeOpenOutcome, PIPE_AVAILABILITY_TIMEOUT_MS,
    PIPE_BUFFER_SIZE,
};
use tipsy::{
    conflict_action, looks_for_conflicts, ConflictAction, Endpoint, EndpointError, OnConflict,
    Platform, SecurityAttributes,
};

fn path(s: &str) -> Vec<u8> {
    s.as_bytes().to_vec()
}

#[test]
fn error_on_existing_path() {
    let r = Endpoint::new(path("/tmp/test-100.sock"), Platform::Unix, OnConflict::Error, true);
    match r {
        Err(EndpointError::AlreadyExists(p)) => assert_eq!(p, path("/tmp/test-100.sock")),
        Ok(_) => panic!("an existing path was accepted"),
    }
}

#[test]
fn error_policy_accepts_fresh_path() {
    let e = Endpoint::new(path("/tmp/fresh.sock"), Platform::Unix, OnConflict::Error, false).unwrap();
    assert_eq!(e.path(), b"/tmp/fresh.sock");
    assert!(!e.removes_existing());
}

#[test]
fn overwrite_on_existing_path() {
    let e = Endpoint::new(path("/tmp/test-100.sock"), Platform::Unix, OnConflict::Overwrite, true)
        .unwrap();
    assert!(e.removes_existing());
    let e = Endpoint::new(path("/tmp/test-100.sock"), Platform::MacOs, OnConflict::Overwrite, false)
        .unwrap();
    assert!(!e.removes_existing());
}

#[test]
fn ignore_keeps_existing_path() {
    let e = Endpoint::new(path("/tmp/x.sock"), Platform::Unix, OnConflict::Ignore, true).unwrap();
    assert!(!e.removes_existing());
    assert_eq!(e.path(), b"/tmp/x.sock");
}

#[test]
fn windows_ignores_conflict_policy() {
    assert!(!looks_for_conflicts(Platform::Windows));
    assert!(looks_for_conflicts(Platform::Unix));
    assert!(looks_for_conflicts(Platform::MacOs));
    let e = Endpoint::new(path(r"\\.\pipe\x"), Platform::Windows, OnConflict::Error, true).unwrap();
    assert!(!e.removes_existing());
    let e = Endpoint::new(path(r"\\.\pipe\x"), Platform::Windows, OnConflict::Overwrite, true)
        .unwrap();
    assert!(!e.removes_existing());
}

#[test]
fn conflict_actions() {
    let u = Platform::Unix;
    assert_eq!(conflict_action(u, OnConflict::Error, true), ConflictAction::Refuse);
    assert_eq!(conflict_action(u, OnConflict::Error, false), ConflictAction::Keep);
    assert_eq!(conflict_action(u, OnConflict::Overwrite, true), ConflictAction::RemoveExisting);
    assert_eq!(conflict_action(u, OnConflict::Overwrite, false), ConflictAction::Keep);
    assert_eq!(conflict_action(u, OnConflict::Ignore, true), ConflictAction::Keep);
    assert_eq!(conflict_action(u, OnConflict::Ignore, false), ConflictAction::Keep);
    assert_eq!(
        conflict_action(Platform::Windows, OnConflict::Error, true),
        ConflictAction::Keep
    );
}

#[test]
fn new_endpoint_has_default_permissions() {
    let e = Endpoint::new(path("/tmp/p.sock"), Platform::Unix, OnConflict::Overwrite, false).unwrap();
    assert_eq!(e.current_security_attributes().mode(), Some(0o600));
    assert_eq!(e.incoming_permissions(), Ok(Some(0o600)));
}

#[test]
fn security_attributes_replace_permissions() {
    let e = Endpoint::new(path("/tmp/p.sock"), Platform::Unix, OnConflict::Overwrite, false)
        .unwrap()
        .security_attributes(SecurityAttributes::empty().set_mode(0o777).unwrap());
    assert_eq!(e.incoming_permissions(), Ok(Some(0o777)));
    assert_eq!(e.path(), b"/tmp/p.sock");
    let e = e.security_attributes(SecurityAttributes::allow_everyone_create().unwrap());
    assert_eq!(e.incoming_permissions(), Ok(None));
}

#[test]
fn pipe_listener_options_first_instance_only_once() {
    let mut e =
        Endpoint::new(path(r"\\.\pipe\x"), Platform::Windows, OnConflict::Ignore, false).unwrap();
    let first = e.pipe_listener_options();
    assert!(first.first_pipe_instance);
    assert!(first.reject_remote_clients);
    assert!(first.access_inbound && first.access_outbound);
    assert_eq!(first.in_buffer_size, 65536);
    assert_eq!(first.out_buffer_size, PIPE_BUFFER_SIZE);
    e.mark_listener_created();
    assert!(!e.pipe_listener_options().first_pipe_instance);
    e.mark_listener_created();
    assert!(!e.pipe_listener_options().first_pipe_instance);
}

#[test]
fn connect_steps() {
    assert_eq!(pipe_connect_step(PipeOpenOutcome::Opened, 0), ConnectStep::Connected);
    assert_eq!(pipe_connect_step(PipeOpenOutcome::Opened, 99_999), ConnectStep::Connected);
    assert_eq!(pipe_connect_step(PipeOpenOutcome::Busy, 0), ConnectStep::Retry);
    assert_eq!(pipe_connect_step(PipeOpenOutcome::Busy, 4_999), ConnectStep::Retry);
    assert_eq!(pipe_connect_step(PipeOpenOutcome::Busy, 5_000), ConnectStep::GiveUp);
    assert_eq!(
        pipe_connect_step(PipeOpenOutcome::Busy, PIPE_AVAILABILITY_TIMEOUT_MS + 1),
        ConnectStep::GiveUp
    );
    assert_eq!(pipe_connect_step(PipeOpenOutcome::Failed, 0), ConnectStep::GiveUp);
}
