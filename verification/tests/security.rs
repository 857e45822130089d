use tipsy::{PermissionsError, SecurityAttributes};

#[test]
fn empty_is_owner_only() {
    let attrs = SecurityAttributes::empty();
    assert_eq!(attrs.mode(), Some(0o600));
    assert!(!attrs.allows_everyone());
}

#[test]
fn allow_everyone_connect_opens_socket_to_all() {
    let attrs = SecurityAttributes::empty().allow_everyone_connect().unwrap();
    assert_eq!(attrs.mode(), Some(0o666));
    assert!(attrs.allows_everyone());
}

#[test]
fn set_mode_sets_custom_mode() {
    let attrs = SecurityAttributes::empty().set_mode(0o777).unwrap();
    assert_eq!(attrs.mode(), Some(0o777));
    assert!(!attrs.allows_everyone());
    let attrs = attrs.set_mode(0o640).unwrap();
    assert_eq!(attrs.mode(), Some(0o640));
}

#[test]
fn set_mode_keeps_pipe_access() {
    let attrs = SecurityAttributes::allow_everyone_create()
        .unwrap()
        .set_mode(0o700)
        .unwrap();
    assert_eq!(attrs.mode(), Some(0o700));
    assert!(attrs.allows_everyone());
}

#[test]
fn allow_everyone_create_leaves_mode_alone() {
    let attrs = SecurityAttributes::allow_everyone_create().unwrap();
    assert_eq!(attrs.mode(), None);
    assert!(attrs.allows_everyone());
    assert_eq!(attrs.permissions_to_apply(b"/tmp/a\0b.sock"), Ok(None));
}

#[test]
fn permissions_for_bound_socket() {
    let attrs = SecurityAttributes::empty();
    assert_eq!(attrs.permissions_to_apply(b"/tmp/a.sock"), Ok(Some(0o600)));
}

#[test]
fn nul_in_path_is_refused() {
    let attrs = SecurityAttributes::empty();
    assert_eq!(
        attrs.permissions_to_apply(b"/tmp/a\0.sock"),
        Err(PermissionsError::NulInPath)
    );
}

#[test]
fn non_utf8_path_gets_its_mode() {
    let attrs = SecurityAttributes::empty().set_mode(0o640).unwrap();
    assert_eq!(attrs.permissions_to_apply(b"/tmp/\xff.sock"), Ok(Some(0o640)));
}
