use tipsy::{
    join_path, pipe_path, socket_dir_candidate, IntoIpcPath, PathEnv, Platform, ServerId,
};

fn unix_env(runtime_dir: Option<&str>) -> PathEnv {
    PathEnv::new(
        Platform::Unix,
        runtime_dir.map(|d| d.as_bytes().to_vec()),
        true,
        b"/tmp".to_vec(),
    )
}

fn text(bytes: &[u8]) -> String {
    String::from_utf8_lossy(bytes).into_owned()
}

#[test]
fn set_server_id_directory() {
    let path = ServerId::new("test")
        .parent_folder("/tmp")
        .into_ipc_path(&unix_env(None));
    assert_eq!("/tmp/test.sock", String::from_utf8_lossy(path.path()));
}

#[test]
fn parent_folder_needs_directory_creation() {
    let path = ServerId::new("test")
        .parent_folder("/tmp")
        .into_ipc_path(&unix_env(Some("/run/user/1000")));
    assert!(path.creates_parent_dir());
    assert_eq!(text(path.path()), "/tmp/test.sock");
}

#[test]
fn socket_in_runtime_dir() {
    let path = ServerId::new("my-server").into_ipc_path(&unix_env(Some("/run/user/1000")));
    assert_eq!(text(path.path()), "/run/user/1000/my-server.sock");
}

#[test]
fn socket_in_temp_dir_without_runtime_dir() {
    let path = ServerId::new("my-server").into_ipc_path(&unix_env(None));
    assert_eq!(text(path.path()), "/tmp/my-server.sock");
}

#[test]
fn macos_uses_its_directory_when_it_exists() {
    let dir = b"/Users/me/Library/Caches/TemporaryItems".to_vec();
    let env = PathEnv::new(Platform::MacOs, Some(dir.clone()), true, b"/tmp".to_vec());
    let path = ServerId::new("srv").into_ipc_path(&env);
    assert_eq!(text(path.path()), "/Users/me/Library/Caches/TemporaryItems/srv.sock");
    let env = PathEnv::new(Platform::MacOs, Some(dir), false, b"/tmp".to_vec());
    let path = ServerId::new("srv").into_ipc_path(&env);
    assert_eq!(text(path.path()), "/tmp/srv.sock");
}

#[test]
fn unix_uses_runtime_dir_without_looking() {
    let env = PathEnv::new(Platform::Unix, Some(b"/run/user/5".to_vec()), false, b"/tmp".to_vec());
    let path = ServerId::new("srv").into_ipc_path(&env);
    assert_eq!(text(path.path()), "/run/user/5/srv.sock");
}

#[test]
fn non_utf8_directories_are_kept() {
    let env = PathEnv::new(Platform::Unix, Some(b"/run/\xff\xfe".to_vec()), true, b"/tmp".to_vec());
    let path = ServerId::new("s").into_ipc_path(&env);
    assert_eq!(path.path(), b"/run/\xff\xfe/s.sock");
    let id = ServerId::new("t");
    assert_eq!(id.socket_path_in(None, b"/tmp/\x80"), b"/tmp/\x80/t.sock".to_vec());
}

#[test]
fn parent_folder_wins_over_runtime_dir() {
    let id = ServerId::new("a").parent_folder("/srv/ipc");
    assert_eq!(id.socket_path_in(Some(b"/run/user/1000"), b"/tmp"), b"/srv/ipc/a.sock".to_vec());
}

#[test]
fn nested_id_keeps_its_directories() {
    let id = ServerId::new("test/test1-7");
    assert_eq!(id.socket_path_in(None, b"/tmp"), b"/tmp/test/test1-7.sock".to_vec());
}

#[test]
fn trailing_separator_is_not_doubled() {
    let id = ServerId::new("test");
    assert_eq!(id.socket_path_in(None, b"/tmp/"), b"/tmp/test.sock".to_vec());
}

#[test]
fn absolute_id_replaces_directory() {
    let id = ServerId::new("/abs/name");
    assert_eq!(id.socket_path_in(Some(b"/run/user/1000"), b"/tmp"), b"/abs/name.sock".to_vec());
}

#[test]
fn candidate_directories() {
    assert_eq!(socket_dir_candidate(Platform::Windows), None);
    if let Some(d) = socket_dir_candidate(Platform::Unix) {
        assert_eq!(d[0], b'/');
    }
    if let Some(d) = socket_dir_candidate(Platform::MacOs) {
        assert!(d.ends_with(b"/Library/Caches/TemporaryItems"));
    }
}

#[test]
fn windows_pipe_path() {
    let env = PathEnv::new(Platform::Windows, Some(b"/ignored".to_vec()), true, b"/tmp".to_vec());
    let path = ServerId::new("my-server").into_ipc_path(&env);
    assert_eq!(text(path.path()), r"\\.\pipe\my-server");
    assert!(!path.creates_parent_dir());
}

#[test]
fn windows_pipe_path_of_nested_id() {
    let id = ServerId::new("test/test1");
    assert_eq!(id.pipe_path(), r"\\.\pipe\test\test1");
    assert_eq!(pipe_path("a/b/c"), r"\\.\pipe\a\b\c");
}

#[test]
fn windows_ignores_parent_folder() {
    let env = PathEnv::new(Platform::Windows, None, false, b"/tmp".to_vec());
    let path = ServerId::new("x").parent_folder("/tmp").into_ipc_path(&env);
    assert_eq!(path.into_path(), br"\\.\pipe\x".to_vec());
}

#[test]
fn plain_path_is_used_as_given() {
    let path = String::from("/some/where.sock").into_ipc_path(&unix_env(None));
    assert_eq!(path.path(), b"/some/where.sock");
    assert!(!path.creates_parent_dir());
    let path = b"/raw/\xff".to_vec().into_ipc_path(&unix_env(None));
    assert_eq!(path.path(), b"/raw/\xff");
}

#[test]
fn trait_call_on_server_id() {
    let path = IntoIpcPath::into_ipc_path(ServerId::new("t").parent_folder("/d"), &unix_env(None));
    assert_eq!(path.path(), b"/d/t.sock");
}

#[test]
fn equal_ids_give_equal_paths() {
    let env = unix_env(Some("/run/user/1"));
    let a = ServerId::new("my-server").into_ipc_path(&env);
    let b = ServerId::new("my-server").into_ipc_path(&env);
    assert_eq!(a.path(), b.path());
}

#[test]
fn join_path_cases() {
    assert_eq!(join_path(b"/a", b"b"), b"/a/b".to_vec());
    assert_eq!(join_path(b"/a/", b"b"), b"/a/b".to_vec());
    assert_eq!(join_path(b"", b"b"), b"b".to_vec());
    assert_eq!(join_path(b"/a", b"/b"), b"/b".to_vec());
    assert_eq!(join_path(b"/", b"b"), b"/b".to_vec());
    assert_eq!(join_path(b"a", b""), b"a/".to_vec());
}

#[test]
fn server_id_accessors() {
    let id = ServerId::new("abc");
    assert_eq!(id.id(), "abc");
    let copy = id.clone();
    assert_eq!(copy, id);
}

#[test]
fn mac_socket_dir_under_home() {
    assert_eq!(
        tipsy::mac_socket_dir(Some(b"/Users/me".to_vec())),
        Some(b"/Users/me/Library/Caches/TemporaryItems".to_vec())
    );
    assert_eq!(
        tipsy::mac_socket_dir(Some(b"/Users/me/".to_vec())),
        Some(b"/Users/me/Library/Caches/TemporaryItems".to_vec())
    );
    assert_eq!(tipsy::mac_socket_dir(None), None);
}
