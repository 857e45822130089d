//! Cross-platform IPC endpoints: Unix domain sockets on Unix-like systems and named
//! pipes on Windows. This crate holds the endpoint rules: how an IPC path is derived
//! from a server id, what happens when the socket path already exists, which
//! permissions a new socket gets, how the pipe instances of a server are created, and
//! how a pipe client waits for a busy server.

pub mod endpoint;
pub mod path;
pub mod security;
pub mod server_id;

pub use endpoint::{conflict_action, looks_for_conflicts, ConflictAction, Endpoint, EndpointError, OnConflict};
pub use path::{join_path, pipe_path};
pub use security::{PermissionsError, SecurityAttributes};
pub use server_id::{mac_socket_dir, socket_dir_candidate, socket_dir_from, IntoIpcPath, IpcPath, PathEnv, Platform, ServerId};
