# tipsy

Cross-platform async IPC: Unix domain sockets on Unix-like systems, named pipes on
Windows.

- `src/` is the verified library. It holds the rules of an IPC endpoint, each with
  a contract proved by Verus:
  - `path.rs`: joining a file name onto a directory as a Unix `PathBuf` does (paths
    are bytes, as the system sees them), and the Windows pipe name of an id;
  - `server_id.rs`: `ServerId`, the platform's socket directory (`$XDG_RUNTIME_DIR`,
    or `$HOME/Library/Caches/TemporaryItems` on macOS), the socket path or pipe path
    an id names, and the `IntoIpcPath` trait;
  - `security.rs`: `SecurityAttributes`, the mode a bound socket gets and whether
    everyone may use a pipe;
  - `endpoint.rs`: `Endpoint`, what binding does when the socket path exists already
    (`OnConflict`, ignored on Windows), the options of each pipe instance, and when a pipe client tries
    again.
- `app/` is the Tokio transport around it: binding, accepting, connecting, changing
  file modes and building Windows security descriptors, as the library's decisions
  call for.
- `tests/` runs the library on concrete values.
