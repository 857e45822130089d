//! Server ids and the IPC paths derived from them.
//!
//! On Unix a server id names the socket file `{id}.sock`. The file is placed in the
//! id's parent folder when it has one; else in the platform's socket directory when
//! there is one (the user's runtime directory, `$XDG_RUNTIME_DIR`, on Linux and the
//! BSDs; `$HOME/Library/Caches/TemporaryItems` on macOS, when that directory exists);
//! else in the system's temporary directory. On Windows it names the pipe
//! `\\.\pipe\{id}`.

use vstd::prelude::*;
use vstd::string::*;
use vstd::utf8::encode_utf8;

use crate::path::{join_path, joined, lemma_joined_ends_with_name, pipe_name, pipe_path, SEPARATOR};

verus! {

/// The platform an IPC path is derived for.
#[derive(Clone, Copy, Debug, PartialEq, Eq, Structural)]
pub enum Platform {
    /// Unix-like systems other than macOS: Unix domain sockets, with the user's
    /// runtime directory as the default socket directory.
    Unix,
    /// macOS: Unix domain sockets, with `$HOME/Library/Caches/TemporaryItems` as the
    /// default socket directory.
    MacOs,
    /// Windows named pipes.
    Windows,
}

/// The bytes of an optional byte slice, if there is one.
pub open spec fn opt_bytes(o: Option<&[u8]>) -> Option<Seq<u8>> {
    match o {
        Some(s) => Some(s@),
        None => None,
    }
}

/// The bytes of an optional byte vector, if there is one.
pub open spec fn opt_vec_bytes(o: Option<Vec<u8>>) -> Option<Seq<u8>> {
    match o {
        Some(s) => Some(s@),
        None => None,
    }
}

/// The bytes `.sock`.
pub open spec fn sock_suffix() -> Seq<u8> {
    seq![46u8, 115u8, 111u8, 99u8, 107u8]
}

/// The socket file that a server id names: `{id}.sock`, in UTF-8.
pub open spec fn socket_file_name(id: Seq<char>) -> Seq<u8> {
    encode_utf8(id) + sock_suffix()
}

/// The directory that holds the socket: the parent folder if one was given, else
/// the platform's socket directory if there is one, else the temporary directory.
pub open spec fn socket_dir(
    parent_folder: Option<Seq<u8>>,
    platform_dir: Option<Seq<u8>>,
    temp_dir: Seq<u8>,
) -> Seq<u8> {
    match parent_folder {
        Some(p) => p,
        None => match platform_dir {
            Some(d) => d,
            None => temp_dir,
        },
    }
}

/// The Unix socket path of a server id.
pub open spec fn socket_path(
    id: Seq<char>,
    parent_folder: Option<Seq<u8>>,
    platform_dir: Option<Seq<u8>>,
    temp_dir: Seq<u8>,
) -> Seq<u8> {
    joined(socket_dir(parent_folder, platform_dir, temp_dir), socket_file_name(id))
}

/// What may come back as the user's runtime directory: nothing, or an absolute path.
pub open spec fn runtime_dir_ok(runtime_dir: Option<Seq<u8>>) -> bool {
    runtime_dir matches Some(d) ==> d.len() > 0 && d[0] == SEPARATOR
}

/// The user's runtime directory, by `dirs::runtime_dir`, as the bytes of the path.
/// On Linux and the BSDs that function reads `XDG_RUNTIME_DIR` from the environment
/// and keeps it only when it is an absolute path; on macOS and Windows it always gives
/// `None`. The contract claims only that a directory handed back starts with `/`:
/// which directory it is depends on the environment and is left unsaid.
#[verifier::external_body]
fn runtime_dir() -> (r: Option<Vec<u8>>)
    ensures
        runtime_dir_ok(opt_vec_bytes(r)),
{
    dirs::runtime_dir().map(|d| d.into_os_string().into_encoded_bytes())
}

/// The user's home directory, by `dirs::home_dir`, as the bytes of the path. That
/// function reads `HOME` from the environment, or the user database where `HOME` is
/// unset or empty; what comes back depends on the environment, and nothing is
/// claimed of it.
#[verifier::external_body]
fn home_dir() -> (r: Option<Vec<u8>>) {
    dirs::home_dir().map(|d| d.into_os_string().into_encoded_bytes())
}

/// The directory under the home directory where macOS keeps sockets:
/// `Library/Caches/TemporaryItems`.
pub open spec fn mac_socket_subdir() -> Seq<char> {
    seq![
        'L', 'i', 'b', 'r', 'a', 'r', 'y', '/', 'C', 'a', 'c', 'h', 'e', 's', '/',
        'T', 'e', 'm', 'p', 'o', 'r', 'a', 'r', 'y', 'I', 't', 'e', 'm', 's',
    ]
}

/// The macOS socket directory under the home directory `home`, if there is a home:
/// `{home}/Library/Caches/TemporaryItems`.
pub open spec fn mac_socket_dir_of(home: Option<Seq<u8>>) -> Option<Seq<u8>> {
    match home {
        Some(h) => Some(joined(h, encode_utf8(mac_socket_subdir()))),
        None => None,
    }
}

/// The macOS socket directory under the home directory `home`, if there is a home.
pub fn mac_socket_dir(home: Option<Vec<u8>>) -> (r: Option<Vec<u8>>)
    ensures
        opt_vec_bytes(r) == mac_socket_dir_of(opt_vec_bytes(home)),
{
    match home {
        Some(home) => {
            let sub = "Library/Caches/TemporaryItems";
            proof {
                reveal_strlit("Library/Caches/TemporaryItems");
            }
            assert(sub@ =~= mac_socket_subdir());
            let sub_bytes = sub.as_bytes_vec();
            Some(join_path(home.as_slice(), sub_bytes.as_slice()))
        },
        None => None,
    }
}

/// The platform's socket directory, before it is known whether it exists, given
/// what the environment gave as the runtime directory and as the home directory:
/// the runtime directory itself on Unix, `Library/Caches/TemporaryItems` under the
/// home directory on macOS, none on Windows.
pub open spec fn socket_dir_of(
    platform: Platform,
    runtime_dir: Option<Seq<u8>>,
    home_dir: Option<Seq<u8>>,
) -> Option<Seq<u8>> {
    match platform {
        Platform::Unix => runtime_dir,
        Platform::MacOs => mac_socket_dir_of(home_dir),
        Platform::Windows => None,
    }
}

/// The platform's socket directory, before it is known whether it exists, given the
/// runtime directory and the home directory that the environment gave.
pub fn socket_dir_from(
    platform: Platform,
    runtime_dir: Option<Vec<u8>>,
    home_dir: Option<Vec<u8>>,
) -> (r: Option<Vec<u8>>)
    ensures
        opt_vec_bytes(r) == socket_dir_of(platform, opt_vec_bytes(runtime_dir), opt_vec_bytes(home_dir)),
{
    match platform {
        Platform::Unix => runtime_dir,
        Platform::MacOs => mac_socket_dir(home_dir),
        Platform::Windows => None,
    }
}

/// The platform's socket directory, before it is known whether it exists: the
/// user's runtime directory on Unix, `Library/Caches/TemporaryItems` under the home
/// directory on macOS, none on Windows. The directories come from the environment,
/// which is read only for the platform that needs it.
pub fn socket_dir_candidate(platform: Platform) -> (r: Option<Vec<u8>>)
    ensures
        platform == Platform::Unix ==> runtime_dir_ok(opt_vec_bytes(r)),
        platform == Platform::MacOs ==> exists|home: Option<Seq<u8>>|
            #[trigger] mac_socket_dir_of(home) == opt_vec_bytes(r),
        platform == Platform::Windows ==> r is None,
        exists|runtime: Option<Seq<u8>>, home: Option<Seq<u8>>|
            runtime_dir_ok(runtime) && #[trigger] socket_dir_of(platform, runtime, home)
                == opt_vec_bytes(r),
{
    match platform {
        Platform::Unix => {
            let runtime = runtime_dir();
            let dir = socket_dir_from(platform, runtime, None);
            assert(socket_dir_of(platform, opt_vec_bytes(runtime), None) == opt_vec_bytes(dir));
            dir
        },
        Platform::MacOs => {
            let home = home_dir();
            let dir = socket_dir_from(platform, None, home);
            assert(mac_socket_dir_of(opt_vec_bytes(home)) == opt_vec_bytes(dir));
            assert(socket_dir_of(platform, None, opt_vec_bytes(home)) == opt_vec_bytes(dir));
            dir
        },
        Platform::Windows => {
            let dir = socket_dir_from(platform, None, None);
            assert(socket_dir_of(platform, None, None) == opt_vec_bytes(dir));
            dir
        },
    }
}

/// The socket directory a platform uses, given its candidate and whether the
/// candidate exists: macOS falls back when the directory does not exist, the other
/// Unix systems use the runtime directory as it is, Windows has none.
pub open spec fn usable_socket_dir(
    platform: Platform,
    candidate: Option<Seq<u8>>,
    candidate_exists: bool,
) -> Option<Seq<u8>> {
    match platform {
        Platform::Unix => candidate,
        Platform::MacOs => if candidate_exists {
            candidate
        } else {
            None
        },
        Platform::Windows => None,
    }
}

/// The abstract value of a [`PathEnv`].
pub struct PathEnvView {
    /// The platform.
    pub platform: Platform,
    /// The platform's socket directory, if it has a usable one.
    pub socket_dir: Option<Seq<u8>>,
    /// The system's temporary directory.
    pub temp_dir: Seq<u8>,
}

/// The environment an IPC path is derived in: the platform, its socket directory
/// and the temporary directory.
pub struct PathEnv {
    platform: Platform,
    socket_dir: Option<Vec<u8>>,
    temp_dir: Vec<u8>,
}

impl View for PathEnv {
    type V = PathEnvView;

    closed spec fn view(&self) -> PathEnvView {
        PathEnvView {
            platform: self.platform,
            socket_dir: opt_vec_bytes(self.socket_dir),
            temp_dir: self.temp_dir@,
        }
    }
}

impl PathEnv {
    /// The environment of `platform`, given the candidate socket directory (from
    /// [`socket_dir_candidate`]), whether that directory exists, and the temporary
    /// directory.
    pub fn new(
        platform: Platform,
        candidate: Option<Vec<u8>>,
        candidate_exists: bool,
        temp_dir: Vec<u8>,
    ) -> (r: PathEnv)
        ensures
            r@ == (PathEnvView {
                platform,
                socket_dir: usable_socket_dir(platform, opt_vec_bytes(candidate), candidate_exists),
                temp_dir: temp_dir@,
            }),
    {
        let socket_dir = match platform {
            Platform::Unix => candidate,
            Platform::MacOs => if candidate_exists {
                candidate
            } else {
                None
            },
            Platform::Windows => None,
        };
        PathEnv { platform, socket_dir, temp_dir }
    }

    /// The platform.
    pub fn platform(&self) -> (r: Platform)
        ensures
            r == self@.platform,
    {
        self.platform
    }
}

/// The abstract value of a [`ServerId`].
pub struct ServerIdView {
    /// The id itself.
    pub id: Seq<char>,
    /// The folder that holds the socket, when one was chosen.
    pub parent_folder: Option<Seq<u8>>,
}

/// Cross-platform name of an IPC server.
///
/// Windows: `\\.\pipe\{serverId}`
///
/// Unix: `{parent_folder}/{serverId}.sock`, where the parent folder defaults to
/// `$XDG_RUNTIME_DIR` (Linux and the BSDs) or
/// `$HOME/Library/Caches/TemporaryItems` (macOS, when it exists), and then to the
/// temporary directory.
#[derive(Clone, Debug, PartialEq, Eq)]
pub struct ServerId {
    id: String,
    parent_folder: Option<Vec<u8>>,
}

impl View for ServerId {
    type V = ServerIdView;

    closed spec fn view(&self) -> ServerIdView {
        ServerIdView { id: self.id@, parent_folder: opt_vec_bytes(self.parent_folder) }
    }
}

/// An IPC path, as bytes, with whether the directory that holds it has to exist
/// before it is used (and so has to be created).
pub struct IpcPath {
    path: Vec<u8>,
    create_parent_dir: bool,
}

/// The abstract value of an [`IpcPath`].
pub struct IpcPathView {
    /// The bytes of the path.
    pub path: Seq<u8>,
    /// Whether the directory holding the path is to be created before use.
    pub create_parent_dir: bool,
}

impl View for IpcPath {
    type V = IpcPathView;

    closed spec fn view(&self) -> IpcPathView {
        IpcPathView { path: self.path@, create_parent_dir: self.create_parent_dir }
    }
}

impl IpcPath {
    /// The bytes of the path.
    pub fn path(&self) -> (r: &[u8])
        ensures
            r@ == self@.path,
    {
        self.path.as_slice()
    }

    /// Whether the directory that holds the path has to be created before use.
    pub fn creates_parent_dir(&self) -> (r: bool)
        ensures
            r == self@.create_parent_dir,
    {
        self.create_parent_dir
    }

    /// The bytes of the path, by value.
    pub fn into_path(self) -> (r: Vec<u8>)
        ensures
            r@ == self@.path,
    {
        self.path
    }
}

/// The IPC path that a server id names in the environment `env`.
pub open spec fn ipc_path_of(id: ServerIdView, env: PathEnvView) -> IpcPathView {
    match env.platform {
        Platform::Windows => IpcPathView {
            path: encode_utf8(pipe_name(id.id)),
            create_parent_dir: false,
        },
        _ => IpcPathView {
            path: socket_path(id.id, id.parent_folder, env.socket_dir, env.temp_dir),
            create_parent_dir: true,
        },
    }
}

impl ServerId {
    /// A server id with no parent folder.
    pub fn new(id: &str) -> (r: ServerId)
        ensures
            r@ == (ServerIdView { id: id@, parent_folder: None }),
    {
        ServerId { id: String::from_str(id), parent_folder: None }
    }

    /// The same id, with its socket placed in `folder` (Unix only).
    pub fn parent_folder(self, folder: &str) -> (r: ServerId)
        ensures
            r@ == (ServerIdView { id: self@.id, parent_folder: Some(encode_utf8(folder@)) }),
    {
        ServerId { id: self.id, parent_folder: Some(folder.as_bytes_vec()) }
    }

    /// The id.
    pub fn id(&self) -> (r: &str)
        ensures
            r@ == self@.id,
    {
        self.id.as_str()
    }

    /// The Unix socket path of this id, given the platform's socket directory (if
    /// any) and the temporary directory.
    pub fn socket_path_in(&self, platform_dir: Option<&[u8]>, temp_dir: &[u8]) -> (r: Vec<u8>)
        ensures
            r@ == socket_path(self@.id, self@.parent_folder, opt_bytes(platform_dir), temp_dir@),
    {
        let mut file_name = self.id.as_str().as_bytes_vec();
        let ghost id_bytes = file_name@;
        file_name.push(46u8);
        file_name.push(115u8);
        file_name.push(111u8);
        file_name.push(99u8);
        file_name.push(107u8);
        assert(file_name@ =~= id_bytes + sock_suffix());
        let dir: &[u8] = match &self.parent_folder {
            Some(p) => p.as_slice(),
            None => match platform_dir {
                Some(d) => d,
                None => temp_dir,
            },
        };
        join_path(dir, file_name.as_slice())
    }

    /// The Windows pipe path of this id.
    pub fn pipe_path(&self) -> (r: String)
        ensures
            r@ == pipe_name(self@.id),
    {
        pipe_path(self.id.as_str())
    }

    /// Converts the id into an IPC path in the environment `env`. On Unix and macOS
    /// this is the socket path, whose directory is to be created before use; on
    /// Windows it is the pipe path, in UTF-8.
    pub fn into_ipc_path(self, env: &PathEnv) -> (r: IpcPath)
        ensures
            r@ == ipc_path_of(self@, env@),
    {
        match env.platform {
            Platform::Windows => {
                let pipe = self.pipe_path();
                IpcPath { path: pipe.as_str().as_bytes_vec(), create_parent_dir: false }
            },
            _ => {
                let platform_dir: Option<&[u8]> = match &env.socket_dir {
                    Some(d) => Some(d.as_slice()),
                    None => None,
                };
                let path = self.socket_path_in(platform_dir, env.temp_dir.as_slice());
                IpcPath { path, create_parent_dir: true }
            },
        }
    }
}

/// Something that names an IPC path.
pub trait IntoIpcPath: Sized {
    /// Converts the object into an IPC path in the environment `env`.
    fn into_ipc_path(self, env: &PathEnv) -> IpcPath;
}

impl IntoIpcPath for Vec<u8> {
    /// A path given outright is used as it is, on every platform.
    fn into_ipc_path(self, _env: &PathEnv) -> (r: IpcPath)
        ensures
            r@ == (IpcPathView { path: self@, create_parent_dir: false }),
    {
        IpcPath { path: self, create_parent_dir: false }
    }
}

impl IntoIpcPath for String {
    /// A path given outright is used as it is (in UTF-8), on every platform.
    fn into_ipc_path(self, _env: &PathEnv) -> (r: IpcPath)
        ensures
            r@ == (IpcPathView { path: encode_utf8(self@), create_parent_dir: false }),
    {
        IpcPath { path: self.as_str().as_bytes_vec(), create_parent_dir: false }
    }
}

impl IntoIpcPath for ServerId {
    fn into_ipc_path(self, env: &PathEnv) -> (r: IpcPath)
        ensures
            r@ == ipc_path_of(self@, env@),
    {
        ServerId::into_ipc_path(self, env)
    }
}

/// The socket is always named by the id: whichever directory is chosen, the path
/// ends with `{id}.sock`.
pub proof fn lemma_socket_path_ends_with_file_name(
    id: Seq<char>,
    parent_folder: Option<Seq<u8>>,
    platform_dir: Option<Seq<u8>>,
    temp_dir: Seq<u8>,
)
    ensures
        ({
            let p = socket_path(id, parent_folder, platform_dir, temp_dir);
            let f = socket_file_name(id);
            p.len() >= f.len() && p.subrange(p.len() - f.len(), p.len() as int) == f
        }),
{
    lemma_joined_ends_with_name(socket_dir(parent_folder, platform_dir, temp_dir), socket_file_name(id));
}

/// A parent folder decides the socket path on its own: neither the platform's
/// socket directory nor the temporary directory makes any difference then.
pub proof fn lemma_parent_folder_decides(
    id: Seq<char>,
    parent_folder: Seq<u8>,
    platform_dir1: Option<Seq<u8>>,
    platform_dir2: Option<Seq<u8>>,
    temp_dir1: Seq<u8>,
    temp_dir2: Seq<u8>,
)
    ensures
        socket_path(id, Some(parent_folder), platform_dir1, temp_dir1) == socket_path(
            id,
            Some(parent_folder),
            platform_dir2,
            temp_dir2,
        ),
        socket_path(id, Some(parent_folder), platform_dir1, temp_dir1) == joined(
            parent_folder,
            socket_file_name(id),
        ),
{
}

/// Without a parent folder the socket lives in the platform's socket directory when
/// there is one (`$XDG_RUNTIME_DIR/{id}.sock` on Linux), and in the temporary
/// directory otherwise (always so on macOS when its directory does not exist).
pub proof fn lemma_default_socket_dir(
    id: Seq<char>,
    platform: Platform,
    candidate: Option<Seq<u8>>,
    candidate_exists: bool,
    temp_dir: Seq<u8>,
)
    requires
        platform != Platform::Windows,
    ensures
        ({
            let dir = usable_socket_dir(platform, candidate, candidate_exists);
            &&& (dir matches Some(d) ==> socket_path(id, None, dir, temp_dir) == joined(
                d,
                socket_file_name(id),
            ))
            &&& (dir is None ==> socket_path(id, None, dir, temp_dir) == joined(
                temp_dir,
                socket_file_name(id),
            ))
        }),
        platform == Platform::Unix ==> usable_socket_dir(platform, candidate, candidate_exists)
            == candidate,
        platform == Platform::MacOs ==> (usable_socket_dir(platform, candidate, candidate_exists)
            == if candidate_exists {
            candidate
        } else {
            None
        }),
{
}

/// For a relative id and a directory without a trailing separator, the socket path
/// is `{dir}/{id}.sock`.
pub proof fn lemma_socket_path_in_dir(
    id: Seq<char>,
    parent_folder: Option<Seq<u8>>,
    platform_dir: Option<Seq<u8>>,
    temp_dir: Seq<u8>,
)
    requires
        !(encode_utf8(id).len() > 0 && encode_utf8(id)[0] == SEPARATOR),
        socket_dir(parent_folder, platform_dir, temp_dir).len() > 0,
        socket_dir(parent_folder, platform_dir, temp_dir).last() != SEPARATOR,
    ensures
        socket_path(id, parent_folder, platform_dir, temp_dir) == socket_dir(
            parent_folder,
            platform_dir,
            temp_dir,
        ) + seq![SEPARATOR] + encode_utf8(id) + sock_suffix(),
{
    let d = socket_dir(parent_folder, platform_dir, temp_dir);
    let f = socket_file_name(id);
    if encode_utf8(id).len() == 0 {
        assert(f[0] == 46u8);
    } else {
        assert(f[0] == encode_utf8(id)[0]);
    }
    assert(d + seq![SEPARATOR] + f =~= d + seq![SEPARATOR] + encode_utf8(id) + sock_suffix());
}

/// Equal server ids in the same environment name the same IPC path: a server and a
/// client that are given equal ids meet at one path.
pub proof fn lemma_equal_ids_same_path(a: ServerIdView, b: ServerIdView, env: PathEnvView)
    requires
        a == b,
    ensures
        ipc_path_of(a, env) == ipc_path_of(b, env),
{
}

/// On Unix the socket directory is exactly the runtime directory the environment
/// gave, byte for byte; on macOS it is `Library/Caches/TemporaryItems` under the
/// home directory when there is a home, and nothing otherwise; Windows has none.
pub proof fn lemma_socket_dir_from_environment(
    platform: Platform,
    runtime_dir: Option<Seq<u8>>,
    home_dir: Option<Seq<u8>>,
)
    ensures
        platform == Platform::Unix ==> socket_dir_of(platform, runtime_dir, home_dir)
            == runtime_dir,
        platform == Platform::MacOs ==> (home_dir is None <==> socket_dir_of(
            platform,
            runtime_dir,
            home_dir,
        ) is None),
        platform == Platform::MacOs && home_dir is Some ==> socket_dir_of(
            platform,
            runtime_dir,
            home_dir,
        ) == Some(joined(home_dir->0, encode_utf8(mac_socket_subdir()))),
        platform == Platform::Windows ==> socket_dir_of(platform, runtime_dir, home_dir) is None,
{
}

/// On every platform but Windows a parent folder decides where the socket goes: an
/// id with parent folder `p` names `{p}/{id}.sock` (as a Unix path join), whatever the
/// platform's socket directory and temporary directory are, and the directory is to
/// be created before use.
pub proof fn lemma_parent_folder_on_unix_platforms(id: ServerIdView, env: PathEnvView)
    requires
        env.platform != Platform::Windows,
        id.parent_folder is Some,
    ensures
        ipc_path_of(id, env).path == joined(
            id.parent_folder->0,
            encode_utf8(id.id) + seq![46u8, 115u8, 111u8, 99u8, 107u8],
        ),
        ipc_path_of(id, env).create_parent_dir,
        forall|other: PathEnvView|
            other.platform != Platform::Windows ==> #[trigger] ipc_path_of(id, other).path
                == ipc_path_of(id, env).path,
{
}

/// On every platform but Windows, without a parent folder, the socket goes into the
/// platform's socket directory when there is one, and into the temporary directory
/// otherwise.
pub proof fn lemma_default_dir_on_unix_platforms(id: ServerIdView, env: PathEnvView)
    requires
        env.platform != Platform::Windows,
        id.parent_folder is None,
    ensures
        env.socket_dir matches Some(d) ==> ipc_path_of(id, env).path == joined(
            d,
            encode_utf8(id.id) + seq![46u8, 115u8, 111u8, 99u8, 107u8],
        ),
        env.socket_dir is None ==> ipc_path_of(id, env).path == joined(
            env.temp_dir,
            encode_utf8(id.id) + seq![46u8, 115u8, 111u8, 99u8, 107u8],
        ),
{
}

/// On Windows the IPC path of an id is the UTF-8 of `\\.\pipe\` followed by the id,
/// character for character, with every `/` turned into `\`; the parent folder and
/// the directories make no difference, and nothing is to be created.
pub proof fn lemma_windows_ipc_path(id: ServerIdView, env: PathEnvView)
    requires
        env.platform == Platform::Windows,
    ensures
        ipc_path_of(id, env).path == encode_utf8(pipe_name(id.id)),
        !ipc_path_of(id, env).create_parent_dir,
        pipe_name(id.id).len() == 9 + id.id.len(),
        pipe_name(id.id).subrange(0, 9) == seq!['\\', '\\', '.', '\\', 'p', 'i', 'p', 'e', '\\'],
        forall|i: int|
            0 <= i < id.id.len() ==> #[trigger] pipe_name(id.id)[9 + i] == if id.id[i] == '/' {
                '\\'
            } else {
                id.id[i]
            },
        !pipe_name(id.id).contains('/'),
{
    crate::path::lemma_pipe_name_chars(id.id);
    crate::path::lemma_pipe_name_shape(id.id);
}

} // verus!
