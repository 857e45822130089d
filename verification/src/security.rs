//! Permissions of a new IPC endpoint.
//!
//! On Unix they are the file mode given to the socket file once it is bound (or no
//! change at all); on Windows they say whether everyone is granted read and write
//! access to the pipe through its security descriptor.

use vstd::prelude::*;

verus! {

/// `std::io::Error`, carried opaquely in results.
#[verifier::external_type_specification]
#[verifier::external_body]
pub struct ExIoError(std::io::Error);

/// The mode a socket gets by default: read and write for its owner only.
pub const DEFAULT_MODE: u16 = 0o600;

/// The mode that lets everyone connect: read and write for owner, group and others.
pub const EVERYONE_CONNECT_MODE: u16 = 0o666;

/// The abstract value of [`SecurityAttributes`].
pub struct SecurityAttributesView {
    /// Unix: the mode the socket file is given after binding, or `None` to leave it
    /// as it was created.
    pub mode: Option<u16>,
    /// Windows: whether everyone is granted read and write access to the pipe.
    pub everyone_access: bool,
}

/// Permissions and ownership for the IPC connection.
#[derive(Clone, Copy, Debug)]
pub struct SecurityAttributes {
    mode: Option<u16>,
    everyone_access: bool,
}

impl View for SecurityAttributes {
    type V = SecurityAttributesView;

    closed spec fn view(&self) -> SecurityAttributesView {
        SecurityAttributesView { mode: self.mode, everyone_access: self.everyone_access }
    }
}

/// Why a socket's permissions could not be changed.
#[derive(Clone, Copy, Debug, PartialEq, Eq, Structural)]
pub enum PermissionsError {
    /// The socket path holds a NUL byte, so it cannot be handed to the system.
    NulInPath,
}

/// What changing the permissions of the socket at `path` amounts to: nothing when no
/// mode is set; otherwise the mode, provided that the path can be handed to the
/// system, that is holds no NUL byte.
pub open spec fn permissions_for(
    attributes: SecurityAttributesView,
    path: Seq<u8>,
) -> Result<Option<u16>, PermissionsError> {
    match attributes.mode {
        None => Ok(None),
        Some(m) => if path.contains(0u8) {
            Err(PermissionsError::NulInPath)
        } else {
            Ok(Some(m))
        },
    }
}

/// Whether `s` holds the byte `b`.
pub fn contains_byte(s: &[u8], b: u8) -> (r: bool)
    ensures
        r == s@.contains(b),
{
    let n = s.len();
    let mut i: usize = 0;
    while i < n
        invariant
            n == s@.len(),
            i <= n,
            forall|j: int| 0 <= j < i ==> s@[j] != b,
        decreases n - i,
    {
        if s[i] == b {
            return true;
        }
        i = i + 1;
    }
    false
}

impl SecurityAttributes {
    /// The abstract value of the default security attributes.
    pub open spec fn empty_view() -> SecurityAttributesView {
        SecurityAttributesView { mode: Some(DEFAULT_MODE), everyone_access: false }
    }

    /// New default security attributes: the socket is readable and writable by its
    /// owner only, and the pipe keeps the default descriptor.
    pub fn empty() -> (r: Self)
        ensures
            r@ == Self::empty_view(),
    {
        SecurityAttributes { mode: Some(DEFAULT_MODE), everyone_access: false }
    }

    /// Security attributes that allow everyone to connect.
    pub fn allow_everyone_connect(self) -> (r: Result<Self, std::io::Error>)
        ensures
            r matches Ok(s) && s@ == (SecurityAttributesView {
                mode: Some(EVERYONE_CONNECT_MODE),
                everyone_access: true,
            }),
    {
        Ok(SecurityAttributes { mode: Some(EVERYONE_CONNECT_MODE), everyone_access: true })
    }

    /// Sets a custom permission on the socket (Unix); the pipe is left as it is.
    pub fn set_mode(self, mode: u16) -> (r: Result<Self, std::io::Error>)
        ensures
            r matches Ok(s) && s@ == (SecurityAttributesView {
                mode: Some(mode),
                everyone_access: self@.everyone_access,
            }),
    {
        Ok(SecurityAttributes { mode: Some(mode), everyone_access: self.everyone_access })
    }

    /// Security attributes that allow everyone to create: the socket keeps the mode
    /// it was created with, and everyone may read and write the pipe.
    pub fn allow_everyone_create() -> (r: Result<Self, std::io::Error>)
        ensures
            r matches Ok(s) && s@ == (SecurityAttributesView {
                mode: None,
                everyone_access: true,
            }),
    {
        Ok(SecurityAttributes { mode: None, everyone_access: true })
    }

    /// The mode given to the socket after binding, if any.
    pub fn mode(&self) -> (r: Option<u16>)
        ensures
            r == self@.mode,
    {
        self.mode
    }

    /// Whether everyone is granted read and write access to the pipe.
    pub fn allows_everyone(&self) -> (r: bool)
        ensures
            r == self@.everyone_access,
    {
        self.everyone_access
    }

    /// The mode to give the socket file at `path` once it is bound: `Ok(None)` when it
    /// is to be left alone, an error when the path cannot be handed to the system.
    pub fn permissions_to_apply(&self, path: &[u8]) -> (r: Result<Option<u16>, PermissionsError>)
        ensures
            r == permissions_for(self@, path@),
    {
        match self.mode {
            None => Ok(None),
            Some(m) => if contains_byte(path, 0u8) {
                Err(PermissionsError::NulInPath)
            } else {
                Ok(Some(m))
            },
        }
    }
}

/// Permissions never fail for a path without NUL bytes: the mode that was set, if
/// any, is the one applied. Without a mode nothing is applied, whatever the path.
pub proof fn lemma_permissions_apply_mode(attributes: SecurityAttributesView, path: Seq<u8>)
    ensures
        !path.contains(0u8) ==> permissions_for(attributes, path) == Ok::<Option<u16>, PermissionsError>(attributes.mode),
        attributes.mode is None ==> permissions_for(attributes, path) == Ok::<Option<u16>, PermissionsError>(None),
{
}

} // verus!
