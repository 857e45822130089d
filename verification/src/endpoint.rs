//! IPC endpoints: what binding does when the socket path already exists, which
//! permissions the bound socket gets, how the pipe instances of a Windows server are
//! created, and how a Windows client waits for a busy pipe.

use vstd::prelude::*;

use crate::security::{permissions_for, PermissionsError, SecurityAttributes, SecurityAttributesView};
use crate::server_id::Platform;

verus! {

/// How to proceed when the socket path already exists.
#[derive(Clone, Copy, Debug, PartialEq, Eq, Structural)]
pub enum OnConflict {
    /// Ignore the conflicting socket and continue.
    Ignore,
    /// Throw an error when attempting to bind to the path.
    Error,
    /// Overwrite the existing socket.
    Overwrite,
}

/// What to do about the socket path before binding.
#[derive(Clone, Copy, Debug, PartialEq, Eq, Structural)]
pub enum ConflictAction {
    /// Bind without touching the path.
    Keep,
    /// Remove the existing file, then bind.
    RemoveExisting,
    /// Do not bind: the path is taken.
    Refuse,
}

/// Whether the platform looks for an existing file at an endpoint's path: Windows
/// pipes do not live in the file system, so there is nothing to look for there.
pub open spec fn checks_conflicts(platform: Platform) -> bool {
    platform != Platform::Windows
}

/// Whether an endpoint on `platform` looks for an existing file at its path.
pub fn looks_for_conflicts(platform: Platform) -> (r: bool)
    ensures
        r == checks_conflicts(platform),
{
    match platform {
        Platform::Windows => false,
        _ => true,
    }
}

/// The action that `on_conflict` calls for on `platform`, given whether the path
/// exists already. On Windows the policy is ignored and the path is kept.
pub open spec fn conflict_action_for(
    platform: Platform,
    on_conflict: OnConflict,
    path_exists: bool,
) -> ConflictAction {
    if !checks_conflicts(platform) || !path_exists {
        ConflictAction::Keep
    } else {
        match on_conflict {
            OnConflict::Ignore => ConflictAction::Keep,
            OnConflict::Error => ConflictAction::Refuse,
            OnConflict::Overwrite => ConflictAction::RemoveExisting,
        }
    }
}

/// Decides what to do about the socket path before binding.
pub fn conflict_action(platform: Platform, on_conflict: OnConflict, path_exists: bool) -> (r: ConflictAction)
    ensures
        r == conflict_action_for(platform, on_conflict, path_exists),
{
    if !looks_for_conflicts(platform) || !path_exists {
        ConflictAction::Keep
    } else {
        match on_conflict {
            OnConflict::Ignore => ConflictAction::Keep,
            OnConflict::Error => ConflictAction::Refuse,
            OnConflict::Overwrite => ConflictAction::RemoveExisting,
        }
    }
}

/// Why an endpoint could not be created.
#[derive(Debug)]
pub enum EndpointError {
    /// The path exists already and the endpoint was asked to fail in that case.
    AlreadyExists(Vec<u8>),
}

/// The abstract value of an [`Endpoint`].
pub struct EndpointView {
    /// The bytes of the IPC path.
    pub path: Seq<u8>,
    /// The permissions that the bound endpoint gets.
    pub security_attributes: SecurityAttributesView,
    /// Whether an existing file at the path is removed before binding.
    pub remove_existing: bool,
    /// Whether a pipe instance of this endpoint was created already (Windows).
    pub created_listener: bool,
}

/// IPC endpoint.
#[derive(Clone, Debug)]
pub struct Endpoint {
    path: Vec<u8>,
    security_attributes: SecurityAttributes,
    remove_existing: bool,
    created_listener: bool,
}

impl View for Endpoint {
    type V = EndpointView;

    closed spec fn view(&self) -> EndpointView {
        EndpointView {
            path: self.path@,
            security_attributes: self.security_attributes@,
            remove_existing: self.remove_existing,
            created_listener: self.created_listener,
        }
    }
}

/// The options a named-pipe server instance is created with.
#[derive(Clone, Copy, Debug, PartialEq, Eq, Structural)]
pub struct PipeListenerOptions {
    /// Whether this must be the first instance of the pipe.
    pub first_pipe_instance: bool,
    /// Whether clients on other machines are turned away.
    pub reject_remote_clients: bool,
    /// Whether the server reads from the pipe.
    pub access_inbound: bool,
    /// Whether the server writes to the pipe.
    pub access_outbound: bool,
    /// The size of the input buffer, in bytes.
    pub in_buffer_size: u32,
    /// The size of the output buffer, in bytes.
    pub out_buffer_size: u32,
}

/// The size of each buffer of a pipe instance, in bytes.
pub const PIPE_BUFFER_SIZE: u32 = 65536;

/// The options of the next pipe instance, given whether one was created already.
pub open spec fn pipe_options_for(created_listener: bool) -> PipeListenerOptions {
    PipeListenerOptions {
        first_pipe_instance: !created_listener,
        reject_remote_clients: true,
        access_inbound: true,
        access_outbound: true,
        in_buffer_size: PIPE_BUFFER_SIZE,
        out_buffer_size: PIPE_BUFFER_SIZE,
    }
}

impl Endpoint {
    /// New IPC endpoint at `path` on `platform`, given whether something exists at
    /// that path already. Outside Windows it fails exactly when the path exists and
    /// `on_conflict` is [`OnConflict::Error`], and with [`OnConflict::Overwrite`] the
    /// existing file is to be removed before binding. The endpoint starts with the
    /// default permissions.
    pub fn new(path: Vec<u8>, platform: Platform, on_conflict: OnConflict, path_exists: bool) -> (r: Result<Self, EndpointError>)
        ensures
            r is Err <==> conflict_action_for(platform, on_conflict, path_exists) == ConflictAction::Refuse,
            r matches Err(EndpointError::AlreadyExists(p)) ==> p@ == path@,
            r matches Ok(e) ==> e@ == (EndpointView {
                path: path@,
                security_attributes: SecurityAttributes::empty_view(),
                remove_existing: conflict_action_for(platform, on_conflict, path_exists)
                    == ConflictAction::RemoveExisting,
                created_listener: false,
            }),
    {
        match conflict_action(platform, on_conflict, path_exists) {
            ConflictAction::Refuse => Err(EndpointError::AlreadyExists(path)),
            ConflictAction::RemoveExisting => Ok(Endpoint {
                path,
                security_attributes: SecurityAttributes::empty(),
                remove_existing: true,
                created_listener: false,
            }),
            ConflictAction::Keep => Ok(Endpoint {
                path,
                security_attributes: SecurityAttributes::empty(),
                remove_existing: false,
                created_listener: false,
            }),
        }
    }

    /// Sets the security attributes for the connection.
    pub fn security_attributes(self, security_attributes: SecurityAttributes) -> (r: Self)
        ensures
            r@ == (EndpointView { security_attributes: security_attributes@, ..self@ }),
    {
        Endpoint { security_attributes, ..self }
    }

    /// Returns the path of the endpoint.
    pub fn path(&self) -> (r: &[u8])
        ensures
            r@ == self@.path,
    {
        self.path.as_slice()
    }

    /// The security attributes the endpoint will be bound with.
    pub fn current_security_attributes(&self) -> (r: SecurityAttributes)
        ensures
            r@ == self@.security_attributes,
    {
        self.security_attributes
    }

    /// Whether an existing file at the path has to be removed before binding.
    pub fn removes_existing(&self) -> (r: bool)
        ensures
            r == self@.remove_existing,
    {
        self.remove_existing
    }

    /// The mode to give the socket file once it is bound (Unix), if any.
    pub fn incoming_permissions(&self) -> (r: Result<Option<u16>, PermissionsError>)
        ensures
            r == permissions_for(self@.security_attributes, self@.path),
    {
        self.security_attributes.permissions_to_apply(self.path.as_slice())
    }

    /// The options of the next pipe instance of this endpoint (Windows): only the
    /// first one to be created is the first instance of the pipe.
    pub fn pipe_listener_options(&self) -> (r: PipeListenerOptions)
        ensures
            r == pipe_options_for(self@.created_listener),
    {
        PipeListenerOptions {
            first_pipe_instance: !self.created_listener,
            reject_remote_clients: true,
            access_inbound: true,
            access_outbound: true,
            in_buffer_size: PIPE_BUFFER_SIZE,
            out_buffer_size: PIPE_BUFFER_SIZE,
        }
    }

    /// Records that a pipe instance of this endpoint was created.
    pub fn mark_listener_created(&mut self)
        ensures
            final(self)@ == (EndpointView { created_listener: true, ..old(self)@ }),
    {
        self.created_listener = true;
    }
}

/// How an attempt to open a pipe as a client went.
#[derive(Clone, Copy, Debug, PartialEq, Eq, Structural)]
pub enum PipeOpenOutcome {
    /// The pipe was opened.
    Opened,
    /// Every instance of the pipe was busy.
    Busy,
    /// Any other error.
    Failed,
}

/// What a client does after an attempt to open a pipe.
#[derive(Clone, Copy, Debug, PartialEq, Eq, Structural)]
pub enum ConnectStep {
    /// Use the opened pipe.
    Connected,
    /// Sleep for [`PIPE_RETRY_DELAY_MS`], then try again.
    Retry,
    /// Give up and report the error of the last attempt.
    GiveUp,
}

/// How long a client keeps trying while the pipe is busy, in milliseconds.
pub const PIPE_AVAILABILITY_TIMEOUT_MS: u64 = 5000;

/// How long a client sleeps between two attempts, in milliseconds.
pub const PIPE_RETRY_DELAY_MS: u64 = 50;

/// The step after an attempt that ended with `outcome`, `elapsed_ms` milliseconds
/// after the first attempt began: only a busy pipe is tried again, and only while
/// the timeout has not passed.
pub open spec fn connect_step_for(outcome: PipeOpenOutcome, elapsed_ms: u64) -> ConnectStep {
    match outcome {
        PipeOpenOutcome::Opened => ConnectStep::Connected,
        PipeOpenOutcome::Busy => if elapsed_ms < PIPE_AVAILABILITY_TIMEOUT_MS {
            ConnectStep::Retry
        } else {
            ConnectStep::GiveUp
        },
        PipeOpenOutcome::Failed => ConnectStep::GiveUp,
    }
}

/// Decides what a client does after an attempt to open a pipe.
pub fn pipe_connect_step(outcome: PipeOpenOutcome, elapsed_ms: u64) -> (r: ConnectStep)
    ensures
        r == connect_step_for(outcome, elapsed_ms),
{
    match outcome {
        PipeOpenOutcome::Opened => ConnectStep::Connected,
        PipeOpenOutcome::Busy => if elapsed_ms < PIPE_AVAILABILITY_TIMEOUT_MS {
            ConnectStep::Retry
        } else {
            ConnectStep::GiveUp
        },
        PipeOpenOutcome::Failed => ConnectStep::GiveUp,
    }
}

/// The conflict policy: a path that does not exist is always bound as it is;
/// `Error` refuses exactly the paths that exist; `Overwrite` never refuses and
/// removes exactly the paths that exist; `Ignore` never refuses and never removes.
/// On Windows every path is bound as it is.
pub proof fn lemma_conflict_policy(platform: Platform, on_conflict: OnConflict, path_exists: bool)
    ensures
        platform == Platform::Windows ==> conflict_action_for(platform, on_conflict, path_exists)
            == ConflictAction::Keep,
        !path_exists ==> conflict_action_for(platform, on_conflict, path_exists)
            == ConflictAction::Keep,
        platform != Platform::Windows && on_conflict == OnConflict::Error ==> (conflict_action_for(
            platform,
            on_conflict,
            path_exists,
        ) == ConflictAction::Refuse <==> path_exists),
        on_conflict == OnConflict::Overwrite ==> conflict_action_for(platform, on_conflict, path_exists)
            != ConflictAction::Refuse,
        platform != Platform::Windows && on_conflict == OnConflict::Overwrite ==> (
        conflict_action_for(platform, on_conflict, path_exists) == ConflictAction::RemoveExisting
            <==> path_exists),
        on_conflict == OnConflict::Ignore ==> conflict_action_for(platform, on_conflict, path_exists)
            == ConflictAction::Keep,
{
}

/// Only the first pipe instance an endpoint creates claims to be the first instance
/// of the pipe; every other option is the same for all instances.
pub proof fn lemma_pipe_instances(created_listener: bool)
    ensures
        pipe_options_for(created_listener).first_pipe_instance <==> !created_listener,
        pipe_options_for(true) == (PipeListenerOptions {
            first_pipe_instance: false,
            ..pipe_options_for(false)
        }),
{
}

/// A client tries again only after finding the pipe busy, and only while the
/// availability timeout has not passed; an opened pipe is always used.
pub proof fn lemma_connect_retries_bounded(outcome: PipeOpenOutcome, elapsed_ms: u64)
    ensures
        connect_step_for(outcome, elapsed_ms) == ConnectStep::Retry <==> (outcome
            == PipeOpenOutcome::Busy && elapsed_ms < PIPE_AVAILABILITY_TIMEOUT_MS),
        connect_step_for(outcome, elapsed_ms) == ConnectStep::Connected <==> outcome
            == PipeOpenOutcome::Opened,
{
}

} // verus!
