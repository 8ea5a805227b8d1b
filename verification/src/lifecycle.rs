//! The server lifecycle manager: a single `ServerRuntime` value owns
//! the running-state of the one static-file server instance the
//! process may have. The application keeps the value behind an
//! exclusive lock, performs the actual bind/close of the listening
//! socket and the firing of the real shutdown signal, and reports
//! those outcomes here; every decision — whether a start may proceed,
//! what a start or stop changes, and what the caller is told — is
//! verified against the transition specifications in this module.

use vstd::prelude::*;
use vstd::string::StringExecFns;
use crate::access::AccessError;
use crate::url::url_chars;
use crate::url::server_url;

verus! {

/// The fixed loopback port the server binds by default.
pub const DEFAULT_PORT: u16 = 3000;

/// Why a start request failed.
#[derive(Clone, Copy, PartialEq, Eq, Structural, Debug)]
pub enum StartError {
    /// An instance is already running; no new socket was touched.
    AlreadyRunning,
    /// The directory authorization rejected the path.
    InvalidDirectory,
    /// The host refused to widen its filesystem allow-list.
    GrantDenied,
    /// The listener could not be bound; the runtime is unchanged.
    BindFailed,
}

/// Why a stop request failed.
#[derive(Clone, Copy, PartialEq, Eq, Structural, Debug)]
pub enum StopError {
    /// No instance is running.
    NotRunning,
}

/// The text a start failure is reported with.
pub open spec fn start_error_text(e: StartError) -> Seq<char> {
    match e {
        StartError::AlreadyRunning => "server already running"@,
        StartError::InvalidDirectory => "invalid directory path"@,
        StartError::GrantDenied => "failed to allow directory"@,
        StartError::BindFailed => "failed to bind listener"@,
    }
}

/// The text a stop failure is reported with.
pub open spec fn stop_error_text(e: StopError) -> Seq<char> {
    match e {
        StopError::NotRunning => "server not running"@,
    }
}

impl StartError {
    /// The structured error string handed to the caller.
    pub fn message(&self) -> (r: String)
        ensures
            r@ == start_error_text(*self),
    {
        match self {
            StartError::AlreadyRunning => String::from_str("server already running"),
            StartError::InvalidDirectory => String::from_str("invalid directory path"),
            StartError::GrantDenied => String::from_str("failed to allow directory"),
            StartError::BindFailed => String::from_str("failed to bind listener"),
        }
    }
}

impl StopError {
    /// The structured error string handed to the caller.
    pub fn message(&self) -> (r: String)
        ensures
            r@ == stop_error_text(*self),
    {
        match self {
            StopError::NotRunning => String::from_str("server not running"),
        }
    }
}

/// The abstract state of the runtime: what is proved about every
/// start and stop is stated over this model.
pub struct RuntimeModel {
    /// Whether an instance is currently active.
    pub running: bool,
    /// The directory being served, set at start and cleared at stop.
    pub root: Option<Seq<char>>,
    /// The port the listener is bound to while running.
    pub port: u16,
    /// Whether the listening socket is bound and accepting.
    pub listener_open: bool,
    /// Whether the current shutdown signal has been fired. A fresh
    /// instance gets a fresh, unfired signal.
    pub shutdown_fired: bool,
}

/// The state at process start and the shape every stop returns to:
/// no socket, no root, nothing running.
pub open spec fn idle_model() -> RuntimeModel {
    RuntimeModel { running: false, root: None, port: 0, listener_open: false, shutdown_fired: false }
}

/// The state right after a successful start: one instance serving
/// `root` on `port`, listener bound, signal fresh.
pub open spec fn started_model(root: Seq<char>, port: u16) -> RuntimeModel {
    RuntimeModel {
        running: true,
        root: Some(root),
        port: port,
        listener_open: true,
        shutdown_fired: false,
    }
}

/// The state right after a successful stop: the listener is closed,
/// the root cleared, and the old instance's signal has been fired.
pub open spec fn stopped_model() -> RuntimeModel {
    RuntimeModel { running: false, root: None, port: 0, listener_open: false, shutdown_fired: true }
}

/// The runtime is well formed: the listening socket is bound exactly
/// while an instance runs, and a root directory is recorded exactly
/// while an instance runs.
pub open spec fn wf(s: RuntimeModel) -> bool {
    &&& s.running <==> s.listener_open
    &&& s.running <==> s.root is Some
}

/// Whether a start request may proceed to binding: an already-running
/// instance wins over everything, then the authorization verdict is mapped
/// to the start error it owes the caller.
pub open spec fn start_allowed(s: RuntimeModel, access: Result<(), AccessError>) -> Result<
    (),
    StartError,
> {
    if s.running {
        Err(StartError::AlreadyRunning)
    } else {
        match access {
            Ok(()) => Ok(()),
            Err(AccessError::GrantDenied) => Err(StartError::GrantDenied),
            Err(_) => Err(StartError::InvalidDirectory),
        }
    }
}

/// What committing a start attempt does: `bound` is the outcome of
/// the application's bind attempt, `Some(port)` when the listener was
/// bound to `port`. A failed bind leaves the state untouched so a
/// retry is possible; a successful bind records the instance and owes
/// the caller the loopback URL for the bound port.
pub open spec fn commit_start_spec(s: RuntimeModel, root: Seq<char>, bound: Option<u16>) -> (
    RuntimeModel,
    Result<Seq<char>, StartError>,
) {
    match bound {
        Some(port) => (started_model(root, port), Ok(url_chars(port as nat))),
        None => (s, Err(StartError::BindFailed)),
    }
}

/// What a stop request does: on a non-running runtime it fails and
/// changes nothing; otherwise it fires the shutdown signal, closes
/// the listener and clears the recorded root.
pub open spec fn stop_spec(s: RuntimeModel) -> (RuntimeModel, Result<(), StopError>) {
    if !s.running {
        (s, Err(StopError::NotRunning))
    } else {
        (stopped_model(), Ok(()))
    }
}

/// The one runtime value of the process. The application holds it
/// behind an exclusive lock together with the real listener handle
/// and shutdown signal, and calls the methods below only while the
/// lock is held.
pub struct ServerRuntime {
    running: bool,
    root: Option<String>,
    port: u16,
    listener_open: bool,
    shutdown_fired: bool,
}

impl View for ServerRuntime {
    type V = RuntimeModel;

    closed spec fn view(&self) -> RuntimeModel {
        RuntimeModel {
            running: self.running,
            root: match self.root {
                Some(s) => Some(s@),
                None => None,
            },
            port: self.port,
            listener_open: self.listener_open,
            shutdown_fired: self.shutdown_fired,
        }
    }
}

impl ServerRuntime {
    /// A fresh runtime: nothing running, no socket, no signal.
    pub fn new() -> (r: ServerRuntime)
        ensures
            r@ == idle_model(),
    {
        ServerRuntime {
            running: false,
            root: None,
            port: 0,
            listener_open: false,
            shutdown_fired: false,
        }
    }

    /// Whether an instance is currently running.
    pub fn is_running(&self) -> (r: bool)
        ensures
            r == self@.running,
    {
        self.running
    }

    /// The directory currently being served, while one is.
    pub fn root_directory(&self) -> (r: Option<&String>)
        ensures
            match r {
                Some(s) => self@.root == Some(s@),
                None => self@.root is None,
            },
    {
        self.root.as_ref()
    }

    /// Decides whether a start request may proceed to binding a
    /// listener. `access` is the directory authorization's verdict on the
    /// requested root. While an instance runs the answer is
    /// `AlreadyRunning`, whatever the authorization said, and the runtime is
    /// untouched — in particular no second socket is ever bound.
    pub fn check_start(&self, access: Result<(), AccessError>) -> (r: Result<(), StartError>)
        ensures
            r == start_allowed(self@, access),
    {
        if self.running {
            Err(StartError::AlreadyRunning)
        } else {
            match access {
                Ok(()) => Ok(()),
                Err(AccessError::GrantDenied) => Err(StartError::GrantDenied),
                Err(_) => Err(StartError::InvalidDirectory),
            }
        }
    }

    /// Commits a start attempt after the application tried to bind
    /// the listener: `bound` is `Some(port)` when the socket was
    /// bound to `port`. May be called only for an attempt that
    /// `check_start` let through, i.e. while nothing runs. On success
    /// the caller is owed the loopback URL of the bound port; a bind
    /// failure leaves the runtime exactly as it was, so a retry stays
    /// possible.
    pub fn commit_start(&mut self, root: String, bound: Option<u16>) -> (r: Result<
        String,
        StartError,
    >)
        requires
            wf(old(self)@),
            !old(self)@.running,
        ensures
            wf(final(self)@),
            final(self)@ == commit_start_spec(old(self)@, root@, bound).0,
            match r {
                Ok(url) => commit_start_spec(old(self)@, root@, bound).1 == Ok::<
                    Seq<char>,
                    StartError,
                >(url@),
                Err(e) => commit_start_spec(old(self)@, root@, bound).1 == Err::<
                    Seq<char>,
                    StartError,
                >(e),
            },
    {
        match bound {
            Some(port) => {
                self.running = true;
                self.root = Some(root);
                self.port = port;
                self.listener_open = true;
                self.shutdown_fired = false;
                Ok(server_url(port))
            },
            None => Err(StartError::BindFailed),
        }
    }

    /// Stops the running instance: fires the shutdown signal, closes
    /// the listener — so no new connection is accepted once this
    /// returns — and clears the recorded root. On a non-running
    /// runtime it fails with `NotRunning` and changes nothing.
    pub fn stop(&mut self) -> (r: Result<(), StopError>)
        requires
            wf(old(self)@),
        ensures
            wf(final(self)@),
            final(self)@ == stop_spec(old(self)@).0,
            r == stop_spec(old(self)@).1,
    {
        if !self.running {
            Err(StopError::NotRunning)
        } else {
            self.running = false;
            self.root = None;
            self.port = 0;
            self.listener_open = false;
            self.shutdown_fired = true;
            Ok(())
        }
    }
}

/// A start request against a running instance is always refused with
/// `AlreadyRunning`, whatever the authorization said of the path; a
/// refused request never reaches the bind step, so no second socket
/// is ever bound.
pub proof fn lemma_start_while_running_rejected(s: RuntimeModel, access: Result<(), AccessError>)
    requires
        s.running,
    ensures
        start_allowed(s, access) == Err::<(), StartError>(StartError::AlreadyRunning),
{
}

/// A stop request against a non-running runtime always fails with
/// `NotRunning` and leaves the runtime exactly as it was.
pub proof fn lemma_stop_while_stopped_rejected(s: RuntimeModel)
    requires
        !s.running,
    ensures
        stop_spec(s) == (s, Err::<(), StopError>(StopError::NotRunning)),
{
}

/// A stop that succeeds has closed the listening socket and fired
/// the shutdown signal: afterwards no new connection is accepted,
/// while tasks serving already-accepted connections are told to let
/// go at their next drain point rather than being cut off.
pub proof fn lemma_stop_closes_listener(s: RuntimeModel)
    requires
        s.running,
    ensures
        stop_spec(s).1 == Ok::<(), StopError>(()),
        !stop_spec(s).0.listener_open,
        stop_spec(s).0.shutdown_fired,
        !stop_spec(s).0.running,
        stop_spec(s).0.root is None,
{
}

/// Two start requests serialized by the runtime lock: from a
/// non-running state the first one — authorization given and bind
/// succeeding — goes through and records its directory; the second
/// then finds the instance running and is refused with
/// `AlreadyRunning`, whatever directory it asked for and whatever its
/// authorization verdict was. Exactly one of the two succeeds; the running
/// root is the first caller's.
pub proof fn lemma_start_exclusive(
    s0: RuntimeModel,
    d1: Seq<char>,
    port: u16,
    g2: Result<(), AccessError>,
)
    requires
        !s0.running,
    ensures
        start_allowed(s0, Ok(())) == Ok::<(), StartError>(()),
        commit_start_spec(s0, d1, Some(port)).1 == Ok::<Seq<char>, StartError>(
            url_chars(port as nat),
        ),
        ({
            let s1 = commit_start_spec(s0, d1, Some(port)).0;
            &&& s1.running
            &&& s1.root == Some(d1)
            &&& start_allowed(s1, g2) == Err::<(), StartError>(StartError::AlreadyRunning)
        }),
{
}

} // verus!
