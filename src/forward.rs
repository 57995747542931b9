//! Tunnels: settling a tunnel request into bindings, and the decisions of
//! the loops that open tunnel channels and keep transports alive.
use vstd::prelude::*;
use crate::error::{EngineError, ErrorKind};
use crate::model::{ForwardConfig, ForwardKind};
use crate::transport::{code_of, error_would_block, is_would_block, TransportCode, SESSION_WOULD_BLOCK};

verus! {

/// A tunnel's bindings, with defaults filled in.
#[derive(Clone, Debug, PartialEq, Eq)]
pub enum ForwardPlan {
    /// Listen locally; each client is relayed to the target through the transport.
    Local { bind_host: String, bind_port: u16, target_host: String, target_port: u16 },
    /// Listen on the far side; each inbound channel is relayed to the target from here.
    Remote { bind_host: String, bind_port: u16, target_host: String, target_port: u16 },
    /// Listen locally as a SOCKS5 proxy.
    Dynamic { bind_host: String, bind_port: u16 },
}

/// The text of an optional host, or a default.
pub open spec fn host_or(o: Option<String>, default: Seq<char>) -> Seq<char> {
    match o {
        Some(h) => h@,
        None => default,
    }
}

/// Whether a tunnel request lacks a binding that its kind requires.
pub open spec fn lacks_binding(c: ForwardConfig) -> bool {
    match c.kind {
        ForwardKind::Local => c.local_bind_port is None || c.target_host is None || c.target_port is None,
        ForwardKind::Remote => c.remote_bind_port is None || c.target_host is None || c.target_port
            is None,
        ForwardKind::Dynamic => c.local_bind_port is None,
    }
}

/// Whether `p` is the plan for request `c`: its kind, its bindings, and the
/// default bind hosts `127.0.0.1` locally and `0.0.0.0` on the far side.
pub open spec fn plans_forward(c: ForwardConfig, p: ForwardPlan) -> bool {
    match c.kind {
        ForwardKind::Local => match p {
            ForwardPlan::Local { bind_host, bind_port, target_host, target_port } => bind_host@
                == host_or(c.local_bind_host, "127.0.0.1"@) && Some(bind_port) == c.local_bind_port
                && Some(target_host) == c.target_host && Some(target_port) == c.target_port,
            _ => false,
        },
        ForwardKind::Remote => match p {
            ForwardPlan::Remote { bind_host, bind_port, target_host, target_port } => bind_host@
                == host_or(c.remote_bind_host, "0.0.0.0"@) && Some(bind_port) == c.remote_bind_port
                && Some(target_host) == c.target_host && Some(target_port) == c.target_port,
            _ => false,
        },
        ForwardKind::Dynamic => match p {
            ForwardPlan::Dynamic { bind_host, bind_port } => bind_host@ == host_or(
                c.local_bind_host,
                "127.0.0.1"@,
            ) && Some(bind_port) == c.local_bind_port,
            _ => false,
        },
    }
}

fn host_or_default(o: &Option<String>, default: &str) -> (r: String)
    ensures
        r@ == host_or(*o, default@),
{
    match o {
        Some(h) => h.clone(),
        None => String::from_str(default),
    }
}

fn require_host(o: &Option<String>) -> (r: Result<String, EngineError>)
    ensures
        r is Ok <==> o is Some,
        r is Ok ==> Some(r->Ok_0) == *o,
        r is Err ==> r->Err_0.kind == ErrorKind::InvalidConfig,
{
    match o {
        Some(h) => Ok(h.clone()),
        None => Err(EngineError::new(ErrorKind::InvalidConfig, "Target host missing")),
    }
}

fn require_port(o: Option<u16>, message: &str) -> (r: Result<u16, EngineError>)
    ensures
        r is Ok <==> o is Some,
        r is Ok ==> Some(r->Ok_0) == o,
        r is Err ==> r->Err_0.kind == ErrorKind::InvalidConfig,
{
    match o {
        Some(p) => Ok(p),
        None => Err(EngineError::new(ErrorKind::InvalidConfig, message)),
    }
}

/// Settles a tunnel request into its bindings; fails exactly when a binding
/// that the kind requires is missing.
pub fn plan_forward(config: &ForwardConfig) -> (r: Result<ForwardPlan, EngineError>)
    ensures
        r is Err <==> lacks_binding(*config),
        r is Ok ==> plans_forward(*config, r->Ok_0),
        r is Err ==> r->Err_0.kind == ErrorKind::InvalidConfig,
{
    match config.kind {
        ForwardKind::Local => {
            let bind_host = host_or_default(&config.local_bind_host, "127.0.0.1");
            let bind_port = require_port(config.local_bind_port, "Local bind port missing")?;
            let target_host = require_host(&config.target_host)?;
            let target_port = require_port(config.target_port, "Target port missing")?;
            Ok(ForwardPlan::Local { bind_host, bind_port, target_host, target_port })
        },
        ForwardKind::Remote => {
            let bind_host = host_or_default(&config.remote_bind_host, "0.0.0.0");
            let bind_port = require_port(config.remote_bind_port, "Remote bind port missing")?;
            let target_host = require_host(&config.target_host)?;
            let target_port = require_port(config.target_port, "Target port missing")?;
            Ok(ForwardPlan::Remote { bind_host, bind_port, target_host, target_port })
        },
        ForwardKind::Dynamic => {
            let bind_host = host_or_default(&config.local_bind_host, "127.0.0.1");
            let bind_port = require_port(config.local_bind_port, "Local bind port missing")?;
            Ok(ForwardPlan::Dynamic { bind_host, bind_port })
        },
    }
}

/// How many times opening a tunnel channel is tried while the transport would block.
pub const OPEN_ATTEMPTS: u32 = 30;

/// What to do after an attempt to open a tunnel channel failed.
#[derive(Clone, Copy, Debug, PartialEq, Eq, Structural)]
pub enum OpenRetry {
    /// Pause briefly and try again.
    RetryAfterPause,
    /// Give up: the transport kept blocking.
    TimedOut,
    /// Give up with the transport's error.
    Fail,
}

/// The decision after failed attempt number `attempt` (from 0): retry while
/// the transport would block and attempts remain.
pub open spec fn open_retry(attempt: u32, would_block: bool) -> OpenRetry {
    if !would_block {
        OpenRetry::Fail
    } else if attempt + 1 < OPEN_ATTEMPTS {
        OpenRetry::RetryAfterPause
    } else {
        OpenRetry::TimedOut
    }
}

/// Decides what follows a failed attempt to open a tunnel channel, from the transport's code.
pub fn after_open_failure(attempt: u32, code: TransportCode) -> (r: OpenRetry)
    ensures
        r == open_retry(attempt, code == TransportCode::Session(SESSION_WOULD_BLOCK)),
{
    if !is_would_block(code) {
        OpenRetry::Fail
    } else if attempt < OPEN_ATTEMPTS - 1 {
        OpenRetry::RetryAfterPause
    } else {
        OpenRetry::TimedOut
    }
}

/// Decides what follows a failed attempt to open a tunnel channel, from the transport's error.
pub fn after_open_error(attempt: u32, e: &ssh2::Error) -> (r: OpenRetry)
    ensures
        r == open_retry(attempt, code_of(*e) == TransportCode::Session(SESSION_WOULD_BLOCK)),
{
    if error_would_block(e) {
        after_open_failure(attempt, TransportCode::Session(SESSION_WOULD_BLOCK))
    } else {
        OpenRetry::Fail
    }
}

/// The error when a tunnel channel could not be opened in time.
pub fn open_timed_out() -> (r: EngineError)
    ensures
        r.kind == ErrorKind::Timeout,
        r.message@ == "Timed out opening direct-tcpip channel"@,
{
    EngineError::new(ErrorKind::Timeout, "Timed out opening direct-tcpip channel")
}

/// The result of asking a transport to send a keepalive.
#[derive(Clone, Copy, Debug, PartialEq, Eq, Structural)]
pub enum KeepaliveOutcome {
    /// Sent; the transport advises the next send in this many seconds.
    Sent(u32),
    /// The transport would block.
    WouldBlock,
    /// The transport failed.
    Failed,
}

/// What a keepalive driver does next.
#[derive(Clone, Copy, Debug, PartialEq, Eq, Structural)]
pub enum KeepaliveAction {
    /// Sleep this many seconds, then send again.
    SleepSecs(u64),
    /// Stop driving this transport.
    Exit,
}

/// The pause after a sent keepalive: the advised delay held between 5 and 60 seconds.
pub open spec fn keepalive_pause(advised: u32) -> u64 {
    if advised < 5 { 5 } else if advised > 60 { 60 } else { advised as u64 }
}

/// Decides a keepalive driver's next move; `wanted` says whether its session
/// is still registered or its tunnel not yet stopped.
pub fn keepalive_next(wanted: bool, outcome: KeepaliveOutcome) -> (r: KeepaliveAction)
    ensures
        r == if !wanted {
            KeepaliveAction::Exit
        } else {
            match outcome {
                KeepaliveOutcome::Sent(n) => KeepaliveAction::SleepSecs(keepalive_pause(n)),
                KeepaliveOutcome::WouldBlock => KeepaliveAction::SleepSecs(1),
                KeepaliveOutcome::Failed => KeepaliveAction::Exit,
            }
        },
{
    if !wanted {
        return KeepaliveAction::Exit;
    }
    match outcome {
        KeepaliveOutcome::Sent(n) => {
            let secs: u64 = if n < 5 { 5 } else if n > 60 { 60 } else { n as u64 };
            KeepaliveAction::SleepSecs(secs)
        },
        KeepaliveOutcome::WouldBlock => KeepaliveAction::SleepSecs(1),
        KeepaliveOutcome::Failed => KeepaliveAction::Exit,
    }
}

/// The error for a tunnel identifier that is already running.
pub fn already_running() -> (r: EngineError)
    ensures
        r.kind == ErrorKind::AlreadyRunning,
        r.message@ == "Forward already running"@,
{
    EngineError::new(ErrorKind::AlreadyRunning, "Forward already running")
}

/// The error for a tunnel identifier that is not running.
pub fn forward_not_found() -> (r: EngineError)
    ensures
        r.kind == ErrorKind::NotFound,
        r.message@ == "Forward not found"@,
{
    EngineError::new(ErrorKind::NotFound, "Forward not found")
}

/// Which kind of listener a tunnel polls.
#[derive(Clone, Copy, Debug, PartialEq, Eq, Structural)]
pub enum ListenerKind {
    /// A local TCP listener (local and dynamic tunnels).
    Local,
    /// A listener on the far side of the transport (remote tunnels).
    Remote,
}

/// The result of polling a listener once.
#[derive(Clone, Copy, Debug, PartialEq, Eq, Structural)]
pub enum AcceptOutcome {
    /// A connection came in.
    Accepted,
    /// No connection is waiting.
    NothingYet,
    /// The listener failed.
    Failed,
}

/// What a tunnel's accept loop does next.
#[derive(Clone, Copy, Debug, PartialEq, Eq, Structural)]
pub enum AcceptAction {
    /// Hand the connection to a worker and poll again.
    Serve,
    /// Sleep this many milliseconds, then poll again.
    PauseMillis(u64),
    /// Stop accepting: the tunnel was stopped or its listener failed.
    Exit,
}

/// The accept loop's next move: exit once the tunnel is stopped; a local
/// listener polls every 50 ms and exits when it fails; a remote listener
/// polls every 80 ms and outlives its failures.
pub open spec fn accept_step(kind: ListenerKind, stopped: bool, outcome: AcceptOutcome) -> AcceptAction {
    if stopped {
        AcceptAction::Exit
    } else if outcome == AcceptOutcome::Accepted {
        AcceptAction::Serve
    } else if kind == ListenerKind::Remote {
        AcceptAction::PauseMillis(80)
    } else if outcome == AcceptOutcome::NothingYet {
        AcceptAction::PauseMillis(50)
    } else {
        AcceptAction::Exit
    }
}

/// Decides the accept loop's next move from the poll result and the stop flag.
pub fn accept_next(kind: ListenerKind, stopped: bool, outcome: AcceptOutcome) -> (r: AcceptAction)
    ensures
        r == accept_step(kind, stopped, outcome),
{
    if stopped {
        return AcceptAction::Exit;
    }
    match outcome {
        AcceptOutcome::Accepted => AcceptAction::Serve,
        AcceptOutcome::NothingYet => match kind {
            ListenerKind::Local => AcceptAction::PauseMillis(50),
            ListenerKind::Remote => AcceptAction::PauseMillis(80),
        },
        AcceptOutcome::Failed => match kind {
            ListenerKind::Local => AcceptAction::Exit,
            ListenerKind::Remote => AcceptAction::PauseMillis(80),
        },
    }
}

} // verus!
