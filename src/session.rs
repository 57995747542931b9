//! The session tables: per session identifier, the shell transport, the
//! connection descriptor, the open shell channel and the cached
//! file-transfer transport; and the table of running tunnels.
use vstd::prelude::*;
use crate::error::{EngineError, ErrorKind};
use crate::forward::{already_running, forward_not_found, lacks_binding, plan_forward, plans_forward, ForwardPlan};
use crate::model::{ForwardConfig, SshConnection};
use crate::registry::Registry;
use crate::text::push_text;

verus! {

/// The sessions of the engine; `T` is a transport handle, `C` a channel handle.
pub struct SessionTable<T, C> {
    shells: Registry<T>,
    connections: Registry<SshConnection>,
    channels: Registry<C>,
    transfers: Registry<T>,
}

/// What disconnecting a session took out of the tables, to be closed in
/// this order: file-transfer transport, shell channel, shell transport.
pub struct Removed<T, C> {
    pub transfer: Option<T>,
    pub channel: Option<C>,
    pub shell: Option<T>,
}

impl<T, C> SessionTable<T, C> {
    /// Shell transports by session.
    pub closed spec fn sessions(&self) -> Map<Seq<char>, T> {
        self.shells@
    }

    /// Connection descriptors by session.
    pub closed spec fn descriptors(&self) -> Map<Seq<char>, SshConnection> {
        self.connections@
    }

    /// Open shell channels by session.
    pub closed spec fn shell_channels(&self) -> Map<Seq<char>, C> {
        self.channels@
    }

    /// Cached file-transfer transports by session.
    pub closed spec fn transfer_transports(&self) -> Map<Seq<char>, T> {
        self.transfers@
    }

    /// Every session has its descriptor; channels and file-transfer
    /// transports belong to registered sessions only.
    pub closed spec fn wf(&self) -> bool {
        &&& self.shells.wf()
        &&& self.connections.wf()
        &&& self.channels.wf()
        &&& self.transfers.wf()
        &&& self.connections@.dom() == self.shells@.dom()
        &&& self.channels@.dom().subset_of(self.shells@.dom())
        &&& self.transfers@.dom().subset_of(self.shells@.dom())
    }

    /// No sessions.
    pub fn new() -> (r: Self)
        ensures
            r.wf(),
            r.sessions() == Map::<Seq<char>, T>::empty(),
            r.descriptors() == Map::<Seq<char>, SshConnection>::empty(),
            r.shell_channels() == Map::<Seq<char>, C>::empty(),
            r.transfer_transports() == Map::<Seq<char>, T>::empty(),
    {
        let r = SessionTable {
            shells: Registry::new(),
            connections: Registry::new(),
            channels: Registry::new(),
            transfers: Registry::new(),
        };
        assert(r.connections@.dom() =~= r.shells@.dom());
        r
    }

    /// Registers a connected session under its descriptor's identifier.
    pub fn register(&mut self, conn: &SshConnection, transport: T)
        requires
            old(self).wf(),
        ensures
            final(self).wf(),
            final(self).sessions() == old(self).sessions().insert(conn.id@, transport),
            final(self).descriptors() == old(self).descriptors().insert(conn.id@, *conn),
            final(self).shell_channels() == old(self).shell_channels(),
            final(self).transfer_transports() == old(self).transfer_transports(),
    {
        self.connections.insert(conn.id.as_str(), conn.duplicate());
        self.shells.insert(conn.id.as_str(), transport);
        assert(self.connections@.dom() =~= self.shells@.dom());
    }

    /// Whether a session is registered.
    pub fn is_connected(&self, id: &str) -> (r: bool)
        requires
            self.wf(),
        ensures
            r == self.sessions().contains_key(id@),
    {
        self.shells.contains(id)
    }

    /// The registered session identifiers, each once.
    pub fn session_ids(&self) -> (r: Vec<String>)
        requires
            self.wf(),
        ensures
            r@.len() == self.sessions().dom().len(),
            forall|i: int| 0 <= i < r@.len() ==> self.sessions().contains_key(#[trigger] r@[i]@),
            forall|k: Seq<char>| #[trigger] self.sessions().contains_key(k) ==> exists|i: int|
                0 <= i < r@.len() && #[trigger] r@[i]@ == k,
            forall|i: int, j: int| 0 <= i < j < r@.len() ==> #[trigger] r@[i]@ != #[trigger] r@[j]@,
    {
        self.shells.ids()
    }

    /// The shell transport of a session.
    pub fn shell_transport(&self, id: &str) -> (r: Result<&T, EngineError>)
        requires
            self.wf(),
        ensures
            r is Ok <==> self.sessions().contains_key(id@),
            r matches Ok(t) ==> *t == self.sessions()[id@],
            r matches Err(e) ==> e.kind == ErrorKind::NotFound && e.message@ == "Session not found"@,
    {
        match self.shells.get(id) {
            Some(t) => Ok(t),
            None => Err(EngineError::new(ErrorKind::NotFound, "Session not found")),
        }
    }

    /// The open shell channel of a session.
    pub fn shell_channel(&self, id: &str) -> (r: Result<&C, EngineError>)
        requires
            self.wf(),
        ensures
            r is Ok <==> self.shell_channels().contains_key(id@),
            r matches Ok(c) ==> *c == self.shell_channels()[id@],
            r matches Err(e) ==> e.kind == ErrorKind::NotFound && e.message@ == "Shell not found"@,
    {
        match self.channels.get(id) {
            Some(c) => Ok(c),
            None => Err(EngineError::new(ErrorKind::NotFound, "Shell not found")),
        }
    }

    /// Records the shell channel of a registered session; hands the channel
    /// back, and changes nothing, when the session is not registered.
    pub fn attach_shell(&mut self, id: &str, channel: C) -> (r: Result<(), C>)
        requires
            old(self).wf(),
        ensures
            final(self).wf(),
            final(self).sessions() == old(self).sessions(),
            final(self).descriptors() == old(self).descriptors(),
            final(self).transfer_transports() == old(self).transfer_transports(),
            old(self).sessions().contains_key(id@) ==> r is Ok && final(self).shell_channels()
                == old(self).shell_channels().insert(id@, channel),
            !old(self).sessions().contains_key(id@) ==> r == Err::<(), C>(channel) && final(self).shell_channels() == old(self).shell_channels(),
    {
        if self.shells.contains(id) {
            self.channels.insert(id, channel);
            Ok(())
        } else {
            Err(channel)
        }
    }

    /// The descriptor of a session, to authenticate a file-transfer transport.
    pub fn descriptor(&self, id: &str) -> (r: Result<&SshConnection, EngineError>)
        requires
            self.wf(),
        ensures
            r is Ok <==> self.descriptors().contains_key(id@),
            r matches Ok(c) ==> *c == self.descriptors()[id@],
            r matches Err(e) ==> e.kind == ErrorKind::NotFound && e.message@
                == "Connection info not found for session: "@ + id@,
    {
        match self.connections.get(id) {
            Some(c) => Ok(c),
            None => {
                let mut m = String::from_str("Connection info not found for session: ");
                push_text(&mut m, id);
                Err(EngineError { kind: ErrorKind::NotFound, message: m })
            },
        }
    }

    /// The cached file-transfer transport of a session, if any.
    pub fn cached_transfer(&self, id: &str) -> (r: Option<&T>)
        requires
            self.wf(),
        ensures
            r is None <==> !self.transfer_transports().contains_key(id@),
            r matches Some(t) ==> *t == self.transfer_transports()[id@],
    {
        self.transfers.get(id)
    }

    /// Caches the file-transfer transport of a registered session; hands
    /// the transport back, and changes nothing, when the session is not registered.
    pub fn cache_transfer(&mut self, id: &str, transport: T) -> (r: Result<(), T>)
        requires
            old(self).wf(),
        ensures
            final(self).wf(),
            final(self).sessions() == old(self).sessions(),
            final(self).descriptors() == old(self).descriptors(),
            final(self).shell_channels() == old(self).shell_channels(),
            old(self).sessions().contains_key(id@) ==> r is Ok && final(self).transfer_transports()
                == old(self).transfer_transports().insert(id@, transport),
            !old(self).sessions().contains_key(id@) ==> r == Err::<(), T>(transport) && final(self).transfer_transports() == old(self).transfer_transports(),
    {
        if self.shells.contains(id) {
            self.transfers.insert(id, transport);
            Ok(())
        } else {
            Err(transport)
        }
    }

    /// Drops the cached file-transfer transport of a session, if any.
    pub fn drop_transfer(&mut self, id: &str) -> (r: Option<T>)
        requires
            old(self).wf(),
        ensures
            final(self).wf(),
            final(self).sessions() == old(self).sessions(),
            final(self).descriptors() == old(self).descriptors(),
            final(self).shell_channels() == old(self).shell_channels(),
            final(self).transfer_transports() == old(self).transfer_transports().remove(id@),
            r is None <==> !old(self).transfer_transports().contains_key(id@),
            r matches Some(t) ==> t == old(self).transfer_transports()[id@],
    {
        self.transfers.remove(id)
    }

    /// Takes a session out of every table.
    pub fn unregister(&mut self, id: &str) -> (r: Removed<T, C>)
        requires
            old(self).wf(),
        ensures
            final(self).wf(),
            final(self).sessions() == old(self).sessions().remove(id@),
            final(self).descriptors() == old(self).descriptors().remove(id@),
            final(self).shell_channels() == old(self).shell_channels().remove(id@),
            final(self).transfer_transports() == old(self).transfer_transports().remove(id@),
            r.shell is None <==> !old(self).sessions().contains_key(id@),
            r.shell matches Some(t) ==> t == old(self).sessions()[id@],
            r.channel is None <==> !old(self).shell_channels().contains_key(id@),
            r.channel matches Some(c) ==> c == old(self).shell_channels()[id@],
            r.transfer is None <==> !old(self).transfer_transports().contains_key(id@),
            r.transfer matches Some(t) ==> t == old(self).transfer_transports()[id@],
    {
        let transfer = self.transfers.remove(id);
        let channel = self.channels.remove(id);
        let shell = self.shells.remove(id);
        let _ = self.connections.remove(id);
        assert(self.connections@.dom() =~= self.shells@.dom());
        Removed { transfer, channel, shell }
    }
}

/// Whether the cached file-transfer transport is used again: only when
/// there is one and it is still authenticated; otherwise a fresh one is made.
pub fn reuse_transfer(cached_authenticated: Option<bool>) -> (r: bool)
    ensures
        r == (cached_authenticated == Some(true)),
{
    match cached_authenticated {
        Some(a) => a,
        None => false,
    }
}

/// The tables' consistency as callers see it: every session has its
/// descriptor, and shell channels and file-transfer transports exist only
/// for registered sessions.
pub proof fn session_table_keys<T, C>(t: SessionTable<T, C>)
    requires
        t.wf(),
    ensures
        t.descriptors().dom() == t.sessions().dom(),
        t.shell_channels().dom().subset_of(t.sessions().dom()),
        t.transfer_transports().dom().subset_of(t.sessions().dom()),
{
}

/// What to do after a command failed on the file-transfer transport.
#[derive(Clone, Copy, Debug, PartialEq, Eq, Structural)]
pub enum ExecRetry {
    /// Drop the cached transport and run the command once more on a fresh one.
    DropTransportAndRetry,
    /// Report the failure.
    Surface,
}

/// A command is retried exactly once: after the first failure, never after the second.
pub fn after_exec_failure(attempt: u32) -> (r: ExecRetry)
    ensures
        r == if attempt == 0 { ExecRetry::DropTransportAndRetry } else { ExecRetry::Surface },
{
    if attempt == 0 {
        ExecRetry::DropTransportAndRetry
    } else {
        ExecRetry::Surface
    }
}

/// The running tunnels; `H` is a tunnel handle.
pub struct ForwardTable<H> {
    tunnels: Registry<H>,
}

impl<H> ForwardTable<H> {
    /// Running tunnels by identifier.
    pub closed spec fn running(&self) -> Map<Seq<char>, H> {
        self.tunnels@
    }

    pub closed spec fn wf(&self) -> bool {
        self.tunnels.wf()
    }

    /// No tunnels.
    pub fn new() -> (r: Self)
        ensures
            r.wf(),
            r.running() == Map::<Seq<char>, H>::empty(),
    {
        ForwardTable { tunnels: Registry::new() }
    }

    /// Checks a tunnel request before any network use: its identifier must
    /// not be running, and its kind's bindings must be present.
    pub fn check_start(&self, config: &ForwardConfig) -> (r: Result<ForwardPlan, EngineError>)
        requires
            self.wf(),
        ensures
            self.running().contains_key(config.id@) ==> r is Err && r->Err_0.kind
                == ErrorKind::AlreadyRunning,
            !self.running().contains_key(config.id@) ==> (r is Err <==> lacks_binding(*config)),
            !self.running().contains_key(config.id@) && r is Err ==> r->Err_0.kind
                == ErrorKind::InvalidConfig,
            r is Ok ==> plans_forward(*config, r->Ok_0),
    {
        if self.tunnels.contains(config.id.as_str()) {
            return Err(already_running());
        }
        plan_forward(config)
    }

    /// Records a started tunnel. When another tunnel took the identifier
    /// meanwhile, the running one stays as it was and the new handle comes back.
    pub fn add(&mut self, id: &str, handle: H) -> (r: Result<(), (H, EngineError)>)
        requires
            old(self).wf(),
        ensures
            final(self).wf(),
            old(self).running().contains_key(id@) ==> r is Err && r->Err_0.0 == handle
                && r->Err_0.1.kind == ErrorKind::AlreadyRunning && final(self).running() == old(self).running(),
            !old(self).running().contains_key(id@) ==> r is Ok && final(self).running() == old(self).running().insert(id@, handle),
    {
        match self.tunnels.insert_new(id, handle) {
            Ok(()) => Ok(()),
            Err(h) => Err((h, already_running())),
        }
    }

    /// Takes a tunnel out of the table, to stop it.
    pub fn stop(&mut self, id: &str) -> (r: Result<H, EngineError>)
        requires
            old(self).wf(),
        ensures
            final(self).wf(),
            final(self).running() == old(self).running().remove(id@),
            r is Ok <==> old(self).running().contains_key(id@),
            r matches Ok(h) ==> h == old(self).running()[id@],
            r matches Err(e) ==> e.kind == ErrorKind::NotFound,
    {
        match self.tunnels.remove(id) {
            Some(h) => Ok(h),
            None => Err(forward_not_found()),
        }
    }

    /// The running tunnels' identifiers, each once.
    pub fn list(&self) -> (r: Vec<String>)
        requires
            self.wf(),
        ensures
            r@.len() == self.running().dom().len(),
            forall|i: int| 0 <= i < r@.len() ==> self.running().contains_key(#[trigger] r@[i]@),
            forall|k: Seq<char>| #[trigger] self.running().contains_key(k) ==> exists|i: int|
                0 <= i < r@.len() && #[trigger] r@[i]@ == k,
            forall|i: int, j: int| 0 <= i < j < r@.len() ==> #[trigger] r@[i]@ != #[trigger] r@[j]@,
    {
        self.tunnels.ids()
    }
}

} // verus!
