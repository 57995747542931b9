//! The records that callers hand to the engine and that it hands back.
use vstd::prelude::*;

verus! {

/// How a connection authenticates.
#[derive(Clone, Debug, PartialEq, Eq)]
pub enum AuthType {
    /// Password authentication.
    Password { password: String },
    /// Public-key authentication, from key text (preferred when non-empty) or a key file.
    PrivateKey { key_path: String, key_content: Option<String>, passphrase: Option<String> },
}

/// Everything needed to open and authenticate a transport.
#[derive(Clone, Debug, PartialEq, Eq)]
pub struct SshConnection {
    pub id: String,
    pub name: String,
    pub host: String,
    pub port: u16,
    pub username: String,
    pub auth_type: AuthType,
    /// A text-encoding hint; advisory only, shell output is decoded as UTF-8.
    pub encoding: Option<String>,
}

/// Registration state of a session.
#[derive(Clone, Debug, PartialEq, Eq)]
pub struct SshSession {
    pub connection_id: String,
    pub connected: bool,
}

/// One entry of a remote directory listing.
#[derive(Clone, Debug, PartialEq, Eq)]
pub struct SftpEntry {
    pub name: String,
    pub is_dir: bool,
    pub size: Option<u64>,
    pub modified: Option<u64>,
    pub perm: Option<u32>,
}

/// The three shapes of tunnel.
#[derive(Clone, Copy, Debug, PartialEq, Eq, Structural)]
pub enum ForwardKind {
    Local,
    Remote,
    Dynamic,
}

/// A tunnel request as the caller states it.
#[derive(Clone, Debug, PartialEq, Eq)]
pub struct ForwardConfig {
    pub id: String,
    pub kind: ForwardKind,
    pub connection: SshConnection,
    pub local_bind_host: Option<String>,
    pub local_bind_port: Option<u16>,
    pub remote_bind_host: Option<String>,
    pub remote_bind_port: Option<u16>,
    pub target_host: Option<String>,
    pub target_port: Option<u16>,
}

/// Shell output pushed to the event sink.
#[derive(Clone, Debug, PartialEq, Eq)]
pub struct TerminalOutput {
    pub session_id: String,
    pub data: String,
}

/// The single notice that a shell's reader has stopped.
#[derive(Clone, Debug, PartialEq, Eq)]
pub struct TerminalDisconnected {
    pub session_id: String,
    pub reason: String,
}

fn copy_text(o: &Option<String>) -> (r: Option<String>)
    ensures
        r == *o,
{
    match o {
        Some(s) => Some(s.clone()),
        None => None,
    }
}

impl AuthType {
    /// A copy equal to this one.
    pub fn duplicate(&self) -> (r: Self)
        ensures
            r == *self,
    {
        match self {
            AuthType::Password { password } => AuthType::Password { password: password.clone() },
            AuthType::PrivateKey { key_path, key_content, passphrase } => AuthType::PrivateKey {
                key_path: key_path.clone(),
                key_content: copy_text(key_content),
                passphrase: copy_text(passphrase),
            },
        }
    }
}

impl SshConnection {
    /// A copy equal to this one.
    pub fn duplicate(&self) -> (r: Self)
        ensures
            r == *self,
    {
        SshConnection {
            id: self.id.clone(),
            name: self.name.clone(),
            host: self.host.clone(),
            port: self.port,
            username: self.username.clone(),
            auth_type: self.auth_type.duplicate(),
            encoding: copy_text(&self.encoding),
        }
    }
}

} // verus!
