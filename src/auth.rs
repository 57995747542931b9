//! What a connection needs before it touches the network: the user name to
//! log in as, the address to dial, and how to authenticate.
use vstd::prelude::*;
use crate::error::{EngineError, ErrorKind};
use crate::model::{AuthType, SshConnection};
use crate::rdp::text_or_empty;
use crate::text::{decimal, push_decimal, push_text, trim, trimmed};

verus! {

/// Whether an environment value names a user: present and not blank.
pub open spec fn names_user(o: Option<String>) -> bool {
    o is Some && trimmed(o->0@).len() != 0
}

/// The user name to log in as: the trimmed configured name; when that is
/// blank, the first of the environment's user names that is not blank; else `root`.
pub open spec fn username_of(
    configured: Seq<char>,
    env_user: Option<String>,
    env_username: Option<String>,
) -> Seq<char> {
    if trimmed(configured).len() != 0 {
        trimmed(configured)
    } else if names_user(env_user) {
        env_user->0@
    } else if names_user(env_username) {
        env_username->0@
    } else {
        "root"@
    }
}

/// Whether a private-key method has neither key text nor a key file.
pub open spec fn lacks_key(a: AuthType) -> bool {
    match a {
        AuthType::PrivateKey { key_path, key_content, .. } => text_or_empty(key_content).len() == 0
            && key_path@.len() == 0,
        AuthType::Password { .. } => false,
    }
}

/// How a transport is to authenticate.
#[derive(Clone, Debug, PartialEq, Eq)]
pub enum AuthPlan {
    /// Submit a password.
    Password { password: String },
    /// Authenticate with key text held in memory.
    KeyText { key: String, passphrase: Option<String> },
    /// Authenticate with a key file.
    KeyFile { path: String, passphrase: Option<String> },
}

/// Whether `plan` is the way to authenticate with method `a`: key text when
/// it is given and not empty, else the key file.
pub open spec fn plans(a: AuthType, plan: AuthPlan) -> bool {
    match a {
        AuthType::Password { password } => plan == AuthPlan::Password { password },
        AuthType::PrivateKey { key_path, key_content, passphrase } => if text_or_empty(
            key_content,
        ).len() != 0 {
            plan == AuthPlan::KeyText { key: key_content->0, passphrase }
        } else {
            plan == AuthPlan::KeyFile { path: key_path, passphrase }
        },
    }
}

/// All that is settled about a connection before the network is touched.
#[derive(Clone, Debug, PartialEq, Eq)]
pub struct ConnectPlan {
    /// `host:port`, to resolve.
    pub address: String,
    pub username: String,
    pub auth: AuthPlan,
}

/// The address to resolve for a connection.
pub open spec fn address_of(c: SshConnection) -> Seq<char> {
    c.host@ + ":"@ + decimal(c.port as nat)
}

fn names_user_exec(o: &Option<String>) -> (r: bool)
    ensures
        r == names_user(*o),
{
    match o {
        Some(s) => trim(s.as_str()).unicode_len() != 0,
        None => false,
    }
}

/// Chooses the user name to log in as.
pub fn effective_username(
    configured: &str,
    env_user: &Option<String>,
    env_username: &Option<String>,
) -> (r: String)
    ensures
        r@ == username_of(configured@, *env_user, *env_username),
{
    let t = trim(configured);
    if t.unicode_len() != 0 {
        return t;
    }
    if names_user_exec(env_user) {
        match env_user {
            Some(u) => {
                return u.clone();
            },
            None => {},
        }
    }
    if names_user_exec(env_username) {
        match env_username {
            Some(u) => {
                return u.clone();
            },
            None => {},
        }
    }
    String::from_str("root")
}

/// Chooses how to authenticate; fails when a private-key method has neither
/// key text nor a key file.
pub fn plan_auth(auth: &AuthType) -> (r: Result<AuthPlan, EngineError>)
    ensures
        r is Err <==> lacks_key(*auth),
        r is Ok ==> plans(*auth, r->Ok_0),
        r is Err ==> r->Err_0.kind == ErrorKind::Auth,
{
    match auth {
        AuthType::Password { password } => Ok(AuthPlan::Password { password: password.clone() }),
        AuthType::PrivateKey { key_path, key_content, passphrase } => {
            let pass = match passphrase {
                Some(p) => Some(p.clone()),
                None => None,
            };
            match key_content {
                Some(c) => {
                    if c.unicode_len() != 0 {
                        return Ok(AuthPlan::KeyText { key: c.clone(), passphrase: pass });
                    }
                    if key_path.unicode_len() == 0 {
                        return Err(
                            EngineError::new(
                                ErrorKind::Auth,
                                "Both key_path and key_content are empty",
                            ),
                        );
                    }
                },
                None => {
                    if key_path.unicode_len() == 0 {
                        return Err(EngineError::new(ErrorKind::Auth, "key_path is empty"));
                    }
                },
            }
            Ok(AuthPlan::KeyFile { path: key_path.clone(), passphrase: pass })
        },
    }
}

/// Settles the address, user name and authentication of a connection, with
/// the environment's user names as given; fails, before any network use,
/// exactly when a private-key method has no key material.
pub fn prepare_connect(
    conn: &SshConnection,
    env_user: &Option<String>,
    env_username: &Option<String>,
) -> (r: Result<ConnectPlan, EngineError>)
    ensures
        r is Err <==> lacks_key(conn.auth_type),
        r is Err ==> r->Err_0.kind == ErrorKind::Auth,
        r is Ok ==> {
            &&& r->Ok_0.address@ == address_of(*conn)
            &&& r->Ok_0.username@ == username_of(conn.username@, *env_user, *env_username)
            &&& plans(conn.auth_type, r->Ok_0.auth)
        },
{
    let auth = match plan_auth(&conn.auth_type) {
        Ok(a) => a,
        Err(e) => {
            return Err(e);
        },
    };
    let mut address = conn.host.clone();
    push_text(&mut address, ":");
    push_decimal(&mut address, conn.port as u64);
    let username = effective_username(conn.username.as_str(), env_user, env_username);
    Ok(ConnectPlan { address, username, auth })
}

/// The error for a failed key authentication, with what to check.
pub fn key_auth_failure(cause: &str) -> (r: EngineError)
    ensures
        r.kind == ErrorKind::Auth,
        r.message@ == "Private key authentication failed: "@ + cause@
            + ". Please check: 1) Key format (must be valid PEM), 2) Passphrase if key is encrypted, 3) Username is correct"@,
{
    let mut m = String::from_str("Private key authentication failed: ");
    push_text(&mut m, cause);
    push_text(
        &mut m,
        ". Please check: 1) Key format (must be valid PEM), 2) Passphrase if key is encrypted, 3) Username is correct",
    );
    EngineError { kind: ErrorKind::Auth, message: m }
}

} // verus!
