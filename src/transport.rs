//! Error codes reported by the encrypted transport.
use vstd::prelude::*;

verus! {

/// The transport library's error code, as plain values.
#[derive(Clone, Copy, Debug, PartialEq, Eq, Structural)]
pub enum TransportCode {
    /// A code of the transport session (`LIBSSH2_ERROR_*`).
    Session(i32),
    /// A code of the file-transfer subsystem (`LIBSSH2_FX_*`).
    Sftp(i32),
}

/// What `ssh2::Error::code` returns for an error: the code it carries.
pub uninterp spec fn code_of(e: ssh2::Error) -> TransportCode;

#[verifier::external_type_specification]
#[verifier::external_body]
pub struct ExSsh2Error(ssh2::Error);

/// Relies on `ssh2::Error::code`: reads the code that the error carries.
#[verifier::external_body]
pub(crate) fn transport_code(e: &ssh2::Error) -> (r: TransportCode)
    ensures
        r == code_of(*e),
{
    match e.code() {
        ssh2::ErrorCode::Session(c) => TransportCode::Session(c),
        ssh2::ErrorCode::SFTP(c) => TransportCode::Sftp(c),
    }
}

/// The session code with which the transport reports that a call would block.
pub const SESSION_WOULD_BLOCK: i32 = -37;

/// Whether a transport code says that the call would block and may be retried.
pub fn is_would_block(code: TransportCode) -> (r: bool)
    ensures
        r == (code == TransportCode::Session(SESSION_WOULD_BLOCK)),
{
    match code {
        TransportCode::Session(c) => c == SESSION_WOULD_BLOCK,
        TransportCode::Sftp(_) => false,
    }
}

/// Whether a transport error says that the call would block.
pub fn error_would_block(e: &ssh2::Error) -> (r: bool)
    ensures
        r == (code_of(*e) == TransportCode::Session(SESSION_WOULD_BLOCK)),
{
    is_would_block(transport_code(e))
}

} // verus!
