//! The server side of the SOCKS5 handshake that a dynamic tunnel performs
//! with each client, as a state machine: the caller reads the number of
//! bytes that the handshake wants, hands them over, and writes back the
//! reply that comes out, until the handshake is ready or rejected.
use vstd::prelude::*;
use crate::text::{decimal, hex2, lossy_utf8, push_char, push_decimal, push_hex2, utf8_lossy};

verus! {

/// Where a handshake stands.
#[derive(Clone, Debug, PartialEq, Eq)]
pub enum Socks5Phase {
    /// Waiting for the version byte and the number of methods.
    Greeting,
    /// Waiting for the list of offered methods.
    Methods { count: u8 },
    /// Waiting for the request header: version, command, reserved, address type.
    Request,
    /// Waiting for an IPv4 address.
    Ipv4,
    /// Waiting for the length of a host name.
    DomainLength,
    /// Waiting for a host name.
    Domain { length: u8 },
    /// Waiting for an IPv6 address.
    Ipv6,
    /// Waiting for the big-endian port.
    Port { host: String },
    /// The client asked to connect to this target.
    Ready { host: String, port: u16 },
    /// The handshake failed; the connection is to be dropped.
    Rejected,
}

/// The reply to a client that does not offer "no authentication": `05 FF`.
pub open spec fn no_method_reply() -> Seq<u8> {
    seq![5u8, 0xFFu8]
}

/// The reply that selects "no authentication": `05 00`.
pub open spec fn method_accepted_reply() -> Seq<u8> {
    seq![5u8, 0u8]
}

/// The reply to a request that is not a SOCKS5 connect request: `05 07`
/// ("command not supported") with an all-zero IPv4 binding.
pub open spec fn command_rejected_reply() -> Seq<u8> {
    seq![5u8, 7u8, 0u8, 1u8, 0u8, 0u8, 0u8, 0u8, 0u8, 0u8]
}

/// The reply after the tunnel tried to reach the target: `05 00` on success,
/// `05 01` on failure, each with an all-zero IPv4 binding.
pub open spec fn connect_reply_bytes(success: bool) -> Seq<u8> {
    seq![5u8, if success { 0u8 } else { 1u8 }, 0u8, 1u8, 0u8, 0u8, 0u8, 0u8, 0u8, 0u8]
}

/// An IPv4 address in dotted-quad form.
pub open spec fn dotted_quad(b: Seq<u8>) -> Seq<char> {
    decimal(b[0] as nat) + "."@ + decimal(b[1] as nat) + "."@ + decimal(b[2] as nat) + "."@
        + decimal(b[3] as nat)
}

/// The first `n` 16-bit groups of an address, as four hex digits each, joined by `:`.
pub open spec fn hex_groups(b: Seq<u8>, n: nat) -> Seq<char>
    decreases n,
{
    if n == 0 {
        Seq::empty()
    } else if n == 1 {
        hex2(b[0]) + hex2(b[1])
    } else {
        hex_groups(b, (n - 1) as nat) + ":"@ + hex2(b[2 * n - 2]) + hex2(b[2 * n - 1])
    }
}

/// An IPv6 address as eight groups of four hex digits.
pub open spec fn ipv6_text(b: Seq<u8>) -> Seq<char> {
    hex_groups(b, 8)
}

/// How many bytes a phase waits for.
pub open spec fn wanted(p: Socks5Phase) -> nat {
    match p {
        Socks5Phase::Greeting => 2,
        Socks5Phase::Methods { count } => count as nat,
        Socks5Phase::Request => 4,
        Socks5Phase::Ipv4 => 4,
        Socks5Phase::DomainLength => 1,
        Socks5Phase::Domain { length } => length as nat,
        Socks5Phase::Ipv6 => 16,
        Socks5Phase::Port { .. } => 2,
        Socks5Phase::Ready { .. } => 0,
        Socks5Phase::Rejected => 0,
    }
}

/// Whether a phase ends the handshake.
pub open spec fn is_final(p: Socks5Phase) -> bool {
    p is Ready || p is Rejected
}

/// Whether a request header asks to connect over SOCKS5.
pub open spec fn is_connect_request(h: Seq<u8>) -> bool {
    h[0] == 5 && h[1] == 1
}

/// The phase that follows `pre` once `chunk` has been received.
pub open spec fn advances_to(pre: Socks5Phase, chunk: Seq<u8>, post: Socks5Phase) -> bool {
    match pre {
        Socks5Phase::Greeting => if chunk[0] == 5 {
            post == Socks5Phase::Methods { count: chunk[1] }
        } else {
            post == Socks5Phase::Rejected
        },
        Socks5Phase::Methods { .. } => if chunk.contains(0u8) {
            post == Socks5Phase::Request
        } else {
            post == Socks5Phase::Rejected
        },
        Socks5Phase::Request => if !is_connect_request(chunk) {
            post == Socks5Phase::Rejected
        } else if chunk[3] == 1 {
            post == Socks5Phase::Ipv4
        } else if chunk[3] == 3 {
            post == Socks5Phase::DomainLength
        } else if chunk[3] == 4 {
            post == Socks5Phase::Ipv6
        } else {
            post == Socks5Phase::Rejected
        },
        Socks5Phase::Ipv4 => match post {
            Socks5Phase::Port { host } => host@ == dotted_quad(chunk),
            _ => false,
        },
        Socks5Phase::DomainLength => post == Socks5Phase::Domain { length: chunk[0] },
        Socks5Phase::Domain { .. } => match post {
            Socks5Phase::Port { host } => host@ == lossy_utf8(chunk),
            _ => false,
        },
        Socks5Phase::Ipv6 => match post {
            Socks5Phase::Port { host } => host@ == ipv6_text(chunk),
            _ => false,
        },
        Socks5Phase::Port { host } => match post {
            Socks5Phase::Ready { host: h, port } => h@ == host@ && port as int == chunk[0] as int
                * 256 + chunk[1] as int,
            _ => false,
        },
        _ => post == pre,
    }
}

/// What the server writes back once `chunk` has been received in phase `pre`.
pub open spec fn reply_to(pre: Socks5Phase, chunk: Seq<u8>) -> Seq<u8> {
    match pre {
        Socks5Phase::Methods { .. } => if chunk.contains(0u8) {
            method_accepted_reply()
        } else {
            no_method_reply()
        },
        Socks5Phase::Request => if !is_connect_request(chunk) {
            command_rejected_reply()
        } else {
            Seq::empty()
        },
        _ => Seq::empty(),
    }
}

/// One SOCKS5 handshake with one client.
pub struct Socks5Handshake {
    pub phase: Socks5Phase,
}

fn contains_zero(b: &[u8]) -> (r: bool)
    ensures
        r == b@.contains(0u8),
{
    let mut i: usize = 0;
    while i < b.len()
        invariant
            i <= b.len(),
            forall|j: int| 0 <= j < i ==> b@[j] != 0u8,
        decreases b.len() - i,
    {
        if b[i] == 0u8 {
            return true;
        }
        i = i + 1;
    }
    false
}

fn format_ipv4(b: &[u8]) -> (r: String)
    requires
        b@.len() == 4,
    ensures
        r@ == dotted_quad(b@),
{
    let mut s = String::new();
    push_decimal(&mut s, b[0] as u64);
    push_char(&mut s, '.');
    push_decimal(&mut s, b[1] as u64);
    push_char(&mut s, '.');
    push_decimal(&mut s, b[2] as u64);
    push_char(&mut s, '.');
    push_decimal(&mut s, b[3] as u64);
    proof {
        reveal_strlit(".");
    }
    assert(s@ =~= dotted_quad(b@));
    s
}

fn format_ipv6(b: &[u8]) -> (r: String)
    requires
        b@.len() == 16,
    ensures
        r@ == ipv6_text(b@),
{
    let mut s = String::new();
    let mut i: usize = 0;
    while i < 8
        invariant
            b@.len() == 16,
            i <= 8,
            s@ == hex_groups(b@, i as nat),
        decreases 8 - i,
    {
        if i > 0 {
            push_char(&mut s, ':');
        }
        push_hex2(&mut s, b[2 * i]);
        push_hex2(&mut s, b[2 * i + 1]);
        proof {
            reveal_strlit(":");
            reveal_with_fuel(hex_groups, 2);
        }
        assert(s@ =~= hex_groups(b@, (i + 1) as nat));
        i = i + 1;
    }
    s
}

impl Socks5Handshake {
    /// A handshake that waits for the client's greeting.
    pub fn new() -> (r: Self)
        ensures
            r.phase == Socks5Phase::Greeting,
    {
        Socks5Handshake { phase: Socks5Phase::Greeting }
    }

    /// Whether the handshake has ended, either way.
    pub fn is_finished(&self) -> (r: bool)
        ensures
            r == is_final(self.phase),
    {
        match self.phase {
            Socks5Phase::Ready { .. } => true,
            Socks5Phase::Rejected => true,
            _ => false,
        }
    }

    /// How many bytes to read from the client next.
    pub fn bytes_wanted(&self) -> (r: usize)
        ensures
            r == wanted(self.phase),
    {
        match &self.phase {
            Socks5Phase::Greeting => 2,
            Socks5Phase::Methods { count } => *count as usize,
            Socks5Phase::Request => 4,
            Socks5Phase::Ipv4 => 4,
            Socks5Phase::DomainLength => 1,
            Socks5Phase::Domain { length } => *length as usize,
            Socks5Phase::Ipv6 => 16,
            Socks5Phase::Port { .. } => 2,
            Socks5Phase::Ready { .. } => 0,
            Socks5Phase::Rejected => 0,
        }
    }

    /// Takes the bytes that were read and returns what to write back (possibly nothing).
    pub fn receive(&mut self, chunk: &[u8]) -> (reply: Vec<u8>)
        requires
            !is_final(old(self).phase),
            chunk@.len() == wanted(old(self).phase),
        ensures
            advances_to(old(self).phase, chunk@, final(self).phase),
            reply@ == reply_to(old(self).phase, chunk@),
    {
        let mut reply: Vec<u8> = Vec::new();
        let next = match &self.phase {
            Socks5Phase::Greeting => {
                if chunk[0] == 5u8 {
                    Socks5Phase::Methods { count: chunk[1] }
                } else {
                    Socks5Phase::Rejected
                }
            },
            Socks5Phase::Methods { .. } => {
                if contains_zero(chunk) {
                    reply = vec![5u8, 0u8];
                    Socks5Phase::Request
                } else {
                    reply = vec![5u8, 0xFFu8];
                    Socks5Phase::Rejected
                }
            },
            Socks5Phase::Request => {
                if chunk[0] != 5u8 || chunk[1] != 1u8 {
                    reply = vec![5u8, 7u8, 0u8, 1u8, 0u8, 0u8, 0u8, 0u8, 0u8, 0u8];
                    Socks5Phase::Rejected
                } else if chunk[3] == 1u8 {
                    Socks5Phase::Ipv4
                } else if chunk[3] == 3u8 {
                    Socks5Phase::DomainLength
                } else if chunk[3] == 4u8 {
                    Socks5Phase::Ipv6
                } else {
                    Socks5Phase::Rejected
                }
            },
            Socks5Phase::Ipv4 => Socks5Phase::Port { host: format_ipv4(chunk) },
            Socks5Phase::DomainLength => Socks5Phase::Domain { length: chunk[0] },
            Socks5Phase::Domain { .. } => Socks5Phase::Port { host: utf8_lossy(chunk) },
            Socks5Phase::Ipv6 => Socks5Phase::Port { host: format_ipv6(chunk) },
            Socks5Phase::Port { host } => {
                let port = (chunk[0] as u16) * 256 + chunk[1] as u16;
                Socks5Phase::Ready { host: host.clone(), port }
            },
            Socks5Phase::Ready { .. } => Socks5Phase::Rejected,
            Socks5Phase::Rejected => Socks5Phase::Rejected,
        };
        self.phase = next;
        reply
    }
}

/// The reply that tells the client whether its target was reached.
pub fn connect_reply(success: bool) -> (r: Vec<u8>)
    ensures
        r@ == connect_reply_bytes(success),
{
    let status: u8 = if success { 0 } else { 1 };
    let r = vec![5u8, status, 0u8, 1u8, 0u8, 0u8, 0u8, 0u8, 0u8, 0u8];
    assert(r@ =~= connect_reply_bytes(success));
    r
}

} // verus!
