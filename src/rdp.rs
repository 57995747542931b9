//! Remote-desktop connection files.
use vstd::prelude::*;
use crate::text::{decimal, push_decimal, push_text};

verus! {

/// A remote-desktop connection as the caller describes it.
#[derive(Clone, Debug, PartialEq, Eq)]
pub struct RdpConnection {
    pub id: String,
    pub name: String,
    pub host: String,
    pub port: u16,
    pub username: String,
    pub password: Option<String>,
    pub gateway_host: Option<String>,
    pub gateway_username: Option<String>,
    pub gateway_password: Option<String>,
    pub gateway_domain: Option<String>,
    pub resolution_width: Option<u32>,
    pub resolution_height: Option<u32>,
    pub color_depth: Option<u32>,
    pub cert_policy: Option<String>,
    pub redirect_clipboard: Option<bool>,
    pub redirect_audio: Option<bool>,
    pub redirect_drives: Option<bool>,
}

/// The text of an optional value, empty when absent.
pub open spec fn text_or_empty(o: Option<String>) -> Seq<char> {
    match o {
        Some(s) => s@,
        None => Seq::empty(),
    }
}

/// `1` or `0`.
pub open spec fn flag(b: bool) -> Seq<char> {
    if b { "1"@ } else { "0"@ }
}

/// Whether the certificate policy says to ignore certificate errors.
pub open spec fn ignores_certificates(c: RdpConnection) -> bool {
    c.cert_policy is Some && c.cert_policy->0@ == "ignore"@
}

/// The gateway user name, qualified by its domain when one is given.
pub open spec fn gateway_user(c: RdpConnection) -> Seq<char> {
    let user = text_or_empty(c.gateway_username);
    let domain = text_or_empty(c.gateway_domain);
    if domain.len() == 0 { user } else { domain + "\\"@ + user }
}

/// Address, user and credential prompting.
pub open spec fn rdp_head(c: RdpConnection) -> Seq<Seq<char>> {
    let address = seq!["full address:s:"@ + c.host@ + ":"@ + decimal(c.port as nat)];
    let user = if c.username@.len() != 0 { seq!["username:s:"@ + c.username@] } else { seq![] };
    let prompt = seq![
        "prompt for credentials:i:"@ + flag(text_or_empty(c.password).len() == 0),
        "promptcredentialonce:i:1"@,
    ];
    address + user + prompt
}

/// Screen size, colour depth and certificate checking.
pub open spec fn rdp_display(c: RdpConnection) -> Seq<Seq<char>> {
    let screen = if c.resolution_width is Some && c.resolution_height is Some {
        seq![
            "desktopwidth:i:"@ + decimal(c.resolution_width->0 as nat),
            "desktopheight:i:"@ + decimal(c.resolution_height->0 as nat),
            "screen mode id:i:1"@,
        ]
    } else {
        seq!["screen mode id:i:2"@]
    };
    let depth = if c.color_depth is Some {
        seq!["session bpp:i:"@ + decimal(c.color_depth->0 as nat)]
    } else {
        seq![]
    };
    let auth = if ignores_certificates(c) {
        seq!["authentication level:i:0"@]
    } else {
        seq!["authentication level:i:2"@]
    };
    screen + depth + auth
}

/// Clipboard, audio and drive redirection; clipboard on, audio and drives off by default.
pub open spec fn rdp_redirects(c: RdpConnection) -> Seq<Seq<char>> {
    let clipboard = match c.redirect_clipboard {
        Some(b) => b,
        None => true,
    };
    let audio = match c.redirect_audio {
        Some(b) => b,
        None => false,
    };
    let drives = match c.redirect_drives {
        Some(b) => b,
        None => false,
    };
    seq![
        "redirectclipboard:i:"@ + flag(clipboard),
        "audiomode:i:"@ + (if audio { "0"@ } else { "2"@ }),
        "drivestoredirect:s:"@ + (if drives { "*"@ } else { ""@ }),
    ]
}

/// Gateway lines, present when a gateway host is given.
pub open spec fn rdp_gateway(c: RdpConnection) -> Seq<Seq<char>> {
    let gateway = text_or_empty(c.gateway_host);
    if gateway.len() == 0 {
        seq![]
    } else if text_or_empty(c.gateway_username).len() == 0 {
        seq!["gatewayhostname:s:"@ + gateway, "gatewayusagemethod:i:1"@]
    } else {
        seq![
            "gatewayhostname:s:"@ + gateway,
            "gatewayusagemethod:i:1"@,
            "gatewayusername:s:"@ + gateway_user(c),
            "gatewaycredentialssource:i:4"@,
        ]
    }
}

/// The lines of a connection file, in order.
pub open spec fn rdp_lines(c: RdpConnection) -> Seq<Seq<char>> {
    rdp_head(c) + rdp_display(c) + rdp_redirects(c) + rdp_gateway(c)
}

/// Lines joined with a line feed between each two.
pub open spec fn join_lines(lines: Seq<Seq<char>>) -> Seq<char>
    decreases lines.len(),
{
    if lines.len() == 0 {
        Seq::empty()
    } else if lines.len() == 1 {
        lines[0]
    } else {
        join_lines(lines.drop_last()) + "\n"@ + lines.last()
    }
}

/// The views of a list of texts.
pub open spec fn views(v: Seq<String>) -> Seq<Seq<char>> {
    v.map_values(|s: String| s@)
}

fn text(t: &str) -> (r: String)
    ensures
        r@ == t@,
{
    String::from_str(t)
}

fn labelled(label: &str, value: &str) -> (r: String)
    ensures
        r@ == label@ + value@,
{
    let mut s = String::from_str(label);
    push_text(&mut s, value);
    s
}

fn labelled_number(label: &str, n: u64) -> (r: String)
    ensures
        r@ == label@ + decimal(n as nat),
{
    let mut s = String::from_str(label);
    push_decimal(&mut s, n);
    s
}

fn is_empty_or_absent(o: &Option<String>) -> (r: bool)
    ensures
        r == (text_or_empty(*o).len() == 0),
{
    match o {
        Some(s) => s.unicode_len() == 0,
        None => true,
    }
}

/// Joins lines with a line feed between each two.
pub fn join_with_newlines(lines: &Vec<String>) -> (r: String)
    ensures
        r@ == join_lines(views(lines@)),
{
    let mut out = String::new();
    let mut i: usize = 0;
    while i < lines.len()
        invariant
            i <= lines.len(),
            out@ == join_lines(views(lines@.subrange(0, i as int))),
        decreases lines.len() - i,
    {
        let ghost before = views(lines@.subrange(0, i as int));
        assert(views(lines@.subrange(0, i as int + 1)).drop_last() =~= before);
        if i > 0 {
            push_text(&mut out, "\n");
        }
        push_text(&mut out, lines[i].as_str());
        i = i + 1;
    }
    assert(lines@.subrange(0, lines.len() as int) =~= lines@);
    out
}

fn head_lines(conn: &RdpConnection) -> (lines: Vec<String>)
    ensures
        views(lines@) == rdp_head(*conn),
{
    let mut lines: Vec<String> = Vec::new();
    let mut address = labelled("full address:s:", conn.host.as_str());
    push_text(&mut address, ":");
    push_decimal(&mut address, conn.port as u64);
    lines.push(address);
    if conn.username.unicode_len() != 0 {
        lines.push(labelled("username:s:", conn.username.as_str()));
    }
    let prompt = is_empty_or_absent(&conn.password);
    lines.push(labelled("prompt for credentials:i:", if prompt { "1" } else { "0" }));
    lines.push(text("promptcredentialonce:i:1"));
    assert(views(lines@) =~= rdp_head(*conn));
    lines
}

fn display_lines(conn: &RdpConnection) -> (lines: Vec<String>)
    ensures
        views(lines@) == rdp_display(*conn),
{
    let mut lines: Vec<String> = Vec::new();
    match (conn.resolution_width, conn.resolution_height) {
        (Some(w), Some(h)) => {
            lines.push(labelled_number("desktopwidth:i:", w as u64));
            lines.push(labelled_number("desktopheight:i:", h as u64));
            lines.push(text("screen mode id:i:1"));
        },
        _ => {
            lines.push(text("screen mode id:i:2"));
        },
    }
    if let Some(depth) = conn.color_depth {
        lines.push(labelled_number("session bpp:i:", depth as u64));
    }
    let ignore = match &conn.cert_policy {
        Some(p) => *p == String::from_str("ignore"),
        None => false,
    };
    if ignore {
        lines.push(text("authentication level:i:0"));
    } else {
        lines.push(text("authentication level:i:2"));
    }
    assert(views(lines@) =~= rdp_display(*conn));
    lines
}

fn redirect_lines(conn: &RdpConnection) -> (lines: Vec<String>)
    ensures
        views(lines@) == rdp_redirects(*conn),
{
    let mut lines: Vec<String> = Vec::new();
    let clipboard = match conn.redirect_clipboard {
        Some(b) => b,
        None => true,
    };
    lines.push(labelled("redirectclipboard:i:", if clipboard { "1" } else { "0" }));
    let audio = match conn.redirect_audio {
        Some(b) => b,
        None => false,
    };
    lines.push(labelled("audiomode:i:", if audio { "0" } else { "2" }));
    let drives = match conn.redirect_drives {
        Some(b) => b,
        None => false,
    };
    lines.push(labelled("drivestoredirect:s:", if drives { "*" } else { "" }));
    assert(views(lines@) =~= rdp_redirects(*conn));
    lines
}

fn gateway_lines(conn: &RdpConnection) -> (lines: Vec<String>)
    ensures
        views(lines@) == rdp_gateway(*conn),
{
    let mut lines: Vec<String> = Vec::new();
    if let Some(gateway) = &conn.gateway_host {
        if gateway.unicode_len() != 0 {
            lines.push(labelled("gatewayhostname:s:", gateway.as_str()));
            lines.push(text("gatewayusagemethod:i:1"));
            if !is_empty_or_absent(&conn.gateway_username) {
                let user = match &conn.gateway_username {
                    Some(u) => u.clone(),
                    None => String::new(),
                };
                let full_user = match &conn.gateway_domain {
                    Some(d) if d.unicode_len() != 0 => {
                        let mut f = labelled(d.as_str(), "\\");
                        push_text(&mut f, user.as_str());
                        f
                    },
                    _ => user,
                };
                lines.push(labelled("gatewayusername:s:", full_user.as_str()));
                lines.push(text("gatewaycredentialssource:i:4"));
            }
        }
    }
    assert(views(lines@) =~= rdp_gateway(*conn));
    lines
}

/// Builds the text of a remote-desktop connection file.
pub fn build_rdp_content(conn: &RdpConnection) -> (r: String)
    ensures
        r@ == join_lines(rdp_lines(*conn)),
{
    let mut lines = head_lines(conn);
    let mut display = display_lines(conn);
    let mut redirects = redirect_lines(conn);
    let mut gateway = gateway_lines(conn);
    lines.append(&mut display);
    lines.append(&mut redirects);
    lines.append(&mut gateway);
    assert(views(lines@) =~= rdp_lines(*conn));
    join_with_newlines(&lines)
}

/// Command-line options for the FreeRDP client: target, credentials and display.
pub open spec fn freerdp_session_args(c: RdpConnection) -> Seq<Seq<char>> {
    let target = seq!["/v:"@ + c.host@ + ":"@ + decimal(c.port as nat)];
    let user = if c.username@.len() != 0 { seq!["/u:"@ + c.username@] } else { seq![] };
    let pass = if text_or_empty(c.password).len() != 0 {
        seq!["/p:"@ + text_or_empty(c.password)]
    } else {
        seq![]
    };
    let cert = if ignores_certificates(c) { seq!["/cert:ignore"@] } else { seq![] };
    let size = if c.resolution_width is Some && c.resolution_height is Some {
        seq![
            "/size:"@ + decimal(c.resolution_width->0 as nat) + "x"@ + decimal(
                c.resolution_height->0 as nat,
            ),
        ]
    } else {
        seq![]
    };
    let depth = if c.color_depth is Some {
        seq!["/bpp:"@ + decimal(c.color_depth->0 as nat)]
    } else {
        seq![]
    };
    target + user + pass + cert + size + depth
}

/// An option with a prefix when the value is present and not empty.
pub open spec fn option_arg(prefix: Seq<char>, o: Option<String>) -> Seq<Seq<char>> {
    if text_or_empty(o).len() != 0 { seq![prefix + text_or_empty(o)] } else { seq![] }
}

/// Command-line options for the FreeRDP client: clipboard and gateway.
pub open spec fn freerdp_gateway_args(c: RdpConnection) -> Seq<Seq<char>> {
    let clipboard = match c.redirect_clipboard {
        Some(b) => b,
        None => true,
    };
    seq![if clipboard { "+clipboard"@ } else { "-clipboard"@ }] + option_arg("/g:"@, c.gateway_host)
        + option_arg("/gu:"@, c.gateway_username) + option_arg("/gp:"@, c.gateway_password)
        + option_arg("/gd:"@, c.gateway_domain)
}

fn session_args(conn: &RdpConnection) -> (r: Vec<String>)
    ensures
        views(r@) == freerdp_session_args(*conn),
{
    let mut args: Vec<String> = Vec::new();
    let mut target = labelled("/v:", conn.host.as_str());
    push_text(&mut target, ":");
    push_decimal(&mut target, conn.port as u64);
    args.push(target);
    if conn.username.unicode_len() != 0 {
        args.push(labelled("/u:", conn.username.as_str()));
    }
    if let Some(p) = &conn.password {
        if p.unicode_len() != 0 {
            args.push(labelled("/p:", p.as_str()));
        }
    }
    let ignore = match &conn.cert_policy {
        Some(p) => *p == String::from_str("ignore"),
        None => false,
    };
    if ignore {
        args.push(text("/cert:ignore"));
    }
    if let (Some(w), Some(h)) = (conn.resolution_width, conn.resolution_height) {
        let mut size = labelled_number("/size:", w as u64);
        push_text(&mut size, "x");
        push_decimal(&mut size, h as u64);
        args.push(size);
    }
    if let Some(depth) = conn.color_depth {
        args.push(labelled_number("/bpp:", depth as u64));
    }
    assert(views(args@) =~= freerdp_session_args(*conn));
    args
}

fn push_option_arg(args: &mut Vec<String>, prefix: &str, o: &Option<String>)
    ensures
        views(final(args)@) == views(old(args)@) + option_arg(prefix@, *o),
{
    if let Some(v) = o {
        if v.unicode_len() != 0 {
            args.push(labelled(prefix, v.as_str()));
        }
    }
    assert(views(args@) =~= views(old(args)@) + option_arg(prefix@, *o));
}

fn gateway_args(conn: &RdpConnection) -> (r: Vec<String>)
    ensures
        views(r@) == freerdp_gateway_args(*conn),
{
    let mut args: Vec<String> = Vec::new();
    let clipboard = match conn.redirect_clipboard {
        Some(b) => b,
        None => true,
    };
    args.push(text(if clipboard { "+clipboard" } else { "-clipboard" }));
    assert(views(args@) =~= seq![if clipboard { "+clipboard"@ } else { "-clipboard"@ }]);
    push_option_arg(&mut args, "/g:", &conn.gateway_host);
    push_option_arg(&mut args, "/gu:", &conn.gateway_username);
    push_option_arg(&mut args, "/gp:", &conn.gateway_password);
    push_option_arg(&mut args, "/gd:", &conn.gateway_domain);
    assert(views(args@) =~= freerdp_gateway_args(*conn));
    args
}

/// The command-line options that open a connection with the FreeRDP client.
pub fn freerdp_args(conn: &RdpConnection) -> (r: Vec<String>)
    ensures
        views(r@) == freerdp_session_args(*conn) + freerdp_gateway_args(*conn),
{
    let mut args = session_args(conn);
    let mut rest = gateway_args(conn);
    args.append(&mut rest);
    assert(views(args@) =~= freerdp_session_args(*conn) + freerdp_gateway_args(*conn));
    args
}

/// The options that store a password for the Windows remote-desktop client:
/// present exactly when a password is given.
pub fn stored_credential_args(conn: &RdpConnection) -> (r: Option<Vec<String>>)
    ensures
        r is Some <==> text_or_empty(conn.password).len() != 0,
        r is Some ==> views(r->0@) == seq![
            "/generic:TERMSRV/"@ + conn.host@,
            "/user:"@ + conn.username@,
            "/pass:"@ + text_or_empty(conn.password),
        ],
{
    match &conn.password {
        Some(p) => {
            if p.unicode_len() == 0 {
                return None;
            }
            let mut args: Vec<String> = Vec::new();
            args.push(labelled("/generic:TERMSRV/", conn.host.as_str()));
            args.push(labelled("/user:", conn.username.as_str()));
            args.push(labelled("/pass:", p.as_str()));
            assert(views(args@) =~= seq![
                "/generic:TERMSRV/"@ + conn.host@,
                "/user:"@ + conn.username@,
                "/pass:"@ + text_or_empty(conn.password),
            ]);
            Some(args)
        },
        None => None,
    }
}

} // verus!
