//! Naming of generated key files.
use vstd::prelude::*;
use crate::error::{EngineError, ErrorKind};
use crate::rdp::views;
use crate::text::{decimal, push_char, push_decimal, trim, trimmed};

verus! {

/// `char::is_ascii_alphanumeric`.
pub open spec fn is_ascii_alnum(c: char) -> bool {
    ('0' <= c && c <= '9') || ('a' <= c && c <= 'z') || ('A' <= c && c <= 'Z')
}

/// `char::is_ascii_whitespace`: space, tab, line feed, form feed, carriage return.
pub open spec fn is_ascii_space(c: char) -> bool {
    c == ' ' || c == '\t' || c == '\n' || c == '\x0C' || c == '\r'
}

/// Letters, digits, `-` and `_` kept; ASCII whitespace turned into `-`; the rest dropped.
pub open spec fn filename_chars(s: Seq<char>) -> Seq<char>
    decreases s.len(),
{
    if s.len() == 0 {
        Seq::empty()
    } else {
        let c = s.last();
        let rest = filename_chars(s.drop_last());
        if is_ascii_alnum(c) || c == '-' || c == '_' {
            rest.push(c)
        } else if is_ascii_space(c) {
            rest.push('-')
        } else {
            rest
        }
    }
}

/// A file-name-safe form of a key name; `key` when nothing is left.
pub open spec fn safe_filename(s: Seq<char>) -> Seq<char> {
    if filename_chars(s).len() == 0 { seq!['k', 'e', 'y'] } else { filename_chars(s) }
}

fn is_alnum(c: char) -> (r: bool)
    ensures
        r == is_ascii_alnum(c),
{
    ('0' <= c && c <= '9') || ('a' <= c && c <= 'z') || ('A' <= c && c <= 'Z')
}

/// Makes a key name safe to use as a file name.
pub fn sanitize_filename(input: &str) -> (r: String)
    ensures
        r@ == safe_filename(input@),
{
    let n = input.unicode_len();
    let mut out = String::new();
    let mut i: usize = 0;
    while i < n
        invariant
            n == input@.len(),
            i <= n,
            out@ == filename_chars(input@.subrange(0, i as int)),
        decreases n - i,
    {
        let ch = input.get_char(i);
        assert(input@.subrange(0, i as int + 1).drop_last() =~= input@.subrange(0, i as int));
        if is_alnum(ch) || ch == '-' || ch == '_' {
            push_char(&mut out, ch);
        } else if ch == ' ' || ch == '\t' || ch == '\n' || ch == '\x0C' || ch == '\r' {
            push_char(&mut out, '-');
        }
        i = i + 1;
    }
    assert(input@.subrange(0, n as int) =~= input@);
    if out.unicode_len() == 0 {
        let mut k = String::new();
        push_char(&mut k, 'k');
        push_char(&mut k, 'e');
        push_char(&mut k, 'y');
        assert(k@ =~= seq!['k', 'e', 'y']);
        k
    } else {
        out
    }
}

/// At most the first 32 characters of a text.
pub open spec fn first_32(s: Seq<char>) -> Seq<char> {
    if s.len() <= 32 { s } else { s.subrange(0, 32) }
}

/// The file name of a generated key: the safe form of its name, cut to 32
/// characters, `_`, and the time of generation in milliseconds.
pub fn key_file_stem(name: &str, millis: u64) -> (r: String)
    ensures
        r@ == first_32(safe_filename(name@)) + "_"@ + decimal(millis as nat),
{
    let safe = sanitize_filename(name);
    let n = safe.unicode_len();
    let cut = if n <= 32 { n } else { 32 };
    let mut stem = String::from_str(safe.as_str().substring_char(0, cut));
    assert(safe@.subrange(0, n as int) =~= safe@);
    push_char(&mut stem, '_');
    push_decimal(&mut stem, millis);
    proof {
        reveal_strlit("_");
    }
    assert(stem@ =~= first_32(safe_filename(name@)) + "_"@ + decimal(millis as nat));
    stem
}

/// The key-generation options for an algorithm: `ed25519`, or 4096-bit
/// `rsa4096`; any other algorithm is refused.
pub fn keygen_algorithm_args(algorithm: &str) -> (r: Result<Vec<String>, EngineError>)
    ensures
        r is Ok <==> (algorithm@ == "ed25519"@ || algorithm@ == "rsa4096"@),
        algorithm@ == "ed25519"@ ==> r is Ok && views(r->Ok_0@) == seq!["-t"@, "ed25519"@],
        algorithm@ == "rsa4096"@ ==> r is Ok && views(r->Ok_0@) == seq![
            "-t"@,
            "rsa"@,
            "-b"@,
            "4096"@,
        ],
        r is Err ==> r->Err_0.kind == ErrorKind::InvalidConfig,
{
    proof {
        reveal_strlit("ed25519");
        reveal_strlit("rsa4096");
        assert("ed25519"@[0] != "rsa4096"@[0]);
    }
    let a = String::from_str(algorithm);
    if a == String::from_str("ed25519") {
        let v = vec![String::from_str("-t"), String::from_str("ed25519")];
        assert(views(v@) =~= seq!["-t"@, "ed25519"@]);
        Ok(v)
    } else if a == String::from_str("rsa4096") {
        let v = vec![
            String::from_str("-t"),
            String::from_str("rsa"),
            String::from_str("-b"),
            String::from_str("4096"),
        ];
        assert(views(v@) =~= seq!["-t"@, "rsa"@, "-b"@, "4096"@]);
        Ok(v)
    } else {
        Err(EngineError::new(ErrorKind::InvalidConfig, "Unsupported algorithm"))
    }
}

/// The message for a failed key generation: the tool's trimmed error
/// output, or a fixed message when that is blank.
pub fn keygen_failure_message(stderr_text: &str) -> (r: String)
    ensures
        r@ == if trimmed(stderr_text@).len() == 0 { "ssh-keygen failed"@ } else { trimmed(stderr_text@) },
{
    let t = trim(stderr_text);
    if t.unicode_len() == 0 {
        String::from_str("ssh-keygen failed")
    } else {
        t
    }
}

} // verus!
