//! Local terminals: which shell to start, where, and at what size.
use vstd::prelude::*;
use crate::text::{trim, trimmed};

verus! {

/// What the platform and its environment say about shells, as plain values.
#[derive(Clone, Debug, PartialEq, Eq)]
pub struct ShellEnvironment {
    /// Whether the platform is Windows-like.
    pub windows: bool,
    /// The `SHELL` variable.
    pub shell: Option<String>,
    /// Whether the file that `SHELL` names exists.
    pub shell_exists: bool,
    /// The `COMSPEC` variable.
    pub comspec: Option<String>,
    /// The system PowerShell, when it exists.
    pub powershell: Option<String>,
}

/// Whether an optional text is present and not blank.
pub open spec fn is_given(o: Option<String>) -> bool {
    o is Some && trimmed(o->0@).len() != 0
}

/// The shell to start: the requested one, trimmed, when it is not blank;
/// else on Windows-like platforms `SHELL` if that file exists, then
/// `COMSPEC`, then PowerShell, then `cmd.exe`; elsewhere `SHELL`, then `/bin/bash`.
pub open spec fn shell_of(requested: Option<String>, env: ShellEnvironment) -> Seq<char> {
    if is_given(requested) {
        trimmed(requested->0@)
    } else if env.windows {
        if is_given(env.shell) && env.shell_exists {
            env.shell->0@
        } else if is_given(env.comspec) {
            env.comspec->0@
        } else if env.powershell is Some {
            env.powershell->0@
        } else {
            "cmd.exe"@
        }
    } else if is_given(env.shell) {
        env.shell->0@
    } else {
        "/bin/bash"@
    }
}

fn given(o: &Option<String>) -> (r: bool)
    ensures
        r == is_given(*o),
{
    match o {
        Some(s) => trim(s.as_str()).unicode_len() != 0,
        None => false,
    }
}

fn text_of(o: &Option<String>) -> (r: String)
    requires
        o is Some,
    ensures
        r@ == o->0@,
{
    match o {
        Some(s) => s.clone(),
        None => String::new(),
    }
}

/// Chooses the shell that a local terminal starts.
pub fn resolve_shell_path(requested: &Option<String>, env: &ShellEnvironment) -> (r: String)
    ensures
        r@ == shell_of(*requested, *env),
{
    if let Some(s) = requested {
        let t = trim(s.as_str());
        if t.unicode_len() != 0 {
            return t;
        }
    }
    if env.windows {
        if given(&env.shell) && env.shell_exists {
            return text_of(&env.shell);
        }
        if given(&env.comspec) {
            return text_of(&env.comspec);
        }
        if env.powershell.is_some() {
            return text_of(&env.powershell);
        }
        return String::from_str("cmd.exe");
    }
    if given(&env.shell) {
        text_of(&env.shell)
    } else {
        String::from_str("/bin/bash")
    }
}

/// The home directory: `USERPROFILE` on Windows-like platforms, `HOME`
/// elsewhere, when it is not blank.
pub fn resolve_home_dir(windows: bool, userprofile: &Option<String>, home: &Option<String>) -> (r:
    Option<String>)
    ensures
        r is Some <==> is_given(if windows { *userprofile } else { *home }),
        r is Some ==> r->0@ == (if windows { *userprofile } else { *home })->0@,
{
    let chosen = if windows { userprofile } else { home };
    if given(chosen) {
        Some(text_of(chosen))
    } else {
        None
    }
}

/// A terminal dimension as the pseudo-terminal takes it, capped at the largest it holds.
pub fn pty_dimension(n: u32) -> (r: u16)
    ensures
        r as u32 == if n > 65535 { 65535 } else { n },
{
    if n > 65535 {
        65535
    } else {
        n as u16
    }
}

} // verus!
