//! Source tokens and diagnostic lines.
//!
//! A token is one positional argument naming a source. The values `-`,
//! `/dev/stdin` and `/proc/self/fd/0` all denote the process's inherited
//! input stream; everything else is a filesystem path. Every diagnostic the
//! program emits has the shape `<progname>: <token>: <message>`, and the
//! exact text is pinned down here so callers and tests can rely on it.

use vstd::prelude::*;
use vstd::string::StringExecFns;

verus! {

/// Whether a token denotes the inherited input stream.
pub open spec fn is_inherited(token: Seq<char>) -> bool {
    token == "-"@ || token == "/dev/stdin"@ || token == "/proc/self/fd/0"@
}

/// The name a diagnostic shows for a token: inherited input is always
/// reported as `-`, whichever spelling the caller used; a path is reported
/// as given.
pub open spec fn displayed(token: Seq<char>) -> Seq<char> {
    if is_inherited(token) {
        "-"@
    } else {
        token
    }
}

/// The text of one diagnostic line: `<progname>: <token>: <message>`.
pub open spec fn diagnostic_line(prog: Seq<char>, token: Seq<char>, msg: Seq<char>) -> Seq<char> {
    prog + ": "@ + token + ": "@ + msg
}

/// String equality by contents.
fn str_eq(a: &str, b: &str) -> (r: bool)
    ensures
        r == (a@ == b@),
{
    let left = String::from_str(a);
    let right = String::from_str(b);
    left == right
}

/// Decide whether a token denotes the inherited input stream.
pub fn is_inherited_token(token: &str) -> (r: bool)
    ensures
        r == is_inherited(token@),
{
    str_eq(token, "-") || str_eq(token, "/dev/stdin") || str_eq(token, "/proc/self/fd/0")
}

/// The name to report for a token in a diagnostic.
pub fn display_token<'a>(token: &'a str) -> (r: &'a str)
    ensures
        r@ == displayed(token@),
{
    if is_inherited_token(token) {
        "-"
    } else {
        token
    }
}

/// Build one diagnostic line.
pub fn diagnostic(prog: &str, token: &str, msg: &str) -> (r: String)
    ensures
        r@ == diagnostic_line(prog@, token@, msg@),
{
    let mut line = String::from_str(prog);
    line.append(": ");
    line.append(token);
    line.append(": ");
    line.append(msg);
    proof {
        assert(line@ =~= diagnostic_line(prog@, token@, msg@));
    }
    line
}

/// Why opening a source failed.
pub enum OpenFailure {
    /// The path does not exist.
    NotFound,
    /// The caller may not read the path.
    PermissionDenied,
    /// Any other kernel message, passed through as text.
    Other(String),
}

/// The message text for an open failure.
pub open spec fn open_failure_text(failure: OpenFailure) -> Seq<char> {
    match failure {
        OpenFailure::NotFound => "No such file or directory"@,
        OpenFailure::PermissionDenied => "Permission denied"@,
        OpenFailure::Other(m) => m@,
    }
}

/// The diagnostic for a source that could not be opened.
pub fn open_diagnostic(prog: &str, token: &str, failure: &OpenFailure) -> (r: String)
    ensures
        r@ == diagnostic_line(prog@, token@, open_failure_text(*failure)),
{
    match failure {
        OpenFailure::NotFound => diagnostic(prog, token, "No such file or directory"),
        OpenFailure::PermissionDenied => diagnostic(prog, token, "Permission denied"),
        OpenFailure::Other(m) => diagnostic(prog, token, m.as_str()),
    }
}

/// The diagnostic for a refused self-copy. The token is shown under its
/// display name: inherited input is reported as `-`.
pub fn guard_diagnostic(prog: &str, token: &str) -> (r: String)
    ensures
        r@ == diagnostic_line(prog@, displayed(token@), "input file is output file"@),
{
    let shown = display_token(token);
    diagnostic(prog, shown, "input file is output file")
}

} // verus!
