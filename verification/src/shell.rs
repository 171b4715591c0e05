//! Building the command lines that open a host terminal running this
//! program in exec-session mode.
use vstd::prelude::*;

use crate::text::{chars_of, is_ascii_alnum, is_ascii_alnum_spec, push_char, push_str};

verus! {

/// Hidden command-line flag that starts an exec session instead of the
/// TUI: the next two arguments are the sandbox name and the command line.
pub const EXEC_TERMINAL_FLAG: &'static str = "--exec-terminal";

/// A character a POSIX shell reads literally outside quotes.
pub open spec fn is_shell_safe_char(c: char) -> bool {
    is_ascii_alnum_spec(c) || c == '-' || c == '_' || c == '.' || c == '/' || c == ':' || c == '@'
        || c == '%' || c == ',' || c == '+' || c == '='
}

/// `s` needs no quoting: it is non-empty and every character is safe.
pub open spec fn is_shell_safe(s: Seq<char>) -> bool {
    s.len() > 0 && forall|i: int| 0 <= i < s.len() ==> is_shell_safe_char(#[trigger] s[i])
}

/// `s` with each `'` written as `'\''`.
pub open spec fn single_quotes_escaped(s: Seq<char>) -> Seq<char>
    decreases s.len(),
{
    if s.len() == 0 {
        seq![]
    } else {
        single_quotes_escaped(s.drop_last()) + if s.last() == '\'' {
            seq!['\'', '\\', '\'', '\'']
        } else {
            seq![s.last()]
        }
    }
}

/// `s` as one shell word: unchanged when safe, else in single quotes.
pub open spec fn shell_quoted(s: Seq<char>) -> Seq<char> {
    if is_shell_safe(s) {
        s
    } else {
        seq!['\''] + single_quotes_escaped(s) + seq!['\'']
    }
}

fn shell_safe_char(c: char) -> (r: bool)
    ensures
        r == is_shell_safe_char(c),
{
    is_ascii_alnum(c) || c == '-' || c == '_' || c == '.' || c == '/' || c == ':' || c == '@'
        || c == '%' || c == ',' || c == '+' || c == '='
}

/// Quote `s` as one POSIX shell word (see [`shell_quoted`]).
pub fn shell_quote(s: &str) -> (r: String)
    ensures
        r@ == shell_quoted(s@),
{
    let cs = chars_of(s);
    let n = cs.len();
    let mut safe = n > 0;
    for i in 0..n
        invariant
            n == cs@.len(),
            cs@ == s@,
            safe == (n > 0 && forall|j: int| 0 <= j < i ==> is_shell_safe_char(#[trigger] cs@[j])),
    {
        if !shell_safe_char(cs[i]) {
            safe = false;
        }
    }
    if safe {
        let mut out = String::new();
        push_str(&mut out, s);
        return out;
    }
    let mut out = String::new();
    push_char(&mut out, '\'');
    for i in 0..n
        invariant
            n == cs@.len(),
            cs@ == s@,
            out@ == seq!['\''] + single_quotes_escaped(cs@.take(i as int)),
    {
        let c = cs[i];
        assert(cs@.take(i + 1).drop_last() =~= cs@.take(i as int));
        if c == '\'' {
            push_char(&mut out, '\'');
            push_char(&mut out, '\\');
            push_char(&mut out, '\'');
            push_char(&mut out, '\'');
        } else {
            push_char(&mut out, c);
        }
        assert(out@ =~= seq!['\''] + single_quotes_escaped(cs@.take(i + 1)));
    }
    assert(cs@.take(n as int) =~= cs@);
    push_char(&mut out, '\'');
    assert(out@ =~= shell_quoted(s@));
    out
}

/// The arguments quoted and joined with spaces.
pub open spec fn shell_joined(args: Seq<Seq<char>>) -> Seq<char>
    decreases args.len(),
{
    if args.len() == 0 {
        seq![]
    } else if args.len() == 1 {
        shell_quoted(args[0])
    } else {
        shell_joined(args.drop_last()) + seq![' '] + shell_quoted(args.last())
    }
}

/// Join arguments into one POSIX shell command line, quoting each (see
/// [`shell_joined`]).
pub fn shell_join(args: &Vec<String>) -> (r: String)
    ensures
        r@ == shell_joined(args@.map_values(|a: String| a@)),
{
    let ghost views = args@.map_values(|a: String| a@);
    let mut out = String::new();
    let n = args.len();
    for k in 0..n
        invariant
            n == args@.len(),
            views == args@.map_values(|a: String| a@),
            out@ == shell_joined(views.take(k as int)),
    {
        assert(views.take(k + 1).drop_last() =~= views.take(k as int));
        assert(views.take(k + 1).last() == args@[k as int]@);
        if k > 0 {
            push_char(&mut out, ' ');
        }
        let q = shell_quote(args[k].as_str());
        push_str(&mut out, q.as_str());
        assert(out@ =~= shell_joined(views.take(k + 1)));
    }
    assert(views.take(n as int) =~= views);
    out
}

/// `s` as the inside of an AppleScript string literal: each `\` and `"`
/// preceded by a backslash.
pub open spec fn applescript_escaped(s: Seq<char>) -> Seq<char>
    decreases s.len(),
{
    if s.len() == 0 {
        seq![]
    } else {
        applescript_escaped(s.drop_last()) + if s.last() == '\\' || s.last() == '"' {
            seq!['\\', s.last()]
        } else {
            seq![s.last()]
        }
    }
}

/// Escape `s` for an AppleScript string literal (see
/// [`applescript_escaped`]).
pub fn escape_applescript(s: &str) -> (r: String)
    ensures
        r@ == applescript_escaped(s@),
{
    let cs = chars_of(s);
    let n = cs.len();
    let mut out = String::new();
    for i in 0..n
        invariant
            n == cs@.len(),
            cs@ == s@,
            out@ == applescript_escaped(cs@.take(i as int)),
    {
        let c = cs[i];
        assert(cs@.take(i + 1).drop_last() =~= cs@.take(i as int));
        if c == '\\' || c == '"' {
            push_char(&mut out, '\\');
        }
        push_char(&mut out, c);
        assert(out@ =~= applescript_escaped(cs@.take(i + 1)));
    }
    assert(cs@.take(n as int) =~= cs@);
    out
}

} // verus!
