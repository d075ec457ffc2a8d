use vstd::prelude::*;
use vstd::string::*;

use crate::version::{Version, segment};

verus! {

/// The shells that a virtual environment can be activated from.
#[derive(Debug, Clone, Copy, PartialEq, Eq, Structural)]
pub enum Shell {
    Bash,
    Zsh,
    Fish,
    Nushell,
    Csh,
    Powershell,
    Cmd,
}

/// `s` holds a space.
pub open spec fn has_space(s: Seq<char>) -> bool {
    exists|i: int| 0 <= i < s.len() && s[i] == ' '
}

/// `s` with each single quote written as `'"'"'`: close the quoted text, add
/// a double-quoted single quote, and reopen.
pub open spec fn escape_single_quotes(s: Seq<char>) -> Seq<char>
    decreases s.len(),
{
    if s.len() == 0 {
        Seq::empty()
    } else {
        escape_single_quotes(s.drop_last()) + if s.last() == '\'' {
            seq!['\'', '"', '\'', '"', '\'']
        } else {
            seq![s.last()]
        }
    }
}

/// `s` quoted for a POSIX shell: unchanged without a space, else in single quotes.
pub open spec fn posix_quoted(s: Seq<char>) -> Seq<char> {
    if has_space(s) {
        seq!['\''] + escape_single_quotes(s) + seq!['\'']
    } else {
        s
    }
}

/// `s` quoted for PowerShell or cmd: unchanged without a space, else in double
/// quotes, behind a `&` invocation on PowerShell.
pub open spec fn windows_quoted(s: Seq<char>, shell: Shell) -> Seq<char> {
    if has_space(s) {
        if shell == Shell::Powershell {
            seq!['&', ' ', '"'] + s + seq!['"']
        } else {
            seq!['"'] + s + seq!['"']
        }
    } else {
        s
    }
}

fn contains_space(s: &str) -> (r: bool)
    ensures
        r == has_space(s@),
{
    let n = s.unicode_len();
    let mut i: usize = 0;
    while i < n
        invariant
            n == s@.len(),
            i <= n,
            forall|k: int| 0 <= k < i ==> s@[k] != ' ',
        decreases n - i,
    {
        if s.get_char(i) == ' ' {
            return true;
        }
        i = i + 1;
    }
    false
}

/// Quote a displayed path, if necessary, for safe use in a POSIX shell command.
pub fn shlex_posix(executable: &str) -> (r: String)
    ensures
        r@ == posix_quoted(executable@),
{
    if !contains_space(executable) {
        return String::from_str(executable);
    }
    let n = executable.unicode_len();
    let mut out = String::from_str("'");
    proof {
        reveal_strlit("'");
    }
    let mut i: usize = 0;
    while i < n
        invariant
            n == executable@.len(),
            i <= n,
            out@ == seq!['\''] + escape_single_quotes(executable@.subrange(0, i as int)),
        decreases n - i,
    {
        let c = executable.get_char(i);
        let ghost before = executable@.subrange(0, i as int);
        assert(executable@.subrange(0, i as int + 1).drop_last() =~= before);
        if c == '\'' {
            out.append("'\"'\"'");
            proof {
                reveal_strlit("'\"'\"'");
            }
        } else {
            out.append(executable.substring_char(i, i + 1));
        }
        i = i + 1;
        assert(out@ =~= seq!['\''] + escape_single_quotes(executable@.subrange(0, i as int)));
    }
    assert(executable@.subrange(0, n as int) =~= executable@);
    out.append("'");
    proof {
        reveal_strlit("'");
    }
    out
}

/// Quote a displayed path, if necessary, for safe use in PowerShell or cmd.
pub fn shlex_windows(executable: &str, shell: Shell) -> (r: String)
    ensures
        r@ == windows_quoted(executable@, shell),
{
    if !contains_space(executable) {
        return String::from_str(executable);
    }
    let mut out = if shell == Shell::Powershell {
        String::from_str("& \"")
    } else {
        String::from_str("\"")
    };
    proof {
        reveal_strlit("& \"");
        reveal_strlit("\"");
    }
    out.append(executable);
    out.append("\"");
    assert(out@ =~= windows_quoted(executable@, shell));
    out
}

/// The file name of the activation script for a shell.
pub open spec fn script_name(shell: Shell) -> Seq<char> {
    match shell {
        Shell::Fish => seq!['a', 'c', 't', 'i', 'v', 'a', 't', 'e', '.', 'f', 'i', 's', 'h'],
        Shell::Nushell => seq!['a', 'c', 't', 'i', 'v', 'a', 't', 'e', '.', 'n', 'u'],
        Shell::Csh => seq!['a', 'c', 't', 'i', 'v', 'a', 't', 'e', '.', 'c', 's', 'h'],
        _ => seq!['a', 'c', 't', 'i', 'v', 'a', 't', 'e'],
    }
}

/// The name of the script, in the environment's scripts directory, that
/// activates it from `shell`.
pub fn activation_script(shell: Shell) -> (r: &'static str)
    ensures
        r@ == script_name(shell),
{
    let r = match shell {
        Shell::Fish => "activate.fish",
        Shell::Nushell => "activate.nu",
        Shell::Csh => "activate.csh",
        _ => "activate",
    };
    proof {
        reveal_strlit("activate.fish");
        reveal_strlit("activate.nu");
        reveal_strlit("activate.csh");
        reveal_strlit("activate");
    }
    assert(r@ =~= script_name(shell));
    r
}

/// The command that activates the environment from `shell`, given the
/// displayed path of its activation script.
pub open spec fn activation_text(shell: Shell, script: Seq<char>) -> Seq<char> {
    match shell {
        Shell::Nushell => seq!['o', 'v', 'e', 'r', 'l', 'a', 'y', ' ', 'u', 's', 'e', ' ']
            + posix_quoted(script),
        Shell::Powershell => windows_quoted(script, shell),
        Shell::Cmd => windows_quoted(script, shell),
        _ => seq!['s', 'o', 'u', 'r', 'c', 'e', ' '] + posix_quoted(script),
    }
}

/// The command that activates the environment from `shell`, where the
/// path of the script named by `activation_script` displays as `script`.
pub fn activation_command(shell: Shell, script: &str) -> (r: String)
    ensures
        r@ == activation_text(shell, script@),
{
    match shell {
        Shell::Powershell | Shell::Cmd => shlex_windows(script, shell),
        Shell::Nushell => {
            let mut out = String::from_str("overlay use ");
            proof {
                reveal_strlit("overlay use ");
            }
            let q = shlex_posix(script);
            out.append(q.as_str());
            assert(out@ =~= activation_text(shell, script@));
            out
        },
        _ => {
            let mut out = String::from_str("source ");
            proof {
                reveal_strlit("source ");
            }
            let q = shlex_posix(script);
            out.append(q.as_str());
            assert(out@ =~= activation_text(shell, script@));
            out
        },
    }
}

/// The seed packages of a new environment: `pip`, and before Python 3.12 also
/// `setuptools` and `wheel`.
pub open spec fn seed_names(python: Seq<u64>) -> Seq<Seq<char>> {
    let pip = seq!['p', 'i', 'p'];
    if segment(python, 0) < 3 || (segment(python, 0) == 3 && segment(python, 1) < 12) {
        seq![
            pip,
            seq!['s', 'e', 't', 'u', 'p', 't', 'o', 'o', 'l', 's'],
            seq!['w', 'h', 'e', 'e', 'l'],
        ]
    } else {
        seq![pip]
    }
}

/// The names of the packages to seed an environment of the given Python with.
pub fn seed_packages(python: &Version) -> (r: Vec<String>)
    ensures
        r@.len() == seed_names(python.release@).len(),
        forall|i: int| 0 <= i < r@.len() ==> #[trigger] r@[i]@ == seed_names(python.release@)[i],
{
    let (major, minor) = python.major_minor();
    let mut out: Vec<String> = Vec::new();
    out.push(String::from_str("pip"));
    proof {
        reveal_strlit("pip");
        reveal_strlit("setuptools");
        reveal_strlit("wheel");
    }
    if major < 3 || (major == 3 && minor < 12) {
        out.push(String::from_str("setuptools"));
        out.push(String::from_str("wheel"));
    }
    assert(seed_names(python.release@)[0] =~= "pip"@);
    out
}

} // verus!
