//! The supported shell variants and the environment signals they are
//! resolved from.

use vstd::prelude::*;

use crate::errors::ShellError;

verus! {

/// A snapshot of the environment variables (and the home directory, itself
/// environment-derived) that shell resolution and history-path computation
/// read. Callers capture the live process environment once and pass it in,
/// so resolution itself is a pure, deterministic function.
pub struct EnvSnapshot {
    /// Value of `PSModulePath`, if set (any value, including the empty string).
    pub ps_module_path: Option<String>,
    /// Value of `SHELL`, if set.
    pub shell: Option<String>,
    /// Value of `BASH_VERSION`, if set.
    pub bash_version: Option<String>,
    /// Value of `ZSH_VERSION`, if set.
    pub zsh_version: Option<String>,
    /// The user's home directory, if one could be determined.
    pub home: Option<String>,
}

/// `needle` occurs contiguously somewhere in `hay`.
pub open spec fn contains_substring(hay: Seq<char>, needle: Seq<char>) -> bool {
    exists|i: int|
        0 <= i && i + needle.len() <= hay.len() && #[trigger] hay.subrange(i, i + needle.len())
            == needle
}

/// Shell chosen when neither `PSModulePath` nor a recognised `SHELL` value
/// decides: a set `BASH_VERSION` wins over a set `ZSH_VERSION`, and Bash is
/// the total fallback.
pub open spec fn version_fallback_shell(env: EnvSnapshot) -> ShellType {
    if env.bash_version is Some {
        ShellType::Bash
    } else if env.zsh_version is Some {
        ShellType::Zsh
    } else {
        ShellType::Bash
    }
}

/// The shell the environment snapshot resolves to, with a fixed precedence:
/// a set `PSModulePath` (any value) means PowerShell; else a `SHELL` value
/// containing "zsh" or "bash" decides; else the version variables; else Bash.
/// Total: every snapshot resolves to some variant.
pub open spec fn resolved_shell(env: EnvSnapshot) -> ShellType {
    if env.ps_module_path is Some {
        ShellType::Pwsh
    } else {
        match env.shell {
            Some(sh) => {
                if contains_substring(sh@, "zsh"@) {
                    ShellType::Zsh
                } else if contains_substring(sh@, "bash"@) {
                    ShellType::Bash
                } else {
                    version_fallback_shell(env)
                }
            },
            None => version_fallback_shell(env),
        }
    }
}

/// The closed set of supported interactive shells.
#[derive(Debug, Clone, Copy, PartialEq, Eq, Structural)]
pub enum ShellType {
    Zsh,
    Bash,
    Pwsh,
}

/// The canonical name of a shell variant: both its display name and the
/// executable used to invoke it.
pub open spec fn shell_name(t: ShellType) -> Seq<char> {
    match t {
        ShellType::Zsh => "zsh"@,
        ShellType::Bash => "bash"@,
        ShellType::Pwsh => "pwsh"@,
    }
}

impl ShellType {
    /// The executable name used to spawn this shell as a subprocess.
    pub fn command_name(&self) -> (r: &str)
        ensures
            r@ == shell_name(*self),
    {
        match self {
            ShellType::Zsh => "zsh",
            ShellType::Bash => "bash",
            ShellType::Pwsh => "pwsh",
        }
    }

    /// Parses an explicit shell-name override: exactly the canonical names
    /// are accepted, and anything else is rejected with
    /// `UnsupportedShellType` carrying the offending value.
    pub fn try_from_name(value: &str) -> (r: Result<ShellType, ShellError>)
        ensures
            value@ == "zsh"@ ==> (r matches Ok(t) && t is Zsh),
            value@ == "bash"@ ==> (r matches Ok(t) && t is Bash),
            value@ == "pwsh"@ ==> (r matches Ok(t) && t is Pwsh),
            (value@ != "zsh"@ && value@ != "bash"@ && value@ != "pwsh"@) ==> (r matches Err(e)
                && e matches ShellError::UnsupportedShellType(v) && v@ == value@),
    {
        proof {
            reveal_strlit("zsh");
            reveal_strlit("bash");
            reveal_strlit("pwsh");
            assert("zsh"@.len() != "bash"@.len());
            assert("zsh"@.len() != "pwsh"@.len());
            assert("bash"@[0] != "pwsh"@[0]);
        }
        if str_eq(value, "zsh") {
            Ok(ShellType::Zsh)
        } else if str_eq(value, "bash") {
            Ok(ShellType::Bash)
        } else if str_eq(value, "pwsh") {
            Ok(ShellType::Pwsh)
        } else {
            Err(ShellError::UnsupportedShellType(String::from_str(value)))
        }
    }

    /// The display name of this shell, as reported in system information.
    pub fn display_name(&self) -> (r: String)
        ensures
            r@ == shell_name(*self),
    {
        String::from_str(self.command_name())
    }

    /// The name of this shell's history file inside the home directory, or
    /// `None` for PowerShell, whose history location only the shell itself
    /// can report.
    pub fn history_file_name(&self) -> (r: Option<&str>)
        ensures
            r matches Some(n) <==> !(*self is Pwsh),
            r matches Some(n) ==> n@ == static_history_file_name(*self),
    {
        match self {
            ShellType::Zsh => Some(".zsh_history"),
            ShellType::Bash => Some(".bash_history"),
            ShellType::Pwsh => None,
        }
    }

    /// The history file path for a shell whose location is a pure join of
    /// the home directory and a fixed file name. PowerShell is excluded:
    /// its path must be obtained from the shell itself.
    pub fn history_file_path(&self, home: &str) -> (r: String)
        requires
            !(*self is Pwsh),
        ensures
            r@ == home_history_path(*self, home@),
    {
        let mut path = String::from_str(home);
        path.append("/");
        match self {
            ShellType::Zsh => path.append(".zsh_history"),
            ShellType::Bash => path.append(".bash_history"),
            ShellType::Pwsh => proof {
                assert(false);
            },
        }
        path
    }
}

/// The fixed history file name of a shell that keeps its history directly
/// under the home directory (every variant but PowerShell).
pub open spec fn static_history_file_name(t: ShellType) -> Seq<char>
    recommends
        !(t is Pwsh),
{
    match t {
        ShellType::Zsh => ".zsh_history"@,
        ShellType::Bash => ".bash_history"@,
        ShellType::Pwsh => Seq::<char>::empty(),
    }
}

/// The history file path of a non-PowerShell shell: the home directory,
/// a path separator, and the shell's fixed history file name.
pub open spec fn home_history_path(t: ShellType, home: Seq<char>) -> Seq<char>
    recommends
        !(t is Pwsh),
{
    home + "/"@ + static_history_file_name(t)
}

/// Law: a set `PSModulePath` (any value, the empty string included)
/// resolves to PowerShell, whatever `SHELL`, `BASH_VERSION` and
/// `ZSH_VERSION` hold.
pub proof fn lemma_ps_module_path_wins(env: EnvSnapshot)
    requires
        env.ps_module_path is Some,
    ensures
        resolved_shell(env) == ShellType::Pwsh,
{
}

/// Law: with `PSModulePath` unset, a `SHELL` value containing "zsh"
/// resolves to Zsh.
pub proof fn lemma_shell_value_zsh(env: EnvSnapshot)
    requires
        env.ps_module_path is None,
        env.shell matches Some(sh) && contains_substring(sh@, "zsh"@),
    ensures
        resolved_shell(env) == ShellType::Zsh,
{
}

/// Law: with none of the four variables set, resolution falls back to
/// Bash; it never fails.
pub proof fn lemma_resolution_total_fallback(env: EnvSnapshot)
    requires
        env.ps_module_path is None,
        env.shell is None,
        env.bash_version is None,
        env.zsh_version is None,
    ensures
        resolved_shell(env) == ShellType::Bash,
{
}

/// Law: for every home directory value, Zsh's history path is the home
/// directory followed by "/.zsh_history", and Bash's likewise by
/// "/.bash_history".
pub proof fn lemma_home_history_path(home: Seq<char>)
    ensures
        home_history_path(ShellType::Zsh, home) == home + "/.zsh_history"@,
        home_history_path(ShellType::Bash, home) == home + "/.bash_history"@,
{
    reveal_strlit("/");
    reveal_strlit(".zsh_history");
    reveal_strlit(".bash_history");
    reveal_strlit("/.zsh_history");
    reveal_strlit("/.bash_history");
    assert(home_history_path(ShellType::Zsh, home) =~= home + "/.zsh_history"@);
    assert(home_history_path(ShellType::Bash, home) =~= home + "/.bash_history"@);
}

/// The characters of `needle` stand at position `at` of `hay`.
fn matches_at(hay: &str, needle: &str, at: usize, hay_len: usize, needle_len: usize) -> (r: bool)
    requires
        hay_len == hay@.len(),
        needle_len == needle@.len(),
        at + needle_len <= hay_len,
    ensures
        r == (hay@.subrange(at as int, at + needle@.len()) == needle@),
{
    let mut j: usize = 0;
    while j < needle_len
        invariant
            j <= needle_len,
            hay_len == hay@.len(),
            needle_len == needle@.len(),
            at + needle_len <= hay_len,
            forall|k: int| 0 <= k < j ==> hay@[at + k] == needle@[k],
        decreases needle_len - j,
    {
        if hay.get_char(at + j) != needle.get_char(j) {
            proof {
                assert(hay@.subrange(at as int, at + needle@.len())[j as int] == hay@[at + j]);
            }
            return false;
        }
        j += 1;
    }
    proof {
        assert(hay@.subrange(at as int, at + needle@.len()) =~= needle@);
    }
    true
}

/// Equality of two string slices, decided character by character.
fn str_eq(a: &str, b: &str) -> (r: bool)
    ensures
        r == (a@ == b@),
{
    let a_len = a.unicode_len();
    let b_len = b.unicode_len();
    if a_len != b_len {
        return false;
    }
    let r = matches_at(a, b, 0, a_len, b_len);
    proof {
        assert(a@.subrange(0, 0 + b@.len() as int) =~= a@);
    }
    r
}

/// Substring search; decides `contains_substring` on the views.
pub(crate) fn str_contains(hay: &str, needle: &str) -> (r: bool)
    ensures
        r == contains_substring(hay@, needle@),
{
    let hay_len = hay.unicode_len();
    let needle_len = needle.unicode_len();
    if needle_len > hay_len {
        return false;
    }
    if needle_len == 0 {
        proof {
            assert(contains_substring(hay@, needle@)) by {
                assert(hay@.subrange(0, 0 + needle@.len() as int) =~= needle@);
            }
        }
        return true;
    }
    let mut i: usize = 0;
    while i <= hay_len - needle_len
        invariant
            hay_len == hay@.len(),
            needle_len == needle@.len(),
            1 <= needle_len <= hay_len,
            i <= hay_len - needle_len + 1,
            forall|k: int|
                0 <= k < i ==> #[trigger] hay@.subrange(k, k + needle@.len()) != needle@,
        decreases hay_len - needle_len + 1 - i,
    {
        if matches_at(hay, needle, i, hay_len, needle_len) {
            return true;
        }
        i += 1;
    }
    false
}

} // verus!
