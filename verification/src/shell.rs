//! The shell facade: resolving the active shell, locating and appending to
//! its history, and reporting host system information.
//!
//! Writes to a history file are delegated: the facade prepares the exact
//! subprocess invocation for the shell that owns the file, and turns the
//! subprocess's outcome into the operation's result. The spawning itself is
//! I/O and stays with the caller, which feeds the outcome back in.

use vstd::prelude::*;

use crate::errors::ShellError;
use crate::history::lossy_decode;
use crate::history::lossy_utf8;
use crate::shell_type::EnvSnapshot;
use crate::shell_type::ShellType;
use crate::shell_type::home_history_path;
use crate::shell_type::resolved_shell;
use crate::shell_type::shell_name;
use crate::shell_type::str_contains;

verus! {

/// Host system information, gathered fresh on every extraction call.
#[derive(Debug, Clone)]
pub struct SystemInfo {
    /// Display name of the resolved shell.
    pub shell: String,
    /// Host operating system name.
    pub os: String,
    /// Host OS version, or the literal "current" when unobtainable.
    pub os_version: String,
    /// CPU architecture.
    pub arch: String,
}

/// One shell subprocess invocation: the program to spawn, its option flag,
/// and the script handed to that flag.
pub struct Invocation {
    pub program: String,
    pub flag: String,
    pub script: String,
}

/// What came back from running a shell subprocess: the spawn itself failed
/// (carrying the OS error text), or the process ran to completion with an
/// exit code (`None` when the OS reported none) and captured output.
pub enum SpawnOutcome {
    SpawnFailed(String),
    Exited { code: Option<i32>, stdout: Vec<u8> },
}

/// How a history path is obtained: either it is fully determined by the
/// environment snapshot, or PowerShell itself must be asked by running the
/// given query invocation and handing its outcome to
/// `Shell::pwsh_history_path_from_query`.
pub enum HistoryPathRequest {
    Path(String),
    PwshQuery(Invocation),
}

/// The invocation asks PowerShell for its configured history save path.
pub open spec fn is_pwsh_path_query(inv: Invocation) -> bool {
    &&& inv.program@ == "pwsh"@
    &&& inv.flag@ == "-Command"@
    &&& inv.script@ == "(Get-PSReadlineOption).HistorySavePath"@
}

/// The shell an explicit override or, failing that, the environment
/// resolves to.
pub open spec fn chosen_shell(override_type: Option<ShellType>, env: EnvSnapshot) -> ShellType {
    match override_type {
        Some(t) => t,
        None => resolved_shell(env),
    }
}

/// The script a POSIX shell is handed to append `command` to the history
/// file at `path` with its own append semantics.
pub open spec fn posix_append_script(command: Seq<char>, path: Seq<char>) -> Seq<char> {
    "echo \""@ + command + "\" >> "@ + path
}

/// The script PowerShell is handed to append `command` to the history file
/// at `path`.
pub open spec fn pwsh_append_script(command: Seq<char>, path: Seq<char>) -> Seq<char> {
    "Add-Content -Path \""@ + path + "\" -Value \""@ + command + "\""@
}

/// What `str::trim` returns for a given character sequence: a function of
/// the characters alone.
pub uninterp spec fn trim_of(s: Seq<char>) -> Seq<char>;

/// Relies on `str::trim`: the result is a sub-slice of the input with
/// leading and trailing whitespace removed, so it is never longer, and an
/// empty input stays empty.
#[verifier::external_body]
fn trim_ws(s: &str) -> (r: &str)
    ensures
        r@ == trim_of(s@),
        r@.len() <= s@.len(),
        s@.len() == 0 ==> r@.len() == 0,
{
    s.trim()
}

/// Relies on `sysinfo::System::name`: the host OS name, when the platform
/// reports one.
#[verifier::external_body]
fn system_name() -> (r: Option<String>) {
    sysinfo::System::name()
}

/// Relies on `sysinfo::System::os_version`: the host OS version, when the
/// platform reports one.
#[verifier::external_body]
fn system_os_version() -> (r: Option<String>) {
    sysinfo::System::os_version()
}

/// Relies on `sysinfo::System::cpu_arch`: the CPU architecture, when the
/// platform reports one.
#[verifier::external_body]
fn system_cpu_arch() -> (r: Option<String>) {
    sysinfo::System::cpu_arch()
}

/// The facade itself; it keeps no state, and every operation re-reads the
/// snapshot it is given.
#[derive(Debug)]
pub struct Shell;

impl Shell {
    /// Resolves the active shell from the environment snapshot. Total and
    /// deterministic: every snapshot resolves, with Bash as the final
    /// fallback.
    pub fn current_shell_type(env: &EnvSnapshot) -> (t: ShellType)
        ensures
            t == resolved_shell(*env),
    {
        if env.ps_module_path.is_some() {
            return ShellType::Pwsh;
        }
        match &env.shell {
            Some(sh) => {
                if str_contains(sh.as_str(), "zsh") {
                    return ShellType::Zsh;
                }
                if str_contains(sh.as_str(), "bash") {
                    return ShellType::Bash;
                }
            },
            None => {},
        }
        if env.bash_version.is_some() {
            return ShellType::Bash;
        }
        if env.zsh_version.is_some() {
            return ShellType::Zsh;
        }
        ShellType::Bash
    }

    /// Where the chosen shell's history lives. For Zsh and Bash the path is
    /// a pure join of the home directory and the shell's history file name,
    /// computed without I/O; for PowerShell the result is the query that
    /// must be put to the shell itself, as only it knows its configured
    /// path.
    pub fn shell_history_path(shell_type: Option<ShellType>, env: &EnvSnapshot) -> (r:
        HistoryPathRequest)
        requires
            !(chosen_shell(shell_type, *env) is Pwsh) ==> env.home is Some,
        ensures
            ({
                let t = chosen_shell(shell_type, *env);
                match r {
                    HistoryPathRequest::Path(p) => !(t is Pwsh) && (match env.home {
                        Some(h) => p@ == home_history_path(t, h@),
                        None => false,
                    }),
                    HistoryPathRequest::PwshQuery(inv) => t is Pwsh && is_pwsh_path_query(inv),
                }
            }),
    {
        let t = match shell_type {
            Some(t) => t,
            None => Self::current_shell_type(env),
        };
        match t {
            ShellType::Pwsh => HistoryPathRequest::PwshQuery(Self::pwsh_history_path_query()),
            _ => {
                match &env.home {
                    Some(h) => HistoryPathRequest::Path(t.history_file_path(h.as_str())),
                    None => unreached(),
                }
            },
        }
    }

    /// The invocation that asks PowerShell for its history save path.
    pub fn pwsh_history_path_query() -> (inv: Invocation)
        ensures
            is_pwsh_path_query(inv),
    {
        Invocation {
            program: String::from_str("pwsh"),
            flag: String::from_str("-Command"),
            script: String::from_str("(Get-PSReadlineOption).HistorySavePath"),
        }
    }

    /// Completes PowerShell history-path resolution from the query's
    /// outcome: the captured output, decoded leniently and trimmed, is the
    /// path. A spawn failure, an unsuccessful exit, or output that trims to
    /// nothing each surface as an error, never as a made-up path.
    pub fn pwsh_history_path_from_query(outcome: SpawnOutcome) -> (r: Result<String, ShellError>)
        ensures
            match outcome {
                SpawnOutcome::SpawnFailed(m) => r matches Err(e)
                    && e matches ShellError::FailedToExecuteCommand(t) && t == m,
                SpawnOutcome::Exited { code, stdout } => {
                    if code matches Some(c) && c == 0 {
                        if trim_of(lossy_utf8(stdout@)).len() > 0 {
                            r matches Ok(p) && p@ == trim_of(lossy_utf8(stdout@))
                        } else {
                            r matches Err(e) && e matches ShellError::FailedToExecuteCommand(t)
                                && t@ == "history path query produced no output"@
                        }
                    } else {
                        r matches Err(e) && e matches ShellError::FailedToExecuteCommand(t)
                            && t@ == "history path query exited unsuccessfully"@
                    }
                },
            },
    {
        match outcome {
            SpawnOutcome::SpawnFailed(m) => Err(ShellError::FailedToExecuteCommand(m)),
            SpawnOutcome::Exited { code, stdout } => {
                let exited_zero = match code {
                    Some(c) => c == 0,
                    None => false,
                };
                if !exited_zero {
                    return Err(
                        ShellError::FailedToExecuteCommand(
                            String::from_str("history path query exited unsuccessfully"),
                        ),
                    );
                }
                let text = lossy_decode(stdout.as_slice());
                let trimmed = trim_ws(text.as_str());
                if trimmed.is_empty() {
                    Err(
                        ShellError::FailedToExecuteCommand(
                            String::from_str("history path query produced no output"),
                        ),
                    )
                } else {
                    Ok(String::from_str(trimmed))
                }
            },
        }
    }

    /// The subprocess invocation that appends `command` to the history file
    /// at `history_path` by delegating to the owning shell's own append
    /// semantics, instead of writing the file directly.
    pub fn append_history_invocation(shell_type: ShellType, command: &str, history_path: &str) -> (
        inv: Invocation)
        ensures
            inv.program@ == shell_name(shell_type),
            shell_type is Pwsh ==> inv.flag@ == "-Command"@ && inv.script@ == pwsh_append_script(
                command@,
                history_path@,
            ),
            !(shell_type is Pwsh) ==> inv.flag@ == "-c"@ && inv.script@ == posix_append_script(
                command@,
                history_path@,
            ),
    {
        match shell_type {
            ShellType::Pwsh => {
                let mut script = String::from_str("Add-Content -Path \"");
                script.append(history_path);
                script.append("\" -Value \"");
                script.append(command);
                script.append("\"");
                Invocation {
                    program: String::from_str(shell_type.command_name()),
                    flag: String::from_str("-Command"),
                    script,
                }
            },
            _ => {
                let mut script = String::from_str("echo \"");
                script.append(command);
                script.append("\" >> ");
                script.append(history_path);
                Invocation {
                    program: String::from_str(shell_type.command_name()),
                    flag: String::from_str("-c"),
                    script,
                }
            },
        }
    }

    /// Turns the outcome of the append subprocess into the operation's
    /// result: exit code zero is success; any other exit (or no code at
    /// all) failed the append and carries the code; a spawn failure means
    /// the shell could not even be executed and carries the OS error text.
    pub fn add_command_outcome(outcome: SpawnOutcome) -> (r: Result<(), ShellError>)
        ensures
            match outcome {
                SpawnOutcome::SpawnFailed(m) => r matches Err(e)
                    && e matches ShellError::FailedToExecuteCommand(t) && t == m,
                SpawnOutcome::Exited { code, stdout } => {
                    if code matches Some(c) && c == 0 {
                        r is Ok
                    } else {
                        r matches Err(e) && e matches ShellError::FailedToAddCommandToHistory(c)
                            && c == code
                    }
                },
            },
    {
        match outcome {
            SpawnOutcome::SpawnFailed(m) => Err(ShellError::FailedToExecuteCommand(m)),
            SpawnOutcome::Exited { code, stdout: _ } => {
                match code {
                    Some(c) => {
                        if c == 0 {
                            Ok(())
                        } else {
                            Err(ShellError::FailedToAddCommandToHistory(Some(c)))
                        }
                    },
                    None => Err(ShellError::FailedToAddCommandToHistory(None)),
                }
            },
        }
    }

    /// Combines the host attributes into system information: a missing OS
    /// name or CPU architecture is fatal for the call, a missing version
    /// soft-fails to the literal "current", and the shell field is the
    /// resolved shell's display name.
    pub fn build_system_info(
        env: &EnvSnapshot,
        os: Option<String>,
        os_version: Option<String>,
        arch: Option<String>,
    ) -> (r: Result<SystemInfo, ShellError>)
        ensures
            os is None ==> (r matches Err(e) && e matches ShellError::FailedToExtractSystemInfo(m)
                && m@ == "Failed to get system name"@),
            os is Some && arch is None ==> (r matches Err(e)
                && e matches ShellError::FailedToExtractSystemInfo(m)
                && m@ == "Failed to get CPU architecture"@),
            os matches Some(o) ==> arch matches Some(a) ==> (r matches Ok(info) && {
                &&& info.shell@ == shell_name(resolved_shell(*env))
                &&& info.os == o
                &&& info.os_version@ == (match os_version {
                    Some(v) => v@,
                    None => "current"@,
                })
                &&& info.arch == a
            }),
    {
        let os = match os {
            Some(o) => o,
            None => {
                return Err(
                    ShellError::FailedToExtractSystemInfo(
                        String::from_str("Failed to get system name"),
                    ),
                );
            },
        };
        let arch = match arch {
            Some(a) => a,
            None => {
                return Err(
                    ShellError::FailedToExtractSystemInfo(
                        String::from_str("Failed to get CPU architecture"),
                    ),
                );
            },
        };
        let os_version = match os_version {
            Some(v) => v,
            None => String::from_str("current"),
        };
        let shell_type = Self::current_shell_type(env);
        Ok(SystemInfo { shell: shell_type.display_name(), os, os_version, arch })
    }

    /// Gathers host system information. The host attributes come from the
    /// platform and may each be absent; whatever comes back, the shell
    /// field of a successful result is the resolved shell's display name,
    /// and the only failure is a missing required attribute.
    pub fn extract_env_info(env: &EnvSnapshot) -> (r: Result<SystemInfo, ShellError>)
        ensures
            r matches Ok(info) ==> info.shell@ == shell_name(resolved_shell(*env)),
            r matches Err(e) ==> e is FailedToExtractSystemInfo,
    {
        let os = system_name();
        let os_version = system_os_version();
        let arch = system_cpu_arch();
        Self::build_system_info(env, os, os_version, arch)
    }
}

} // verus!
