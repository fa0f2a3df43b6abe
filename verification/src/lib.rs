//! Shell-environment adapter: detects the active interactive shell from an
//! environment snapshot, locates the shell's history file, prepares the
//! shell invocations that append to it, and turns raw history bytes into
//! lines.

mod errors;
mod history;
mod shell;
mod shell_type;

pub use errors::ShellError;
pub use history::split_history_lines;
pub use shell::HistoryPathRequest;
pub use shell::Invocation;
pub use shell::Shell;
pub use shell::SpawnOutcome;
pub use shell::SystemInfo;
pub use shell_type::EnvSnapshot;
pub use shell_type::ShellType;
