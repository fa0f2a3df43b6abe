use shell_history::EnvSnapshot;
use shell_history::HistoryPathRequest;
use shell_history::Shell;
use shell_history::ShellError;
use shell_history::ShellType;
use shell_history::SpawnOutcome;
use shell_history::split_history_lines;

fn empty_env() -> EnvSnapshot {
    EnvSnapshot {
        ps_module_path: None,
        shell: None,
        bash_version: None,
        zsh_version: None,
        home: None,
    }
}

#[test]
fn posix_append_invocation_is_exact() {
    let inv = Shell::append_history_invocation(
        ShellType::Bash,
        "ls -la",
        "/home/u/.bash_history",
    );
    assert_eq!(inv.program, "bash");
    assert_eq!(inv.flag, "-c");
    assert_eq!(inv.script, "echo \"ls -la\" >> /home/u/.bash_history");
}

#[test]
fn zsh_append_invocation_uses_the_zsh_binary() {
    let inv = Shell::append_history_invocation(ShellType::Zsh, "pwd", "/home/u/.zsh_history");
    assert_eq!(inv.program, "zsh");
    assert_eq!(inv.flag, "-c");
    assert_eq!(inv.script, "echo \"pwd\" >> /home/u/.zsh_history");
}

#[test]
fn pwsh_append_invocation_uses_add_content() {
    let inv = Shell::append_history_invocation(ShellType::Pwsh, "dir", "/ps/history.txt");
    assert_eq!(inv.program, "pwsh");
    assert_eq!(inv.flag, "-Command");
    assert_eq!(inv.script, "Add-Content -Path \"/ps/history.txt\" -Value \"dir\"");
}

#[test]
fn exit_zero_means_the_append_succeeded() {
    let outcome = SpawnOutcome::Exited { code: Some(0), stdout: Vec::new() };
    assert!(Shell::add_command_outcome(outcome).is_ok());
}

#[test]
fn exit_one_fails_the_append_and_carries_the_code() {
    let outcome = SpawnOutcome::Exited { code: Some(1), stdout: Vec::new() };
    let err = Shell::add_command_outcome(outcome).unwrap_err();
    match err {
        ShellError::FailedToAddCommandToHistory(code) => assert_eq!(code, Some(1)),
        other => panic!("wrong error: {:?}", other),
    }
}

#[test]
fn exit_without_a_code_fails_the_append_without_one() {
    let outcome = SpawnOutcome::Exited { code: None, stdout: Vec::new() };
    let err = Shell::add_command_outcome(outcome).unwrap_err();
    assert!(matches!(err, ShellError::FailedToAddCommandToHistory(None)));
}

#[test]
fn spawn_failure_keeps_the_os_error_text() {
    let outcome = SpawnOutcome::SpawnFailed(String::from("permission denied"));
    let err = Shell::add_command_outcome(outcome).unwrap_err();
    match err {
        ShellError::FailedToExecuteCommand(m) => assert_eq!(m, "permission denied"),
        other => panic!("wrong error: {:?}", other),
    }
}

#[test]
fn bash_append_scenario_end_to_end() {
    // SHELL=/bin/bash resolves to Bash; the append is delegated as
    // bash -c 'echo "ls -la" >> <home>/.bash_history'; exit 0 succeeds;
    // and the appended line reads back from the history bytes.
    let mut env = empty_env();
    env.shell = Some(String::from("/bin/bash"));
    env.home = Some(String::from("/home/u"));
    let shell_type = Shell::current_shell_type(&env);
    assert_eq!(shell_type, ShellType::Bash);
    let path = match Shell::shell_history_path(None, &env) {
        HistoryPathRequest::Path(p) => p,
        HistoryPathRequest::PwshQuery(_) => panic!("bash path needs no query"),
    };
    assert_eq!(path, "/home/u/.bash_history");
    let inv = Shell::append_history_invocation(shell_type, "ls -la", &path);
    assert_eq!(inv.program, "bash");
    assert_eq!(inv.flag, "-c");
    assert_eq!(inv.script, "echo \"ls -la\" >> /home/u/.bash_history");
    let outcome = SpawnOutcome::Exited { code: Some(0), stdout: Vec::new() };
    assert!(Shell::add_command_outcome(outcome).is_ok());
    let lines = split_history_lines(b"old command\nls -la\n");
    assert!(lines.iter().any(|l| l == "ls -la"));
}

#[test]
fn system_info_combines_the_host_attributes() {
    let mut env = empty_env();
    env.zsh_version = Some(String::from("5.9"));
    let info = Shell::build_system_info(
        &env,
        Some(String::from("Linux")),
        Some(String::from("6.1")),
        Some(String::from("x86_64")),
    )
    .unwrap();
    assert_eq!(info.shell, "zsh");
    assert_eq!(info.os, "Linux");
    assert_eq!(info.os_version, "6.1");
    assert_eq!(info.arch, "x86_64");
}

#[test]
fn missing_os_version_soft_fails_to_current() {
    let env = empty_env();
    let info = Shell::build_system_info(
        &env,
        Some(String::from("Linux")),
        None,
        Some(String::from("aarch64")),
    )
    .unwrap();
    assert_eq!(info.os_version, "current");
    assert_eq!(info.shell, "bash");
}

#[test]
fn missing_os_name_is_fatal() {
    let env = empty_env();
    let err = Shell::build_system_info(&env, None, None, Some(String::from("x86_64")))
        .unwrap_err();
    match err {
        ShellError::FailedToExtractSystemInfo(m) => {
            assert_eq!(m, "Failed to get system name")
        },
        other => panic!("wrong error: {:?}", other),
    }
}

#[test]
fn missing_arch_is_fatal() {
    let env = empty_env();
    let err = Shell::build_system_info(&env, Some(String::from("Linux")), None, None)
        .unwrap_err();
    match err {
        ShellError::FailedToExtractSystemInfo(m) => {
            assert_eq!(m, "Failed to get CPU architecture")
        },
        other => panic!("wrong error: {:?}", other),
    }
}

#[test]
fn extracted_info_reports_the_resolved_shell() {
    // The host attributes come from the live platform and may be absent in
    // a minimal environment; whatever happens, a success must carry the
    // resolved shell's display name.
    let mut env = empty_env();
    env.zsh_version = Some(String::from("5.9"));
    match Shell::extract_env_info(&env) {
        Ok(info) => assert_eq!(info.shell, "zsh"),
        Err(e) => assert!(matches!(e, ShellError::FailedToExtractSystemInfo(_))),
    }
}
