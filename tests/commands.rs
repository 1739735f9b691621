use shell_bridge::get_system_info;
use shell_bridge::invocation::{
    native_shell_invocation, script_shell_invocation, Invocation, PlatformFamily, ShellKind,
};
use shell_bridge::outcome::{finish, spawn_failure_message, CommandResult, ProcessOutput};

fn strings(words: &[&str]) -> Vec<String> {
    words.iter().map(|w| w.to_string()).collect()
}

fn output(stdout: &[u8], stderr: &[u8], exit_code: Option<i32>) -> ProcessOutput {
    ProcessOutput { stdout: stdout.to_vec(), stderr: stderr.to_vec(), exit_code }
}

fn assert_invocation(inv: &Invocation, program: &str, args: &[&str]) {
    assert_eq!(inv.program, program);
    assert_eq!(inv.args, strings(args));
}

#[test]
fn test_get_system_info() {
    let result = get_system_info("linux", "x86_64", "unix");
    assert!(result.is_ok());
    let info = result.unwrap();
    assert!(info.contains("OS:"));
    assert!(info.contains("Architecture:"));
}

#[test]
fn test_execute_cmd_command() {
    let inv = native_shell_invocation(PlatformFamily::Windows, "echo".to_string(), vec!["test".to_string()]);
    assert_invocation(&inv, "cmd", &["/C", "echo", "test"]);
    let result = finish(ShellKind::Native, Ok(output(b"test\r\n", b"", Some(0))));
    assert!(result.is_ok());
    let cmd_result = result.unwrap();
    assert!(cmd_result.success);
    assert!(cmd_result.stdout.contains("test"));
}

#[test]
fn system_info_is_three_labelled_lines() {
    let info = get_system_info("windows", "aarch64", "windows").unwrap();
    assert_eq!(info, "OS: windows\nArchitecture: aarch64\nFamily: windows");
    assert!(info.contains("Family:"));
}

#[test]
fn system_info_keeps_labels_for_empty_names() {
    let info = get_system_info("", "", "").unwrap();
    assert_eq!(info, "OS: \nArchitecture: \nFamily: ");
}

#[test]
fn windows_native_shell_keeps_argument_boundaries() {
    let inv = native_shell_invocation(
        PlatformFamily::Windows,
        "dir".to_string(),
        strings(&["C:\\Program Files", "/b", "a&b"]),
    );
    assert_invocation(&inv, "cmd", &["/C", "dir", "C:\\Program Files", "/b", "a&b"]);
}

#[test]
fn windows_native_shell_without_arguments() {
    let inv = native_shell_invocation(PlatformFamily::Windows, "ver".to_string(), Vec::new());
    assert_invocation(&inv, "cmd", &["/C", "ver"]);
}

#[test]
fn other_native_shell_joins_into_one_line() {
    let inv = native_shell_invocation(PlatformFamily::Other, "echo".to_string(), vec!["test".to_string()]);
    assert_invocation(&inv, "sh", &["-c", "echo test"]);
}

#[test]
fn other_native_shell_joins_arguments_with_single_spaces() {
    let inv = native_shell_invocation(
        PlatformFamily::Other,
        "ls".to_string(),
        strings(&["-l", "my dir", "$HOME"]),
    );
    assert_invocation(&inv, "sh", &["-c", "ls -l my dir $HOME"]);
}

#[test]
fn other_native_shell_without_arguments_is_the_command_alone() {
    let inv = native_shell_invocation(PlatformFamily::Other, "pwd".to_string(), Vec::new());
    assert_invocation(&inv, "sh", &["-c", "pwd"]);
}

#[test]
fn windows_script_shell_runs_powershell() {
    let inv = script_shell_invocation(PlatformFamily::Windows, "Get-Date; Get-Location".to_string()).unwrap();
    assert_invocation(&inv, "powershell", &["-Command", "Get-Date; Get-Location"]);
}

#[test]
fn script_shell_is_refused_off_windows() {
    for command in ["", "Get-Date", "echo test", "definitely-not-a-real-command-xyz"] {
        match script_shell_invocation(PlatformFamily::Other, command.to_string()) {
            Ok(_) => panic!("a scripting shell was planned off Windows"),
            Err(message) => assert_eq!(message, "PowerShell is only available on Windows"),
        }
    }
}

#[test]
fn platform_family_from_os_name() {
    assert_eq!(PlatformFamily::from_os_name("windows"), PlatformFamily::Windows);
    assert_eq!(PlatformFamily::from_os_name("linux"), PlatformFamily::Other);
    assert_eq!(PlatformFamily::from_os_name("macos"), PlatformFamily::Other);
    assert_eq!(PlatformFamily::from_os_name("Windows"), PlatformFamily::Other);
    assert_eq!(PlatformFamily::from_os_name("window"), PlatformFamily::Other);
    assert_eq!(PlatformFamily::from_os_name("windowsx"), PlatformFamily::Other);
    assert_eq!(PlatformFamily::from_os_name(""), PlatformFamily::Other);
}

#[test]
fn echo_output_reports_success() {
    let result = CommandResult::from_output(&output(b"test\n", b"", Some(0)));
    assert!(result.success);
    assert_eq!(result.exit_code, Some(0));
    assert_eq!(result.stdout, "test\n");
    assert_eq!(result.stderr, "");
}

#[test]
fn missing_command_reports_failure_with_stderr() {
    let spawned = Ok(output(b"", b"sh: 1: definitely-not-a-real-command-xyz: not found\n", Some(127)));
    let result = finish(ShellKind::Native, spawned).unwrap();
    assert!(!result.success);
    assert_eq!(result.exit_code, Some(127));
    assert!(!result.stderr.is_empty());
    assert_eq!(result.stderr, "sh: 1: definitely-not-a-real-command-xyz: not found\n");
}

#[test]
fn success_follows_the_exit_code() {
    for (code, expected) in [(Some(0), true), (Some(1), false), (Some(127), false), (Some(255), false), (Some(-1), false), (None, false)] {
        let result = CommandResult::from_output(&output(b"", b"", code));
        assert_eq!(result.success, expected);
        assert_eq!(result.exit_code, code);
        if result.exit_code.is_none() {
            assert!(!result.success);
        }
        if result.exit_code == Some(0) {
            assert!(result.success);
        }
    }
}

#[test]
fn new_result_keeps_its_parts() {
    let result = CommandResult::new("out".to_string(), "err".to_string(), Some(3));
    assert!(!result.success);
    assert_eq!(result.stdout, "out");
    assert_eq!(result.stderr, "err");
    assert_eq!(result.exit_code, Some(3));
    assert!(CommandResult::new(String::new(), String::new(), Some(0)).success);
}

#[test]
fn invalid_bytes_are_replaced_and_valid_text_kept() {
    let result = CommandResult::from_output(&output(b"ok\xffok", b"bad\xc3", Some(0)));
    assert_eq!(result.stdout, "ok\u{FFFD}ok");
    assert_eq!(result.stderr, "bad\u{FFFD}");
    assert!(result.success);
}

#[test]
fn valid_multibyte_text_is_decoded() {
    let result = CommandResult::from_output(&output("h\u{e9}llo \u{2713}".as_bytes(), b"", Some(0)));
    assert_eq!(result.stdout, "h\u{e9}llo \u{2713}");
    assert_eq!(result.stdout.chars().count(), 7);
}

#[test]
fn spawn_failure_messages_name_the_operation() {
    assert_eq!(
        spawn_failure_message(ShellKind::Native, "No such file or directory (os error 2)"),
        "Failed to execute command: No such file or directory (os error 2)"
    );
    assert_eq!(
        spawn_failure_message(ShellKind::Script, "program not found"),
        "Failed to execute PowerShell command: program not found"
    );
}

#[test]
fn failed_spawn_becomes_an_error() {
    let result = finish(ShellKind::Native, Err("Permission denied (os error 13)".to_string()));
    match result {
        Ok(_) => panic!("a failed spawn was reported as a result"),
        Err(message) => assert_eq!(message, "Failed to execute command: Permission denied (os error 13)"),
    }
    let result = finish(ShellKind::Script, Err(String::new()));
    match result {
        Ok(_) => panic!("a failed spawn was reported as a result"),
        Err(message) => assert_eq!(message, "Failed to execute PowerShell command: "),
    }
}

#[test]
fn child_failure_is_not_an_error() {
    let result = finish(ShellKind::Script, Ok(output(b"partial", b"boom", Some(1)))).unwrap();
    assert!(!result.success);
    assert_eq!(result.stdout, "partial");
    assert_eq!(result.stderr, "boom");
    let killed = finish(ShellKind::Native, Ok(output(b"", b"", None))).unwrap();
    assert!(!killed.success);
    assert_eq!(killed.exit_code, None);
}

#[test]
fn only_invalid_bytes_still_give_text() {
    let result = finish(ShellKind::Native, Ok(output(b"\xfe\xff", b"\x80", Some(2)))).unwrap();
    assert!(!result.success);
    assert!(!result.stderr.is_empty());
    assert_eq!(result.stderr, "\u{FFFD}");
    assert_eq!(result.stdout, "\u{FFFD}\u{FFFD}");
}
