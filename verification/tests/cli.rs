use std::path::PathBuf;
use wp_bridge::cli::{wp_cli_answer, wp_cli_invocation, Invocation, ProcessOutcome};
use wp_bridge::site::{Environment, WPSite};

fn site(root: &str, tool: &str) -> WPSite {
    WPSite {
        id: String::from("site-1"),
        name: String::from("Example"),
        path: PathBuf::from(root),
        wp_cli_path: PathBuf::from(tool),
        environment: Environment::Development,
    }
}

fn exited(exit_code: Option<i32>, stdout: &[u8], stderr: &[u8]) -> ProcessOutcome {
    ProcessOutcome::Exited { exit_code, stdout: stdout.to_vec(), stderr: stderr.to_vec() }
}

#[test]
fn invocation_runs_the_sites_tool_in_the_sites_root() {
    let command = vec![String::from("plugin"), String::from("list"), String::from("--format=json")];
    let invocation = wp_cli_invocation(site("/srv/www/example", "/usr/local/bin/wp"), command);
    assert_eq!(
        invocation,
        Invocation {
            program: PathBuf::from("/usr/local/bin/wp"),
            args: vec![
                String::from("plugin"),
                String::from("list"),
                String::from("--format=json"),
            ],
            working_dir: PathBuf::from("/srv/www/example"),
        }
    );
}

#[test]
fn invocation_keeps_the_order_of_arguments() {
    let command = vec![String::from("b"), String::from("a"), String::from("b"), String::from("")];
    let invocation = wp_cli_invocation(site("/a", "/b"), command.clone());
    assert_eq!(invocation.args, command);
}

#[test]
fn invocation_with_no_arguments() {
    let invocation = wp_cli_invocation(site("/srv/site", "wp"), Vec::new());
    assert_eq!(invocation.program, PathBuf::from("wp"));
    assert!(invocation.args.is_empty());
    assert_eq!(invocation.working_dir, PathBuf::from("/srv/site"));
}

#[test]
fn invocation_does_not_depend_on_the_environment() {
    let mut staging = site("/srv/site", "/bin/wp");
    staging.environment = Environment::Staging;
    let mut production = site("/srv/site", "/bin/wp");
    production.environment = Environment::Production;
    assert_eq!(
        wp_cli_invocation(staging, vec![String::from("core")]),
        wp_cli_invocation(production, vec![String::from("core")])
    );
}

#[test]
fn exit_code_zero_answers_with_stdout() {
    let answer = wp_cli_answer(exited(Some(0), b"Success: done.\n", b"Warning: noise\n"));
    assert_eq!(answer, Ok(String::from("Success: done.\n")));
}

#[test]
fn exit_code_zero_ignores_stderr() {
    let quiet = wp_cli_answer(exited(Some(0), b"5.9.3\n", b""));
    let noisy = wp_cli_answer(exited(Some(0), b"5.9.3\n", b"Deprecated: something\n"));
    assert_eq!(quiet, noisy);
    assert_eq!(quiet, Ok(String::from("5.9.3\n")));
}

#[test]
fn exit_code_zero_with_empty_output() {
    assert_eq!(wp_cli_answer(exited(Some(0), b"", b"ignored")), Ok(String::new()));
}

#[test]
fn nonzero_exit_code_fails_with_stderr() {
    let answer = wp_cli_answer(exited(Some(1), b"partial output", b"Error: no such command\n"));
    assert_eq!(answer, Err(String::from("Error: no such command\n")));
}

#[test]
fn nonzero_exit_code_ignores_stdout() {
    let one = wp_cli_answer(exited(Some(2), b"", b"Error: x"));
    let other = wp_cli_answer(exited(Some(2), b"a lot of output", b"Error: x"));
    assert_eq!(one, other);
    assert_eq!(one, Err(String::from("Error: x")));
}

#[test]
fn every_nonzero_exit_code_is_a_failure() {
    for code in [1, 2, 127, 255, -1, i32::MAX, i32::MIN] {
        assert_eq!(
            wp_cli_answer(exited(Some(code), b"out", b"err")),
            Err(String::from("err")),
            "exit code {}",
            code
        );
    }
}

#[test]
fn nonzero_exit_code_with_empty_stderr() {
    assert_eq!(wp_cli_answer(exited(Some(1), b"out", b"")), Err(String::new()));
}

#[test]
fn missing_exit_code_is_a_failure() {
    let answer = wp_cli_answer(exited(None, b"out", b"Terminated\n"));
    assert_eq!(answer, Err(String::from("Terminated\n")));
}

#[test]
fn launch_failure_carries_the_os_error() {
    let answer = wp_cli_answer(ProcessOutcome::LaunchFailed {
        error: String::from("No such file or directory (os error 2)"),
    });
    assert_eq!(
        answer,
        Err(String::from("Failed to execute WP-CLI: No such file or directory (os error 2)"))
    );
}

#[test]
fn launch_failure_with_empty_error() {
    let answer = wp_cli_answer(ProcessOutcome::LaunchFailed { error: String::new() });
    assert_eq!(answer, Err(String::from("Failed to execute WP-CLI: ")));
}

#[test]
fn valid_utf8_comes_back_byte_for_byte() {
    let written = "Grüße, 世界 🌍\n";
    let answer = wp_cli_answer(exited(Some(0), written.as_bytes(), b""));
    assert_eq!(answer, Ok(String::from(written)));
    assert_eq!(answer.unwrap().as_bytes(), written.as_bytes());
}

#[test]
fn invalid_utf8_in_stdout_is_replaced() {
    let answer = wp_cli_answer(exited(Some(0), b"ab\xffcd", b""));
    assert_eq!(answer, Ok(String::from("ab\u{FFFD}cd")));
}

#[test]
fn invalid_utf8_in_stderr_is_replaced() {
    let answer = wp_cli_answer(exited(Some(1), b"", b"Error: \xc3\x28!"));
    assert_eq!(answer, Err(String::from("Error: \u{FFFD}(!")));
}

#[test]
fn truncated_utf8_is_replaced() {
    let answer = wp_cli_answer(exited(Some(0), b"caf\xc3", b""));
    assert_eq!(answer, Ok(String::from("caf\u{FFFD}")));
}
