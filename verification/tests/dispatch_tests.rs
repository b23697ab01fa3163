use sidecar_core::dispatch::{capture, CommandInvocation, CommandResult, ExitPolicy, interpret};
use sidecar_core::errors::AppError;

fn finished(stdout: &str, stderr: &str, exit_success: bool) -> CommandResult {
    CommandResult {
        stdout: stdout.to_string(),
        stderr: stderr.to_string(),
        exit_success,
    }
}

#[test]
fn argv_is_verb_then_arguments_in_order() {
    let inv = CommandInvocation {
        sidecar: "google_auth".to_string(),
        verb: "batch_generate".to_string(),
        args: vec![
            "certificate".to_string(),
            "{\"group\": []}".to_string(),
            "{\"vars\": {}}".to_string(),
        ],
    };
    assert_eq!(
        inv.argv(),
        vec![
            "batch_generate".to_string(),
            "certificate".to_string(),
            "{\"group\": []}".to_string(),
            "{\"vars\": {}}".to_string(),
        ]
    );
}

#[test]
fn argv_of_bare_verb_is_just_the_verb() {
    let inv = CommandInvocation {
        sidecar: "google_auth".to_string(),
        verb: "list_sessions".to_string(),
        args: Vec::new(),
    };
    assert_eq!(inv.argv(), vec!["list_sessions".to_string()]);
}

#[test]
fn trusting_policy_returns_stdout_despite_failed_exit() {
    let r = interpret(
        finished("{\"status\": \"not_authenticated\"}", "boom", false),
        ExitPolicy::TrustStdout,
    );
    assert_eq!(r.unwrap(), "{\"status\": \"not_authenticated\"}");
}

#[test]
fn strict_policy_returns_stdout_on_success_exit() {
    let r = interpret(finished("payload", "", true), ExitPolicy::FailOnNonZero);
    assert_eq!(r.unwrap(), "payload");
}

#[test]
fn strict_policy_surfaces_stderr_on_failed_exit() {
    let e = interpret(
        finished("partial", "template not found", false),
        ExitPolicy::FailOnNonZero,
    )
    .unwrap_err();
    assert_eq!(
        e,
        AppError::SidecarExitedNonZero {
            stderr: "template not found".to_string()
        }
    );
    let msg = e.message();
    assert!(msg.contains("template not found"));
    assert_eq!(msg, "Sidecar failed: template not found");
}

#[test]
fn capture_decodes_valid_utf8_and_keeps_the_exit_status() {
    let r = capture("payload".as_bytes(), "warning".as_bytes(), true);
    assert_eq!(r.stdout, "payload");
    assert_eq!(r.stderr, "warning");
    assert!(r.exit_success);
}

#[test]
fn capture_replaces_invalid_byte_sequences_instead_of_failing() {
    let r = capture(&[0xff, b'o', b'k'], &[b'e', 0xc3], false);
    assert_eq!(r.stdout, "\u{FFFD}ok");
    assert_eq!(r.stderr, "e\u{FFFD}");
    assert!(!r.exit_success);
}

#[test]
fn spawn_failure_message_names_the_reason() {
    let e = AppError::SpawnFailed {
        reason: "permission denied".to_string(),
    };
    assert_eq!(
        e.message(),
        "Failed to execute sidecar: permission denied"
    );
}

#[test]
fn io_failure_message_names_the_reason() {
    let e = AppError::IoFailure {
        reason: "disk full".to_string(),
    };
    assert_eq!(e.message(), "File system operation failed: disk full");
}
