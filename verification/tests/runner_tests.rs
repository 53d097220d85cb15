use rpa_app::runner::{
    BinaryAttempt, InterpreterVerdict, ProcOutput, TaskOutcome, binary_verdict,
    interpreter_verdict,
};

fn ran(status_ok: bool, stdout: &[u8], stderr: &[u8]) -> ProcOutput {
    ProcOutput { status_ok, stdout: stdout.to_vec(), stderr: stderr.to_vec() }
}

#[test]
fn interpreter_success_decodes_stdout() {
    let v = interpreter_verdict(Some(ran(true, b"collected 3 rows", b"")));
    match v {
        InterpreterVerdict::Done(TaskOutcome::Success { raw_output }) => {
            assert_eq!(raw_output, "collected 3 rows");
        }
        _ => panic!("expected a successful outcome"),
    }
}

#[test]
fn interpreter_nonzero_exit_falls_back() {
    let v = interpreter_verdict(Some(ran(false, b"", b"interpreter-tier boom")));
    assert!(matches!(v, InterpreterVerdict::TryBinary));
}

#[test]
fn missing_interpreter_falls_back() {
    let v = interpreter_verdict(None);
    assert!(matches!(v, InterpreterVerdict::TryBinary));
}

#[test]
fn undecodable_interpreter_output_is_a_failure() {
    let v = interpreter_verdict(Some(ran(true, &[0xff, 0xfe], b"")));
    match v {
        InterpreterVerdict::Done(TaskOutcome::Failure { message }) => {
            assert_eq!(message, "the collector program output is not valid text");
        }
        _ => panic!("expected a decoding failure"),
    }
}

#[test]
fn binary_success_decodes_stdout() {
    let o = binary_verdict(BinaryAttempt::Ran { output: ran(true, b"rows", b"") });
    match o {
        TaskOutcome::Success { raw_output } => assert_eq!(raw_output, "rows"),
        _ => panic!("expected a successful outcome"),
    }
}

#[test]
fn both_tiers_fail_reports_the_binary_error() {
    let interp = interpreter_verdict(Some(ran(false, b"", b"interpreter-tier boom")));
    assert!(matches!(interp, InterpreterVerdict::TryBinary));
    let o = binary_verdict(BinaryAttempt::Ran { output: ran(false, b"", b"binary-tier boom") });
    match o {
        TaskOutcome::Failure { message } => {
            assert_eq!(message, "the collector program failed: binary-tier boom");
            assert!(!message.contains("interpreter-tier boom"));
        }
        _ => panic!("expected a failure"),
    }
}

#[test]
fn unresolved_binary_keeps_the_resolution_message() {
    let o = binary_verdict(
        BinaryAttempt::NotResolved { message: "no runnable collector program found".to_string() },
    );
    match o {
        TaskOutcome::Failure { message } => {
            assert_eq!(message, "no runnable collector program found");
        }
        _ => panic!("expected a failure"),
    }
}

#[test]
fn spawn_failure_is_wrapped() {
    let o = binary_verdict(BinaryAttempt::SpawnFailed { error: "permission denied".to_string() });
    match o {
        TaskOutcome::Failure { message } => {
            assert_eq!(message, "failed to start the collector program: permission denied");
        }
        _ => panic!("expected a failure"),
    }
}

#[test]
fn undecodable_stderr_reads_unknown_error() {
    let o = binary_verdict(BinaryAttempt::Ran { output: ran(false, b"", &[0xc0]) });
    match o {
        TaskOutcome::Failure { message } => {
            assert_eq!(message, "the collector program failed: unknown error");
        }
        _ => panic!("expected a failure"),
    }
}
