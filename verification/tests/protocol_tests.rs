use spawn_server::client::classify_outcome;
use spawn_server::client::HttpOutcome;
use spawn_server::protocol::text_is_blank;
use spawn_server::protocol::Command;
use spawn_server::protocol::CommandResponse;
use spawn_server::server::dispatch_response;
use spawn_server::server::screen_command;
use spawn_server::server::ExecOutcome;
use spawn_server::server::ServerDecision;

fn response(code: i32, stdout: &str, stderr: &str) -> CommandResponse {
    CommandResponse {
        code,
        stdout: stdout.to_string(),
        stderr: stderr.to_string(),
    }
}

#[test]
fn blank_detection() {
    assert!(text_is_blank(""));
    assert!(text_is_blank("   "));
    assert!(text_is_blank(" \t\r\n"));
    assert!(text_is_blank("\u{3000}\u{00A0}"));
    assert!(!text_is_blank("echo hi"));
    assert!(!text_is_blank("  x  "));
}

#[test]
fn blank_command_is_rejected_and_never_executed() {
    let cmd = Command {
        command: " \t ".to_string(),
    };
    match screen_command(&cmd) {
        ServerDecision::Reject { status, body } => {
            assert_eq!(status, 400);
            assert_eq!(body, "command must not be empty");
        }
        ServerDecision::Execute { .. } => panic!("blank command reached the executor"),
    }
}

#[test]
fn nonblank_command_is_executed_verbatim() {
    let cmd = Command {
        command: "ls -la > out.log".to_string(),
    };
    match screen_command(&cmd) {
        ServerDecision::Execute { command } => assert_eq!(command, "ls -la > out.log"),
        ServerDecision::Reject { .. } => panic!("acceptable command was rejected"),
    }
}

#[test]
fn completed_execution_keeps_code_and_streams() {
    let cmd = Command {
        command: "exit 7".to_string(),
    };
    let resp = dispatch_response(
        &cmd,
        ExecOutcome::Completed {
            code: 7,
            stdout: "out".to_string(),
            stderr: "err".to_string(),
        },
    );
    assert_eq!(resp.code, 7);
    assert_eq!(resp.stdout, "out");
    assert_eq!(resp.stderr, "err");
}

#[test]
fn dispatch_failure_maps_to_sentinel_code() {
    let cmd = Command {
        command: "echo hi".to_string(),
    };
    let resp = dispatch_response(&cmd, ExecOutcome::DispatchFailed);
    assert_eq!(resp.code, 100);
    assert_eq!(resp.stdout, "spawn_server: command 'echo hi' failed");
    assert_eq!(resp.stderr, "spawn error");
}

#[test]
fn classify_client_build_failure() {
    let r = classify_outcome(HttpOutcome::BuildFailed {
        err: "no tls".to_string(),
    });
    assert_eq!(r, (-3, "".to_string(), "Client Build Error: no tls".to_string()));
}

#[test]
fn classify_transport_failure_has_diagnostic() {
    let r = classify_outcome(HttpOutcome::SendFailed {
        err: "connection refused".to_string(),
    });
    assert_eq!(r.0, -1);
    assert_eq!(r.1, "");
    assert_eq!(r.2, "RPC Error: connection refused");
    assert!(!r.2.is_empty());
}

#[test]
fn classify_success_with_decoded_body() {
    let r = classify_outcome(HttpOutcome::Replied {
        status: 200,
        body: Ok(response(7, "out", "err")),
    });
    assert_eq!(r, (7, "out".to_string(), "err".to_string()));
}

#[test]
fn classify_success_with_undecodable_body() {
    let r = classify_outcome(HttpOutcome::Replied {
        status: 200,
        body: Err("expected value at line 1".to_string()),
    });
    assert_eq!(
        r,
        (-4, "".to_string(), "JSON parse error: expected value at line 1".to_string())
    );
}

#[test]
fn classify_non_success_with_decoded_body() {
    let r = classify_outcome(HttpOutcome::Replied {
        status: 500,
        body: Ok(response(1, "partial", "boom")),
    });
    assert_eq!(r, (-2, "partial".to_string(), "No Success Error: boom".to_string()));
}

#[test]
fn classify_non_success_with_undecodable_body() {
    let r = classify_outcome(HttpOutcome::Replied {
        status: 400,
        body: Err("not json".to_string()),
    });
    assert_eq!(r, (-5, "".to_string(), "JSON parse error: not json".to_string()));
}

#[test]
fn success_status_bounds() {
    let ok = classify_outcome(HttpOutcome::Replied {
        status: 299,
        body: Ok(response(0, "", "")),
    });
    assert_eq!(ok.0, 0);
    let not_ok = classify_outcome(HttpOutcome::Replied {
        status: 300,
        body: Ok(response(0, "", "")),
    });
    assert_eq!(not_ok.0, -2);
}

#[test]
fn round_trip_echo() {
    let cmd = Command {
        command: "echo hi".to_string(),
    };
    let decision = screen_command(&cmd);
    assert!(matches!(decision, ServerDecision::Execute { .. }));
    let resp = dispatch_response(
        &cmd,
        ExecOutcome::Completed {
            code: 0,
            stdout: "hi\n".to_string(),
            stderr: "".to_string(),
        },
    );
    let r = classify_outcome(HttpOutcome::Replied {
        status: 200,
        body: Ok(resp),
    });
    assert_eq!(r, (0, "hi\n".to_string(), "".to_string()));
}

#[test]
fn round_trip_nonzero_exit() {
    let cmd = Command {
        command: "exit 7".to_string(),
    };
    let resp = dispatch_response(
        &cmd,
        ExecOutcome::Completed {
            code: 7,
            stdout: "".to_string(),
            stderr: "".to_string(),
        },
    );
    let r = classify_outcome(HttpOutcome::Replied {
        status: 200,
        body: Ok(resp),
    });
    assert_eq!(r, (7, "".to_string(), "".to_string()));
}

#[test]
fn round_trip_dispatch_failure() {
    let cmd = Command {
        command: "sleep 1".to_string(),
    };
    let resp = dispatch_response(&cmd, ExecOutcome::DispatchFailed);
    let r = classify_outcome(HttpOutcome::Replied {
        status: 200,
        body: Ok(resp),
    });
    assert_eq!(r.0, 100);
    assert_eq!(r.1, "spawn_server: command 'sleep 1' failed");
    assert_eq!(r.2, "spawn error");
}

#[test]
fn defaults_are_well_formed() {
    let c = Command::default();
    assert_eq!(c.command, "");
    let r = CommandResponse::default();
    assert_eq!((r.code, r.stdout, r.stderr), (0, "".to_string(), "".to_string()));
}
