use codex_remote::adapter::{command_result, SshTimeouts};
use codex_remote::handlers::{
    decimal_text, exec_failure, install_outcome, plan_exec, plan_install, plan_start, plan_write,
    write_outcome,
};
use codex_remote::policy::{clamp_timeout_ms, exit_status_from, parse_port};
use codex_remote::signals::{
    pong_for, CorePing, SshExecRequest, SshInstallPublicKeyRequest, SshStartCommandRequest,
    SshWriteFileRequest,
};

fn exec_req(port: i32) -> SshExecRequest {
    SshExecRequest {
        request_id: 11,
        host: "h".to_string(),
        port,
        username: "u".to_string(),
        command: "echo hi".to_string(),
        private_key_pem: Some("  \n".to_string()),
        private_key_passphrase: None,
        connect_timeout_ms: 0,
        command_timeout_ms: 2500,
    }
}

#[test]
fn ping_answers_same_nonce() {
    assert_eq!(pong_for(&CorePing { nonce: 42 }).nonce, 42);
}

#[test]
fn ports_and_timeouts() {
    assert_eq!(parse_port(22), Some(22));
    assert_eq!(parse_port(0), Some(0));
    assert_eq!(parse_port(65535), Some(65535));
    assert_eq!(parse_port(65536), None);
    assert_eq!(parse_port(-1), None);
    assert_eq!(clamp_timeout_ms(0), 1);
    assert_eq!(clamp_timeout_ms(-5), 1);
    assert_eq!(clamp_timeout_ms(750), 750);
    assert_eq!(exit_status_from(0), 0);
    assert_eq!(exit_status_from(2147483648), -1);
}

#[test]
fn exec_rejects_port_65536() {
    let resp = plan_exec(&exec_req(65536)).err().expect("rejected");
    assert_eq!(resp.request_id, 11);
    assert!(!resp.ok);
    assert_eq!(resp.exit_status, -1);
    assert!(resp.error.unwrap().contains("Invalid port"));
}

#[test]
fn exec_plan_clamps_and_drops_blank_key() {
    let plan = plan_exec(&exec_req(22)).ok().expect("accepted");
    assert_eq!(plan.port, 22);
    assert_eq!(plan.timeouts.connect_ms, 1);
    assert_eq!(plan.timeouts.command_ms, 2500);
    assert!(plan.explicit_key.is_none());
    let t = SshTimeouts::from_request(-3, 9);
    assert_eq!((t.connect_ms, t.command_ms), (1, 9));
}

#[test]
fn start_rejects_port_65536() {
    let req = SshStartCommandRequest {
        request_id: 3,
        host: "h".to_string(),
        port: 65536,
        username: "u".to_string(),
        command: "yes".to_string(),
        private_key_pem: Some("KEY".to_string()),
        private_key_passphrase: None,
        connect_timeout_ms: 10,
    };
    let resp = plan_start(&req).err().expect("rejected");
    assert_eq!((resp.ok, resp.stream_id), (false, 0));
    assert!(resp.error.unwrap().contains("Invalid port"));
    let ok = plan_start(&SshStartCommandRequest { port: 22, ..req }).ok().expect("accepted");
    assert_eq!(ok.explicit_key, Some("KEY".to_string()));
}

#[test]
fn write_plan_and_port_check() {
    let req = SshWriteFileRequest {
        request_id: 4,
        host: "h".to_string(),
        port: 22,
        username: "u".to_string(),
        remote_path: "/tmp/dir/file.txt".to_string(),
        contents: "hello\n".to_string(),
        private_key_pem: None,
        private_key_passphrase: None,
        connect_timeout_ms: 100,
        command_timeout_ms: 200,
    };
    let (plan, cmd) = plan_write(&req).ok().expect("accepted");
    assert_eq!(cmd, "mkdir -p /tmp/dir && cat > /tmp/dir/file.txt");
    assert_eq!(plan.timeouts.command_ms, 200);
    let bad = plan_write(&SshWriteFileRequest { port: 65536, ..req }).err().expect("rejected");
    assert!(bad.error.unwrap().contains("Invalid port"));
}

#[test]
fn install_rejects_port_65536_and_missing_at() {
    let req = SshInstallPublicKeyRequest {
        request_id: 5,
        user_at_host: "u@h".to_string(),
        port: 65536,
        password: "pw".to_string(),
        private_key_pem: "not a key".to_string(),
        private_key_passphrase: None,
        comment: "c".to_string(),
    };
    let resp = plan_install(req.clone()).err().expect("rejected");
    assert!(resp.error.unwrap().contains("Invalid port"));
    let no_at = SshInstallPublicKeyRequest { user_at_host: "uh".to_string(), ..req.clone() };
    assert_eq!(
        plan_install(no_at).err().expect("rejected").error,
        Some("user_at_host must be username@host".to_string())
    );
    let bad_key = SshInstallPublicKeyRequest { port: 22, ..req };
    let resp = plan_install(bad_key).err().expect("rejected");
    assert!(!resp.ok);
    assert!(resp.error.is_some());
}

#[test]
fn write_outcomes() {
    let ok = write_outcome(1, 0, b"", b"");
    assert!(ok.ok && ok.error.is_none());
    let e = write_outcome(1, 2, b"out", b"  no space left \n");
    assert_eq!(e.error, Some("write failed (exit=2): no space left".to_string()));
    let e = write_outcome(1, -1, b" from stdout ", b" \n");
    assert_eq!(e.error, Some("write failed (exit=-1): from stdout".to_string()));
}

#[test]
fn decimal_rendering() {
    assert_eq!(decimal_text(0), "0");
    assert_eq!(decimal_text(127), "127");
    assert_eq!(decimal_text(-40), "-40");
    assert_eq!(decimal_text(i32::MIN), "-2147483648");
    assert_eq!(decimal_text(i32::MAX), "2147483647");
}

#[test]
fn exec_responses() {
    let f = exec_failure(6, "x".to_string());
    assert_eq!((f.ok, f.exit_status, f.stdout.as_str()), (false, -1, ""));
    let r = command_result("hi\n".to_string(), String::new(), 0);
    assert_eq!((r.stdout.as_str(), r.exit_status), ("hi\n", 0));
    assert!(install_outcome(2, Ok(())).ok);
    assert_eq!(install_outcome(2, Err("e".to_string())).error, Some("e".to_string()));
}
