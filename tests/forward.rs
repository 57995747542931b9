use noterm::forward::{accept_next, AcceptAction, AcceptOutcome, ListenerKind};
use noterm::error::ErrorKind;
use noterm::forward::{after_open_error, after_open_failure, keepalive_next, open_timed_out, plan_forward, ForwardPlan, KeepaliveAction, KeepaliveOutcome, OpenRetry};
use noterm::model::{AuthType, ForwardConfig, ForwardKind, SshConnection};
use noterm::session::ForwardTable;
use noterm::transport::{error_would_block, is_would_block, TransportCode};

fn config(id: &str, kind: ForwardKind) -> ForwardConfig {
    ForwardConfig {
        id: id.to_string(),
        kind,
        connection: SshConnection { id: "c".to_string(), name: "n".to_string(), host: "h".to_string(), port: 22, username: "u".to_string(), auth_type: AuthType::Password { password: "p".to_string() }, encoding: None },
        local_bind_host: None,
        local_bind_port: None,
        remote_bind_host: None,
        remote_bind_port: None,
        target_host: None,
        target_port: None,
    }
}

#[test]
fn dynamic_forward_defaults_to_loopback() {
    let mut c = config("f1", ForwardKind::Dynamic);
    c.local_bind_port = Some(1080);
    assert_eq!(plan_forward(&c).unwrap(), ForwardPlan::Dynamic { bind_host: "127.0.0.1".to_string(), bind_port: 1080 });
}

#[test]
fn local_and_remote_forward_plans() {
    let mut c = config("f", ForwardKind::Local);
    c.local_bind_port = Some(8080);
    c.target_host = Some("db".to_string());
    c.target_port = Some(5432);
    assert_eq!(plan_forward(&c).unwrap(), ForwardPlan::Local { bind_host: "127.0.0.1".to_string(), bind_port: 8080, target_host: "db".to_string(), target_port: 5432 });
    c.kind = ForwardKind::Remote;
    assert_eq!(plan_forward(&c).unwrap_err().message, "Remote bind port missing");
    c.remote_bind_port = Some(9000);
    assert_eq!(plan_forward(&c).unwrap(), ForwardPlan::Remote { bind_host: "0.0.0.0".to_string(), bind_port: 9000, target_host: "db".to_string(), target_port: 5432 });
    c.remote_bind_host = Some("10.0.0.1".to_string());
    assert_eq!(plan_forward(&c).unwrap(), ForwardPlan::Remote { bind_host: "10.0.0.1".to_string(), bind_port: 9000, target_host: "db".to_string(), target_port: 5432 });
}

#[test]
fn missing_bindings_are_refused() {
    let mut c = config("f", ForwardKind::Local);
    let e = plan_forward(&c).unwrap_err();
    assert_eq!(e.kind, ErrorKind::InvalidConfig);
    assert_eq!(e.message, "Local bind port missing");
    c.local_bind_port = Some(1);
    assert_eq!(plan_forward(&c).unwrap_err().message, "Target host missing");
    c.target_host = Some("t".to_string());
    assert_eq!(plan_forward(&c).unwrap_err().message, "Target port missing");
}

#[test]
fn second_start_with_same_id_is_already_running() {
    let mut table: ForwardTable<u32> = ForwardTable::new();
    let mut c = config("f1", ForwardKind::Dynamic);
    c.local_bind_port = Some(1080);
    assert!(table.check_start(&c).is_ok());
    assert!(table.add("f1", 7).is_ok());
    let e = table.check_start(&c).unwrap_err();
    assert_eq!(e.kind, ErrorKind::AlreadyRunning);
    assert_eq!(e.message, "Forward already running");
    let (h, e) = table.add("f1", 8).unwrap_err();
    assert_eq!(h, 8);
    assert_eq!(e.kind, ErrorKind::AlreadyRunning);
    assert_eq!(table.list(), vec!["f1".to_string()]);
    assert_eq!(table.stop("f1").unwrap(), 7);
    assert_eq!(table.stop("f1").unwrap_err().kind, ErrorKind::NotFound);
    assert!(table.list().is_empty());
}

#[test]
fn open_retries_only_while_blocking() {
    let block = TransportCode::Session(-37);
    assert!(is_would_block(block));
    assert!(!is_would_block(TransportCode::Session(-1)));
    assert!(!is_would_block(TransportCode::Sftp(-37)));
    assert_eq!(after_open_failure(0, block), OpenRetry::RetryAfterPause);
    assert_eq!(after_open_failure(28, block), OpenRetry::RetryAfterPause);
    assert_eq!(after_open_failure(29, block), OpenRetry::TimedOut);
    assert_eq!(after_open_failure(3, TransportCode::Session(-7)), OpenRetry::Fail);
    assert_eq!(open_timed_out().kind, ErrorKind::Timeout);
}

#[test]
fn transport_errors_are_read_by_code() {
    let blocking = ssh2::Error::new(ssh2::ErrorCode::Session(-37), "would block");
    let other = ssh2::Error::new(ssh2::ErrorCode::Session(-18), "auth");
    let sftp = ssh2::Error::new(ssh2::ErrorCode::SFTP(-37), "sftp");
    assert!(error_would_block(&blocking));
    assert!(!error_would_block(&other));
    assert!(!error_would_block(&sftp));
    assert_eq!(after_open_error(0, &blocking), OpenRetry::RetryAfterPause);
    assert_eq!(after_open_error(0, &other), OpenRetry::Fail);
}

#[test]
fn keepalive_pauses_are_clamped() {
    assert_eq!(keepalive_next(true, KeepaliveOutcome::Sent(0)), KeepaliveAction::SleepSecs(5));
    assert_eq!(keepalive_next(true, KeepaliveOutcome::Sent(3)), KeepaliveAction::SleepSecs(5));
    assert_eq!(keepalive_next(true, KeepaliveOutcome::Sent(15)), KeepaliveAction::SleepSecs(15));
    assert_eq!(keepalive_next(true, KeepaliveOutcome::Sent(300)), KeepaliveAction::SleepSecs(60));
    assert_eq!(keepalive_next(true, KeepaliveOutcome::WouldBlock), KeepaliveAction::SleepSecs(1));
    assert_eq!(keepalive_next(true, KeepaliveOutcome::Failed), KeepaliveAction::Exit);
    assert_eq!(keepalive_next(false, KeepaliveOutcome::Sent(10)), KeepaliveAction::Exit);
}

#[test]
fn accept_loop_decisions() {
    assert_eq!(accept_next(ListenerKind::Local, false, AcceptOutcome::Accepted), AcceptAction::Serve);
    assert_eq!(accept_next(ListenerKind::Local, false, AcceptOutcome::NothingYet), AcceptAction::PauseMillis(50));
    assert_eq!(accept_next(ListenerKind::Local, false, AcceptOutcome::Failed), AcceptAction::Exit);
    assert_eq!(accept_next(ListenerKind::Remote, false, AcceptOutcome::Failed), AcceptAction::PauseMillis(80));
    assert_eq!(accept_next(ListenerKind::Remote, false, AcceptOutcome::Accepted), AcceptAction::Serve);
    assert_eq!(accept_next(ListenerKind::Remote, true, AcceptOutcome::Accepted), AcceptAction::Exit);
    assert_eq!(accept_next(ListenerKind::Local, true, AcceptOutcome::NothingYet), AcceptAction::Exit);
}
