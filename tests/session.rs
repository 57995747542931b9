use noterm::error::ErrorKind;
use noterm::model::{AuthType, SshConnection};
use noterm::registry::Registry;
use noterm::session::{after_exec_failure, reuse_transfer, ExecRetry, SessionTable};

fn conn(id: &str) -> SshConnection {
    SshConnection { id: id.to_string(), name: id.to_string(), host: "h".to_string(), port: 22, username: "u".to_string(), auth_type: AuthType::Password { password: "p".to_string() }, encoding: None }
}

#[test]
fn closing_one_session_leaves_another() {
    let mut t: SessionTable<u32, char> = SessionTable::new();
    t.register(&conn("a"), 1);
    t.register(&conn("b"), 2);
    assert!(t.attach_shell("a", 'x').is_ok());
    assert!(t.attach_shell("b", 'y').is_ok());
    assert!(t.cache_transfer("a", 10).is_ok());
    assert!(t.cache_transfer("b", 20).is_ok());
    let removed = t.unregister("a");
    assert_eq!(removed.shell, Some(1));
    assert_eq!(removed.channel, Some('x'));
    assert_eq!(removed.transfer, Some(10));
    assert!(!t.is_connected("a"));
    assert!(t.is_connected("b"));
    assert_eq!(*t.shell_transport("b").unwrap(), 2);
    assert_eq!(*t.shell_channel("b").unwrap(), 'y');
    assert_eq!(t.cached_transfer("b"), Some(&20));
    assert_eq!(t.descriptor("b").unwrap().id, "b");
    assert_eq!(t.session_ids(), vec!["b".to_string()]);
}

#[test]
fn lookups_of_unknown_sessions_fail() {
    let mut t: SessionTable<u32, char> = SessionTable::new();
    let e = t.shell_transport("nope").unwrap_err();
    assert_eq!(e.kind, ErrorKind::NotFound);
    assert_eq!(e.message, "Session not found");
    assert_eq!(t.shell_channel("nope").unwrap_err().message, "Shell not found");
    assert_eq!(t.descriptor("nope").unwrap_err().message, "Connection info not found for session: nope");
    assert_eq!(t.attach_shell("nope", 'z'), Err('z'));
    assert_eq!(t.cache_transfer("nope", 5), Err(5));
    assert_eq!(t.cached_transfer("nope"), None);
    let removed = t.unregister("nope");
    assert!(removed.shell.is_none() && removed.channel.is_none() && removed.transfer.is_none());
}

#[test]
fn dropping_transfer_keeps_shell() {
    let mut t: SessionTable<u32, char> = SessionTable::new();
    t.register(&conn("s"), 1);
    t.attach_shell("s", 'c').unwrap();
    t.cache_transfer("s", 9).unwrap();
    assert_eq!(t.drop_transfer("s"), Some(9));
    assert_eq!(t.drop_transfer("s"), None);
    assert_eq!(*t.shell_channel("s").unwrap(), 'c');
    assert!(t.is_connected("s"));
}

#[test]
fn command_is_retried_once() {
    assert_eq!(after_exec_failure(0), ExecRetry::DropTransportAndRetry);
    assert_eq!(after_exec_failure(1), ExecRetry::Surface);
}

#[test]
fn registry_replaces_and_removes() {
    let mut r: Registry<i32> = Registry::new();
    r.insert("k", 1);
    r.insert("k", 2);
    assert_eq!(r.get("k"), Some(&2));
    assert_eq!(r.ids(), vec!["k".to_string()]);
    assert_eq!(r.insert_new("k", 3), Err(3));
    assert_eq!(r.insert_new("j", 4), Ok(()));
    assert_eq!(r.remove("k"), Some(2));
    assert!(!r.contains("k"));
    assert!(r.contains("j"));
    assert_eq!(r.remove("k"), None);
}

#[test]
fn cached_transfer_reused_only_when_authenticated() {
    assert!(reuse_transfer(Some(true)));
    assert!(!reuse_transfer(Some(false)));
    assert!(!reuse_transfer(None));
}
