use noterm::local::{pty_dimension, resolve_home_dir, resolve_shell_path, ShellEnvironment};
use noterm::text::{push_decimal, push_hex2};

fn posix(shell: Option<&str>) -> ShellEnvironment {
    ShellEnvironment { windows: false, shell: shell.map(|s| s.to_string()), shell_exists: true, comspec: None, powershell: None }
}

#[test]
fn requested_shell_wins_when_not_blank() {
    assert_eq!(resolve_shell_path(&Some("  /bin/zsh ".to_string()), &posix(Some("/bin/sh"))), "/bin/zsh");
    assert_eq!(resolve_shell_path(&Some("   ".to_string()), &posix(Some("/bin/sh"))), "/bin/sh");
}

#[test]
fn posix_shell_falls_back_to_bash() {
    assert_eq!(resolve_shell_path(&None, &posix(None)), "/bin/bash");
    assert_eq!(resolve_shell_path(&None, &posix(Some(" "))), "/bin/bash");
}

#[test]
fn windows_shell_order() {
    let mut env = ShellEnvironment { windows: true, shell: Some("C:\\bash.exe".to_string()), shell_exists: false, comspec: Some("C:\\cmd.exe".to_string()), powershell: Some("C:\\ps.exe".to_string()) };
    assert_eq!(resolve_shell_path(&None, &env), "C:\\cmd.exe");
    env.shell_exists = true;
    assert_eq!(resolve_shell_path(&None, &env), "C:\\bash.exe");
    env.shell = None;
    env.comspec = Some(" ".to_string());
    assert_eq!(resolve_shell_path(&None, &env), "C:\\ps.exe");
    env.powershell = None;
    assert_eq!(resolve_shell_path(&None, &env), "cmd.exe");
}

#[test]
fn home_directory_by_platform() {
    let up = Some("C:\\Users\\a".to_string());
    let home = Some("/home/a".to_string());
    assert_eq!(resolve_home_dir(true, &up, &home), up);
    assert_eq!(resolve_home_dir(false, &up, &home), home);
    assert_eq!(resolve_home_dir(false, &up, &Some("  ".to_string())), None);
    assert_eq!(resolve_home_dir(false, &up, &None), None);
}

#[test]
fn pty_dimensions_are_capped() {
    assert_eq!(pty_dimension(80), 80);
    assert_eq!(pty_dimension(65535), 65535);
    assert_eq!(pty_dimension(70000), 65535);
}

#[test]
fn number_rendering() {
    let mut s = String::from("n=");
    push_decimal(&mut s, 0);
    push_decimal(&mut s, 1234567890);
    assert_eq!(s, "n=01234567890");
    let mut h = String::new();
    push_hex2(&mut h, 0x0f);
    push_hex2(&mut h, 0xa0);
    assert_eq!(h, "0fa0");
}
