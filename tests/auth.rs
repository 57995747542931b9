use noterm::auth::{effective_username, key_auth_failure, plan_auth, prepare_connect, AuthPlan};
use noterm::error::ErrorKind;
use noterm::model::{AuthType, SshConnection};

fn conn(username: &str, auth: AuthType) -> SshConnection {
    SshConnection { id: "s1".to_string(), name: "n".to_string(), host: "h".to_string(), port: 22, username: username.to_string(), auth_type: auth, encoding: None }
}

#[test]
fn blank_username_uses_environment_user() {
    let c = conn(" ", AuthType::Password { password: "p".to_string() });
    let plan = prepare_connect(&c, &Some("alice".to_string()), &None).unwrap();
    assert_eq!(plan.username, "alice");
    assert_eq!(plan.address, "h:22");
    assert_eq!(plan.auth, AuthPlan::Password { password: "p".to_string() });
}

#[test]
fn username_defaults() {
    assert_eq!(effective_username("  bob ", &Some("alice".to_string()), &None), "bob");
    assert_eq!(effective_username("", &Some("  ".to_string()), &Some("carol".to_string())), "carol");
    assert_eq!(effective_username("\t", &None, &None), "root");
    assert_eq!(effective_username("", &Some(" ".to_string()), &Some("".to_string())), "root");
}

#[test]
fn private_key_without_material_fails_auth() {
    let a = AuthType::PrivateKey { key_path: String::new(), key_content: Some(String::new()), passphrase: None };
    let e = plan_auth(&a).unwrap_err();
    assert_eq!(e.kind, ErrorKind::Auth);
    assert_eq!(e.to_string(), "Both key_path and key_content are empty");
    let b = AuthType::PrivateKey { key_path: String::new(), key_content: None, passphrase: None };
    assert_eq!(plan_auth(&b).unwrap_err().message, "key_path is empty");
    let err = prepare_connect(&conn("u", b), &None, &None).unwrap_err();
    assert_eq!(err.kind, ErrorKind::Auth);
}

#[test]
fn key_text_takes_precedence_over_path() {
    let a = AuthType::PrivateKey { key_path: "/k".to_string(), key_content: Some("PEM".to_string()), passphrase: Some("pw".to_string()) };
    assert_eq!(plan_auth(&a).unwrap(), AuthPlan::KeyText { key: "PEM".to_string(), passphrase: Some("pw".to_string()) });
    let b = AuthType::PrivateKey { key_path: "/k".to_string(), key_content: Some(String::new()), passphrase: None };
    assert_eq!(plan_auth(&b).unwrap(), AuthPlan::KeyFile { path: "/k".to_string(), passphrase: None });
}

#[test]
fn key_failure_names_what_to_check() {
    let e = key_auth_failure("bad key");
    assert_eq!(e.kind, ErrorKind::Auth);
    assert_eq!(e.message, "Private key authentication failed: bad key. Please check: 1) Key format (must be valid PEM), 2) Passphrase if key is encrypted, 3) Username is correct");
}

#[test]
fn connect_address_renders_port() {
    let mut c = conn("u", AuthType::Password { password: "p".to_string() });
    c.host = "example.org".to_string();
    c.port = 2222;
    assert_eq!(prepare_connect(&c, &None, &None).unwrap().address, "example.org:2222");
}

#[test]
fn unicode_white_space_username_is_blank() {
    assert_eq!(effective_username("\u{3000}\u{a0}", &Some("alice".to_string()), &None), "alice");
}
