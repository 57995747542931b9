use noterm::keygen::{key_file_stem, keygen_algorithm_args, keygen_failure_message, sanitize_filename};
use noterm::rdp::{build_rdp_content, freerdp_args, join_with_newlines, stored_credential_args, RdpConnection};

fn rdp() -> RdpConnection {
    RdpConnection {
        id: "r1".to_string(),
        name: "desk".to_string(),
        host: "10.0.0.5".to_string(),
        port: 3389,
        username: String::new(),
        password: None,
        gateway_host: None,
        gateway_username: None,
        gateway_password: None,
        gateway_domain: None,
        resolution_width: None,
        resolution_height: None,
        color_depth: None,
        cert_policy: None,
        redirect_clipboard: None,
        redirect_audio: None,
        redirect_drives: None,
    }
}

#[test]
fn rdp_content_with_defaults() {
    assert_eq!(
        build_rdp_content(&rdp()),
        "full address:s:10.0.0.5:3389\nprompt for credentials:i:1\npromptcredentialonce:i:1\nscreen mode id:i:2\nauthentication level:i:2\nredirectclipboard:i:1\naudiomode:i:2\ndrivestoredirect:s:"
    );
}

#[test]
fn rdp_content_with_everything() {
    let mut c = rdp();
    c.username = "bob".to_string();
    c.password = Some("pw".to_string());
    c.resolution_width = Some(1920);
    c.resolution_height = Some(1080);
    c.color_depth = Some(32);
    c.cert_policy = Some("ignore".to_string());
    c.redirect_clipboard = Some(false);
    c.redirect_audio = Some(true);
    c.redirect_drives = Some(true);
    c.gateway_host = Some("gw".to_string());
    c.gateway_username = Some("gu".to_string());
    c.gateway_domain = Some("CORP".to_string());
    assert_eq!(
        build_rdp_content(&c),
        "full address:s:10.0.0.5:3389\nusername:s:bob\nprompt for credentials:i:0\npromptcredentialonce:i:1\ndesktopwidth:i:1920\ndesktopheight:i:1080\nscreen mode id:i:1\nsession bpp:i:32\nauthentication level:i:0\nredirectclipboard:i:0\naudiomode:i:0\ndrivestoredirect:s:*\ngatewayhostname:s:gw\ngatewayusagemethod:i:1\ngatewayusername:s:CORP\\gu\ngatewaycredentialssource:i:4"
    );
}

#[test]
fn rdp_gateway_without_user() {
    let mut c = rdp();
    c.gateway_host = Some("gw".to_string());
    c.gateway_username = Some(String::new());
    assert!(build_rdp_content(&c).ends_with("drivestoredirect:s:\ngatewayhostname:s:gw\ngatewayusagemethod:i:1"));
    c.gateway_host = Some(String::new());
    assert!(build_rdp_content(&c).ends_with("drivestoredirect:s:"));
}

#[test]
fn freerdp_options() {
    let mut c = rdp();
    assert_eq!(freerdp_args(&c), vec!["/v:10.0.0.5:3389", "+clipboard"]);
    c.username = "bob".to_string();
    c.password = Some("pw".to_string());
    c.cert_policy = Some("ignore".to_string());
    c.resolution_width = Some(800);
    c.resolution_height = Some(600);
    c.color_depth = Some(16);
    c.redirect_clipboard = Some(false);
    c.gateway_host = Some("gw".to_string());
    c.gateway_username = Some("gu".to_string());
    c.gateway_password = Some("gp".to_string());
    c.gateway_domain = Some("".to_string());
    assert_eq!(
        freerdp_args(&c),
        vec!["/v:10.0.0.5:3389", "/u:bob", "/p:pw", "/cert:ignore", "/size:800x600", "/bpp:16", "-clipboard", "/g:gw", "/gu:gu", "/gp:gp"]
    );
}

#[test]
fn stored_credentials_only_with_password() {
    let mut c = rdp();
    assert_eq!(stored_credential_args(&c), None);
    c.password = Some(String::new());
    assert_eq!(stored_credential_args(&c), None);
    c.password = Some("pw".to_string());
    c.username = "bob".to_string();
    assert_eq!(stored_credential_args(&c), Some(vec!["/generic:TERMSRV/10.0.0.5".to_string(), "/user:bob".to_string(), "/pass:pw".to_string()]));
}

#[test]
fn join_lines_separates_with_newline() {
    assert_eq!(join_with_newlines(&vec![]), "");
    assert_eq!(join_with_newlines(&vec!["a".to_string()]), "a");
    assert_eq!(join_with_newlines(&vec!["a".to_string(), "b".to_string(), "".to_string()]), "a\nb\n");
}

#[test]
fn sanitize_keeps_safe_characters() {
    assert_eq!(sanitize_filename("my key_1-x"), "my-key_1-x");
    assert_eq!(sanitize_filename("a\tb\nc"), "a-b-c");
    assert_eq!(sanitize_filename("é/.!"), "key");
    assert_eq!(sanitize_filename(""), "key");
}

#[test]
fn key_file_stem_cuts_name() {
    assert_eq!(key_file_stem("work laptop", 1700000000123), "work-laptop_1700000000123");
    let long = "a".repeat(40);
    assert_eq!(key_file_stem(&long, 0), format!("{}_0", "a".repeat(32)));
    assert_eq!(key_file_stem("??", 7), "key_7");
}

#[test]
fn keygen_options_by_algorithm() {
    assert_eq!(keygen_algorithm_args("ed25519").unwrap(), vec!["-t", "ed25519"]);
    assert_eq!(keygen_algorithm_args("rsa4096").unwrap(), vec!["-t", "rsa", "-b", "4096"]);
    assert_eq!(keygen_algorithm_args("dsa").unwrap_err().message, "Unsupported algorithm");
    assert_eq!(keygen_failure_message("  bad passphrase \n"), "bad passphrase");
    assert_eq!(keygen_failure_message(" \n"), "ssh-keygen failed");
}
