use ssh_copy_id::error::ProvisionError;
use ssh_copy_id::key::{parse_key, resolve_key_path, DEFAULT_KEY_FILE};

#[test]
fn key_file_trailing_newline_is_trimmed() {
    let k = parse_key("ssh-ed25519 AAAA... user@host\n").unwrap();
    assert_eq!(k, b"ssh-ed25519 AAAA... user@host".to_vec());
}

#[test]
fn key_file_surrounding_whitespace_is_trimmed() {
    let k = parse_key("  \t ssh-rsa AAAB x@y \r\n\n").unwrap();
    assert_eq!(k, b"ssh-rsa AAAB x@y".to_vec());
}

#[test]
fn whitespace_only_key_file_is_empty() {
    assert_eq!(parse_key(" \n\t\n"), Err(ProvisionError::KeyEmpty));
    assert_eq!(parse_key(""), Err(ProvisionError::KeyEmpty));
}

#[test]
fn given_key_path_is_used() {
    let r = resolve_key_path(Some("/tmp/k.pub".to_string()), Some("/home/u".to_string()));
    assert_eq!(r, Ok("/tmp/k.pub".to_string()));
}

#[test]
fn default_key_path_is_under_home() {
    let r = resolve_key_path(None, Some("/home/u".to_string()));
    assert_eq!(r, Ok("/home/u/.ssh/id_rsa.pub".to_string()));
    assert_eq!(DEFAULT_KEY_FILE, ".ssh/id_rsa.pub");
}

#[test]
fn default_key_path_keeps_single_separator() {
    let r = resolve_key_path(None, Some("/home/u/".to_string()));
    assert_eq!(r, Ok("/home/u/.ssh/id_rsa.pub".to_string()));
    let r = resolve_key_path(None, Some(String::new()));
    assert_eq!(r, Ok(".ssh/id_rsa.pub".to_string()));
}

#[test]
fn unknown_home_is_an_error() {
    assert_eq!(resolve_key_path(None, None), Err(ProvisionError::HomeNotFound));
}
