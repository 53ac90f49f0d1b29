use ssh_copy_id::authorized_keys::{contains_key, key_block_of, plan_update, provision_content, KeyUpdate};

const KEY: &str = "ssh-ed25519 AAAA... user@host";

#[test]
fn finds_key_in_middle_line() {
    let text = "ssh-rsa AAAB one@a\nssh-ed25519 AAAA... user@host\nssh-rsa AAAC two@b\n";
    assert!(contains_key(text.as_bytes(), KEY.as_bytes()));
}

#[test]
fn does_not_find_absent_key() {
    assert!(!contains_key(b"ssh-rsa AAAB one@a\n", KEY.as_bytes()));
    assert!(!contains_key(b"", KEY.as_bytes()));
    assert!(!contains_key(b"ssh-ed25519 AAAA... user@hos", KEY.as_bytes()));
}

#[test]
fn finds_key_at_both_ends() {
    assert!(contains_key(KEY.as_bytes(), KEY.as_bytes()));
    let tail = format!("x\n{}", KEY);
    assert!(contains_key(tail.as_bytes(), KEY.as_bytes()));
}

#[test]
fn empty_key_is_always_contained() {
    assert!(contains_key(b"", b""));
    assert!(contains_key(b"abc", b""));
}

#[test]
fn key_block_wraps_key_in_newlines() {
    assert_eq!(key_block_of(b"abc"), b"\nabc\n".to_vec());
    assert_eq!(key_block_of(b""), b"\n\n".to_vec());
}

#[test]
fn plan_skips_present_key() {
    let text = format!("a\n{}\nb\n", KEY);
    assert_eq!(plan_update(text.as_bytes(), KEY.as_bytes()), KeyUpdate::AlreadyPresent);
}

#[test]
fn plan_appends_absent_key() {
    assert_eq!(
        plan_update(b"a\n", KEY.as_bytes()),
        KeyUpdate::Append(format!("\n{}\n", KEY).into_bytes())
    );
}

#[test]
fn empty_file_gets_key_block() {
    let out = provision_content(b"", KEY.as_bytes());
    assert_eq!(out, b"\nssh-ed25519 AAAA... user@host\n".to_vec());
}

#[test]
fn present_key_leaves_three_line_file_unchanged() {
    let text = format!("ssh-rsa AAAB one@a\n{}\nssh-rsa AAAC two@b\n", KEY);
    let out = provision_content(text.as_bytes(), KEY.as_bytes());
    assert_eq!(out, text.as_bytes().to_vec());
}

#[test]
fn absent_key_keeps_old_content_as_prefix() {
    let old = b"ssh-rsa AAAB one@a\nssh-rsa AAAC two@b";
    let out = provision_content(old, KEY.as_bytes());
    assert_eq!(&out[..old.len()], &old[..]);
    assert_eq!(&out[old.len()..], format!("\n{}\n", KEY).as_bytes());
    let text = String::from_utf8(out).unwrap();
    assert_eq!(text.matches(KEY).count(), 1);
}

#[test]
fn provisioning_twice_converges() {
    let once = provision_content(b"ssh-rsa AAAB one@a\n", KEY.as_bytes());
    let twice = provision_content(&once, KEY.as_bytes());
    assert_eq!(once, twice);
}

#[test]
fn key_that_extends_present_one_is_appended() {
    let out = provision_content(b"ssh-rsa AAAB", b"ssh-rsa AAAB2");
    assert_eq!(out, b"ssh-rsa AAAB\nssh-rsa AAAB2\n".to_vec());
}
