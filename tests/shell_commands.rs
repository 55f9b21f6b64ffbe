use codex_remote::shell::{
    escape_single_quotes, install_key_command, remote_dir, sh_quote, split_user_at_host,
    write_file_command,
};

#[test]
fn quotes_empty_word() {
    assert_eq!(sh_quote(""), "''");
}

#[test]
fn leaves_safe_word_bare() {
    assert_eq!(sh_quote("a_b-1.txt"), "a_b-1.txt");
    assert_eq!(sh_quote("/home/u@h:x=y"), "/home/u@h:x=y");
}

#[test]
fn quotes_word_with_space() {
    assert_eq!(sh_quote("a b"), "'a b'");
}

#[test]
fn escapes_embedded_quote() {
    assert_eq!(sh_quote("it's"), "'it'\\''s'");
}

#[test]
fn escapes_every_quote() {
    assert_eq!(escape_single_quotes("a'b'c"), "a'\\''b'\\''c");
    assert_eq!(escape_single_quotes("plain"), "plain");
}

#[test]
fn remote_dir_is_before_last_slash() {
    assert_eq!(remote_dir("/tmp/dir/file.txt"), "/tmp/dir");
    assert_eq!(remote_dir("file.txt"), ".");
    assert_eq!(remote_dir("/file"), "");
}

#[test]
fn builds_upload_command() {
    assert_eq!(
        write_file_command("/tmp/dir/file.txt"),
        "mkdir -p /tmp/dir && cat > /tmp/dir/file.txt"
    );
    assert_eq!(write_file_command("my file"), "mkdir -p . && cat > 'my file'");
    assert_eq!(write_file_command("/file"), "mkdir -p '' && cat > /file");
}

#[test]
fn builds_idempotent_install_command() {
    let cmd = install_key_command("ssh-ed25519 AAAA bob's key");
    let e = "ssh-ed25519 AAAA bob'\\''s key";
    let expected = format!(
        "umask 077; mkdir -p ~/.ssh; chmod 700 ~/.ssh; touch ~/.ssh/authorized_keys; chmod 600 ~/.ssh/authorized_keys; grep -qxF '{}' ~/.ssh/authorized_keys || printf '%s\\n' '{}' >> ~/.ssh/authorized_keys",
        e, e
    );
    assert_eq!(cmd, expected);
}

#[test]
fn splits_on_first_at() {
    assert_eq!(
        split_user_at_host("alice@example.com"),
        Some(("alice".to_string(), "example.com".to_string()))
    );
    assert_eq!(
        split_user_at_host("a@b@c"),
        Some(("a".to_string(), "b@c".to_string()))
    );
    assert_eq!(split_user_at_host("nobody"), None);
}
