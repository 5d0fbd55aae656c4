use mokt_rust_bindings::{
    c_str_text, env_reply, launch_command, nul_terminated, open_url_command, InteriorNul,
    LaunchCommand, Platform,
};

fn argv(command: &LaunchCommand) -> Vec<String> {
    let mut all = vec![command.program.clone()];
    all.extend(command.args.iter().cloned());
    all
}

#[test]
fn launch_command_posix_runs_shell_with_url_as_its_own_argument() {
    let command = launch_command("https://example.com", Platform::Posix);
    assert_eq!(command.program, "sh");
    assert_eq!(command.args, vec!["-c", "xdg-open", "https://example.com"]);
}

#[test]
fn launch_command_windows_uses_start() {
    let command = launch_command("https://example.com", Platform::Windows);
    assert_eq!(argv(&command), vec!["cmd", "/C", "start", "https://example.com"]);
}

#[test]
fn launch_command_passes_url_verbatim() {
    let url = "https://example.com/a b?q=1&r='x'; rm -rf /";
    let command = launch_command(url, Platform::Posix);
    assert_eq!(command.args.len(), 3);
    assert_eq!(command.args[2], url);
}

#[test]
fn open_url_command_reads_c_string() {
    let command = open_url_command(b"https://example.com\0", Platform::Posix).unwrap();
    assert_eq!(argv(&command), vec!["sh", "-c", "xdg-open", "https://example.com"]);
    let command = open_url_command(b"https://example.com\0", Platform::Windows).unwrap();
    assert_eq!(argv(&command), vec!["cmd", "/C", "start", "https://example.com"]);
}

#[test]
fn open_url_command_stops_at_first_terminator() {
    let command = open_url_command(b"ab\0cd\0", Platform::Posix).unwrap();
    assert_eq!(command.args[2], "ab");
}

#[test]
fn open_url_command_refuses_missing_terminator() {
    assert!(open_url_command(b"https://example.com", Platform::Posix).is_none());
    assert!(open_url_command(b"", Platform::Windows).is_none());
}

#[test]
fn open_url_command_refuses_invalid_utf8() {
    assert!(open_url_command(&[0x68, 0xff, 0x69, 0x00], Platform::Posix).is_none());
}

#[test]
fn c_str_text_reads_up_to_terminator() {
    assert_eq!(c_str_text(b"PATH\0"), Some("PATH"));
    assert_eq!(c_str_text(b"PATH\0junk"), Some("PATH"));
    assert_eq!(c_str_text(b"\0"), Some(""));
}

#[test]
fn c_str_text_decodes_multibyte_utf8() {
    let raw = [0x63, 0x61, 0x66, 0xc3, 0xa9, 0x00];
    let text = c_str_text(&raw).unwrap();
    assert_eq!(text, "caf\u{e9}");
    assert_eq!(text.chars().count(), 4);
}

#[test]
fn c_str_text_refuses_invalid_utf8_and_missing_terminator() {
    assert_eq!(c_str_text(&[0xc3, 0x28, 0x00]), None);
    assert_eq!(c_str_text(&[0xed, 0xa0, 0x80, 0x00]), None);
    assert_eq!(c_str_text(b"abc"), None);
    assert_eq!(c_str_text(b""), None);
}

#[test]
fn nul_terminated_appends_terminator() {
    assert_eq!(nul_terminated("h\u{e9}").unwrap(), vec![0x68, 0xc3, 0xa9, 0x00]);
    assert_eq!(nul_terminated("").unwrap(), vec![0x00]);
}

#[test]
fn nul_terminated_refuses_interior_nul() {
    assert_eq!(nul_terminated("a\0b\0"), Err(InteriorNul { position: 1 }));
    assert_eq!(nul_terminated("\0"), Err(InteriorNul { position: 0 }));
}

#[test]
fn env_reply_for_set_variable() {
    assert_eq!(env_reply(Some("/usr/bin")).unwrap(), b"/usr/bin\0".to_vec());
}

#[test]
fn env_reply_for_unset_variable() {
    let reply = env_reply(None).unwrap();
    assert_eq!(reply, vec![0u8]);
    assert_eq!(reply[0], 0);
}

#[test]
fn env_reply_for_empty_variable_matches_unset() {
    assert_eq!(env_reply(Some("")).unwrap(), vec![0u8]);
    assert_eq!(env_reply(Some("")), env_reply(None));
}

#[test]
fn env_reply_refuses_value_with_nul() {
    assert_eq!(env_reply(Some("x\0y")), Err(InteriorNul { position: 1 }));
}

#[test]
fn env_reply_reads_back_as_value() {
    let value = "caf\u{e9} au lait";
    let reply = env_reply(Some(value)).unwrap();
    assert_eq!(c_str_text(&reply), Some(value));
    let reply = env_reply(None).unwrap();
    assert_eq!(c_str_text(&reply), Some(""));
}

#[test]
fn env_reply_successive_calls_are_distinct_and_equal() {
    let first = env_reply(Some("/usr/bin")).unwrap();
    let second = env_reply(Some("/usr/bin")).unwrap();
    assert_eq!(first, second);
    assert_ne!(first.as_ptr(), second.as_ptr());
    let first = env_reply(None).unwrap();
    let second = env_reply(None).unwrap();
    assert_eq!(first, second);
    assert_ne!(first.as_ptr(), second.as_ptr());
}
