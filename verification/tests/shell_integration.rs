use reef_tui::input::drops::normalize_token;
use reef_tui::shell_integration::{
    extract_control_path, is_stale_session, join_path, osc7_sequence, session_pid, sessions_root,
    snippet_installed_marker, ssh_info_body, ErrorKind, Session, Shell, SshInfo,
};

fn sample_info<'a>(host: &'a str, workdir: &'a str, cp: &'a str) -> SshInfo<'a> {
    SshInfo { host, workdir, control_path: cp }
}

#[test]
fn osc7_sequence_is_correct_bytes() {
    let s = osc7_sequence("/Users/pan/.reef/sessions/12345");
    assert_eq!(s, "\x1b]7;file://localhost/Users/pan/.reef/sessions/12345\x07");
}

#[test]
fn osc7_encodes_special_chars() {
    let s = osc7_sequence("/tmp/a b");
    assert_eq!(s, "\x1b]7;file://localhost/tmp/a%20b\x07");
}

#[test]
fn osc7_encodes_each_byte() {
    let s = osc7_sequence("/你~");
    assert_eq!(s, "\x1b]7;file://localhost/%E4%BD%A0~\x07");
}

#[test]
fn ssh_info_is_plain_key_value() {
    let body = ssh_info_body(&sample_info("root@host", "/srv/app", "/tmp/cm-%h-%p-%r")).unwrap();
    assert_eq!(
        body,
        "REEF_HOST=root@host\n\
         REEF_WORKDIR=/srv/app\n\
         REEF_CONTROL_PATH=/tmp/cm-%h-%p-%r\n"
    );
}

#[test]
fn ssh_info_preserves_special_chars_literally() {
    let body = ssh_info_body(&sample_info("u@h", "/w/o'n with $space", "cp")).unwrap();
    assert!(body.contains("REEF_WORKDIR=/w/o'n with $space\n"));
}

#[test]
fn ssh_info_rejects_newline_in_value() {
    let err = ssh_info_body(&sample_info("u@h", "/w/o\nsneaky", "cp")).unwrap_err();
    assert_eq!(err.kind(), ErrorKind::InvalidInput);
}

#[test]
fn ssh_info_names_the_bad_field() {
    let host = ssh_info_body(&sample_info("u\n@h", "/w", "cp")).unwrap_err();
    assert!(host.message().starts_with("REEF_HOST "));
    let path = ssh_info_body(&sample_info("u@h", "/w", "c\0p")).unwrap_err();
    assert!(path.message().starts_with("REEF_CONTROL_PATH "));
}

#[test]
fn shell_enum_roundtrip() {
    for s in Shell::ALL {
        assert_eq!(Shell::parse(s.name()), Some(s));
        assert!(!s.snippet().is_empty());
    }
    assert_eq!(Shell::parse("nushell"), None);
}

#[test]
fn control_path_extracted_from_ssh_args() {
    let args: Vec<String> = [
        "-o",
        "ControlMaster=auto",
        "-o",
        "ControlPath=/tmp/cm-foo",
        "-o",
        "ControlPersist=10m",
    ]
    .iter()
    .map(|s| s.to_string())
    .collect();
    assert_eq!(extract_control_path(&args).as_deref(), Some("/tmp/cm-foo"));
}

#[test]
fn control_path_missing_returns_none() {
    let args: Vec<String> = ["-o", "ControlMaster=auto"].iter().map(|s| s.to_string()).collect();
    assert_eq!(extract_control_path(&args), None);
}

#[test]
fn sessions_live_in_the_home_directory() {
    assert_eq!(sessions_root(Some("/home/u")).as_deref(), Some("/home/u/.reef/sessions"));
    assert_eq!(sessions_root(None), None);
    assert!(snippet_installed_marker(Some("/home/u")).unwrap().starts_with("/home/u/.reef/"));
}

#[test]
fn only_dead_pids_are_stale() {
    assert_eq!(session_pid("4294967295"), Some(u32::MAX));
    assert_eq!(session_pid("4294967296"), None);
    assert_eq!(session_pid("not-a-pid"), None);
    assert!(is_stale_session("4294967295", false));
    assert!(!is_stale_session("1", true));
    assert!(!is_stale_session("not-a-pid", false));
}

#[test]
fn sessions_are_named_after_their_process() {
    let plan = Session::install_in("/home/u/.reef/sessions", 4711, &sample_info("u@h", "/w", "cp"));
    assert_eq!(plan.dir, "/home/u/.reef/sessions/4711");
    assert_eq!(
        plan.file.as_ref().unwrap().text,
        "REEF_HOST=u@h\nREEF_WORKDIR=/w\nREEF_CONTROL_PATH=cp\n"
    );
    assert_eq!(
        plan.file.unwrap().announcement,
        "\x1b]7;file://localhost/home/u/.reef/sessions/4711\x07"
    );
}

#[test]
fn sessions_that_cannot_be_described_announce_nothing() {
    let plan = Session::install_in("/r", 7, &sample_info("u@h", "/w\nx", "cp"));
    assert_eq!(plan.dir, "/r/7");
    assert_eq!(plan.info_path, "/r/7/ssh-info");
    assert_eq!(plan.file.unwrap_err().kind(), ErrorKind::InvalidInput);
}

#[test]
fn names_in_an_empty_path_stand_alone() {
    let plan = Session::install_in("", 7, &sample_info("u@h", "/w", "cp"));
    assert_eq!(plan.dir, "7");
    assert_eq!(plan.info_path, "7/ssh-info");
    assert_eq!(join_path("", "a"), "a");
    assert_eq!(join_path("/", "a"), "/a");
    assert_eq!(join_path("/b", "a"), "/b/a");
}

#[test]
fn announced_paths_are_dropped_as_themselves() {
    let sequence = osc7_sequence("/tmp/a b/é%");
    let word = sequence.trim_start_matches("\x1b]7;").trim_end_matches('\x07').to_string();
    assert_eq!(word, "file://localhost/tmp/a%20b/%C3%A9%25");
    assert_eq!(normalize_token(&word), Some("/tmp/a b/é%".to_string()));
}
