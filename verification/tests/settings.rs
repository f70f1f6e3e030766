use zeevum_client::settings::{
    clear_session, load_settings, save_session, settings_file_name, tighten_permissions,
    write_private, AppSettings, FileOp,
};

/// A file by its permission bits and contents, and what a step makes of it.
fn perform(file: Option<(u32, String)>, umask: u32, ops: Vec<FileOp>) -> Option<(u32, String)> {
    let mut file = file;
    for op in ops {
        file = match (op, file) {
            (FileOp::Write { contents, .. }, Some((mode, _))) => Some((mode, contents)),
            (FileOp::Write { create_mode, contents }, None) => {
                Some((create_mode.unwrap_or(0o666) & !umask, contents))
            }
            (FileOp::SetMode(mode), Some((_, contents))) => Some((mode, contents)),
            (FileOp::SetMode(_), None) => None,
        };
    }
    file
}

#[test]
fn written_settings_are_readable_only_by_their_owner() {
    let json = "{\"token\":\"secret\"}";
    let (mode, contents) = perform(None, 0o022, write_private(true, json)).unwrap();
    assert_eq!(mode & 0o777, 0o600);
    assert_eq!(contents, json);

    let old = Some((0o644, "{}".to_string()));
    let (mode, contents) = perform(old, 0, write_private(true, json)).unwrap();
    assert_eq!(mode & 0o777, 0o600);
    assert_eq!(contents, json);
}

#[test]
fn new_settings_file_is_private_from_the_start() {
    let mut ops = write_private(true, "{}");
    ops.truncate(1);
    let (mode, _) = perform(None, 0, ops).unwrap();
    assert_eq!(mode & 0o077, 0);
}

#[test]
fn older_settings_file_is_tightened_on_reading() {
    let old = Some((0o644, "{}".to_string()));
    let (mode, contents) = perform(old, 0o022, tighten_permissions(true)).unwrap();
    assert_eq!(mode & 0o777, 0o600);
    assert_eq!(contents, "{}");
    assert!(perform(None, 0o022, tighten_permissions(true)).is_none());
}

#[test]
fn without_permission_bits_only_the_contents_are_written() {
    let (mode, contents) = perform(None, 0o022, write_private(false, "{}")).unwrap();
    assert_eq!(mode, 0o644);
    assert_eq!(contents, "{}");
    assert_eq!(tighten_permissions(false).len(), 0);
}

#[test]
fn settings_file_names() {
    assert_eq!(settings_file_name(""), "zeevum_client_settings.json");
    assert_eq!(settings_file_name(" \t"), "zeevum_client_settings.json");
    assert_eq!(settings_file_name("work"), "zeevum_client_settings_work.json");
    assert_eq!(settings_file_name(" a "), "zeevum_client_settings_ a .json");
}

#[test]
fn session_is_saved_and_cleared() {
    let s = save_session("host:1", "ann", "tok", 7, 99);
    assert_eq!(s.server_address.as_deref(), Some("host:1"));
    assert_eq!(s.login.as_deref(), Some("ann"));
    assert_eq!(s.token.as_deref(), Some("tok"));
    assert_eq!(s.user_id, Some(7));
    assert_eq!(s.expires_at, Some(99));

    let s = clear_session(s);
    assert_eq!(s.server_address.as_deref(), Some("host:1"));
    assert_eq!(s.login.as_deref(), Some("ann"));
    assert!(s.token.is_none());
    assert!(s.user_id.is_none());
    assert!(s.expires_at.is_none());
}

#[test]
fn missing_settings_are_unset() {
    let s = load_settings(None);
    assert!(s.server_address.is_none() && s.login.is_none() && s.token.is_none());
    assert!(s.user_id.is_none() && s.expires_at.is_none());

    let stored = AppSettings { login: Some("ann".to_string()), ..AppSettings::default() };
    assert_eq!(load_settings(Some(stored)).login.as_deref(), Some("ann"));
}
