//! The settings that outlive a run of the program.

use crate::text::is_blank;
use crate::views::{text_view, views};
use vstd::prelude::*;
use vstd::string::*;

verus! {

/// What the settings file holds.
#[derive(Debug, Clone)]
pub struct AppSettings {
    pub server_address: Option<String>,
    pub login: Option<String>,
    pub token: Option<String>,
    pub user_id: Option<i64>,
    pub expires_at: Option<i64>,
}

#[verifier::ext_equal]
pub struct AppSettingsView {
    pub server_address: Option<Seq<char>>,
    pub login: Option<Seq<char>>,
    pub token: Option<Seq<char>>,
    pub user_id: Option<i64>,
    pub expires_at: Option<i64>,
}

impl View for AppSettings {
    type V = AppSettingsView;

    open spec fn view(&self) -> AppSettingsView {
        AppSettingsView {
            server_address: text_view(self.server_address),
            login: text_view(self.login),
            token: text_view(self.token),
            user_id: self.user_id,
            expires_at: self.expires_at,
        }
    }
}

impl AppSettingsView {
    /// Settings in which nothing is set.
    pub open spec fn unset() -> AppSettingsView {
        AppSettingsView {
            server_address: None,
            login: None,
            token: None,
            user_id: None,
            expires_at: None,
        }
    }

    /// The settings of a session.
    pub open spec fn session(
        server_addr: Seq<char>,
        login: Seq<char>,
        token: Seq<char>,
        user_id: i64,
        expires_at: i64,
    ) -> AppSettingsView {
        AppSettingsView {
            server_address: Some(server_addr),
            login: Some(login),
            token: Some(token),
            user_id: Some(user_id),
            expires_at: Some(expires_at),
        }
    }

    /// These settings without their session: where and as whom to log in stays.
    pub open spec fn without_session(self) -> AppSettingsView {
        AppSettingsView { token: None, user_id: None, expires_at: None, ..self }
    }
}

impl Default for AppSettings {
    fn default() -> (r: Self)
        ensures
            r@ == AppSettingsView::unset(),
    {
        AppSettings {
            server_address: None,
            login: None,
            token: None,
            user_id: None,
            expires_at: None,
        }
    }
}

/// The settings to work with, given what was read from the settings file:
/// `None` stands for a file that is missing, unreadable or not understood.
pub fn load_settings(stored: Option<AppSettings>) -> (r: AppSettings)
    ensures
        r@ == (match stored {
            Some(s) => s@,
            None => AppSettingsView::unset(),
        }),
{
    match stored {
        Some(s) => s,
        None => AppSettings::default(),
    }
}

/// The settings to write so that a later run can resume this session.
pub fn save_session(
    server_addr: &str,
    login: &str,
    token: &str,
    user_id: i64,
    expires_at: i64,
) -> (r: AppSettings)
    ensures
        r@ == AppSettingsView::session(server_addr@, login@, token@, user_id, expires_at),
{
    AppSettings {
        server_address: Some(server_addr.to_owned()),
        login: Some(login.to_owned()),
        token: Some(token.to_owned()),
        user_id: Some(user_id),
        expires_at: Some(expires_at),
    }
}

/// The settings to write in place of `settings` when the session is over.
pub fn clear_session(settings: AppSettings) -> (r: AppSettings)
    ensures
        r@ == settings@.without_session(),
{
    AppSettings { token: None, user_id: None, expires_at: None, ..settings }
}

/// The settings of a session hold what they were made of, and without their
/// session they hold where and as whom to log in and nothing else; of unset
/// settings nothing is set.
pub proof fn law_session_is_stored(
    server_addr: Seq<char>,
    login: Seq<char>,
    token: Seq<char>,
    user_id: i64,
    expires_at: i64,
    settings: AppSettingsView,
)
    ensures
        ({
            let s = AppSettingsView::session(server_addr, login, token, user_id, expires_at);
            &&& s.server_address == Some(server_addr)
            &&& s.login == Some(login)
            &&& s.token == Some(token)
            &&& s.user_id == Some(user_id)
            &&& s.expires_at == Some(expires_at)
        }),
        ({
            let s = settings.without_session();
            &&& s.server_address == settings.server_address
            &&& s.login == settings.login
            &&& s.token is None
            &&& s.user_id is None
            &&& s.expires_at is None
        }),
        ({
            let s = AppSettingsView::unset();
            &&& s.server_address is None
            &&& s.login is None
            &&& s.token is None
            &&& s.user_id is None
            &&& s.expires_at is None
        }),
{
}

/// The name of the settings file of a profile.
pub open spec fn settings_name(profile: Seq<char>) -> Seq<char> {
    if crate::text::blank(profile) {
        "zeevum_client_settings.json"@
    } else {
        "zeevum_client_settings_"@ + profile + ".json"@
    }
}

/// The name of the settings file of `profile`; a blank profile has the file
/// without a profile in its name.
pub fn settings_file_name(profile: &str) -> (r: String)
    ensures
        r@ == settings_name(profile@),
{
    if is_blank(profile) {
        "zeevum_client_settings.json".to_owned()
    } else {
        let mut name = "zeevum_client_settings_".to_owned();
        name.append(profile);
        name.append(".json");
        name
    }
}

/// A profile stands in the name of its file as it is; one of nothing but white
/// space does not.
pub proof fn law_profile_stands_in_the_name(profile: Seq<char>)
    ensures
        (forall|i: int| 0 <= i < profile.len() ==> crate::text::white_space(#[trigger] profile[i]))
            ==> settings_name(profile) == "zeevum_client_settings.json"@,
        (exists|i: int|
            0 <= i < profile.len() && !crate::text::white_space(#[trigger] profile[i]))
            ==> settings_name(profile) == "zeevum_client_settings_"@ + profile + ".json"@,
{
}

/// Two profiles share a settings file only if they are the same or both blank.
pub proof fn law_profiles_have_their_own_files(a: Seq<char>, b: Seq<char>)
    requires
        settings_name(a) == settings_name(b),
    ensures
        a == b || (crate::text::blank(a) && crate::text::blank(b)),
{
    reveal_strlit("zeevum_client_settings.json");
    reveal_strlit("zeevum_client_settings_");
    reveal_strlit(".json");
    let na = settings_name(a);
    let nb = settings_name(b);
    if !crate::text::blank(a) && !crate::text::blank(b) {
        let k = "zeevum_client_settings_"@.len() as int;
        assert(na.len() == a.len() + k + 5);
        assert(nb.len() == b.len() + k + 5);
        assert(na.subrange(k, k + a.len()) =~= a);
        assert(nb.subrange(k, k + b.len()) =~= b);
    } else if crate::text::blank(a) != crate::text::blank(b) {
        assert(na[22] != nb[22]);
    }
}

/// The permission bits of the settings file: its owner reads and writes it,
/// and nobody else has access.
pub const SETTINGS_MODE: u32 = 0o600;

/// A step in the handling of the settings file.
#[derive(Debug, Clone)]
pub enum FileOp {
    /// Make `contents` all that the file holds. A file that does not exist is
    /// created, with `create_mode` where one is given.
    Write { create_mode: Option<u32>, contents: String },
    /// Set the permission bits of the file.
    SetMode(u32),
}

#[verifier::ext_equal]
pub enum FileOpView {
    Write { create_mode: Option<u32>, contents: Seq<char> },
    SetMode(u32),
}

impl View for FileOp {
    type V = FileOpView;

    open spec fn view(&self) -> FileOpView {
        match *self {
            FileOp::Write { create_mode, contents } => FileOpView::Write {
                create_mode,
                contents: contents@,
            },
            FileOp::SetMode(mode) => FileOpView::SetMode(mode),
        }
    }
}

/// The steps that write `json`.
pub open spec fn write_steps(unix: bool, json: Seq<char>) -> Seq<FileOpView> {
    if unix {
        seq![
            FileOpView::Write { create_mode: Some(SETTINGS_MODE), contents: json },
            FileOpView::SetMode(SETTINGS_MODE),
        ]
    } else {
        seq![FileOpView::Write { create_mode: None, contents: json }]
    }
}

/// The steps that write the settings file, of which the first that fails ends
/// the writing.
///
/// The file holds a session token, so where there are permission bits it is
/// created with [`SETTINGS_MODE`] rather than left to the umask, and the mode
/// is set again after writing because it only applies when the file is
/// created.
pub fn write_private(unix: bool, json: &str) -> (r: Vec<FileOp>)
    ensures
        views(r@) == write_steps(unix, json@),
{
    broadcast use crate::views::group_views;

    let mut steps: Vec<FileOp> = Vec::new();
    if unix {
        steps.push(
            FileOp::Write { create_mode: Some(SETTINGS_MODE), contents: json.to_owned() },
        );
        steps.push(FileOp::SetMode(SETTINGS_MODE));
    } else {
        steps.push(FileOp::Write { create_mode: None, contents: json.to_owned() });
    }
    assert(views(steps@) =~= write_steps(unix, json@));
    steps
}

/// The steps that precede a reading of the settings file.
pub open spec fn tighten_steps(unix: bool) -> Seq<FileOpView> {
    if unix {
        seq![FileOpView::SetMode(SETTINGS_MODE)]
    } else {
        seq![]
    }
}

/// The steps to take before the settings file is read.
///
/// A file written by an older build keeps its wider mode until something
/// writes it again, and a user who is already logged in may never write it:
/// so it is tightened on reading too, where there are permission bits.
pub fn tighten_permissions(unix: bool) -> (r: Vec<FileOp>)
    ensures
        views(r@) == tighten_steps(unix),
{
    broadcast use crate::views::group_views;

    let mut steps: Vec<FileOp> = Vec::new();
    if unix {
        steps.push(FileOp::SetMode(SETTINGS_MODE));
    }
    assert(views(steps@) =~= tighten_steps(unix));
    steps
}

/// A file: its permission bits and what it holds.
#[verifier::ext_equal]
pub struct FileView {
    pub mode: u32,
    pub contents: Seq<char>,
}

/// The permission bits of a new file: those asked for, less those that the
/// umask takes away.
pub open spec fn created_mode(create_mode: Option<u32>, umask: u32) -> u32 {
    match create_mode {
        Some(m) => m & !umask,
        None => 0o666u32 & !umask,
    }
}

/// What a successful step makes of a file; `None` is a file that does not exist.
pub open spec fn after_step(file: Option<FileView>, umask: u32, op: FileOpView) -> Option<FileView> {
    match op {
        FileOpView::Write { create_mode, contents } => match file {
            Some(f) => Some(FileView { contents, ..f }),
            None => Some(FileView { mode: created_mode(create_mode, umask), contents }),
        },
        FileOpView::SetMode(mode) => match file {
            Some(f) => Some(FileView { mode, ..f }),
            None => None,
        },
    }
}

/// What successful steps make of a file.
pub open spec fn after_steps(
    file: Option<FileView>,
    umask: u32,
    ops: Seq<FileOpView>,
) -> Option<FileView>
    decreases ops.len(),
{
    if ops.len() == 0 {
        file
    } else {
        after_step(after_steps(file, umask, ops.drop_last()), umask, ops.last())
    }
}

/// Whatever the file was and whatever the umask is, writing leaves it with
/// what was written, readable and writable by its owner alone.
pub proof fn law_written_file_is_private(file: Option<FileView>, umask: u32, json: Seq<char>)
    ensures
        after_steps(file, umask, write_steps(true, json)) == Some(
            FileView { mode: SETTINGS_MODE, contents: json },
        ),
{
    reveal_with_fuel(after_steps, 3);
    let ops = write_steps(true, json);
    assert(ops.drop_last().drop_last() =~= Seq::<FileOpView>::empty());
    assert(ops.drop_last().last() == ops[0]);
}

/// A settings file that writing creates is at no moment open to anyone but
/// its owner, whatever the umask is.
pub proof fn law_new_file_is_never_open_to_others(umask: u32, json: Seq<char>, n: int)
    requires
        0 < n <= write_steps(true, json).len(),
    ensures
        after_steps(None, umask, write_steps(true, json).take(n)) matches Some(f) && f.mode & 0o077
            == 0,
{
    reveal_with_fuel(after_steps, 3);
    let ops = write_steps(true, json);
    let first = ops.take(n);
    assert((0o600u32 & !umask) & 0o077u32 == 0) by (bit_vector);
    assert(0o600u32 & 0o077u32 == 0) by (bit_vector);
    if n == 1 {
        assert(first.drop_last() =~= Seq::<FileOpView>::empty());
    } else {
        assert(first =~= ops);
        assert(ops.drop_last().drop_last() =~= Seq::<FileOpView>::empty());
        assert(ops.drop_last().last() == ops[0]);
    }
}

/// Tightening takes every other user's access to an existing file away and
/// leaves what it holds; it creates no file.
pub proof fn law_tightened_file_is_private(file: Option<FileView>, umask: u32)
    ensures
        after_steps(file, umask, tighten_steps(true)) == (match file {
            Some(f) => Some(FileView { mode: SETTINGS_MODE, ..f }),
            None => None,
        }),
{
    reveal_with_fuel(after_steps, 2);
    assert(tighten_steps(true).drop_last() =~= Seq::<FileOpView>::empty());
}

/// Without permission bits writing leaves the file with what was written and
/// the mode that it had or that a new file gets, and nothing is done before a
/// reading.
pub proof fn law_written_file_without_permissions(
    file: Option<FileView>,
    umask: u32,
    json: Seq<char>,
)
    ensures
        after_steps(file, umask, write_steps(false, json)) == Some(
            FileView {
                mode: match file {
                    Some(f) => f.mode,
                    None => 0o666u32 & !umask,
                },
                contents: json,
            },
        ),
        after_steps(file, umask, tighten_steps(false)) == file,
{
    reveal_with_fuel(after_steps, 2);
    assert(write_steps(false, json).drop_last() =~= Seq::<FileOpView>::empty());
}

} // verus!
