use vstd::prelude::*;
use vstd::string::StringExecFns;

use crate::text::{describe, described, join_path, joined};

verus! {

/// The application's preferences.
pub struct AppSettings {
    pub caddyfile_path: String,
    pub show_in_menubar: bool,
    pub show_in_dock: bool,
    pub start_with_system: bool,
}

/// The preferences as plain values.
pub struct SettingsView {
    pub caddyfile_path: Seq<char>,
    pub show_in_menubar: bool,
    pub show_in_dock: bool,
    pub start_with_system: bool,
}

impl View for AppSettings {
    type V = SettingsView;

    open spec fn view(&self) -> SettingsView {
        SettingsView {
            caddyfile_path: self.caddyfile_path@,
            show_in_menubar: self.show_in_menubar,
            show_in_dock: self.show_in_dock,
            start_with_system: self.start_with_system,
        }
    }
}

/// The preferences in force before any are saved.
pub open spec fn default_settings_of(home: Seq<char>) -> SettingsView {
    SettingsView {
        caddyfile_path: home + "/caddy/Caddyfile"@,
        show_in_menubar: false,
        show_in_dock: true,
        start_with_system: false,
    }
}

/// The directory that holds the preferences file, under `home`.
pub open spec fn settings_dir_of(home: Seq<char>) -> Seq<char> {
    joined(home, ".caddy-gui"@)
}

/// The preferences file, under `home`.
pub open spec fn settings_path_of(home: Seq<char>) -> Seq<char> {
    joined(settings_dir_of(home), "settings.json"@)
}

/// The preferences in force before any are saved.
pub fn default_settings(home: &str) -> (r: AppSettings)
    ensures
        r@ == default_settings_of(home@),
{
    let mut path = String::from_str(home);
    path.append("/caddy/Caddyfile");
    AppSettings { caddyfile_path: path, show_in_menubar: false, show_in_dock: true, start_with_system: false }
}

/// The directory that holds the preferences file.
pub fn settings_dir(home: &str) -> (r: String)
    ensures
        r@ == settings_dir_of(home@),
{
    join_path(home, ".caddy-gui")
}

/// The preferences file.
pub fn settings_path(home: &str) -> (r: String)
    ensures
        r@ == settings_path_of(home@),
{
    let dir = settings_dir(home);
    join_path(dir.as_str(), "settings.json")
}

/// What was found at the preferences file.
pub enum SettingsFile {
    /// No file is there.
    Missing,
    /// The file is there but could not be read, for this reason.
    Unreadable(String),
    /// The file was read but does not hold valid preferences, for this reason.
    Malformed(String),
    /// The file holds these preferences.
    Parsed(AppSettings),
}

/// The preferences in force, from what was found at the preferences file:
/// the defaults when there is none, an error when it cannot be read or
/// parsed.
pub fn get_settings(home: &str, file: SettingsFile) -> (r: Result<AppSettings, String>)
    ensures
        match file {
            SettingsFile::Missing => r is Ok && r->Ok_0@ == default_settings_of(home@),
            SettingsFile::Unreadable(e) => r is Err && r->Err_0@ == described("Failed to read settings"@, e@),
            SettingsFile::Malformed(e) => r is Err && r->Err_0@ == described("Failed to parse settings"@, e@),
            SettingsFile::Parsed(s) => r is Ok && r->Ok_0@ == s@,
        },
{
    match file {
        SettingsFile::Missing => Ok(default_settings(home)),
        SettingsFile::Unreadable(e) => Err(describe("Failed to read settings", e.as_str())),
        SettingsFile::Malformed(e) => Err(describe("Failed to parse settings", e.as_str())),
        SettingsFile::Parsed(s) => Ok(s),
    }
}

/// Whether the menu bar icon is put up at launch: only where the
/// preferences could be had and ask for it.
pub fn tray_on_launch(settings: &Result<AppSettings, String>) -> (r: bool)
    ensures
        r == (settings is Ok && settings->Ok_0.show_in_menubar),
{
    match settings {
        Ok(s) => s.show_in_menubar,
        Err(_) => false,
    }
}

} // verus!
