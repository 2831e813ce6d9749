use caddy_gui::config::{caddy_dir, caddyfile_path, default_caddyfile, read_caddyfile};
use caddy_gui::locate::{caddy_candidates, find_caddy_binary, locate};
use caddy_gui::settings::{
    default_settings, get_settings, settings_dir, settings_path, tray_on_launch, AppSettings, SettingsFile,
};
use caddy_gui::text::{contains_text, describe, join_path};

fn strings(v: &[&str]) -> Vec<String> {
    v.iter().map(|s| s.to_string()).collect()
}

#[test]
fn locate_returns_first_existing() {
    let c = strings(&["/a/caddy", "/b/caddy", "/c/caddy"]);
    assert_eq!(locate(&c, &vec![false, true, true], &"caddy".to_string()), "/b/caddy");
    assert_eq!(locate(&c, &vec![true, true, true], &"caddy".to_string()), "/a/caddy");
}

#[test]
fn locate_falls_back_unchanged() {
    let c = strings(&["/a/caddy", "/b/caddy"]);
    assert_eq!(locate(&c, &vec![false, false], &"caddy".to_string()), "caddy");
    assert_eq!(locate(&c, &vec![false], &"caddy".to_string()), "caddy");
    assert_eq!(locate(&vec![], &vec![true], &"x y".to_string()), "x y");
}

#[test]
fn find_caddy_binary_probes_in_order() {
    assert_eq!(caddy_candidates(), strings(&["/opt/homebrew/bin/caddy", "/usr/local/bin/caddy", "/usr/bin/caddy"]));
    assert_eq!(find_caddy_binary(&vec![false, true, true]), "/usr/local/bin/caddy");
    assert_eq!(find_caddy_binary(&vec![false, false, true]), "/usr/bin/caddy");
    assert_eq!(find_caddy_binary(&vec![false, false, false]), "caddy");
}

#[test]
fn empty_config_dir_plan_creates_and_writes_default() {
    let plan = read_caddyfile(false, false);
    assert!(plan.create_dir);
    assert!(plan.write_default);
    assert_eq!(
        default_caddyfile(),
        "# Caddy Configuration\n\n# Example:\n# localhost:8080 {\n#     respond \"Hello, world!\"\n# }\n"
    );
    let plan = read_caddyfile(true, true);
    assert!(!plan.create_dir);
    assert!(!plan.write_default);
}

#[test]
fn config_paths() {
    assert_eq!(caddy_dir("/home/u"), "/home/u/caddy");
    assert_eq!(caddyfile_path("/home/u"), "/home/u/caddy/Caddyfile");
    assert_eq!(caddyfile_path("/home/u/"), "/home/u/caddy/Caddyfile");
    assert_eq!(caddyfile_path(""), "caddy/Caddyfile");
    assert_eq!(settings_dir("/home/u"), "/home/u/.caddy-gui");
    assert_eq!(settings_path("/home/u"), "/home/u/.caddy-gui/settings.json");
}

#[test]
fn missing_settings_file_gives_defaults() {
    let s = get_settings("/home/u", SettingsFile::Missing).unwrap();
    assert_eq!(s.caddyfile_path, "/home/u/caddy/Caddyfile");
    assert!(!s.show_in_menubar);
    assert!(s.show_in_dock);
    assert!(!s.start_with_system);
    let d = default_settings("/Users/me");
    assert_eq!(d.caddyfile_path, "/Users/me/caddy/Caddyfile");
}

#[test]
fn settings_file_outcomes() {
    let parsed = AppSettings {
        caddyfile_path: "/etc/Caddyfile".to_string(),
        show_in_menubar: true,
        show_in_dock: false,
        start_with_system: true,
    };
    let s = get_settings("/home/u", SettingsFile::Parsed(parsed)).unwrap();
    assert_eq!(s.caddyfile_path, "/etc/Caddyfile");
    assert!(s.show_in_menubar && !s.show_in_dock && s.start_with_system);
    assert_eq!(
        get_settings("/h", SettingsFile::Malformed("expected value".to_string())).err(),
        Some("Failed to parse settings: expected value".to_string())
    );
    assert_eq!(
        get_settings("/h", SettingsFile::Unreadable("denied".to_string())).err(),
        Some("Failed to read settings: denied".to_string())
    );
}

#[test]
fn tray_follows_settings() {
    let mut s = default_settings("/h");
    assert!(!tray_on_launch(&Ok(default_settings("/h"))));
    s.show_in_menubar = true;
    assert!(tray_on_launch(&Ok(s)));
    assert!(!tray_on_launch(&Err("x".to_string())));
}

#[test]
fn text_helpers() {
    assert!(contains_text("dial: connection refused now", "connection refused"));
    assert!(contains_text("abc", ""));
    assert!(contains_text("abc", "abc"));
    assert!(!contains_text("ab", "abc"));
    assert!(!contains_text("connection refuse", "connection refused"));
    assert!(contains_text("héllo wörld", "wörld"));
    assert_eq!(describe("Failed to x", "why"), "Failed to x: why");
    assert_eq!(join_path("/a", "b"), "/a/b");
    assert_eq!(join_path("/a/", "b"), "/a/b");
    assert_eq!(join_path("", "b"), "b");
}
