use xdg_desktop_portal_agl::portal::{
    capture_timeout_ms, file_uri, namespace_matches, output_selector_from, parse_pictures_dir,
    percent_encode_path, response_code, screenshot_file_name, invalidates_connection,
    RESPONSE_ERROR, RESPONSE_SUCCESS,
};
use xdg_desktop_portal_agl::portal::{join_path, settings_file_candidates, state_dir, user_dirs_file};
use xdg_desktop_portal_agl::portal::{pictures_dir_candidates, save_step, CreateOutcome, SaveAction, MAX_NAME_ATTEMPTS};
use xdg_desktop_portal_agl::settings::{appearance_key, parse_config, AppearanceKey};
use xdg_desktop_portal_agl::{CaptureError, OutputSelector};

#[test]
fn user_dirs_home_relative_value_is_expanded() {
    let body = "XDG_DESKTOP_DIR=\"$HOME/Desktop\"\nXDG_PICTURES_DIR=\"$HOME/Pictures\"\n";
    assert_eq!(parse_pictures_dir(body, "/home/agl"), Some("/home/agl/Pictures".to_string()));
}

#[test]
fn user_dirs_absolute_value_is_kept() {
    let body = "XDG_PICTURES_DIR=\"/mnt/media/shots\"\n";
    assert_eq!(parse_pictures_dir(body, "/home/agl"), Some("/mnt/media/shots".to_string()));
}

#[test]
fn user_dirs_comments_are_ignored() {
    let body = "# XDG_PICTURES_DIR=\"$HOME/Wrong\"\nXDG_PICTURES_DIR=\"$HOME/Right\"\n";
    assert_eq!(parse_pictures_dir(body, "/home/agl"), Some("/home/agl/Right".to_string()));
}

#[test]
fn user_dirs_without_pictures_key_yields_nothing() {
    let body = "XDG_DESKTOP_DIR=\"$HOME/Desktop\"\nXDG_MUSIC_DIR=\"$HOME/Music\"\n";
    assert_eq!(parse_pictures_dir(body, "/home/agl"), None);
}

#[test]
fn user_dirs_empty_value_yields_nothing() {
    assert_eq!(parse_pictures_dir("XDG_PICTURES_DIR=\"\"\n", "/home/agl"), None);
}

#[test]
fn user_dirs_indented_unterminated_line_is_read() {
    assert_eq!(parse_pictures_dir("  XDG_PICTURES_DIR= \"$HOME\"", "/h"), Some("/h".to_string()));
    assert_eq!(parse_pictures_dir("", "/h"), None);
}

#[test]
fn namespace_patterns() {
    let ns = "org.freedesktop.appearance";
    assert!(namespace_matches(ns, &[]));
    assert!(namespace_matches(ns, &["".to_string()]));
    assert!(namespace_matches(ns, &["org.freedesktop.appearance".to_string()]));
    assert!(namespace_matches(ns, &["org.freedesktop.*".to_string()]));
    assert!(namespace_matches(ns, &["org.gnome.*".to_string(), "org.*".to_string()]));
    assert!(!namespace_matches(ns, &["org.gnome.*".to_string()]));
    assert!(!namespace_matches(ns, &["org.freedesktop".to_string()]));
    assert!(!namespace_matches(ns, &["org.freedesktop.appearance.*x".to_string()]));
}

#[test]
fn uris_percent_encode_reserved_bytes() {
    assert_eq!(percent_encode_path(b"/home/agl/Pictures/a b%.png"), "/home/agl/Pictures/a%20b%25.png");
    assert_eq!(percent_encode_path(&[0xC3, 0xA9]), "%C3%A9");
    assert_eq!(file_uri(b"/tmp/x~y_z-1.png"), "file:///tmp/x~y_z-1.png");
}

#[test]
fn output_selector_reads_index_or_name() {
    assert!(matches!(output_selector_from(None), OutputSelector::First));
    assert!(matches!(output_selector_from(Some("")), OutputSelector::First));
    assert!(matches!(output_selector_from(Some("1")), OutputSelector::Index(1)));
    assert!(matches!(output_selector_from(Some("+2")), OutputSelector::Index(2)));
    assert!(matches!(output_selector_from(Some("HDMI-A-1")), OutputSelector::Name(n) if n == "HDMI-A-1"));
    assert!(matches!(output_selector_from(Some("-1")), OutputSelector::Name(n) if n == "-1"));
    assert!(matches!(output_selector_from(Some("+")), OutputSelector::Name(n) if n == "+"));
    assert!(matches!(
        output_selector_from(Some("99999999999999999999999")),
        OutputSelector::Name(_)
    ));
}

#[test]
fn capture_timeout_defaults_to_five_seconds() {
    assert_eq!(capture_timeout_ms(None), 5000);
    assert_eq!(capture_timeout_ms(Some("250")), 250);
    assert_eq!(capture_timeout_ms(Some(" 250")), 5000);
    assert_eq!(capture_timeout_ms(Some("18446744073709551615")), u64::MAX);
    assert_eq!(capture_timeout_ms(Some("18446744073709551616")), 5000);
}

#[test]
fn appearance_file_is_read() {
    let body = "# comment\ncolor-scheme=1\n contrast = 1 \nreduced-motion=x\naccent-color=0.2,0.5,0.9\nbogus=3\nno equals sign\n\ncolor-scheme=2";
    let s = parse_config(body);
    assert_eq!(s.color_scheme, 2);
    assert_eq!(s.contrast, 1);
    assert_eq!(s.reduced_motion, 0);
    assert_eq!(s.accent_color_values, vec!["0.2,0.5,0.9".to_string()]);
    assert_eq!(s.unknown_keys, vec!["bogus".to_string()]);
}

#[test]
fn read_requests_resolve_keys() {
    let ns = "org.freedesktop.appearance";
    assert_eq!(appearance_key(ns, "color-scheme"), Ok(AppearanceKey::ColorScheme));
    assert_eq!(appearance_key(ns, "accent-color"), Ok(AppearanceKey::AccentColor));
    assert_eq!(appearance_key(ns, "contrast"), Ok(AppearanceKey::Contrast));
    assert_eq!(appearance_key(ns, "reduced-motion"), Ok(AppearanceKey::ReducedMotion));
    assert_eq!(appearance_key(ns, "font"), Err("unknown key org.freedesktop.appearance/font".to_string()));
    assert_eq!(appearance_key("org.gnome", "x"), Err("unknown namespace org.gnome".to_string()));
}

#[test]
fn screenshot_names_differ_per_attempt() {
    assert_eq!(screenshot_file_name(1700000000123, 0), "Screenshot-1700000000123.png");
    assert_eq!(screenshot_file_name(1700000000123, 3), "Screenshot-1700000000123-3.png");
    assert_eq!(screenshot_file_name(0, 10), "Screenshot-0-10.png");
}

#[test]
fn responses_and_reconnects() {
    assert_eq!(response_code::<u8, ()>(&Ok(1)), RESPONSE_SUCCESS);
    assert_eq!(response_code::<u8, ()>(&Err(())), RESPONSE_ERROR);
    assert!(invalidates_connection(&CaptureError::WaylandError("x".to_string())));
    assert!(!invalidates_connection(&CaptureError::CaptureFailed("x".to_string())));
}

#[test]
fn paths_join_like_path_join() {
    assert_eq!(join_path("/home/agl", "Pictures"), "/home/agl/Pictures");
    assert_eq!(join_path("/home/agl/", "Pictures"), "/home/agl/Pictures");
    assert_eq!(join_path("", "Pictures"), "Pictures");
    assert_eq!(join_path("/home/agl", "/abs"), "/abs");
    assert_eq!(state_dir(Some("/st"), Some("/h"), "/tmp"), "/st/xdg-desktop-portal-agl");
    assert_eq!(state_dir(None, Some("/h"), "/tmp"), "/h/.local/state/xdg-desktop-portal-agl");
    assert_eq!(state_dir(None, None, "/tmp"), "/tmp/xdg-desktop-portal-agl");
    assert_eq!(user_dirs_file(Some("/cfg"), Some("/h")), Some("/cfg/user-dirs.dirs".to_string()));
    assert_eq!(user_dirs_file(None, Some("/h")), Some("/h/.config/user-dirs.dirs".to_string()));
    assert_eq!(user_dirs_file(None, None), None);
    assert_eq!(
        settings_file_candidates(None, None),
        vec!["/.config/agl-portal/settings.conf".to_string(), "/etc/agl-portal/settings.conf".to_string()]
    );
    assert_eq!(
        settings_file_candidates(Some("/cfg"), Some("/h"))[0],
        "/cfg/agl-portal/settings.conf"
    );
}

#[test]
fn saves_retry_taken_names_up_to_the_limit() {
    assert_eq!(save_step(0, CreateOutcome::Created), SaveAction::Write);
    assert_eq!(save_step(0, CreateOutcome::AlreadyExists), SaveAction::TryName(1));
    assert_eq!(save_step(62, CreateOutcome::AlreadyExists), SaveAction::TryName(63));
    assert_eq!(save_step(63, CreateOutcome::AlreadyExists), SaveAction::GiveUp);
    assert_eq!(MAX_NAME_ATTEMPTS, 64);
    assert_eq!(save_step(5, CreateOutcome::OtherError), SaveAction::Fail);
}

#[test]
fn pictures_directories_are_tried_env_then_user_dirs_then_home() {
    assert_eq!(
        pictures_dir_candidates(Some("/srv/pics"), Some("/home/agl/Bilder"), Some("/home/agl")),
        vec!["/srv/pics".to_string(), "/home/agl/Bilder".to_string(), "/home/agl/Pictures".to_string()]
    );
    assert_eq!(
        pictures_dir_candidates(None, None, Some("/home/agl/")),
        vec!["/home/agl/Pictures".to_string()]
    );
    assert!(pictures_dir_candidates(None, None, None).is_empty());
}
