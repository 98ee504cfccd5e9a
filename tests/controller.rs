use std::path::PathBuf;

use skyset::cli::CliOverrides;
use skyset::controller::App;
use skyset::editor::FieldId;
use skyset::io::{load_initial_state, read_outcome, ReadOutcome};
use skyset::model::{Skyset, ThemeMode};

fn outcome(message: &str, raw: &str) -> ReadOutcome {
    let mut skyset = Skyset::default();
    skyset.message = message.to_string();
    ReadOutcome { skyset, raw: raw.to_string() }
}

fn app_on(message: &str, raw: &str) -> App {
    App::new(PathBuf::from("/tmp/latest.yml"), Some(outcome(message, raw)))
}

#[test]
fn new_from_failed_read_uses_defaults() {
    let app = App::new(PathBuf::from("x.yml"), None);
    assert_eq!(app.skyset().theme.accent, "#7C4DFF");
    assert_eq!(app.last_raw(), "");
    assert_eq!(app.editor().selected(), 0);
    assert_eq!(app.path(), &PathBuf::from("x.yml"));
}

#[test]
fn read_outcome_blank_and_unparsable() {
    let blank = read_outcome("  \n\t".to_string(), None);
    assert_eq!(blank.raw, "");
    assert_eq!(blank.skyset.message, "");
    let bad = read_outcome("::not yaml::".to_string(), None);
    assert_eq!(bad.raw, "::not yaml::");
    assert_eq!(bad.skyset.theme.accent, "#7C4DFF");
    let mut parsed = Skyset::default();
    parsed.message = "hi".to_string();
    let good = read_outcome("message: hi\n".to_string(), Some(parsed));
    assert_eq!(good.raw, "message: hi\n");
    assert_eq!(good.skyset.message, "hi");
    let blank_parsed = read_outcome(" ".to_string(), Some(Skyset { message: "x".to_string(), ..Skyset::default() }));
    assert_eq!(blank_parsed.skyset.message, "");
}

#[test]
fn load_initial_state_falls_back() {
    let loaded = load_initial_state(None);
    assert_eq!(loaded.raw, "");
    let kept = load_initial_state(Some(outcome("m", "raw")));
    assert_eq!(kept.skyset.message, "m");
    assert_eq!(kept.raw, "raw");
}

#[test]
fn reload_with_same_raw_keeps_buffer() {
    let mut app = app_on("first", "raw-1");
    app.editor_next();
    assert_eq!(app.editor().input(), "first");
    app.push_char('!');
    app.reload_from_disk(Some(outcome("other", "raw-1")));
    assert_eq!(app.skyset().message, "first");
    assert_eq!(app.editor().input(), "first!");
    assert!(app.is_editing());
}

#[test]
fn reload_with_new_raw_replaces_document() {
    let mut app = app_on("first", "raw-1");
    app.editor_next();
    app.push_char('!');
    app.apply_outcome(outcome("second", "raw-2"));
    assert_eq!(app.skyset().message, "second");
    assert_eq!(app.editor().input(), "second");
    assert_eq!(app.last_raw(), "raw-2");
    assert!(!app.is_editing());
}

#[test]
fn failed_reload_resets() {
    let mut app = app_on("first", "raw-1");
    app.reload_from_disk(None);
    assert_eq!(app.skyset().message, "");
    assert_eq!(app.last_raw(), "");
}

#[test]
fn apply_input_commits_trimmed_color() {
    let mut app = app_on("", "r");
    for _ in 0..4 {
        app.editor_next();
    }
    assert_eq!(app.editor().current_field(), FieldId::Accent);
    for _ in 0..7 {
        app.pop_char();
    }
    for c in " 00ff00 ".chars() {
        app.push_char(c);
    }
    app.apply_editor_input();
    assert_eq!(app.skyset().theme.accent, "#00FF00");
    assert_eq!(app.editor().input(), "#00FF00");
}

#[test]
fn apply_invalid_input_keeps_buffer() {
    let mut app = app_on("", "r");
    for _ in 0..5 {
        app.editor_next();
    }
    app.push_char('z');
    app.apply_editor_input();
    assert_eq!(app.skyset().palette.primary, "#0E0E10");
    assert_eq!(app.editor().input(), "#0E0E10z");
}

#[test]
fn apply_on_toggle_ignores_buffer() {
    let mut app = app_on("", "r");
    app.editor_previous();
    assert_eq!(app.editor().current_field(), FieldId::SourceWillUpdate);
    app.push_char('q');
    app.apply_editor_input();
    assert!(!app.skyset().source_will_update);
    assert_eq!(app.editor().input(), "false");
}

#[test]
fn reset_restores_defaults() {
    let mut app = app_on("hello", "r");
    app.editor_next();
    app.reset();
    assert_eq!(app.skyset().message, "");
    assert_eq!(app.editor().input(), "");
    assert_eq!(app.last_raw(), "r");
}

#[test]
fn overrides_apply_best_effort() {
    let mut app = app_on("", "r");
    let mut ov = CliOverrides::default();
    ov.message = Some("hi".to_string());
    ov.accent = Some("nothex".to_string());
    ov.primary = Some("#abcdef".to_string());
    ov.theme_mode = Some("SYSTEM".to_string());
    ov.hero2 = Some("bad".to_string());
    ov.source_will_update = Some("banana".to_string());
    app.apply_overrides(&ov);
    let s = app.skyset();
    assert_eq!(s.message, "hi");
    assert_eq!(s.theme.accent, "#7C4DFF");
    assert_eq!(s.palette.primary, "#ABCDEF");
    assert_eq!(s.theme.mode, ThemeMode::System);
    assert_eq!(s.gradients.hero[1], "#5E35B1");
    assert!(!s.source_will_update);
}

#[test]
fn save_stamps_copy_then_commits() {
    let mut app = app_on("m", "old");
    let saved = app.prepare_save(1_700_000_000).unwrap();
    assert_eq!(saved.version, 1);
    assert_eq!(saved.message, "m");
    assert_eq!(saved.updated_at, "2023-11-14T22:13:20Z");
    assert_eq!(app.skyset().updated_at, "");
    app.finish_save(&saved, "written".to_string());
    assert_eq!(app.skyset().updated_at, "2023-11-14T22:13:20Z");
    assert_eq!(app.last_raw(), "written");
    app.reload_from_disk(Some(outcome("other", "written")));
    assert_eq!(app.skyset().message, "m");
    assert_eq!(app.path(), &PathBuf::from("/tmp/latest.yml"));
}

#[test]
fn save_stamp_edges() {
    let app = app_on("", "r");
    assert_eq!(app.prepare_save(0).unwrap().updated_at, "1970-01-01T00:00:00Z");
    assert_eq!(app.prepare_save(253402300799).unwrap().updated_at, "9999-12-31T23:59:59Z");
    assert!(app.prepare_save(i64::MAX).is_none());
    let copy = app.stamped_copy("at".to_string());
    assert_eq!(copy.updated_at, "at");
    assert_eq!(copy.theme.accent, "#7C4DFF");
}

#[test]
fn path_is_kept() {
    let mut app = app_on("m", "r");
    app.reset();
    app.reload_from_disk(None);
    app.apply_overrides(&CliOverrides::default());
    assert_eq!(app.path(), &PathBuf::from("/tmp/latest.yml"));
}
