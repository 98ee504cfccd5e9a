use skyset::editor::{
    field_value, is_editing, parse_flag, parse_theme_mode, set_field_value, toggle_field, EditorState,
    FieldId,
};
use skyset::model::{theme_mode_label, Skyset, ThemeMode};

const ALL: [FieldId; 14] = [
    FieldId::Origin,
    FieldId::Message,
    FieldId::Submessage,
    FieldId::ThemeMode,
    FieldId::Accent,
    FieldId::Primary,
    FieldId::Secondary,
    FieldId::Tertiary,
    FieldId::Background1,
    FieldId::Background2,
    FieldId::Background3,
    FieldId::Hero1,
    FieldId::Hero2,
    FieldId::SourceWillUpdate,
];

#[test]
fn defaults() {
    let s = Skyset::default();
    assert_eq!(s.version, 1);
    assert_eq!(s.theme.accent, "#7C4DFF");
    assert_eq!(s.palette.primary, "#0E0E10");
    assert_eq!(s.gradients.background, vec!["#0B0B12", "#141424", "#1D1D32"]);
    assert_eq!(s.gradients.hero, vec!["#7C4DFF", "#5E35B1"]);
    assert!(s.source_will_update);
    assert_eq!(theme_mode_label(s.theme.mode), "dark");
}

#[test]
fn field_values_of_defaults() {
    let s = Skyset::default();
    assert_eq!(field_value(&s, FieldId::Origin), "");
    assert_eq!(field_value(&s, FieldId::ThemeMode), "dark");
    assert_eq!(field_value(&s, FieldId::Background3), "#1D1D32");
    assert_eq!(field_value(&s, FieldId::SourceWillUpdate), "true");
}

#[test]
fn absent_gradient_stop_reads_empty() {
    let mut s = Skyset::default();
    s.gradients.hero.clear();
    assert_eq!(field_value(&s, FieldId::Hero2), "");
}

#[test]
fn set_then_get_gives_canonical_value() {
    let cases = [
        (FieldId::Origin, " keep spaces ", " keep spaces "),
        (FieldId::Accent, "abcdef", "#ABCDEF"),
        (FieldId::Hero2, " #00ff00", "#00FF00"),
        (FieldId::ThemeMode, "LiGhT", "light"),
        (FieldId::SourceWillUpdate, "0", "false"),
    ];
    for (field, value, expected) in cases {
        let mut s = Skyset::default();
        assert!(set_field_value(&mut s, field, value.to_string()).is_ok());
        assert_eq!(field_value(&s, field), expected);
    }
}

#[test]
fn invalid_value_leaves_field_unchanged() {
    for field in ALL {
        if matches!(field, FieldId::Origin | FieldId::Message | FieldId::Submessage | FieldId::SourceWillUpdate) {
            continue;
        }
        let mut s = Skyset::default();
        let before = field_value(&s, field);
        assert!(set_field_value(&mut s, field, "nonsense".to_string()).is_err());
        assert_eq!(field_value(&s, field), before);
    }
}

#[test]
fn theme_mode_error_message() {
    let mut s = Skyset::default();
    let err = set_field_value(&mut s, FieldId::ThemeMode, "purple".to_string()).unwrap_err();
    assert_eq!(err, "Theme mode must be dark, light, or system");
}

#[test]
fn background2_on_single_stop() {
    let mut s = Skyset::default();
    s.gradients.background = vec!["#111111".to_string()];
    set_field_value(&mut s, FieldId::Background2, "abcdef".to_string()).unwrap();
    assert_eq!(s.gradients.background, vec!["#111111", "#ABCDEF"]);
}

#[test]
fn background3_pads_with_black() {
    let mut s = Skyset::default();
    s.gradients.background.clear();
    set_field_value(&mut s, FieldId::Background3, "123abc".to_string()).unwrap();
    assert_eq!(s.gradients.background, vec!["#000000", "#000000", "#123ABC"]);
}

#[test]
fn boolean_coercion() {
    let mut s = Skyset::default();
    set_field_value(&mut s, FieldId::SourceWillUpdate, "YES".to_string()).unwrap();
    assert!(s.source_will_update);
    set_field_value(&mut s, FieldId::SourceWillUpdate, "no".to_string()).unwrap();
    assert!(!s.source_will_update);
    set_field_value(&mut s, FieldId::SourceWillUpdate, "TRUE".to_string()).unwrap();
    assert!(s.source_will_update);
    set_field_value(&mut s, FieldId::SourceWillUpdate, "banana".to_string()).unwrap();
    assert!(!s.source_will_update);
    set_field_value(&mut s, FieldId::SourceWillUpdate, "1".to_string()).unwrap();
    assert!(s.source_will_update);
}

#[test]
fn lowered_parsers() {
    assert_eq!(parse_theme_mode("system"), Some(ThemeMode::System));
    assert_eq!(parse_theme_mode("System"), None);
    assert!(parse_flag("yes"));
    assert!(!parse_flag("YES"));
}

#[test]
fn toggle_theme_mode_cycles() {
    let mut s = Skyset::default();
    let mut seen = Vec::new();
    for _ in 0..3 {
        toggle_field(&mut s, FieldId::ThemeMode);
        seen.push(s.theme.mode);
    }
    assert_eq!(seen, vec![ThemeMode::Light, ThemeMode::System, ThemeMode::Dark]);
}

#[test]
fn four_toggles_from_unknown_and_system_end_dark() {
    for start in [ThemeMode::Unknown, ThemeMode::System] {
        let mut s = Skyset::default();
        s.theme.mode = start;
        for _ in 0..4 {
            toggle_field(&mut s, FieldId::ThemeMode);
        }
        assert_eq!(s.theme.mode, ThemeMode::Dark);
    }
}

#[test]
fn toggle_flag_and_non_toggle() {
    let mut s = Skyset::default();
    toggle_field(&mut s, FieldId::SourceWillUpdate);
    assert!(!s.source_will_update);
    toggle_field(&mut s, FieldId::Accent);
    assert_eq!(s.theme.accent, "#7C4DFF");
    assert!(FieldId::ThemeMode.is_toggle());
    assert!(!FieldId::Message.is_toggle());
    assert_eq!(FieldId::Background1.label(), "Background #1");
}

#[test]
fn next_fourteen_times_returns() {
    let s = Skyset::default();
    for start in 0..14 {
        let mut e = EditorState::new(&s);
        for _ in 0..start {
            e.next(&s);
        }
        assert_eq!(e.selected(), start);
        for _ in 0..14 {
            e.next(&s);
        }
        assert_eq!(e.selected(), start);
        assert_eq!(e.current_field(), ALL[start]);
    }
}

#[test]
fn previous_wraps_and_loads_buffer() {
    let s = Skyset::default();
    let mut e = EditorState::new(&s);
    assert_eq!(e.fields(), ALL.to_vec());
    e.previous(&s);
    assert_eq!(e.current_field(), FieldId::SourceWillUpdate);
    assert_eq!(e.input(), "true");
    e.next(&s);
    assert_eq!(e.current_field(), FieldId::Origin);
}

#[test]
fn buffer_edits_and_is_editing() {
    let s = Skyset::default();
    let mut e = EditorState::new(&s);
    assert!(!is_editing(&e, &s));
    e.push_char('x');
    assert_eq!(e.input(), "x");
    assert!(is_editing(&e, &s));
    e.pop_char();
    e.pop_char();
    assert_eq!(e.input(), "");
    assert!(!is_editing(&e, &s));
    e.set_input("abc".to_string());
    assert_eq!(e.input(), "abc");
}

#[test]
fn four_toggles_from_dark_end_light() {
    let mut s = Skyset::default();
    for _ in 0..4 {
        toggle_field(&mut s, FieldId::ThemeMode);
    }
    assert_eq!(s.theme.mode, ThemeMode::Light);
}
