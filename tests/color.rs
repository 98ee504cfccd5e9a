use skyset::color::parse_hex_rgb;
use skyset::editor;
use skyset::output::{color_block, gradient_blocks};

#[test]
fn normalize_hex_formats() {
    assert_eq!(editor::normalize_hex("#abcdef").unwrap(), "#ABCDEF");
    assert_eq!(editor::normalize_hex("123456").unwrap(), "#123456");
    assert!(editor::normalize_hex("#12345").is_err());
}

#[test]
fn normalize_trims_and_uppercases() {
    assert_eq!(editor::normalize_hex("  #abc123 ").unwrap(), "#ABC123");
    assert_eq!(editor::normalize_hex("\tDeadBe\n").unwrap(), "#DEADBE");
}

#[test]
fn normalize_rejects_bad_shapes() {
    assert!(editor::normalize_hex("12345").is_err());
    assert!(editor::normalize_hex("").is_err());
    assert!(editor::normalize_hex("#").is_err());
    assert!(editor::normalize_hex("#1234567").is_err());
    assert!(editor::normalize_hex("#12345g").is_err());
    assert!(editor::normalize_hex("##123456").is_err());
    assert_eq!(editor::normalize_hex("zzz").unwrap_err(), "Invalid hex color");
}

#[test]
fn normalize_is_a_fixed_point_on_canonical_colors() {
    for input in ["#aBcDeF", "abcdef", "  #00ff7f"] {
        let once = editor::normalize_hex(input).unwrap();
        assert_eq!(editor::normalize_hex(&once).unwrap(), once);
    }
}

#[test]
fn parse_hex_rgb_values() {
    assert_eq!(parse_hex_rgb("#7C4DFF"), Some((124, 77, 255)));
    assert_eq!(parse_hex_rgb(" 000000 "), Some((0, 0, 0)));
    assert_eq!(parse_hex_rgb("#0a0B0c"), Some((10, 11, 12)));
    assert_eq!(parse_hex_rgb("#12345"), None);
}

#[test]
fn color_block_escape() {
    assert_eq!(color_block("#7C4DFF"), "\x1b[48;2;124;77;255m  \x1b[0m");
    assert_eq!(color_block("#000000"), "\x1b[48;2;0;0;0m  \x1b[0m");
    assert_eq!(color_block("nope"), "??");
}

#[test]
fn gradient_blocks_concatenate() {
    let values = vec!["#010203".to_string(), "bad".to_string()];
    assert_eq!(gradient_blocks(&values), "\x1b[48;2;1;2;3m  \x1b[0m??");
    assert_eq!(gradient_blocks(&[]), "");
}

#[test]
fn every_digit_case_and_prefix_normalizes() {
    for (d, expected) in [("0a1B2c", "#0A1B2C"), ("FFFFFF", "#FFFFFF"), ("abcdef", "#ABCDEF"), ("909090", "#909090")] {
        for input in [d.to_string(), format!("#{d}"), format!(" {d}\t"), format!("#{}", d.to_lowercase())] {
            assert_eq!(editor::normalize_hex(&input).unwrap(), expected);
        }
    }
}

#[test]
fn summary_line_of_defaults() {
    let s = skyset::model::Skyset::default();
    let line = skyset::output::summary_line("/tmp/latest.yml", &s);
    let expected = format!(
        "/tmp/latest.yml {} | msg=\"\" | palette: {}{}{} | background: {}{}{} | hero: {}{}",
        color_block("#7C4DFF"),
        color_block("#0E0E10"),
        color_block("#1F1F23"),
        color_block("#2E2E35"),
        color_block("#0B0B12"),
        color_block("#141424"),
        color_block("#1D1D32"),
        color_block("#7C4DFF"),
        color_block("#5E35B1"),
    );
    assert_eq!(line, expected);
    assert!(line.starts_with("/tmp/latest.yml \x1b[48;2;124;77;255m  \x1b[0m | msg=\"\""));
}
