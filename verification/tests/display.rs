use niva_dashboard::graphics::context::{InputEvent, InputEventType};
use niva_dashboard::graphics::text_box::{wrap_line, TextBoxRenderer};
use niva_dashboard::graphics::ui_style::{named_color, parse_color, parse_hex_pair, ColorLevels, ValueKind, COLOR_LEVELS};
use niva_dashboard::indicators::decorator::{DecoratorAlignmentH, DecoratorAlignmentV};
use niva_dashboard::indicators::digital_segmented_indicator::SegmentLayout;
use niva_dashboard::hardware::sensor_value::ValueDataKind;
use niva_dashboard::indicators::gauge_indicator::GaugeIndicator;
use niva_dashboard::indicators::indicator::{blink_phase_on, blink_phase_on_at, fault_blink_on, FAULT_BLINK_PERIOD_MS};
use niva_dashboard::indicators::text_indicator::TextAlignment;

fn rgb(r: u16, g: u16, b: u16) -> ColorLevels {
    ColorLevels { r, g, b }
}

// ---------------------------------------------------------------- colours

#[test]
fn test_color_parsing() {
    assert_eq!(parse_color("#FF0000"), Ok(rgb(COLOR_LEVELS, 0, 0)));
    assert_eq!(parse_color("#F00"), Ok(rgb(COLOR_LEVELS, 0, 0)));
    assert_eq!(parse_color("red"), Ok(rgb(COLOR_LEVELS, 0, 0)));
    assert_eq!(parse_color("white"), Ok(rgb(COLOR_LEVELS, COLOR_LEVELS, COLOR_LEVELS)));
    assert!(parse_color("invalid").is_err());
}

#[test]
fn hex_channels_map_to_even_levels() {
    // Each 8-bit channel c becomes level 2c out of 510, i.e. intensity c / 255.
    assert_eq!(parse_color("#102030"), Ok(rgb(32, 64, 96)));
    assert_eq!(parse_color("#abcdef"), Ok(rgb(342, 410, 478)));
    assert_eq!(parse_color("#1a2"), Ok(rgb(34, 340, 68)));
}

#[test]
fn color_names_are_case_insensitive() {
    assert_eq!(parse_color("RED"), Ok(rgb(510, 0, 0)));
    assert_eq!(parse_color("Grey"), Ok(rgb(255, 255, 255)));
    assert_eq!(parse_color("gray"), Ok(rgb(255, 255, 255)));
    assert_eq!(parse_color("orange"), Ok(rgb(510, 255, 0)));
    assert_eq!(parse_color("black"), Ok(rgb(0, 0, 0)));
}

#[test]
fn color_errors_name_the_input() {
    assert_eq!(parse_color("#12345"), Err("Invalid hex color format: #12345".to_string()));
    assert_eq!(parse_color("#"), Err("Invalid hex color format: #".to_string()));
    assert_eq!(parse_color("#GG0000"), Err("Invalid hex color: #GG0000".to_string()));
    assert_eq!(parse_color("#12G"), Err("Invalid hex color: #12G".to_string()));
    assert_eq!(parse_color("purple"), Err("Unknown color name: purple".to_string()));
    assert_eq!(parse_color(""), Err("Unknown color name: ".to_string()));
}

#[test]
fn hex_channel_accepts_leading_plus_like_from_str_radix() {
    assert_eq!(parse_hex_pair(b'+', b'f'), Some(15));
    assert_eq!(parse_hex_pair(b'f', b'+'), None);
    assert_eq!(parse_hex_pair(b'0', b'A'), Some(10));
    assert_eq!(parse_color("#+f0000"), Ok(rgb(30, 0, 0)));
}

#[test]
fn named_color_needs_lowercase_name() {
    assert_eq!(named_color(&"cyan".to_string()), Some(rgb(0, 510, 510)));
    assert_eq!(named_color(&"Cyan".to_string()), None);
    assert_eq!(named_color(&"magenta".to_string()), Some(rgb(510, 0, 510)));
}

#[test]
fn value_kinds_are_distinct() {
    assert_ne!(ValueKind::Color, ValueKind::String);
    assert_eq!(ValueKind::Float, ValueKind::Float);
}

// ---------------------------------------------------------------- text box

#[test]
fn wrap_line_hard_wraps_at_width() {
    let mut rows = Vec::new();
    wrap_line("abcdefgh", 3, &mut rows);
    assert_eq!(rows, vec!["abc", "def", "gh"]);
}

#[test]
fn wrap_line_keeps_empty_line_as_one_row() {
    let mut rows = vec!["x".to_string()];
    wrap_line("", 4, &mut rows);
    assert_eq!(rows, vec!["x", ""]);
}

#[test]
fn wrap_line_treats_zero_width_as_one() {
    let mut rows = Vec::new();
    wrap_line("ab", 0, &mut rows);
    assert_eq!(rows, vec!["a", "b"]);
}

#[test]
fn wrap_line_counts_characters_not_bytes() {
    let mut rows = Vec::new();
    wrap_line("äöüß", 2, &mut rows);
    assert_eq!(rows, vec!["äö", "üß"]);
}

#[test]
fn text_box_evicts_oldest_line() {
    let mut tb = TextBoxRenderer::new(2);
    tb.push_line("one".to_string());
    tb.push_line("two".to_string());
    tb.push_line("three".to_string());
    assert_eq!(tb.line_count(), 2);
    assert_eq!(tb.visible_rows(80, 10), vec!["two", "three"]);
}

#[test]
fn text_box_with_zero_capacity_keeps_latest_line() {
    let mut tb = TextBoxRenderer::new(0);
    tb.push_line("a".to_string());
    tb.push_line("b".to_string());
    assert_eq!(tb.line_count(), 1);
    assert_eq!(tb.visible_rows(5, 5), vec!["b"]);
}

#[test]
fn text_box_shows_last_rows_bottom_anchored() {
    let mut tb = TextBoxRenderer::new(10);
    tb.push_line("hello world".to_string());
    tb.push_line("ok".to_string());
    // rows: "hello", " worl", "d", "ok"
    assert_eq!(tb.visible_rows(5, 2), vec!["d", "ok"]);
    assert_eq!(tb.visible_rows(5, 10), vec!["hello", " worl", "d", "ok"]);
    assert!(tb.visible_rows(5, 0).is_empty());
}

#[test]
fn text_box_clear_empties() {
    let mut tb = TextBoxRenderer::new(3);
    tb.push_line("x".to_string());
    tb.clear();
    assert_eq!(tb.line_count(), 0);
    assert!(tb.visible_rows(10, 10).is_empty());
}

// ---------------------------------------------------------------- input events

#[test]
fn quit_event_is_recognised() {
    assert!(InputEvent::new(InputEventType::Quit).is_quit());
    assert!(!InputEvent::new(InputEventType::KeyPress(27)).is_quit());
    assert!(!InputEvent::new(InputEventType::KeyRelease(27)).is_quit());
    assert_eq!(InputEvent::new(InputEventType::KeyPress(5)).event_type, InputEventType::KeyPress(5));
}

// ---------------------------------------------------------------- indicators

#[test]
fn fault_blink_is_two_hertz() {
    assert_eq!(FAULT_BLINK_PERIOD_MS, 500);
    assert!(blink_phase_on_at(500, 0));
    assert!(blink_phase_on_at(500, 249));
    assert!(!blink_phase_on_at(500, 250));
    assert!(!blink_phase_on_at(500, 499));
    assert!(blink_phase_on_at(500, 500));
}

#[test]
fn blink_with_tiny_period_uses_one_millisecond_halves() {
    assert!(blink_phase_on_at(0, 0));
    assert!(!blink_phase_on_at(0, 1));
    assert!(blink_phase_on_at(1, 2));
    assert!(!blink_phase_on_at(1, 3));
}

#[test]
fn blink_against_wall_clock_runs() {
    let _ = fault_blink_on();
    let _ = blink_phase_on(1000);
}

#[test]
fn segment_patterns_for_integer_display() {
    let l = SegmentLayout::integer(3);
    assert_eq!(l.inactive_pattern(), "888");
    assert_eq!(l.fault_pattern(), "---");
}

#[test]
fn segment_patterns_for_fractional_display() {
    let l = SegmentLayout::float(5, 1);
    assert_eq!(l.inactive_pattern(), "888.8");
    assert_eq!(l.fault_pattern(), "---.-");
    let l = SegmentLayout::new(2, 1);
    assert_eq!(l.fault_pattern(), ".-");
}

#[test]
fn segment_layout_fields() {
    let l = SegmentLayout::new(4, 2);
    assert_eq!((l.digits, l.decimals), (4, 2));
    assert_eq!(SegmentLayout::integer(0).inactive_pattern(), "");
}

#[test]
fn alignment_enums() {
    assert_ne!(DecoratorAlignmentV::Top, DecoratorAlignmentV::Bottom);
    assert_ne!(DecoratorAlignmentH::Left, DecoratorAlignmentH::Center);
    assert_ne!(TextAlignment::Left, TextAlignment::Right);
    assert_eq!(GaugeIndicator::new(), GaugeIndicator);
}

// ---------------------------------------------------------------- style file validation

use niva_dashboard::graphics::style_keys::{all_style_keys, StyleKey, STYLE_KEY_COUNT};
use niva_dashboard::graphics::ui_style::{
    check_kind, find_entry, validate_style, validate_style_json, StyleEntry, StyleValue,
};

fn entry(name: &str, value: StyleValue, json: &str) -> StyleEntry {
    StyleEntry { name: name.to_string(), value, json: json.to_string() }
}

/// A style with a well-typed value for every key (but `skip`).
fn complete_style_except(skip: Option<StyleKey>) -> Vec<StyleEntry> {
    let mut raw = Vec::new();
    for key in all_style_keys() {
        if Some(key) == skip {
            continue;
        }
        let (value, json) = match key.kind() {
            ValueKind::Color => (StyleValue::Text("#FF0000".to_string()), "\"#FF0000\""),
            ValueKind::Float => (StyleValue::Number, "1.0"),
            ValueKind::Integer => (StyleValue::Number, "1"),
            ValueKind::Boolean => (StyleValue::Flag(true), "true"),
            ValueKind::String => (StyleValue::Text("value".to_string()), "\"value\""),
        };
        raw.push(entry(key.json_name(), value, json));
    }
    raw
}

#[test]
fn style_key_table() {
    assert_eq!(all_style_keys().len(), STYLE_KEY_COUNT);
    assert_eq!(STYLE_KEY_COUNT, 166);
    assert_eq!(StyleKey::GaugeNeedleColor.json_name(), "gauge_needle_color");
    assert_eq!(StyleKey::GaugeNeedleColor.kind(), ValueKind::Color);
    assert_eq!(StyleKey::AlertFontSize.kind(), ValueKind::Integer);
    assert_eq!(StyleKey::GlobalContrast.kind(), ValueKind::Float);
    assert_eq!(StyleKey::at(0), StyleKey::GlobalContrast);
    assert_eq!(StyleKey::at(STYLE_KEY_COUNT - 1), StyleKey::AlertSoundPath);
    let keys = all_style_keys();
    for (i, k) in keys.iter().enumerate() {
        assert_eq!(StyleKey::at(i), *k);
        for other in &keys[..i] {
            assert_ne!(other.json_name(), k.json_name(), "names are unique");
        }
    }
}

#[test]
fn style_validation_accepts_every_key_present_and_well_typed() {
    let raw = complete_style_except(None);
    assert_eq!(validate_style(&raw), Ok(()));
}

#[test]
fn style_validation_accepts_float_shaped_integer() {
    let mut raw = complete_style_except(Some(StyleKey::AlertFontSize));
    raw.push(entry("alert_font_size", StyleValue::Number, "48.0"));
    assert_eq!(validate_style(&raw), Ok(()));
}

#[test]
fn style_validation_reports_missing_key() {
    let raw = complete_style_except(Some(StyleKey::GaugeNeedleColor));
    let err = validate_style(&raw).expect_err("missing key should fail");
    assert_eq!(err, "ui style validation failed (1 problem(s)):\n  'gauge_needle_color': missing");
}

#[test]
fn style_validation_reports_wrong_type() {
    let mut raw = complete_style_except(Some(StyleKey::GaugeBorderWidth));
    raw.push(entry("gauge_border_width", StyleValue::Text("not a number".to_string()), "\"not a number\""));
    let err = validate_style(&raw).expect_err("wrong-typed key should fail");
    assert_eq!(
        err,
        "ui style validation failed (1 problem(s)):\n  'gauge_border_width': expected a number, got \"not a number\""
    );
}

#[test]
fn style_validation_reports_every_missing_key() {
    let err = validate_style(&Vec::new()).expect_err("empty file should fail");
    assert_eq!(err.matches("missing").count(), STYLE_KEY_COUNT);
    assert!(err.starts_with("ui style validation failed (166 problem(s)):\n  'global_contrast': missing\n  "));
    assert!(err.ends_with("'alert_sound_path': missing"));
}

#[test]
fn style_validation_lists_problems_in_key_order() {
    let mut raw = complete_style_except(Some(StyleKey::GlobalBackgroundColor));
    raw.retain(|e| e.name != "alert_margin" && e.name != "gauge_label_enabled");
    raw.push(entry("global_background_color", StyleValue::Text("#12".to_string()), "\"#12\""));
    raw.push(entry("alert_margin", StyleValue::Other, "null"));
    let err = validate_style(&raw).expect_err("three problems");
    assert_eq!(
        err,
        "ui style validation failed (3 problem(s)):\n  \
         'global_background_color': Invalid hex color format: #12\n  \
         'gauge_label_enabled': missing\n  \
         'alert_margin': expected a number, got null"
    );
}

#[test]
fn style_validation_uses_first_entry_of_a_name() {
    let mut raw = complete_style_except(None);
    raw.insert(0, entry("global_font_size", StyleValue::Flag(false), "false"));
    let err = validate_style(&raw).expect_err("first entry wins");
    assert!(err.ends_with("'global_font_size': expected an integer, got false"));
}

#[test]
fn check_kind_messages() {
    let j = "[1]".to_string();
    assert_eq!(check_kind(&StyleValue::Other, &j, ValueKind::Color), Some("expected a color string, got [1]".to_string()));
    assert_eq!(check_kind(&StyleValue::Other, &j, ValueKind::Boolean), Some("expected a boolean, got [1]".to_string()));
    assert_eq!(check_kind(&StyleValue::Number, &j, ValueKind::String), Some("expected a string, got [1]".to_string()));
    assert_eq!(check_kind(&StyleValue::Text("x".to_string()), &j, ValueKind::Integer), Some("expected an integer, got [1]".to_string()));
    assert_eq!(check_kind(&StyleValue::Text("blue".to_string()), &j, ValueKind::Color), None);
    assert_eq!(check_kind(&StyleValue::Flag(true), &j, ValueKind::Boolean), None);
    assert_eq!(check_kind(&StyleValue::Text("mauve".to_string()), &j, ValueKind::Color), Some("Unknown color name: mauve".to_string()));
}

#[test]
fn hex_cut_inside_a_character_is_an_invalid_colour() {
    // 'é' spans bytes 1..3, so the first channel's cut after byte 2 splits it.
    assert_eq!(parse_color("#é1"), Err("Invalid hex color: #é1".to_string()));
    // 'z' is no hex digit: parsing stops before any cut inside the 'é'.
    assert_eq!(parse_color("#zé"), Err("Invalid hex color: #zé".to_string()));
    let mut raw = complete_style_except(Some(StyleKey::GaugeNeedleColor));
    raw.push(entry("gauge_needle_color", StyleValue::Text("#Ж1".to_string()), "\"#Ж1\""));
    assert_eq!(
        validate_style(&raw),
        Err("ui style validation failed (1 problem(s)):\n  'gauge_needle_color': Invalid hex color: #Ж1".to_string())
    );
}

/// JSON text of a style with a well-typed value for every key; `over` replaces the
/// value of one key (its JSON text), or leaves it out when `None`.
fn style_json(over: Option<(StyleKey, Option<&str>)>) -> String {
    let mut members = Vec::new();
    for key in all_style_keys() {
        let value = match over {
            Some((k, v)) if k == key => match v {
                Some(v) => v.to_string(),
                None => continue,
            },
            _ => match key.kind() {
                ValueKind::Color => "\"#FF0000\"".to_string(),
                ValueKind::Float => "1.0".to_string(),
                ValueKind::Integer => "1".to_string(),
                ValueKind::Boolean => "true".to_string(),
                ValueKind::String => "\"value\"".to_string(),
            },
        };
        members.push(format!("\"{}\": {}", key.json_name(), value));
    }
    format!("{{{}}}", members.join(", "))
}

#[test]
fn loads_when_every_key_present_and_well_typed() {
    let entries = validate_style_json(&style_json(None)).expect("should validate");
    assert_eq!(entries.len(), STYLE_KEY_COUNT);
    let needle = &entries[find_entry(&entries, "gauge_needle_color").unwrap()];
    assert_eq!(needle.value, StyleValue::Text("#FF0000".to_string()));
    assert_eq!(needle.json, "\"#FF0000\"");
    let marks = &entries[find_entry(&entries, "gauge_minor_mark_count").unwrap()];
    assert_eq!((marks.value.clone(), marks.json.as_str()), (StyleValue::Number, "1"));
    let label = &entries[find_entry(&entries, "gauge_label_enabled").unwrap()];
    assert_eq!(label.value, StyleValue::Flag(true));
    let font = &entries[find_entry(&entries, "gauge_label_font").unwrap()];
    assert_eq!(font.value, StyleValue::Text("value".to_string()));
}

#[test]
fn integer_key_coerces_from_a_float_shaped_json_number() {
    let entries = validate_style_json(&style_json(Some((StyleKey::AlertFontSize, Some("48.0"))))).expect("should validate");
    let size = &entries[find_entry(&entries, "alert_font_size").unwrap()];
    assert_eq!((size.value.clone(), size.json.as_str()), (StyleValue::Number, "48.0"));
}

#[test]
fn missing_key_is_a_load_error() {
    let err = validate_style_json(&style_json(Some((StyleKey::GaugeNeedleColor, None)))).expect_err("missing key should fail");
    assert!(err.contains("gauge_needle_color"));
}

#[test]
fn wrong_type_is_a_load_error() {
    let err = validate_style_json(&style_json(Some((StyleKey::GaugeBorderWidth, Some("\"not a number\"")))))
        .expect_err("wrong-typed key should fail");
    assert!(err.contains("gauge_border_width"));
}

#[test]
fn reports_every_problem_at_once() {
    let err = validate_style_json("{}").expect_err("empty file should fail");
    assert_eq!(err.matches("missing").count(), STYLE_KEY_COUNT);
}

#[test]
fn bad_colour_in_style_file_is_a_load_error() {
    let err = validate_style_json(&style_json(Some((StyleKey::GaugeNeedleColor, Some("\"#Ж1\"")))))
        .expect_err("a colour cut inside a character is invalid");
    assert!(err.contains("'gauge_needle_color': Invalid hex color: #Ж1"));
}

#[test]
fn malformed_json_is_a_parse_error() {
    let err = validate_style_json("{ not json").expect_err("malformed");
    assert!(err.starts_with("ui style: failed to parse JSON: "));
    let err = validate_style_json("[1, 2]").expect_err("not an object");
    assert!(err.starts_with("ui style: failed to parse JSON: "));
}

#[test]
fn segment_layout_default_is_four_digit_integer() {
    let l = SegmentLayout::default();
    assert_eq!((l.digits, l.decimals), (4, 0));
    assert_eq!(l.inactive_pattern(), "8888");
}

#[test]
fn gauge_is_named_gauge_and_shows_analog_and_percentage_only() {
    let g = GaugeIndicator::new();
    assert_eq!(g.indicator_type(), "gauge");
    assert!(g.supports_value_type(ValueDataKind::Analog));
    assert!(g.supports_value_type(ValueDataKind::Percentage));
    assert!(!g.supports_value_type(ValueDataKind::Empty));
    assert!(!g.supports_value_type(ValueDataKind::Digital));
    assert!(!g.supports_value_type(ValueDataKind::Integer));
}
