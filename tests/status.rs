use theclicker::{active_line, code_line, decimal_string, describe_code, reprint_text, ClickToggle};

#[test]
fn print_active_whole_thing() {
    assert_eq!(&active_line(&ClickToggle::Left)[..], "Active: left\n");
}

#[test]
fn active_line_for_each_state() {
    assert_eq!(active_line(&ClickToggle::Both), "Active: left, right\n");
    assert_eq!(active_line(&ClickToggle::Right), "Active: right\n");
    assert_eq!(active_line(&ClickToggle::Neither), "Active: \n");
}

#[test]
fn decimal_of_edge_values() {
    assert_eq!(decimal_string(0), "0");
    assert_eq!(decimal_string(7), "7");
    assert_eq!(decimal_string(10), "10");
    assert_eq!(decimal_string(275), "275");
    assert_eq!(decimal_string(65535), "65535");
}

#[test]
fn code_line_with_and_without_name() {
    assert_eq!(code_line("Keycode", 30, Some("A".to_string())), "Keycode: 30, key: A");
    assert_eq!(code_line("Keycode", 900, None), "Keycode: 900");
}

#[test]
fn describe_code_names_known_keys() {
    assert_eq!(describe_code("Left bind code", 275), "Left bind code: 275, key: ButtonSide");
    assert_eq!(describe_code("Right bind code", 26), "Right bind code: 26, key: LeftBrace");
    assert!(describe_code("Keycode", 767).starts_with("Keycode: 767, key: "));
}

#[test]
fn describe_code_without_name_past_range() {
    assert_eq!(describe_code("Keycode", 768), "Keycode: 768");
    assert_eq!(describe_code("Keycode", 65535), "Keycode: 65535");
}

#[test]
fn reprint_frames_on_terminal_only() {
    assert_eq!(reprint_text("Active: left\n", true), "\x1b[0KActive: left\n\x1b[1F");
    assert_eq!(reprint_text("Active: left\n", false), "Active: left\n");
}
