use chat_input::layout::{screen_layout, Region};
use chat_input::render::{help_line, numbered_line, push_decimal};
use chat_input::state::State;

#[test]
fn message_lines_are_numbered_from_zero() {
    let mut s = State::new();
    for m in ["hi", "", "there"] {
        s.messages.push(m.to_string());
    }
    assert_eq!(s.message_lines(), vec!["0: hi".to_string(), "1: ".to_string(), "2: there".to_string()]);
}

#[test]
fn message_lines_of_empty_state() {
    assert!(State::new().message_lines().is_empty());
}

#[test]
fn numbered_line_with_multi_digit_index() {
    assert_eq!(numbered_line(10, "ten"), "10: ten");
    assert_eq!(numbered_line(305, "x y"), "305: x y");
}

#[test]
fn decimal_digits() {
    let mut out = String::from("n=");
    push_decimal(&mut out, 0);
    assert_eq!(out, "n=0");
    let mut out = String::new();
    push_decimal(&mut out, 18446744073709551615);
    assert_eq!(out, "18446744073709551615");
}

#[test]
fn input_text_shows_the_buffer() {
    let mut s = State::new();
    s.input.push_str("draft");
    assert_eq!(s.input_text(), "draft");
}

#[test]
fn help_line_text() {
    let spans = help_line();
    let text: String = spans.iter().map(|s| s.text.as_str()).collect();
    assert_eq!(text, "Press Ctrl-D to exit.");
    let emphasized: Vec<&str> = spans.iter().filter(|s| s.emphasized).map(|s| s.text.as_str()).collect();
    assert_eq!(emphasized, vec!["Ctrl-D"]);
}

#[test]
fn screen_layout_of_a_standard_terminal() {
    let r = screen_layout(Region { x: 0, y: 0, width: 80, height: 24 });
    assert_eq!(r.help, Region { x: 2, y: 2, width: 76, height: 1 });
    assert_eq!(r.messages, Region { x: 2, y: 3, width: 76, height: 16 });
    assert_eq!(r.input, Region { x: 2, y: 19, width: 76, height: 3 });
}

#[test]
fn screen_layout_input_box_reaches_bottom_margin() {
    let r = screen_layout(Region { x: 5, y: 7, width: 40, height: 30 });
    assert_eq!(r.input.y + r.input.height, 7 + 30 - 2);
    let tiny = screen_layout(Region { x: 5, y: 7, width: 3, height: 3 });
    assert_eq!(tiny.input.y + tiny.input.height, 0);
}
