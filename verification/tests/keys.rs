use revolver::carousel::RevolverMessage;
use revolver::keys::{key_message, Key};

fn text(s: &str) -> Key {
    Key::Character(s.to_string())
}

#[test]
fn left_arrow_steps_back() {
    assert_eq!(key_message(&Key::ArrowLeft, false), Some(RevolverMessage::ChangeLeft));
}

#[test]
fn shifted_left_arrow_jumps_to_start() {
    assert_eq!(key_message(&Key::ArrowLeft, true), Some(RevolverMessage::ChangeToStart));
}

#[test]
fn h_is_bound_like_the_left_arrow() {
    assert_eq!(key_message(&text("h"), false), Some(RevolverMessage::ChangeLeft));
    assert_eq!(key_message(&text("h"), true), Some(RevolverMessage::ChangeToStart));
}

#[test]
fn right_arrow_steps_forward() {
    assert_eq!(key_message(&Key::ArrowRight, false), Some(RevolverMessage::ChangeRight));
}

#[test]
fn shifted_right_arrow_jumps_to_end() {
    assert_eq!(key_message(&Key::ArrowRight, true), Some(RevolverMessage::ChangeToEnd));
}

#[test]
fn l_is_bound_like_the_right_arrow() {
    assert_eq!(key_message(&text("l"), false), Some(RevolverMessage::ChangeRight));
    assert_eq!(key_message(&text("l"), true), Some(RevolverMessage::ChangeToEnd));
}

#[test]
fn escape_and_q_close() {
    assert_eq!(key_message(&Key::Escape, false), Some(RevolverMessage::RequestClose));
    assert_eq!(key_message(&Key::Escape, true), Some(RevolverMessage::RequestClose));
    assert_eq!(key_message(&text("q"), false), Some(RevolverMessage::RequestClose));
    assert_eq!(key_message(&text("q"), true), Some(RevolverMessage::RequestClose));
}

#[test]
fn other_keys_are_ignored() {
    assert_eq!(key_message(&Key::Other, false), None);
    assert_eq!(key_message(&Key::Other, true), None);
    assert_eq!(key_message(&text("x"), false), None);
    assert_eq!(key_message(&text(""), false), None);
    assert_eq!(key_message(&text("hh"), false), None);
    assert_eq!(key_message(&text("hl"), true), None);
    assert_eq!(key_message(&text("H"), true), None);
    assert_eq!(key_message(&text("Q"), false), None);
    assert_eq!(key_message(&text("\u{e9}"), false), None);
}
