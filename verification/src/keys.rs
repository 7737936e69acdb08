//! Key bindings: which key press stands for which command.

use crate::carousel::RevolverMessage;
use vstd::prelude::*;
use vstd::string::StrSliceExecFns;

verus! {

/// A key press, reduced to what the bindings read of it.
#[derive(Debug)]
pub enum Key {
    /// The left arrow.
    ArrowLeft,
    /// The right arrow.
    ArrowRight,
    /// The escape key.
    Escape,
    /// A key that produces text, with the text that it produces.
    Character(String),
    /// Any other key.
    Other,
}

/// `key` produces exactly the text `c`.
pub open spec fn types(key: Key, c: char) -> bool {
    key matches Key::Character(text) && text@ == seq![c]
}

/// The command bound to `key`, pressed with the shift key held or not.
///
/// The left arrow and `h` step back, the right arrow and `l` step forward;
/// with shift they jump to the start and to the end. Escape and `q` close,
/// with or without shift. No other key is bound.
pub open spec fn binding(key: Key, shift: bool) -> Option<RevolverMessage> {
    if key is ArrowLeft || types(key, 'h') {
        Some(
            if shift {
                RevolverMessage::ChangeToStart
            } else {
                RevolverMessage::ChangeLeft
            },
        )
    } else if key is ArrowRight || types(key, 'l') {
        Some(
            if shift {
                RevolverMessage::ChangeToEnd
            } else {
                RevolverMessage::ChangeRight
            },
        )
    } else if key is Escape || types(key, 'q') {
        Some(RevolverMessage::RequestClose)
    } else {
        None
    }
}

/// Tells whether `text` is the single character `c`.
fn is_char(text: &String, c: char) -> (same: bool)
    ensures
        same == (text@ == seq![c]),
{
    let text = text.as_str();
    let same = text.unicode_len() == 1 && text.get_char(0) == c;
    assert(same ==> text@ =~= seq![c]);
    same
}

/// The command that stepping back stands for.
fn backward(shift: bool) -> (message: RevolverMessage)
    ensures
        message == if shift {
            RevolverMessage::ChangeToStart
        } else {
            RevolverMessage::ChangeLeft
        },
{
    if shift {
        RevolverMessage::ChangeToStart
    } else {
        RevolverMessage::ChangeLeft
    }
}

/// The command that stepping forward stands for.
fn forward(shift: bool) -> (message: RevolverMessage)
    ensures
        message == if shift {
            RevolverMessage::ChangeToEnd
        } else {
            RevolverMessage::ChangeRight
        },
{
    if shift {
        RevolverMessage::ChangeToEnd
    } else {
        RevolverMessage::ChangeRight
    }
}

/// The command for one key press, or `None` for a key that is not bound.
pub fn key_message(key: &Key, shift: bool) -> (message: Option<RevolverMessage>)
    ensures
        message == binding(*key, shift),
{
    match key {
        Key::ArrowLeft => Some(backward(shift)),
        Key::ArrowRight => Some(forward(shift)),
        Key::Escape => Some(RevolverMessage::RequestClose),
        Key::Character(text) => {
            if is_char(text, 'h') {
                Some(backward(shift))
            } else if is_char(text, 'l') {
                Some(forward(shift))
            } else if is_char(text, 'q') {
                Some(RevolverMessage::RequestClose)
            } else {
                None
            }
        },
        Key::Other => None,
    }
}

} // verus!
