//! Case-insensitive resolution of key and button tokens to canonical
//! identifiers.
//!
//! Key tokens resolve to a closed set of canonical keys; an unknown
//! token is a hard rejection for the press action.  Button tokens
//! resolve to a canonical button; for clicks an unknown or absent token
//! silently defaults to the left button.

use vstd::prelude::*;

use crate::text::{eq_fold, fold_lower, lemma_fold_lower_identity, lemma_fold_lower_idempotent};

verus! {

/// Canonical identifier of a key supported by the press action.
#[derive(Debug, Clone, Copy, PartialEq, Eq, Structural)]
pub enum KeyCode {
    Return,
    Tab,
    Escape,
    Space,
    Backspace,
    Delete,
    UpArrow,
    DownArrow,
    LeftArrow,
    RightArrow,
    Home,
    End,
    PageUp,
    PageDown,
}

/// Canonical identifier of a mouse button.
#[derive(Debug, Clone, Copy, PartialEq, Eq, Structural)]
pub enum MouseButton {
    Left,
    Right,
    Middle,
}

/// The key, if any, that a case-folded token names.  Aliases collapse
/// onto one canonical key.
pub open spec fn spec_key_of(s: Seq<char>) -> Option<KeyCode> {
    if s == "enter"@ || s == "return"@ {
        Some(KeyCode::Return)
    } else if s == "tab"@ {
        Some(KeyCode::Tab)
    } else if s == "escape"@ || s == "esc"@ {
        Some(KeyCode::Escape)
    } else if s == "space"@ {
        Some(KeyCode::Space)
    } else if s == "backspace"@ {
        Some(KeyCode::Backspace)
    } else if s == "delete"@ || s == "del"@ {
        Some(KeyCode::Delete)
    } else if s == "up"@ {
        Some(KeyCode::UpArrow)
    } else if s == "down"@ {
        Some(KeyCode::DownArrow)
    } else if s == "left"@ {
        Some(KeyCode::LeftArrow)
    } else if s == "right"@ {
        Some(KeyCode::RightArrow)
    } else if s == "home"@ {
        Some(KeyCode::Home)
    } else if s == "end"@ {
        Some(KeyCode::End)
    } else if s == "pageup"@ {
        Some(KeyCode::PageUp)
    } else if s == "pagedown"@ {
        Some(KeyCode::PageDown)
    } else {
        None
    }
}

/// True when the case-folded token names a supported key.
pub open spec fn spec_is_valid_key(s: Seq<char>) -> bool {
    spec_key_of(s) is Some
}

/// The button, if any, that a case-folded token names.
pub open spec fn spec_button_of(s: Seq<char>) -> Option<MouseButton> {
    if s == "left"@ {
        Some(MouseButton::Left)
    } else if s == "right"@ {
        Some(MouseButton::Right)
    } else if s == "middle"@ {
        Some(MouseButton::Middle)
    } else {
        None
    }
}

/// The button a case-folded click token resolves to: the named button
/// when it is recognized, the left button otherwise.
pub open spec fn spec_button_or_left(s: Seq<char>) -> MouseButton {
    match spec_button_of(s) {
        Some(b) => b,
        None => MouseButton::Left,
    }
}

/// Case folding leaves each canonical lowercase token unchanged.
pub proof fn lemma_canonical_tokens_folded()
    ensures
        fold_lower("enter"@) == "enter"@,
        fold_lower("return"@) == "return"@,
        fold_lower("tab"@) == "tab"@,
        fold_lower("escape"@) == "escape"@,
        fold_lower("esc"@) == "esc"@,
        fold_lower("space"@) == "space"@,
        fold_lower("backspace"@) == "backspace"@,
        fold_lower("delete"@) == "delete"@,
        fold_lower("del"@) == "del"@,
        fold_lower("up"@) == "up"@,
        fold_lower("down"@) == "down"@,
        fold_lower("left"@) == "left"@,
        fold_lower("right"@) == "right"@,
        fold_lower("home"@) == "home"@,
        fold_lower("end"@) == "end"@,
        fold_lower("pageup"@) == "pageup"@,
        fold_lower("pagedown"@) == "pagedown"@,
        fold_lower("middle"@) == "middle"@,
{
    reveal_strlit("enter");
    lemma_fold_lower_identity("enter"@);
    reveal_strlit("return");
    lemma_fold_lower_identity("return"@);
    reveal_strlit("tab");
    lemma_fold_lower_identity("tab"@);
    reveal_strlit("escape");
    lemma_fold_lower_identity("escape"@);
    reveal_strlit("esc");
    lemma_fold_lower_identity("esc"@);
    reveal_strlit("space");
    lemma_fold_lower_identity("space"@);
    reveal_strlit("backspace");
    lemma_fold_lower_identity("backspace"@);
    reveal_strlit("delete");
    lemma_fold_lower_identity("delete"@);
    reveal_strlit("del");
    lemma_fold_lower_identity("del"@);
    reveal_strlit("up");
    lemma_fold_lower_identity("up"@);
    reveal_strlit("down");
    lemma_fold_lower_identity("down"@);
    reveal_strlit("left");
    lemma_fold_lower_identity("left"@);
    reveal_strlit("right");
    lemma_fold_lower_identity("right"@);
    reveal_strlit("home");
    lemma_fold_lower_identity("home"@);
    reveal_strlit("end");
    lemma_fold_lower_identity("end"@);
    reveal_strlit("pageup");
    lemma_fold_lower_identity("pageup"@);
    reveal_strlit("pagedown");
    lemma_fold_lower_identity("pagedown"@);
    reveal_strlit("middle");
    lemma_fold_lower_identity("middle"@);
}

/// Key and button resolution are case-insensitive: a token resolves
/// exactly as its case-folded form does, so any two spellings that fold
/// alike resolve identically.
pub proof fn lemma_resolution_case_insensitive(s: Seq<char>)
    ensures
        spec_key_of(fold_lower(fold_lower(s))) == spec_key_of(fold_lower(s)),
        spec_is_valid_key(fold_lower(fold_lower(s))) == spec_is_valid_key(fold_lower(s)),
        spec_button_of(fold_lower(fold_lower(s))) == spec_button_of(fold_lower(s)),
        spec_button_or_left(fold_lower(fold_lower(s))) == spec_button_or_left(fold_lower(s)),
{
    lemma_fold_lower_idempotent(s);
}

/// Resolve a key token, case-insensitively, to its canonical key.
pub fn key_from_token(key: &str) -> (r: Option<KeyCode>)
    ensures
        r == spec_key_of(fold_lower(key@)),
{
    proof {
        lemma_canonical_tokens_folded();
    }
    if eq_fold(key, "enter") || eq_fold(key, "return") {
        Some(KeyCode::Return)
    } else if eq_fold(key, "tab") {
        Some(KeyCode::Tab)
    } else if eq_fold(key, "escape") || eq_fold(key, "esc") {
        Some(KeyCode::Escape)
    } else if eq_fold(key, "space") {
        Some(KeyCode::Space)
    } else if eq_fold(key, "backspace") {
        Some(KeyCode::Backspace)
    } else if eq_fold(key, "delete") || eq_fold(key, "del") {
        Some(KeyCode::Delete)
    } else if eq_fold(key, "up") {
        Some(KeyCode::UpArrow)
    } else if eq_fold(key, "down") {
        Some(KeyCode::DownArrow)
    } else if eq_fold(key, "left") {
        Some(KeyCode::LeftArrow)
    } else if eq_fold(key, "right") {
        Some(KeyCode::RightArrow)
    } else if eq_fold(key, "home") {
        Some(KeyCode::Home)
    } else if eq_fold(key, "end") {
        Some(KeyCode::End)
    } else if eq_fold(key, "pageup") {
        Some(KeyCode::PageUp)
    } else if eq_fold(key, "pagedown") {
        Some(KeyCode::PageDown)
    } else {
        None
    }
}

/// Validate if a key string is supported, case-insensitively.
pub fn is_valid_key(key: &str) -> (r: bool)
    ensures
        r == spec_is_valid_key(fold_lower(key@)),
{
    key_from_token(key).is_some()
}

/// Map a button string to its canonical lowercase name, or `None` for a
/// token that names no button.
pub fn parse_mouse_button(button: &str) -> (r: Option<&str>)
    ensures
        r is Some <==> spec_button_of(fold_lower(button@)) is Some,
        r matches Some(t) ==> t@ == fold_lower(button@),
{
    proof {
        lemma_canonical_tokens_folded();
    }
    if eq_fold(button, "left") {
        Some("left")
    } else if eq_fold(button, "right") {
        Some("right")
    } else if eq_fold(button, "middle") {
        Some("middle")
    } else {
        None
    }
}

/// Resolve an optional click button token: a recognized token names its
/// button, an unknown or absent token silently defaults to the left
/// button.
pub fn resolve_button(button: Option<&str>) -> (r: MouseButton)
    ensures
        button matches Some(s) ==> r == spec_button_or_left(fold_lower(s@)),
        button is None ==> r == MouseButton::Left,
{
    proof {
        lemma_canonical_tokens_folded();
        reveal_strlit("left");
        reveal_strlit("right");
        reveal_strlit("middle");
    }
    match button {
        Some(s) => {
            if eq_fold(s, "right") {
                MouseButton::Right
            } else if eq_fold(s, "middle") {
                MouseButton::Middle
            } else {
                MouseButton::Left
            }
        },
        None => MouseButton::Left,
    }
}

} // verus!
