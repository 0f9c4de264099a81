//! The editable text field of the entry modes, provided by `tui_input`: it
//! starts empty, edits itself from a key event, shows its text, clears, and
//! can be duplicated.
use crate::keys::{bare, key_of, plain, KeyCode, KeyInfo, KeyKind};
use ratatui::crossterm::event::{Event, KeyEvent as TermKey};
use tui_input::backend::crossterm::EventHandler;
use tui_input::Input;
use vstd::prelude::*;

verus! {

#[verifier::external_type_specification]
#[verifier::external_body]
pub struct ExInput(Input);

/// The text that a field holds.
pub uninterp spec fn field_text(field: Input) -> Seq<char>;

/// Where a field's cursor stands, counted in characters from the start.
pub uninterp spec fn field_cursor(field: Input) -> nat;

/// A field whose cursor stands within its text.
pub open spec fn field_ok(field: Input) -> bool {
    field_cursor(field) <= field_text(field).len()
}

/// `t` with `c` put in at position `at`.
pub open spec fn inserted(t: Seq<char>, at: nat, c: char) -> Seq<char> {
    t.take(at as int) + seq![c] + t.skip(at as int)
}

/// Relies on `tui_input::Input`'s derived `Default`: an empty value.
#[verifier::external_body]
pub(crate) fn field_new() -> (r: Input)
    ensures
        field_text(r) == Seq::<char>::empty(),
        field_cursor(r) == 0,
{
    Input::default()
}

/// Relies on `tui_input::Input::value`: the text held.
#[verifier::external_body]
pub(crate) fn field_value(field: &Input) -> (r: String)
    ensures
        r@ == field_text(*field),
{
    field.value().to_string()
}

/// Relies on `tui_input::Input::reset`: the value becomes empty.
#[verifier::external_body]
pub(crate) fn field_reset(field: &mut Input)
    ensures
        field_text(*final(field)) == Seq::<char>::empty(),
        field_cursor(*final(field)) == 0,
{
    field.reset()
}

/// Relies on `tui_input::Input`'s derived `Clone`: the same value.
#[verifier::external_body]
pub(crate) fn field_clone(field: &Input) -> (r: Input)
    ensures
        field_text(r) == field_text(*field),
        field_cursor(r) == field_cursor(*field),
{
    field.clone()
}

/// What the field makes of text `t` with its cursor at `cur` on a key, where
/// that is known: a key that is not pressed, and Up, Down, Enter and Esc, leave
/// it as it was; a pressed character with no modifier but Shift goes in at the
/// cursor; Backspace, Left and Right with no modifier delete the character
/// before the cursor or move the cursor by one, within the text.
pub open spec fn edited(t: Seq<char>, cur: nat, k: KeyInfo) -> Option<(Seq<char>, nat)> {
    if k.kind != KeyKind::Press {
        Some((t, cur))
    } else {
        match k.code {
            KeyCode::Up | KeyCode::Down | KeyCode::Enter | KeyCode::Esc => Some((t, cur)),
            KeyCode::Char(c) => if plain(k) {
                Some((inserted(t, cur, c), cur + 1))
            } else {
                None
            },
            KeyCode::Backspace => if !bare(k) {
                None
            } else if cur == 0 {
                Some((t, cur))
            } else {
                Some((t.remove(cur - 1), (cur - 1) as nat))
            },
            KeyCode::Left => if !bare(k) {
                None
            } else if cur == 0 {
                Some((t, cur))
            } else {
                Some((t, (cur - 1) as nat))
            },
            KeyCode::Right => if !bare(k) {
                None
            } else if cur < t.len() {
                Some((t, cur + 1))
            } else {
                Some((t, cur))
            },
            KeyCode::Other => None,
        }
    }
}

/// Relies on `tui_input`'s `EventHandler::handle_event` for crossterm, that
/// is `to_input_request` and then `Input::handle`: the cursor stays within
/// the text, and where `edited` knows the outcome, the field holds it.
#[verifier::external_body]
pub(crate) fn field_edit(field: &mut Input, event: &TermKey)
    ensures
        field_ok(*old(field)) ==> field_ok(*final(field)),
        field_ok(*old(field)) ==> match edited(field_text(*old(field)), field_cursor(*old(field)), key_of(*event)) {
            Some(p) => field_text(*final(field)) == p.0 && field_cursor(*final(field)) == p.1,
            None => true,
        },
{
    field.handle_event(&Event::Key(*event));
}

} // verus!
