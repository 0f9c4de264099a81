//! Key presses as the controller reads them.
use ratatui::crossterm::event::{KeyCode as TermCode, KeyEvent as TermKey, KeyEventKind};
use vstd::prelude::*;

verus! {

#[verifier::external_type_specification]
#[verifier::external_body]
pub struct ExTermKey(TermKey);

/// The keys that the controller tells apart; every other key is `Other`.
#[derive(PartialEq, Eq, Structural, Clone, Copy, Debug)]
pub enum KeyCode {
    Char(char),
    Up,
    Down,
    Left,
    Right,
    Enter,
    Esc,
    Backspace,
    Other,
}

/// Whether an event is a press, a repeat or a release.
#[derive(PartialEq, Eq, Structural, Clone, Copy, Debug)]
pub enum KeyKind {
    Press,
    Repeat,
    Release,
}

/// What a key event says: the key, the kind of event, and the bits of the
/// modifiers held.
#[derive(PartialEq, Eq, Structural, Clone, Copy, Debug)]
pub struct KeyInfo {
    pub code: KeyCode,
    pub kind: KeyKind,
    pub modifiers: u8,
}

/// The bit of crossterm's `KeyModifiers::SHIFT`.
pub const SHIFT_BIT: u8 = 1;

/// No modifier is held.
pub open spec fn bare(k: KeyInfo) -> bool {
    k.modifiers == 0
}

/// No modifier but Shift is held.
pub open spec fn plain(k: KeyInfo) -> bool {
    k.modifiers == 0 || k.modifiers == SHIFT_BIT
}

/// What a crossterm key event describes.
pub uninterp spec fn key_of(e: TermKey) -> KeyInfo;

/// Relies on the public fields `code`, `kind` and `modifiers` of crossterm's
/// `KeyEvent`, converted one variant to one variant, and on
/// `KeyModifiers::bits`.
#[verifier::external_body]
fn classify(event: &TermKey) -> (r: KeyInfo)
    ensures
        r == key_of(*event),
{
    let code = match event.code {
        TermCode::Char(c) => KeyCode::Char(c),
        TermCode::Up => KeyCode::Up,
        TermCode::Down => KeyCode::Down,
        TermCode::Left => KeyCode::Left,
        TermCode::Right => KeyCode::Right,
        TermCode::Enter => KeyCode::Enter,
        TermCode::Esc => KeyCode::Esc,
        TermCode::Backspace => KeyCode::Backspace,
        _ => KeyCode::Other,
    };
    let kind = match event.kind { KeyEventKind::Press => KeyKind::Press, KeyEventKind::Repeat => KeyKind::Repeat, KeyEventKind::Release => KeyKind::Release };
    KeyInfo { code, kind, modifiers: event.modifiers.bits() }
}

/// A key event from the terminal.
pub struct Key {
    event: TermKey,
}

impl Key {
    /// What the event says.
    pub closed spec fn view(&self) -> KeyInfo {
        key_of(self.event)
    }

    /// The event itself.
    pub closed spec fn raw(&self) -> TermKey {
        self.event
    }

    /// The key that a terminal event describes.
    pub fn from_event(event: TermKey) -> (r: Key)
        ensures
            r.raw() == event,
            r.view() == key_of(event),
    {
        Key { event }
    }

    /// What the event says: the key, the kind of event and the modifiers.
    pub fn info(&self) -> (r: KeyInfo)
        ensures
            r == self.view(),
    {
        classify(&self.event)
    }

    /// The event itself, as it came.
    pub fn event(&self) -> (r: &TermKey)
        ensures
            *r == self.raw(),
            key_of(*r) == self.view(),
    {
        &self.event
    }
}

} // verus!
