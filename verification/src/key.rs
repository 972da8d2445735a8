//! Keys as the editor sees them, and the rule by which a pressed key is
//! compared with a key that an action is bound to.

use vstd::prelude::*;

verus! {

/// No modifier held.
pub const NONE: u8 = 0b0000_0000;

/// The shift modifier bit.
pub const SHIFT: u8 = 0b0000_0001;

/// The control modifier bit.
pub const CONTROL: u8 = 0b0000_0010;

/// The alt modifier bit.
pub const ALT: u8 = 0b0000_0100;

/// Which key was struck. Keys the editor has no use for are all `Other`.
#[derive(Clone, Copy, Debug, PartialEq, Eq, Structural)]
pub enum KeyCode {
    Backspace,
    Enter,
    Esc,
    Char(char),
    Other,
}

/// Whether the key went down, is held, or came up.
#[derive(Clone, Copy, Debug, PartialEq, Eq, Structural)]
pub enum KeyKind {
    Press,
    Repeat,
    Release,
}

/// One key event: the key, the modifier bits held with it, the kind of
/// event and the keyboard state bits reported with it.
#[derive(Clone, Copy, Debug, PartialEq, Eq, Structural)]
pub struct Key {
    pub code: KeyCode,
    pub modifiers: u8,
    pub kind: KeyKind,
    pub state: u8,
}

/// `c` is one of `A` to `Z`.
pub open spec fn is_ascii_upper(c: char) -> bool {
    'A' <= c && c <= 'Z'
}

/// `c` with `a` to `z` mapped to `A` to `Z`, every other character kept.
pub open spec fn ascii_upper(c: char) -> char {
    if 'a' <= c && c <= 'z' {
        (c as u32 - 32) as char
    } else {
        c
    }
}

/// A character key in the form in which two keys are compared: shift is
/// set for an upper-case letter, and a letter typed with shift is upper
/// case.
pub open spec fn fold_case(c: char, modifiers: u8) -> (char, u8) {
    if is_ascii_upper(c) {
        (c, modifiers | SHIFT)
    } else if modifiers & SHIFT != 0 {
        (ascii_upper(c), modifiers)
    } else {
        (c, modifiers)
    }
}

/// Compares two character keys by `crossterm::event::KeyEvent`'s `==`,
/// both built as presses with no keyboard state. Not proved: that this
/// equality holds exactly when the case-folded characters and the
/// modifier bits agree.
#[verifier::external_body]
fn char_keys_equal(a: char, a_modifiers: u8, b: char, b_modifiers: u8) -> (same: bool)
    ensures
        same == (fold_case(a, a_modifiers) == fold_case(b, b_modifiers)),
{
    let lhs = crossterm::event::KeyEvent::new(
        crossterm::event::KeyCode::Char(a),
        crossterm::event::KeyModifiers::from_bits_retain(a_modifiers),
    );
    let rhs = crossterm::event::KeyEvent::new(
        crossterm::event::KeyCode::Char(b),
        crossterm::event::KeyModifiers::from_bits_retain(b_modifiers),
    );
    lhs == rhs
}

impl Key {
    /// The press of `code` with `modifiers`, with no keyboard state.
    pub open spec fn pressed(code: KeyCode, modifiers: u8) -> Key {
        Key { code, modifiers, kind: KeyKind::Press, state: 0 }
    }

    /// Whether this key counts as the key `bound`. Character keys are
    /// compared after case folding; `Other` counts as no key at all.
    pub open spec fn same_as(self, bound: Key) -> bool {
        &&& self.kind == bound.kind
        &&& self.state == bound.state
        &&& match (self.code, bound.code) {
            (KeyCode::Char(a), KeyCode::Char(b)) => fold_case(a, self.modifiers) == fold_case(
                b,
                bound.modifiers,
            ),
            (KeyCode::Backspace, KeyCode::Backspace) => self.modifiers == bound.modifiers,
            (KeyCode::Enter, KeyCode::Enter) => self.modifiers == bound.modifiers,
            (KeyCode::Esc, KeyCode::Esc) => self.modifiers == bound.modifiers,
            _ => false,
        }
    }

    /// The press of `code` with `modifiers`, with no keyboard state.
    pub fn new(code: KeyCode, modifiers: u8) -> (key: Key)
        ensures
            key == Key::pressed(code, modifiers),
    {
        Key { code, modifiers, kind: KeyKind::Press, state: 0 }
    }

    /// Whether this key counts as the key `bound`; see [`Key::same_as`].
    pub fn matches(&self, bound: &Key) -> (same: bool)
        ensures
            same == self.same_as(*bound),
    {
        if self.kind != bound.kind || self.state != bound.state {
            return false;
        }
        match (self.code, bound.code) {
            (KeyCode::Char(a), KeyCode::Char(b)) => char_keys_equal(
                a,
                self.modifiers,
                b,
                bound.modifiers,
            ),
            (KeyCode::Backspace, KeyCode::Backspace) => self.modifiers == bound.modifiers,
            (KeyCode::Enter, KeyCode::Enter) => self.modifiers == bound.modifiers,
            (KeyCode::Esc, KeyCode::Esc) => self.modifiers == bound.modifiers,
            _ => false,
        }
    }
}

/// A key bound without shift, and not to an upper-case letter, is matched
/// by exactly one key: the plain press of that key with those modifiers.
pub proof fn lemma_unshifted_binding_is_exact(key: Key, code: KeyCode, modifiers: u8)
    requires
        modifiers & SHIFT == 0,
        code != KeyCode::Other,
        code matches KeyCode::Char(c) ==> !is_ascii_upper(c),
    ensures
        key.same_as(Key::pressed(code, modifiers)) <==> key == Key::pressed(code, modifiers),
{
    let held = key.modifiers;
    assert((held | SHIFT) & SHIFT != 0) by (bit_vector);
}

} // verus!
