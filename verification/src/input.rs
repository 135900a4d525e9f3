//! The key events behind the paste and type commands.
//!
//! The host only performs key synthesis; which modifier the paste chord uses
//! on which platform, and in which order the events go out, is decided here.

use vstd::prelude::*;

verus! {

/// The modifier of the paste chord: the platform's command key.
#[derive(Clone, Copy, Debug, PartialEq, Eq, Structural)]
pub enum ModifierKey {
    Meta,
    Control,
}

/// One key event the host is asked to synthesise.
#[derive(Clone, Copy, Debug, PartialEq, Eq, Structural)]
pub enum KeyAction {
    Press(ModifierKey),
    ClickChar(char),
    Release(ModifierKey),
}

/// The paste chord's modifier: Meta exactly on the platform named `macos`,
/// Control everywhere else.
pub fn modifier_for_platform(platform: &String) -> (r: ModifierKey)
    ensures
        r == (if platform@ == "macos"@ {
            ModifierKey::Meta
        } else {
            ModifierKey::Control
        }),
{
    let macos = String::from_str("macos");
    if platform.eq(&macos) {
        ModifierKey::Meta
    } else {
        ModifierKey::Control
    }
}

/// The paste chord: press the modifier, click `v`, release the modifier, in
/// that order and nothing else.
pub fn paste_chord(modifier: ModifierKey) -> (r: Vec<KeyAction>)
    ensures
        r@ == seq![
            KeyAction::Press(modifier),
            KeyAction::ClickChar('v'),
            KeyAction::Release(modifier),
        ],
{
    let mut chord: Vec<KeyAction> = Vec::new();
    chord.push(KeyAction::Press(modifier));
    chord.push(KeyAction::ClickChar('v'));
    chord.push(KeyAction::Release(modifier));
    proof {
        assert(chord@ =~= seq![
            KeyAction::Press(modifier),
            KeyAction::ClickChar('v'),
            KeyAction::Release(modifier),
        ]);
    }
    chord
}

} // verus!
