use vstd::prelude::*;

verus! {

/// What a key press means to the screens, once the terminal's key has been
/// looked up in the key bindings.
#[derive(Copy, Clone, Debug, PartialEq, Eq, Structural)]
pub enum KeyBinding {
    Up,
    Down,
    Enter,
    Back,
    Quit,
    InfoPopup,
}

/// A key of the terminal, as the default bindings name it.
#[derive(Copy, Clone, Debug, PartialEq, Eq, Structural)]
pub enum Key {
    /// A character typed without modifiers.
    Char(char),
    /// A character typed with shift held.
    ShiftChar(char),
    Enter,
    Esc,
}

/// The bindings that hold unless the configuration names others.
pub open spec fn default_bindings() -> Seq<(Key, KeyBinding)> {
    seq![
        (Key::Char('q'), KeyBinding::Quit),
        (Key::Char('k'), KeyBinding::Up),
        (Key::Char('j'), KeyBinding::Down),
        (Key::Enter, KeyBinding::Enter),
        (Key::ShiftChar('K'), KeyBinding::InfoPopup),
        (Key::Esc, KeyBinding::Back),
    ]
}

/// The default key bindings: `q` quits, `k` and `j` move up and down, Enter
/// opens, shift-`K` shows information and Esc goes back.
pub fn default_keybindings() -> (r: Vec<(Key, KeyBinding)>)
    ensures
        r@ == default_bindings(),
{
    let mut keys: Vec<(Key, KeyBinding)> = Vec::new();
    keys.push((Key::Char('q'), KeyBinding::Quit));
    keys.push((Key::Char('k'), KeyBinding::Up));
    keys.push((Key::Char('j'), KeyBinding::Down));
    keys.push((Key::Enter, KeyBinding::Enter));
    keys.push((Key::ShiftChar('K'), KeyBinding::InfoPopup));
    keys.push((Key::Esc, KeyBinding::Back));
    assert(keys@ =~= default_bindings());
    keys
}

} // verus!
