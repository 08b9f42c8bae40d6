//! Overrides of the global keybindings.

use vstd::prelude::*;

verus! {

/// A global (page-independent) action that a key can be bound to.
#[derive(Debug, Clone, Copy, PartialEq, Eq, Structural)]
pub enum GlobalAction {
    Quit,
    PlayPause,
    NextTrack,
    PreviousTrack,
    StarPlaying,
    Lyrics,
    ShuffleLibrary,
    CycleRepeat,
    Refresh,
    LibraryPage,
    QueuePage,
    QuickPlayPage,
    PlaylistsPage,
    ServerPage,
    SettingsPage,
}

/// A key without its modifiers.
#[derive(Debug, Clone, Copy, PartialEq, Eq, Structural)]
pub enum Key {
    /// A key that types this character.
    Char(char),
    /// A function key, by its number.
    Function(u8),
    Enter,
    Escape,
    Tab,
    Backspace,
    Insert,
    Delete,
    Left,
    Right,
    Up,
    Down,
    Home,
    End,
    PageUp,
    PageDown,
}

/// A key with the modifiers that are held with it.
#[derive(Debug, Clone, Copy, PartialEq, Eq, Structural)]
pub struct KeyChord {
    pub ctrl: bool,
    pub alt: bool,
    pub shift: bool,
    pub key: Key,
}

/// One override: the action and the chord that triggers it.
#[derive(Debug, Clone, Copy, PartialEq, Eq, Structural)]
pub struct Keybinding {
    pub action: GlobalAction,
    pub chord: KeyChord,
}

/// No action stands twice in `bindings`.
pub open spec fn actions_differ(bindings: Seq<Keybinding>) -> bool {
    forall|i: int, j: int|
        0 <= i < j < bindings.len() ==> (#[trigger] bindings[i]).action != (
        #[trigger] bindings[j]).action
}

/// A copy of the overrides.
pub fn cloned_bindings(v: &Vec<Keybinding>) -> (r: Vec<Keybinding>)
    ensures
        r@ == v@,
{
    let mut out: Vec<Keybinding> = Vec::new();
    for i in 0..v.len()
        invariant
            out@ == v@.take(i as int),
    {
        out.push(v[i]);
    }
    proof {
        assert(v@.take(v@.len() as int) =~= v@);
    }
    out
}

} // verus!
