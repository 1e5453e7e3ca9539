//! Which keys are down, and which command a chord gives.
//!
//! A chord is all four modifiers (Command, Control, Option and Shift, either
//! side of each) together with one more key: `H` for the left half, `L` for
//! the right half, `C` for the whole screen and the space bar to switch
//! keeping the focused window on or off.

use vstd::prelude::*;

use crate::layout::LayoutPreset;

verus! {

/// A key of the keyboard.
#[derive(Clone, Copy, Debug, PartialEq, Eq, Hash, Structural)]
pub enum Key {
    /// Option on the left.
    Alt,
    /// Option on the right.
    AltGr,
    Backspace,
    CapsLock,
    ControlLeft,
    ControlRight,
    Delete,
    DownArrow,
    End,
    Escape,
    F1,
    F10,
    F11,
    F12,
    F2,
    F3,
    F4,
    F5,
    F6,
    F7,
    F8,
    F9,
    Home,
    LeftArrow,
    /// Command on the left.
    MetaLeft,
    /// Command on the right.
    MetaRight,
    PageDown,
    PageUp,
    Return,
    RightArrow,
    ShiftLeft,
    ShiftRight,
    Space,
    Tab,
    UpArrow,
    PrintScreen,
    ScrollLock,
    Pause,
    NumLock,
    BackQuote,
    Num1,
    Num2,
    Num3,
    Num4,
    Num5,
    Num6,
    Num7,
    Num8,
    Num9,
    Num0,
    Minus,
    Equal,
    KeyQ,
    KeyW,
    KeyE,
    KeyR,
    KeyT,
    KeyY,
    KeyU,
    KeyI,
    KeyO,
    KeyP,
    LeftBracket,
    RightBracket,
    KeyA,
    KeyS,
    KeyD,
    KeyF,
    KeyG,
    KeyH,
    KeyJ,
    KeyK,
    KeyL,
    SemiColon,
    Quote,
    BackSlash,
    IntlBackslash,
    KeyZ,
    KeyX,
    KeyC,
    KeyV,
    KeyB,
    KeyN,
    KeyM,
    Comma,
    Dot,
    Slash,
    Insert,
    KpReturn,
    KpMinus,
    KpPlus,
    KpMultiply,
    KpDivide,
    Kp0,
    Kp1,
    Kp2,
    Kp3,
    Kp4,
    Kp5,
    Kp6,
    Kp7,
    Kp8,
    Kp9,
    KpDelete,
    Function,
    /// A key known by its code only.
    Unknown(u32),
}

/// What the key listener saw.
#[derive(Clone, Copy, Debug, PartialEq, Eq, Structural)]
pub enum KeyEvent {
    KeyPress(Key),
    KeyRelease(Key),
    /// Anything that is no key going down or up.
    Other,
}

/// What a chord asks for.
#[derive(Clone, Copy, Debug, PartialEq, Eq, Structural)]
pub enum Command {
    /// Assign the focused window this preset and keep it there.
    Assign(LayoutPreset),
    /// Switch keeping the focused window in its preset on or off.
    Toggle,
}

/// The keys that are down.
#[derive(Debug)]
pub struct KeyState {
    keys_down: Vec<Key>,
}

/// Whether one key of each of the four modifiers is among the keys.
pub open spec fn modifiers_down(keys: Set<Key>) -> bool {
    &&& keys.contains(Key::MetaLeft) || keys.contains(Key::MetaRight)
    &&& keys.contains(Key::ControlLeft) || keys.contains(Key::ControlRight)
    &&& keys.contains(Key::Alt) || keys.contains(Key::AltGr)
    &&& keys.contains(Key::ShiftLeft) || keys.contains(Key::ShiftRight)
}

/// Whether the keys hold the four modifiers and the given key.
pub open spec fn modified(keys: Set<Key>, key: Key) -> bool {
    modifiers_down(keys) && keys.contains(key)
}

/// The command that the keys ask for. Where several chords are held at
/// once, `H` comes before `L`, `L` before `C`, and `C` before the space bar.
pub open spec fn chord(keys: Set<Key>) -> Option<Command> {
    if modified(keys, Key::KeyH) {
        Some(Command::Assign(LayoutPreset::Left))
    } else if modified(keys, Key::KeyL) {
        Some(Command::Assign(LayoutPreset::Right))
    } else if modified(keys, Key::KeyC) {
        Some(Command::Assign(LayoutPreset::Full))
    } else if modified(keys, Key::Space) {
        Some(Command::Toggle)
    } else {
        None
    }
}

/// The keys that are down after an event.
pub open spec fn keys_after(keys: Set<Key>, event: KeyEvent) -> Set<Key> {
    match event {
        KeyEvent::KeyPress(key) => keys.insert(key),
        KeyEvent::KeyRelease(key) => keys.remove(key),
        KeyEvent::Other => keys,
    }
}

/// The command that an event gives: a key going down gives the chord that
/// is held once it is down, and nothing else gives a command.
pub open spec fn command_of(keys: Set<Key>, event: KeyEvent) -> Option<Command> {
    match event {
        KeyEvent::KeyPress(key) => chord(keys.insert(key)),
        _ => None,
    }
}

/// A vector with the same keys in the same order.
fn copy_of(keys: &Vec<Key>) -> (copy: Vec<Key>)
    ensures
        copy@ == keys@,
{
    let mut copy: Vec<Key> = Vec::new();
    let mut index: usize = 0;
    while index < keys.len()
        invariant
            index <= keys@.len(),
            copy@ == keys@.take(index as int),
        decreases keys@.len() - index,
    {
        copy.push(keys[index]);
        assert(keys@.take(index + 1) =~= keys@.take(index as int).push(keys@[index as int]));
        index = index + 1;
    }
    assert(keys@.take(keys@.len() as int) =~= keys@);
    copy
}

impl KeyState {
    #[verifier::type_invariant]
    spec fn distinct(self) -> bool {
        self.keys_down@.no_duplicates()
    }

    /// The set of keys that are down.
    pub closed spec fn view(&self) -> Set<Key> {
        self.keys_down@.to_set()
    }

    /// No key is down.
    pub fn new() -> (state: KeyState)
        ensures
            state@ == Set::<Key>::empty(),
    {
        let state = KeyState { keys_down: Vec::new() };
        assert(state.keys_down@.to_set() =~= Set::<Key>::empty());
        state
    }

    fn position(&self, key: Key) -> (place: Option<usize>)
        ensures
            match place {
                Some(index) => index < self.keys_down@.len() && self.keys_down@[index as int]
                    == key,
                None => !self.keys_down@.contains(key),
            },
    {
        let mut index: usize = 0;
        while index < self.keys_down.len()
            invariant
                index <= self.keys_down@.len(),
                forall|i: int| 0 <= i < index ==> self.keys_down@[i] != key,
            decreases self.keys_down@.len() - index,
        {
            if self.keys_down[index] == key {
                return Some(index);
            }
            index = index + 1;
        }
        None
    }

    /// Whether a key is down.
    pub fn is_down(&self, key: Key) -> (down: bool)
        ensures
            down == self@.contains(key),
    {
        self.position(key).is_some()
    }

    /// A key went down.
    pub fn press(&mut self, key: Key)
        ensures
            final(self)@ == old(self)@.insert(key),
    {
        proof {
            use_type_invariant(&*self);
        }
        if self.position(key).is_none() {
            let mut keys = copy_of(&self.keys_down);
            keys.push(key);
            self.keys_down = keys;
            proof {
                let before = old(self).keys_down@;
                let after = self.keys_down@;
                assert(after =~= before.push(key));
                assert forall|i: int, j: int|
                    0 <= i < after.len() && 0 <= j < after.len() && i != j implies after[i]
                    != after[j] by {
                    if i < before.len() {
                        assert(before.contains(after[i]));
                    }
                    if j < before.len() {
                        assert(before.contains(after[j]));
                    }
                }
                assert forall|k: Key| after.to_set().contains(k) == before.to_set().insert(
                    key,
                ).contains(k) by {
                    if after.contains(k) {
                        let i = choose|i: int| 0 <= i < after.len() && after[i] == k;
                        if i < before.len() {
                            assert(before[i] == k);
                            assert(before.contains(k));
                        }
                    }
                    if before.contains(k) {
                        let i = choose|i: int| 0 <= i < before.len() && before[i] == k;
                        assert(after[i] == k);
                    }
                    if k == key {
                        assert(after[before.len() as int] == key);
                    }
                }
                assert(after.to_set() =~= before.to_set().insert(key));
            }
        } else {
            assert(self@ =~= old(self)@.insert(key));
        }
    }

    /// A key went up.
    pub fn release(&mut self, key: &Key)
        ensures
            final(self)@ == old(self)@.remove(*key),
    {
        proof {
            use_type_invariant(&*self);
        }
        match self.position(*key) {
            Some(index) => {
                let mut keys = copy_of(&self.keys_down);
                keys.remove(index);
                self.keys_down = keys;
                proof {
                    let before = old(self).keys_down@;
                    let after = self.keys_down@;
                    assert(after =~= before.remove(index as int));
                    assert forall|i: int, j: int|
                        0 <= i < after.len() && 0 <= j < after.len() && i != j implies after[i]
                        != after[j] by {
                        let from_i = if i < index { i } else { i + 1 };
                        let from_j = if j < index { j } else { j + 1 };
                        assert(after[i] == before[from_i]);
                        assert(after[j] == before[from_j]);
                    }
                    assert forall|k: Key| after.to_set().contains(k) == before.to_set().remove(
                        *key,
                    ).contains(k) by {
                        if after.contains(k) {
                            let i = choose|i: int| 0 <= i < after.len() && after[i] == k;
                            let from = if i < index { i } else { i + 1 };
                            assert(before[from] == k);
                            assert(before.contains(k));
                            assert(from != index);
                        }
                        if before.contains(k) && k != *key {
                            let i = choose|i: int| 0 <= i < before.len() && before[i] == k;
                            let to = if i < index { i } else { i - 1 };
                            assert(after[to] == k);
                        }
                    }
                    assert(after.to_set() =~= before.to_set().remove(*key));
                }
            },
            None => {
                assert(self@ =~= old(self)@.remove(*key));
            },
        }
    }

    /// Whether one key of each of the four modifiers is down.
    pub fn is_modifier_down(&self) -> (down: bool)
        ensures
            down == modifiers_down(self@),
    {
        let command = self.is_down(Key::MetaLeft) || self.is_down(Key::MetaRight);
        let control = self.is_down(Key::ControlLeft) || self.is_down(Key::ControlRight);
        let option = self.is_down(Key::Alt) || self.is_down(Key::AltGr);
        let shift = self.is_down(Key::ShiftLeft) || self.is_down(Key::ShiftRight);
        command && control && option && shift
    }

    /// Whether the four modifiers and the given key are down.
    pub fn is_modified(&self, key: Key) -> (down: bool)
        ensures
            down == modified(self@, key),
    {
        self.is_modifier_down() && self.is_down(key)
    }

    /// The command that the keys that are down ask for.
    pub fn command(&self) -> (command: Option<Command>)
        ensures
            command == chord(self@),
    {
        if self.is_modified(Key::KeyH) {
            Some(Command::Assign(LayoutPreset::Left))
        } else if self.is_modified(Key::KeyL) {
            Some(Command::Assign(LayoutPreset::Right))
        } else if self.is_modified(Key::KeyC) {
            Some(Command::Assign(LayoutPreset::Full))
        } else if self.is_modified(Key::Space) {
            Some(Command::Toggle)
        } else {
            None
        }
    }

    /// Takes in one event of the key listener and says which command it
    /// gives, if any.
    pub fn on_event(&mut self, event: KeyEvent) -> (command: Option<Command>)
        ensures
            final(self)@ == keys_after(old(self)@, event),
            command == command_of(old(self)@, event),
    {
        match event {
            KeyEvent::KeyPress(key) => {
                self.press(key);
                self.command()
            },
            KeyEvent::KeyRelease(key) => {
                self.release(&key);
                None
            },
            KeyEvent::Other => None,
        }
    }
}

} // verus!
