//! The keyboard driver: key character mappings, modifier and lock states, and the key state of
//! a PS/2 keyboard.

use vstd::prelude::*;
use crate::ps2::keyboard::Event;
use crate::keymap::{
    Keycode, get_us_qwerty_char, spec_us_qwerty_char, LEFT_SHIFT, RIGHT_SHIFT, SCROLL_LOCK,
    NUM_LOCK, CAPS_LOCK, ESCAPE, FUNCTION,
};

verus! {

/// If a SHIFT modifier is active.
pub const MODIFIER_SHIFT: u8 = 1;
/// If the NUM_LOCK modifier is active.
pub const MODIFIER_NUM_LOCK: u8 = 2;
/// If a CAPS_LOCK modifier is active.
pub const MODIFIER_CAPS_LOCK: u8 = 4;

/// If num lock is enabled.
pub const STATE_NUM_LOCK: u8 = 1;
/// If scroll lock is enabled.
pub const STATE_SCROLL_LOCK: u8 = 2;
/// If caps lock is enabled.
pub const STATE_CAPS_LOCK: u8 = 4;
/// If function lock is enabled.
pub const STATE_FUNCTION_LOCK: u8 = 8;

/// If the scroll lock LED is lit.
pub const LED_SCROLL_LOCK: u8 = 1;
/// If the number lock LED is lit.
pub const LED_NUMBER_LOCK: u8 = 2;
/// If the caps lock LED is lit.
pub const LED_CAPS_LOCK: u8 = 4;

/// The modifiers active while a key event happened.
#[derive(Clone, Copy, PartialEq, Eq, Structural)]
pub struct ModifierFlags {
    pub bits: u8,
}

impl ModifierFlags {
    pub open spec fn has(self, flag: u8) -> bool {
        self.bits & flag == flag
    }

    pub fn empty() -> (flags: ModifierFlags)
        ensures
            flags.bits == 0,
    {
        ModifierFlags { bits: 0 }
    }

    pub fn contains(&self, flag: u8) -> (result: bool)
        ensures
            result == self.has(flag),
    {
        self.bits & flag == flag
    }

    /// Creates `ModifierFlags` from the given contained booleans.
    pub fn from_modifiers(shift: bool, num_lock: bool, caps_lock: bool) -> (flags: ModifierFlags)
        ensures
            flags.has(MODIFIER_SHIFT) == shift,
            flags.has(MODIFIER_NUM_LOCK) == num_lock,
            flags.has(MODIFIER_CAPS_LOCK) == caps_lock,
            flags.bits == (if shift { 1u8 } else { 0 }) + (if num_lock { 2u8 } else { 0 }) + (
            if caps_lock {
                4u8
            } else {
                0
            }),
    {
        let bits: u8 = (if shift { 1u8 } else { 0 }) + (if num_lock { 2u8 } else { 0 }) + (
        if caps_lock {
            4u8
        } else {
            0
        });
        assert(bits & 1 == 1 <==> bits % 2 == 1) by (bit_vector);
        assert(bits & 2 == 2 <==> (bits / 2) % 2 == 1) by (bit_vector);
        assert(bits & 4 == 4 <==> (bits / 4) % 2 == 1) by (bit_vector);
        ModifierFlags { bits }
    }
}

/// Flags holding the current keyboard lock states.
#[derive(Clone, Copy, PartialEq, Eq, Structural)]
pub struct StateFlags {
    pub bits: u8,
}

impl StateFlags {
    pub open spec fn has(self, flag: u8) -> bool {
        self.bits & flag == flag
    }

    pub fn empty() -> (flags: StateFlags)
        ensures
            flags.bits == 0,
    {
        StateFlags { bits: 0 }
    }

    pub fn contains(&self, flag: u8) -> (result: bool)
        ensures
            result == self.has(flag),
    {
        self.bits & flag == flag
    }

    pub fn toggle(&mut self, flag: u8)
        ensures
            final(self).bits == old(self).bits ^ flag,
    {
        self.bits = self.bits ^ flag;
    }
}

/// The LEDs of a keyboard.
#[derive(Clone, Copy, PartialEq, Eq, Structural)]
pub struct LedFlags {
    pub bits: u8,
}

impl LedFlags {
    pub open spec fn has(self, flag: u8) -> bool {
        self.bits & flag == flag
    }

    pub open spec fn spec_from_state(state: StateFlags) -> LedFlags {
        LedFlags {
            bits: (if state.has(STATE_SCROLL_LOCK) { LED_SCROLL_LOCK } else { 0 }) | (if state.has(
                STATE_NUM_LOCK,
            ) {
                LED_NUMBER_LOCK
            } else {
                0
            }) | (if state.has(STATE_CAPS_LOCK) {
                LED_CAPS_LOCK
            } else {
                0
            }),
        }
    }

    /// The LEDs that show the lock states: scroll, number and caps lock.
    pub fn from_state(state: StateFlags) -> (flags: LedFlags)
        ensures
            flags == Self::spec_from_state(state),
    {
        let scroll = if state.contains(STATE_SCROLL_LOCK) {
            LED_SCROLL_LOCK
        } else {
            0
        };
        let number = if state.contains(STATE_NUM_LOCK) {
            LED_NUMBER_LOCK
        } else {
            0
        };
        let caps = if state.contains(STATE_CAPS_LOCK) {
            LED_CAPS_LOCK
        } else {
            0
        };
        LedFlags { bits: scroll | number | caps }
    }
}

/// Mapping from a keycode into a character.
#[derive(Clone, Copy, PartialEq, Eq, Structural)]
pub enum KeyCharMapping {
    /// A key with no character mapping.
    Empty,
    /// A key with a constant character mapping.
    Single(char),
    /// A key with an alternative character mapping when shift is pressed.
    Shifted(char, char),
    /// A key with an alternative character mapping when either CAPS is enabled or shift is
    /// pressed.
    Capitalized(char, char),
    /// A key that only maps to a character when numlock is disabled.
    NumLocked(char),
}

impl KeyCharMapping {
    pub open spec fn spec_char(self, modifiers: ModifierFlags) -> Option<char> {
        match self {
            KeyCharMapping::Single(c) => Some(c),
            KeyCharMapping::Shifted(c, shifted) => if modifiers.has(MODIFIER_SHIFT) {
                Some(shifted)
            } else {
                Some(c)
            },
            KeyCharMapping::Capitalized(c, capital) => if modifiers.has(MODIFIER_CAPS_LOCK)
                != modifiers.has(MODIFIER_SHIFT) {
                Some(capital)
            } else {
                Some(c)
            },
            KeyCharMapping::NumLocked(c) => if !modifiers.has(MODIFIER_NUM_LOCK) {
                Some(c)
            } else {
                None
            },
            KeyCharMapping::Empty => None,
        }
    }

    /// Gets the character for this key based on the given modifiers.
    pub fn char(&self, modifiers: ModifierFlags) -> (c: Option<char>)
        ensures
            c == self.spec_char(modifiers),
    {
        match *self {
            KeyCharMapping::Single(character) => Some(character),
            KeyCharMapping::Shifted(character, shifted) => if modifiers.contains(MODIFIER_SHIFT) {
                Some(shifted)
            } else {
                Some(character)
            },
            KeyCharMapping::Capitalized(character, capital) => if modifiers.contains(
                MODIFIER_CAPS_LOCK,
            ) ^ modifiers.contains(MODIFIER_SHIFT) {
                Some(capital)
            } else {
                Some(character)
            },
            KeyCharMapping::NumLocked(character) => if !modifiers.contains(MODIFIER_NUM_LOCK) {
                Some(character)
            } else {
                None
            },
            KeyCharMapping::Empty => None,
        }
    }
}

/// The kind of key event that occurred.
#[derive(Clone, Copy, PartialEq, Eq, Structural, Debug)]
pub enum KeyEventKind {
    /// When the key is initially pressed.
    Make,
    /// When the key is released.
    Break,
    /// When the key is held down, and a repeat is fired.
    Repeat,
}

/// Contains data relating to a key press event.
#[derive(Clone, Copy, PartialEq, Eq, Structural)]
pub struct KeyEvent {
    pub keycode: Keycode,
    pub char: Option<char>,
    pub kind: KeyEventKind,
    pub modifiers: ModifierFlags,
}

/// Interface to a generic keyboard.
pub trait Keyboard {
    /// Returns `true` if the given keycode is currently being held down.
    fn is_down(&self, keycode: Keycode) -> bool;

    fn num_lock(&self) -> bool;

    fn scroll_lock(&self) -> bool;

    fn caps_lock(&self) -> bool;

    fn function_lock(&self) -> bool;
}

/// Number of key state bits in one word.
pub const KEY_STATE_WORD_WIDTH: usize = 8;
/// The amount of words each containing 8 key state bits.
pub const KEY_STATE_LENGTH: usize = 31;

/// Whether bit `bit` of a key state word is set.
pub open spec fn state_bit(word: u8, bit: u8) -> bool {
    (word >> bit) & 1 == 1
}

/// Whether a key is held down according to a key state bitmap.
pub open spec fn key_down(words: Seq<u8>, keycode: Keycode) -> bool {
    (keycode as int) / 8 < words.len() && state_bit(words[keycode as int / 8], keycode % 8)
}

/// The key state of a PS/2 keyboard.
pub struct Ps2Keyboard {
    /// Bitmap containing the state of every key. 8 key states are stored per word.
    key_state_words: [u8; 31],
    state: StateFlags,
}

/// What a keyboard needs sent to the device after it handled an event.
#[derive(Clone, Copy, PartialEq, Eq, Structural)]
pub enum KeyboardRequest {
    /// Light the given LEDs.
    SetLeds(LedFlags),
    /// Switch to scan code set 2 (sent after the keyboard reported a successful self test).
    UseScansetTwo,
}

proof fn lemma_bit_or(x: u8, b: u8, c: u8)
    requires
        b < 8,
        c < 8,
    ensures
        state_bit(x | (1u8 << b), b),
        c != b ==> state_bit(x | (1u8 << b), c) == state_bit(x, c),
{
    assert(((x | (1u8 << b)) >> b) & 1 == 1) by (bit_vector)
        requires
            b < 8,
    ;
    assert(c != b ==> (((x | (1u8 << b)) >> c) & 1 == 1) == ((x >> c) & 1 == 1)) by (bit_vector)
        requires
            b < 8,
            c < 8,
    ;
}

proof fn lemma_bit_clear(x: u8, b: u8, c: u8)
    requires
        b < 8,
        c < 8,
    ensures
        !state_bit(x & !(1u8 << b), b),
        c != b ==> state_bit(x & !(1u8 << b), c) == state_bit(x, c),
{
    assert(((x & !(1u8 << b)) >> b) & 1 != 1) by (bit_vector)
        requires
            b < 8,
    ;
    assert(c != b ==> (((x & !(1u8 << b)) >> c) & 1 == 1) == ((x >> c) & 1 == 1)) by (bit_vector)
        requires
            b < 8,
            c < 8,
    ;
}

impl Ps2Keyboard {
    pub closed spec fn spec_words(&self) -> Seq<u8> {
        self.key_state_words@
    }

    pub closed spec fn spec_state(&self) -> StateFlags {
        self.state
    }

    pub open spec fn spec_is_down(&self, keycode: Keycode) -> bool {
        key_down(self.spec_words(), keycode)
    }

    /// The event for `keycode` being made (pressed) or broken (released), with the modifiers
    /// and character that apply right now.
    pub open spec fn spec_event(&self, keycode: Keycode, make: bool) -> KeyEvent {
        let modifiers = ModifierFlags {
            bits: ((if self.spec_is_down(LEFT_SHIFT) || self.spec_is_down(RIGHT_SHIFT) {
                1u8
            } else {
                0
            }) + (if self.spec_state().has(STATE_NUM_LOCK) {
                2u8
            } else {
                0
            }) + (if self.spec_state().has(STATE_CAPS_LOCK) {
                4u8
            } else {
                0
            })) as u8,
        };
        KeyEvent {
            keycode,
            char: spec_us_qwerty_char(keycode).spec_char(modifiers),
            kind: if !make {
                KeyEventKind::Break
            } else if self.spec_is_down(keycode) {
                KeyEventKind::Repeat
            } else {
                KeyEventKind::Make
            },
            modifiers,
        }
    }

    /// The lock states after event `event`: a make of a lock key toggles its lock; escape
    /// while function is held toggles the function lock.
    pub open spec fn spec_next_state(&self, event: KeyEvent) -> StateFlags {
        if event.kind == KeyEventKind::Make {
            if event.keycode == SCROLL_LOCK {
                StateFlags { bits: self.spec_state().bits ^ STATE_SCROLL_LOCK }
            } else if event.keycode == NUM_LOCK {
                StateFlags { bits: self.spec_state().bits ^ STATE_NUM_LOCK }
            } else if event.keycode == CAPS_LOCK {
                StateFlags { bits: self.spec_state().bits ^ STATE_CAPS_LOCK }
            } else if event.keycode == ESCAPE && self.spec_is_down(FUNCTION) {
                StateFlags { bits: self.spec_state().bits ^ STATE_FUNCTION_LOCK }
            } else {
                self.spec_state()
            }
        } else {
            self.spec_state()
        }
    }

    /// Creates a keyboard with no key down and no lock enabled.
    pub fn new() -> (keyboard: Ps2Keyboard)
        ensures
            keyboard.spec_state().bits == 0,
            forall|k: Keycode| !#[trigger] keyboard.spec_is_down(k),
    {
        let keyboard = Ps2Keyboard { key_state_words: [0u8; 31], state: StateFlags::empty() };
        assert forall|k: Keycode| !#[trigger] keyboard.spec_is_down(k) by {
            if (k as int) / 8 < 31 {
                let w = keyboard.key_state_words@[k as int / 8];
                assert(w == 0);
                let b = (k % 8) as u8;
                assert((0u8 >> b) & 1 != 1) by (bit_vector);
            }
        }
        keyboard
    }

    /// Builds the event for `keycode` being made or broken.
    pub fn create_event(&self, keycode: Keycode, make: bool) -> (event: KeyEvent)
        ensures
            event == self.spec_event(keycode, make),
    {
        let shift = self.is_down(LEFT_SHIFT) || self.is_down(RIGHT_SHIFT);
        let num_lock = self.state.contains(STATE_NUM_LOCK);
        let caps_lock = self.state.contains(STATE_CAPS_LOCK);
        let modifiers = ModifierFlags::from_modifiers(shift, num_lock, caps_lock);
        let char = get_us_qwerty_char(keycode).char(modifiers);
        let kind = if !make {
            KeyEventKind::Break
        } else if self.is_down(keycode) {
            KeyEventKind::Repeat
        } else {
            KeyEventKind::Make
        };
        KeyEvent { keycode, char, kind, modifiers }
    }

    /// Records an event: a make toggles lock states, and the key counts as held down after a
    /// make or a repeat and as released after a break. Returns the LEDs to light when a lock
    /// state changed.
    pub fn handle_event(&mut self, event: KeyEvent) -> (leds: Option<LedFlags>)
        requires
            (event.keycode as int) / 8 < KEY_STATE_LENGTH,
        ensures
            final(self).spec_state() == old(self).spec_next_state(event),
            leds == if final(self).spec_state() != old(self).spec_state() {
                Some(LedFlags::spec_from_state(final(self).spec_state()))
            } else {
                None
            },
            final(self).spec_is_down(event.keycode) == (event.kind != KeyEventKind::Break),
            forall|k: Keycode|
                k != event.keycode ==> #[trigger] final(self).spec_is_down(k) == old(
                    self,
                ).spec_is_down(k),
    {
        let mut leds = None;
        if event.kind == KeyEventKind::Make {
            let last_state = self.state.bits;
            if event.keycode == SCROLL_LOCK {
                self.state.toggle(STATE_SCROLL_LOCK);
            } else if event.keycode == NUM_LOCK {
                self.state.toggle(STATE_NUM_LOCK);
            } else if event.keycode == CAPS_LOCK {
                self.state.toggle(STATE_CAPS_LOCK);
            } else if event.keycode == ESCAPE && self.is_down(FUNCTION) {
                self.state.toggle(STATE_FUNCTION_LOCK);
            }
            if self.state.bits != last_state {
                leds = Some(LedFlags::from_state(self.state));
            }
        }
        let index = event.keycode as usize;
        let bit_index = (index % KEY_STATE_WORD_WIDTH) as u8;
        let bit: u8 = 1u8 << bit_index;
        let word_index = index / KEY_STATE_WORD_WIDTH;
        let ghost old_words = self.key_state_words@;
        if event.kind != KeyEventKind::Break {
            self.key_state_words[word_index] = self.key_state_words[word_index] | bit;
        } else {
            self.key_state_words[word_index] = self.key_state_words[word_index] & !bit;
        }
        proof {
            let new_words = self.key_state_words@;
            assert forall|k: Keycode|
                k != event.keycode implies #[trigger] key_down(new_words, k) == key_down(
                old_words,
                k,
            ) by {
                if (k as int) / 8 == word_index as int {
                    let c = (k % 8) as u8;
                    if event.kind != KeyEventKind::Break {
                        lemma_bit_or(old_words[word_index as int], bit_index, c);
                    } else {
                        lemma_bit_clear(old_words[word_index as int], bit_index, c);
                    }
                }
            }
            if event.kind != KeyEventKind::Break {
                lemma_bit_or(old_words[word_index as int], bit_index, bit_index);
            } else {
                lemma_bit_clear(old_words[word_index as int], bit_index, bit_index);
            }
        }
        leds
    }

    /// What the keyboard makes of the next event from the device, if any: a key gives a key
    /// event, recorded as by `handle_event`, with the LEDs to light if a lock changed; a
    /// successful self test asks for scan code set 2 again; anything else is ignored.
    pub fn read_event(&mut self, event: Option<Event>) -> (result: (Option<KeyEvent>, Option<KeyboardRequest>))
        requires
            event matches Some(Event::Key { key, make }) ==> (key as int) / 8 < KEY_STATE_LENGTH,
        ensures
            match event {
                Some(Event::Key { key, make }) => {
                    let key_event = old(self).spec_event(key, make);
                    &&& result.0 == Some(key_event)
                    &&& final(self).spec_state() == old(self).spec_next_state(key_event)
                    &&& result.1 == (if final(self).spec_state() != old(self).spec_state() {
                        Some(KeyboardRequest::SetLeds(LedFlags::spec_from_state(final(self).spec_state())))
                    } else {
                        None
                    })
                    &&& final(self).spec_is_down(key) == (key_event.kind != KeyEventKind::Break)
                    &&& forall|k: Keycode|
                        k != key ==> #[trigger] final(self).spec_is_down(k) == old(self).spec_is_down(k)
                },
                Some(Event::BatSuccess) => result == (None::<KeyEvent>, Some(KeyboardRequest::UseScansetTwo))
                    && *final(self) == *old(self),
                _ => result == (None::<KeyEvent>, None::<KeyboardRequest>) && *final(self) == *old(self),
            },
    {
        match event {
            Some(Event::Key { key, make }) => {
                let key_event = self.create_event(key, make);
                let request = match self.handle_event(key_event) {
                    Some(leds) => Some(KeyboardRequest::SetLeds(leds)),
                    None => None,
                };
                (Some(key_event), request)
            },
            Some(Event::BatSuccess) => (None, Some(KeyboardRequest::UseScansetTwo)),
            _ => (None, None),
        }
    }
}

impl Keyboard for Ps2Keyboard {
    fn is_down(&self, keycode: Keycode) -> (down: bool)
        ensures
            down == self.spec_is_down(keycode),
    {
        let index = keycode as usize;
        let word = if index / KEY_STATE_WORD_WIDTH < KEY_STATE_LENGTH {
            self.key_state_words[index / KEY_STATE_WORD_WIDTH]
        } else {
            0
        };
        let bit_index = (index % KEY_STATE_WORD_WIDTH) as u8;
        assert(((word >> bit_index) & 1 != 0) == ((word >> bit_index) & 1 == 1)) by (bit_vector);
        assert((0u8 >> bit_index) & 1 != 1) by (bit_vector);
        ((word >> bit_index) & 1) != 0
    }

    fn num_lock(&self) -> (on: bool)
        ensures
            on == self.spec_state().has(STATE_NUM_LOCK),
    {
        self.state.contains(STATE_NUM_LOCK)
    }

    fn scroll_lock(&self) -> (on: bool)
        ensures
            on == self.spec_state().has(STATE_SCROLL_LOCK),
    {
        self.state.contains(STATE_SCROLL_LOCK)
    }

    fn caps_lock(&self) -> (on: bool)
        ensures
            on == self.spec_state().has(STATE_CAPS_LOCK),
    {
        self.state.contains(STATE_CAPS_LOCK)
    }

    fn function_lock(&self) -> (on: bool)
        ensures
            on == self.spec_state().has(STATE_FUNCTION_LOCK),
    {
        self.state.contains(STATE_FUNCTION_LOCK)
    }
}

/// Which modifier flags a sum of the shift, num lock and caps lock bits has.
proof fn lemma_modifier_sum(shift: u8, num: u8, caps: u8)
    by (bit_vector)
    requires
        shift == 0 || shift == 1,
        num == 0 || num == 2,
        caps == 0 || caps == 4,
    ensures
        ((shift + num + caps) as u8 & MODIFIER_SHIFT == MODIFIER_SHIFT) == (shift == 1),
        ((shift + num + caps) as u8 & MODIFIER_NUM_LOCK == MODIFIER_NUM_LOCK) == (num == 2),
        ((shift + num + caps) as u8 & MODIFIER_CAPS_LOCK == MODIFIER_CAPS_LOCK) == (caps == 4),
{
}

/// **Law: key events carry the modifiers in effect.** The event for a key says which key it
/// is; it is a break when the key was released, a repeat when it was pressed while already
/// down and a make otherwise; it has SHIFT exactly when either shift key is held, and NUM LOCK
/// and CAPS LOCK exactly when those locks are on. A capitalized key gives its capital exactly
/// when one of shift and caps lock is in effect.
pub proof fn law_event_modifiers(keyboard: Ps2Keyboard, keycode: Keycode, make: bool)
    ensures
        ({
            let event = keyboard.spec_event(keycode, make);
            let shift = keyboard.spec_is_down(LEFT_SHIFT) || keyboard.spec_is_down(RIGHT_SHIFT);
            let caps = keyboard.spec_state().has(STATE_CAPS_LOCK);
            &&& event.keycode == keycode
            &&& (event.kind == KeyEventKind::Break) == !make
            &&& (event.kind == KeyEventKind::Repeat) == (make && keyboard.spec_is_down(keycode))
            &&& event.modifiers.has(MODIFIER_SHIFT) == shift
            &&& event.modifiers.has(MODIFIER_NUM_LOCK) == keyboard.spec_state().has(STATE_NUM_LOCK)
            &&& event.modifiers.has(MODIFIER_CAPS_LOCK) == caps
            &&& spec_us_qwerty_char(keycode) matches KeyCharMapping::Capitalized(small, capital)
                ==> event.char == Some(if shift != caps {
                capital
            } else {
                small
            })
        }),
{
    let shift: u8 = if keyboard.spec_is_down(LEFT_SHIFT) || keyboard.spec_is_down(RIGHT_SHIFT) {
        1
    } else {
        0
    };
    let num: u8 = if keyboard.spec_state().has(STATE_NUM_LOCK) {
        2
    } else {
        0
    };
    let caps: u8 = if keyboard.spec_state().has(STATE_CAPS_LOCK) {
        4
    } else {
        0
    };
    lemma_modifier_sum(shift, num, caps);
}

} // verus!
