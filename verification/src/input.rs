//! Key events as the kernel's input layer reports them.

use vstd::prelude::*;

verus! {

/// The value a key event carries when the key goes up.
pub const KEY_RELEASE: i32 = 0;

/// The value a key event carries when the key goes down.
pub const KEY_PRESS: i32 = 1;

/// The value a key event carries while a held key auto-repeats.
pub const KEY_REPEAT: i32 = 2;

/// One record read from an input device: the type classifier, the code
/// within that type, and the value.
#[derive(Clone, Copy, Debug, PartialEq, Eq, Structural)]
pub struct KeyEvent {
    /// The type classifier: key, relative axis, synchronization and so on.
    pub kind: u16,
    /// The code within the type; for a key event, the key's scancode.
    pub code: u16,
    /// The value; for a key event, release, press or repeat.
    pub value: i32,
}

/// `evdev::EventType::KEY`, the classifier of key and button events.
/// Trusted: evdev declares it as `0x01`, the kernel's `EV_KEY`.
#[verifier::external_body]
fn key_event_kind() -> (kind: u16)
    ensures
        kind == 1,
{
    evdev::EventType::KEY.0
}

/// `evdev::KeyCode::KEY_LEFTMETA`, the scancode of the left Super key.
/// Trusted: evdev declares it as `125`, the kernel's `KEY_LEFTMETA`.
#[verifier::external_body]
fn left_meta_code() -> (code: u16)
    ensures
        code == 125,
{
    evdev::KeyCode::KEY_LEFTMETA.0
}

impl KeyEvent {
    /// A press of the left Super key: a key event (type 1) for scancode 125
    /// whose value says "pressed". Releases, repeats, other keys and other
    /// event types do not qualify.
    pub open spec fn is_target_press(self) -> bool {
        self.kind == 1 && self.code == 125 && self.value == KEY_PRESS
    }

    /// An event with the given type, code and value.
    pub fn new(kind: u16, code: u16, value: i32) -> (event: KeyEvent)
        ensures
            event == (KeyEvent { kind, code, value }),
    {
        KeyEvent { kind, code, value }
    }

    /// Tells whether this event is a press of the designated key.
    pub fn qualifies(&self) -> (q: bool)
        ensures
            q == self.is_target_press(),
    {
        self.kind == key_event_kind() && self.code == left_meta_code() && self.value == KEY_PRESS
    }
}

} // verus!
