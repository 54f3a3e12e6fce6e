//! Input-event records as the operating system delivers them: a category,
//! a code within the category, a value, and a marker for dropped events.

use vstd::prelude::*;

verus! {

/// Category of synchronisation events.
pub const EV_SYN: u16 = 0;

/// Category of key and button events.
pub const EV_KEY: u16 = 1;

/// Category of relative-axis events.
pub const EV_REL: u16 = 2;

/// Code of the Enter key.
pub const KEY_ENTER: u16 = 28;

/// Code of the letter A.
pub const KEY_A: u16 = 30;

/// Code of the letter Z.
pub const KEY_Z: u16 = 44;

/// Code of the primary mouse button.
pub const BTN_LEFT: u16 = 272;

/// Value of a key event when the key goes up.
pub const KEY_RELEASED: i32 = 0;

/// Value of a key event when the key goes down.
pub const KEY_PRESSED: i32 = 1;

/// Value of a key event that the device repeats while the key is held.
pub const KEY_REPEATED: i32 = 2;

/// An event code: the category and the key, button or axis within it.
#[derive(Clone, Copy, Debug, PartialEq, Eq, Structural)]
pub struct EventCode {
    pub kind: u16,
    pub code: u16,
}

impl EventCode {
    /// The code of a key or button.
    pub open spec fn key_spec(code: u16) -> EventCode {
        EventCode { kind: EV_KEY, code }
    }

    /// The code of a key or button.
    #[verifier::when_used_as_spec(key_spec)]
    pub fn key(code: u16) -> (res: EventCode)
        ensures
            res == Self::key_spec(code),
    {
        EventCode { kind: EV_KEY, code }
    }
}

/// One record read from a device. `dropped` marks the boundary at which the
/// kernel discarded events because the reader fell behind.
#[derive(Clone, Copy, Debug, PartialEq, Eq, Structural)]
pub struct RawEvent {
    pub kind: u16,
    pub code: u16,
    pub value: i32,
    pub dropped: bool,
}

impl RawEvent {
    /// A key going down: not a release, not a repeat, not another category.
    pub open spec fn is_key_press_spec(&self) -> bool {
        self.kind == EV_KEY && self.value == KEY_PRESSED
    }

    /// Whether the record is a key going down.
    #[verifier::when_used_as_spec(is_key_press_spec)]
    pub fn is_key_press(&self) -> (res: bool)
        ensures
            res == self.is_key_press_spec(),
    {
        self.kind == EV_KEY && self.value == KEY_PRESSED
    }
}

} // verus!
