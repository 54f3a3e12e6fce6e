//! Device descriptors: what the catalog knows of one input device node, and
//! the capability heuristic that tells a keyboard from other devices.

use vstd::prelude::*;
use vstd::string::StringExecFns;
use crate::event::{EventCode, BTN_LEFT, KEY_A, KEY_ENTER, KEY_Z};

verus! {

/// One input device as the catalog found it. `capabilities` lists the event
/// codes that the device supports; order and repetition carry no meaning.
#[derive(Clone, Debug, PartialEq, Eq)]
pub struct DeviceDescriptor {
    pub path: String,
    pub name: String,
    pub capabilities: Vec<EventCode>,
}

/// A descriptor as plain values: the two strings and the capability set.
pub struct DescriptorView {
    pub path: Seq<char>,
    pub name: Seq<char>,
    pub capabilities: Set<EventCode>,
}

impl View for DeviceDescriptor {
    type V = DescriptorView;

    open spec fn view(&self) -> DescriptorView {
        DescriptorView {
            path: self.path@,
            name: self.name@,
            capabilities: self.capabilities@.to_set(),
        }
    }
}

/// The capability heuristic: a keyboard supports Enter, A and Z, and does not
/// support the primary mouse button.
pub open spec fn is_keyboard(capabilities: Set<EventCode>) -> bool {
    &&& capabilities.contains(EventCode::key(KEY_ENTER))
    &&& capabilities.contains(EventCode::key(KEY_A))
    &&& capabilities.contains(EventCode::key(KEY_Z))
    &&& !capabilities.contains(EventCode::key(BTN_LEFT))
}

/// The line that lists a device: its path, a space, its display name.
pub open spec fn listing_of(device: DescriptorView) -> Seq<char> {
    device.path + seq![' '] + device.name
}

impl DeviceDescriptor {
    /// Whether the device supports an event code.
    pub fn supports(&self, code: EventCode) -> (res: bool)
        ensures
            res == self@.capabilities.contains(code),
    {
        for i in 0..self.capabilities.len()
            invariant
                forall|j: int| 0 <= j < i ==> self.capabilities@[j] != code,
        {
            if self.capabilities[i] == code {
                return true;
            }
        }
        false
    }

    /// Whether the capability heuristic takes the device for a keyboard.
    pub open spec fn is_keyboard(&self) -> bool {
        is_keyboard(self@.capabilities)
    }

    /// The line that lists the device.
    pub fn listing(&self) -> (line: String)
        ensures
            line@ == listing_of(self@),
    {
        let mut line = self.path.clone();
        proof {
            reveal_strlit(" ");
            assert(" "@ =~= seq![' ']);
        }
        line.append(" ");
        line.append(self.name.as_str());
        line
    }
}

} // verus!
