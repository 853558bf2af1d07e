//! Device types a remote desktop session can be authorised for.
//!
//! The set follows the portal specification's bit layout: keyboard = 1,
//! pointer = 2, touchscreen = 4. Unknown bits are dropped on conversion.

use vstd::prelude::*;

verus! {

/// The set of input devices a session may use.
#[derive(Clone, Copy, Debug, PartialEq, Eq, Hash, Structural)]
pub struct DeviceType {
    /// Keyboard input (bit value 1).
    pub keyboard: bool,
    /// Pointer / mouse input (bit value 2).
    pub pointer: bool,
    /// Touchscreen input (bit value 4).
    pub touchscreen: bool,
}

/// The bit mask of a device set: keyboard = 1, pointer = 2, touchscreen = 4.
pub open spec fn device_bits(keyboard: bool, pointer: bool, touchscreen: bool) -> u32 {
    ((if keyboard { 1int } else { 0int }) + (if pointer { 2int } else { 0int }) + (if touchscreen {
        4int
    } else {
        0int
    })) as u32
}

impl DeviceType {
    /// The bit mask of this set.
    pub open spec fn spec_bits(self) -> u32 {
        device_bits(self.keyboard, self.pointer, self.touchscreen)
    }

    /// The set holding only the keyboard.
    pub fn keyboard() -> (r: DeviceType)
        ensures
            r == (DeviceType { keyboard: true, pointer: false, touchscreen: false }),
    {
        DeviceType { keyboard: true, pointer: false, touchscreen: false }
    }

    /// The set holding only the pointer.
    pub fn pointer() -> (r: DeviceType)
        ensures
            r == (DeviceType { keyboard: false, pointer: true, touchscreen: false }),
    {
        DeviceType { keyboard: false, pointer: true, touchscreen: false }
    }

    /// The set holding only the touchscreen.
    pub fn touchscreen() -> (r: DeviceType)
        ensures
            r == (DeviceType { keyboard: false, pointer: false, touchscreen: true }),
    {
        DeviceType { keyboard: false, pointer: false, touchscreen: true }
    }

    /// The empty set.
    pub fn empty() -> (r: DeviceType)
        ensures
            r == (DeviceType { keyboard: false, pointer: false, touchscreen: false }),
    {
        DeviceType { keyboard: false, pointer: false, touchscreen: false }
    }

    /// Every known device type.
    pub fn all() -> (r: DeviceType)
        ensures
            r == (DeviceType { keyboard: true, pointer: true, touchscreen: true }),
    {
        DeviceType { keyboard: true, pointer: true, touchscreen: true }
    }

    /// The standard set for desktop remote control: keyboard and pointer.
    pub fn desktop_standard() -> (r: DeviceType)
        ensures
            r == (DeviceType { keyboard: true, pointer: true, touchscreen: false }),
    {
        DeviceType { keyboard: true, pointer: true, touchscreen: false }
    }

    /// All available device types (keyboard, pointer and touchscreen).
    pub fn all_devices() -> (r: DeviceType)
        ensures
            r == (DeviceType { keyboard: true, pointer: true, touchscreen: true }),
    {
        DeviceType { keyboard: true, pointer: true, touchscreen: true }
    }

    /// True when the keyboard is in the set.
    pub fn has_keyboard(self) -> (r: bool)
        ensures
            r == self.keyboard,
    {
        self.keyboard
    }

    /// True when the pointer is in the set.
    pub fn has_pointer(self) -> (r: bool)
        ensures
            r == self.pointer,
    {
        self.pointer
    }

    /// True when the touchscreen is in the set.
    pub fn has_touchscreen(self) -> (r: bool)
        ensures
            r == self.touchscreen,
    {
        self.touchscreen
    }

    /// True when the set holds no device.
    pub fn is_empty(self) -> (r: bool)
        ensures
            r == (!self.keyboard && !self.pointer && !self.touchscreen),
    {
        !self.keyboard && !self.pointer && !self.touchscreen
    }

    /// True when every device of `other` is also in `self`.
    pub fn contains(self, other: DeviceType) -> (r: bool)
        ensures
            r == ((other.keyboard ==> self.keyboard) && (other.pointer ==> self.pointer) && (
            other.touchscreen ==> self.touchscreen)),
    {
        (!other.keyboard || self.keyboard) && (!other.pointer || self.pointer) && (
        !other.touchscreen || self.touchscreen)
    }

    /// The devices in either set.
    pub fn union(self, other: DeviceType) -> (r: DeviceType)
        ensures
            r == (DeviceType {
                keyboard: self.keyboard || other.keyboard,
                pointer: self.pointer || other.pointer,
                touchscreen: self.touchscreen || other.touchscreen,
            }),
    {
        DeviceType {
            keyboard: self.keyboard || other.keyboard,
            pointer: self.pointer || other.pointer,
            touchscreen: self.touchscreen || other.touchscreen,
        }
    }

    /// The devices in both sets.
    pub fn intersection(self, other: DeviceType) -> (r: DeviceType)
        ensures
            r == (DeviceType {
                keyboard: self.keyboard && other.keyboard,
                pointer: self.pointer && other.pointer,
                touchscreen: self.touchscreen && other.touchscreen,
            }),
    {
        DeviceType {
            keyboard: self.keyboard && other.keyboard,
            pointer: self.pointer && other.pointer,
            touchscreen: self.touchscreen && other.touchscreen,
        }
    }

    /// The bit mask of this set (keyboard = 1, pointer = 2, touchscreen = 4).
    pub fn bits(self) -> (r: u32)
        ensures
            r == self.spec_bits(),
            r < 8,
    {
        let mut b: u32 = 0;
        if self.keyboard {
            b = b + 1;
        }
        if self.pointer {
            b = b + 2;
        }
        if self.touchscreen {
            b = b + 4;
        }
        b
    }

    /// The set named by the known bits of `bits`; other bits are ignored.
    pub fn from_bits_truncate(bits: u32) -> (r: DeviceType)
        ensures
            r.keyboard == (bits & 1 != 0),
            r.pointer == (bits & 2 != 0),
            r.touchscreen == (bits & 4 != 0),
    {
        DeviceType { keyboard: bits & 1 != 0, pointer: bits & 2 != 0, touchscreen: bits & 4 != 0 }
    }

    /// A readable list of the devices in the set, such as `"keyboard, pointer"`,
    /// or `"none"` for the empty set.
    pub fn description(self) -> (r: &'static str)
        ensures
            r@ == device_description(self.keyboard, self.pointer, self.touchscreen)@,
    {
        match (self.keyboard, self.pointer, self.touchscreen) {
            (false, false, false) => "none",
            (true, false, false) => "keyboard",
            (false, true, false) => "pointer",
            (false, false, true) => "touchscreen",
            (true, true, false) => "keyboard, pointer",
            (true, false, true) => "keyboard, touchscreen",
            (false, true, true) => "pointer, touchscreen",
            (true, true, true) => "keyboard, pointer, touchscreen",
        }
    }
}

/// The description of a device set: the names of its members in the order
/// keyboard, pointer, touchscreen, joined by `", "`; `"none"` when empty.
pub open spec fn device_description(keyboard: bool, pointer: bool, touchscreen: bool) -> &'static str {
    if !keyboard && !pointer && !touchscreen {
        "none"
    } else if keyboard && !pointer && !touchscreen {
        "keyboard"
    } else if !keyboard && pointer && !touchscreen {
        "pointer"
    } else if !keyboard && !pointer && touchscreen {
        "touchscreen"
    } else if keyboard && pointer && !touchscreen {
        "keyboard, pointer"
    } else if keyboard && !pointer && touchscreen {
        "keyboard, touchscreen"
    } else if !keyboard && pointer && touchscreen {
        "pointer, touchscreen"
    } else {
        "keyboard, pointer, touchscreen"
    }
}

/// Converting a set to bits and back gives the same set.
pub proof fn lemma_device_bits_roundtrip(d: DeviceType)
    ensures
        (d.spec_bits() & 1 != 0) == d.keyboard,
        (d.spec_bits() & 2 != 0) == d.pointer,
        (d.spec_bits() & 4 != 0) == d.touchscreen,
{
    let b = d.spec_bits();
    assert(b == 0u32 || b == 1u32 || b == 2u32 || b == 3u32 || b == 4u32 || b == 5u32 || b == 6u32 || b == 7u32);
    assert((0u32 & 1) == 0 && (0u32 & 2) == 0 && (0u32 & 4) == 0) by (bit_vector);
    assert((1u32 & 1) != 0 && (1u32 & 2) == 0 && (1u32 & 4) == 0) by (bit_vector);
    assert((2u32 & 1) == 0 && (2u32 & 2) != 0 && (2u32 & 4) == 0) by (bit_vector);
    assert((3u32 & 1) != 0 && (3u32 & 2) != 0 && (3u32 & 4) == 0) by (bit_vector);
    assert((4u32 & 1) == 0 && (4u32 & 2) == 0 && (4u32 & 4) != 0) by (bit_vector);
    assert((5u32 & 1) != 0 && (5u32 & 2) == 0 && (5u32 & 4) != 0) by (bit_vector);
    assert((6u32 & 1) == 0 && (6u32 & 2) != 0 && (6u32 & 4) != 0) by (bit_vector);
    assert((7u32 & 1) != 0 && (7u32 & 2) != 0 && (7u32 & 4) != 0) by (bit_vector);
}

impl Default for DeviceType {
    fn default() -> (r: DeviceType)
        ensures
            r == (DeviceType { keyboard: true, pointer: true, touchscreen: false }),
    {
        DeviceType::desktop_standard()
    }
}

impl From<u32> for DeviceType {
    /// The set named by the known bits; unknown bits are dropped.
    fn from(bits: u32) -> (r: DeviceType) {
        DeviceType::from_bits_truncate(bits)
    }
}

impl vstd::std_specs::convert::FromSpecImpl<u32> for DeviceType {
    open spec fn obeys_from_spec() -> bool {
        true
    }

    open spec fn from_spec(v: u32) -> DeviceType {
        DeviceType { keyboard: v & 1 != 0, pointer: v & 2 != 0, touchscreen: v & 4 != 0 }
    }
}

impl From<DeviceType> for u32 {
    /// The bit mask of the set.
    fn from(d: DeviceType) -> (r: u32) {
        d.bits()
    }
}

impl vstd::std_specs::convert::FromSpecImpl<DeviceType> for u32 {
    open spec fn obeys_from_spec() -> bool {
        true
    }

    open spec fn from_spec(v: DeviceType) -> u32 {
        v.spec_bits()
    }
}

impl core::ops::BitOr for DeviceType {
    type Output = DeviceType;

    /// The union of two sets.
    fn bitor(self, rhs: DeviceType) -> (r: DeviceType) {
        self.union(rhs)
    }
}

impl vstd::std_specs::ops::BitOrSpecImpl for DeviceType {
    open spec fn obeys_bitor_spec() -> bool {
        true
    }

    open spec fn bitor_req(self, rhs: DeviceType) -> bool {
        true
    }

    open spec fn bitor_spec(self, rhs: DeviceType) -> DeviceType {
        DeviceType {
            keyboard: self.keyboard || rhs.keyboard,
            pointer: self.pointer || rhs.pointer,
            touchscreen: self.touchscreen || rhs.touchscreen,
        }
    }
}

impl core::ops::BitAnd for DeviceType {
    type Output = DeviceType;

    /// The intersection of two sets.
    fn bitand(self, rhs: DeviceType) -> (r: DeviceType) {
        self.intersection(rhs)
    }
}

impl vstd::std_specs::ops::BitAndSpecImpl for DeviceType {
    open spec fn obeys_bitand_spec() -> bool {
        true
    }

    open spec fn bitand_req(self, rhs: DeviceType) -> bool {
        true
    }

    open spec fn bitand_spec(self, rhs: DeviceType) -> DeviceType {
        DeviceType {
            keyboard: self.keyboard && rhs.keyboard,
            pointer: self.pointer && rhs.pointer,
            touchscreen: self.touchscreen && rhs.touchscreen,
        }
    }
}

} // verus!
