//! Input events a remote client can inject into the compositor.
//!
//! Coordinates and deltas are IEEE-754 binary64 values; the library carries
//! them as their bit patterns ([`Coord`]) and never computes with them.
//! Button and key codes are Linux evdev codes; stream ids are PipeWire node ids.

use vstd::prelude::*;

verus! {

/// A coordinate or delta: the bit pattern of an IEEE-754 binary64 value.
#[derive(Clone, Copy, Debug, PartialEq, Eq, Hash, Structural)]
pub struct Coord {
    /// The raw binary64 bit pattern.
    pub bits: u64,
}

impl Coord {
    /// The coordinate whose binary64 bit pattern is `bits`.
    pub fn from_bits(bits: u64) -> (r: Coord)
        ensures
            r.bits == bits,
    {
        Coord { bits }
    }

    /// The binary64 bit pattern of this coordinate.
    pub fn to_bits(self) -> (r: u64)
        ensures
            r == self.bits,
    {
        self.bits
    }
}

/// Key press or release.
#[derive(Clone, Copy, Debug, PartialEq, Eq, Hash, Structural)]
pub enum KeyState {
    /// The key was released (wire value 0).
    Released,
    /// The key was pressed (wire value 1).
    Pressed,
}

/// Mouse button press or release.
#[derive(Clone, Copy, Debug, PartialEq, Eq, Hash, Structural)]
pub enum ButtonState {
    /// The button was released (wire value 0).
    Released,
    /// The button was pressed (wire value 1).
    Pressed,
}

/// Scroll axis.
#[derive(Clone, Copy, Debug, PartialEq, Eq, Hash, Structural)]
pub enum Axis {
    /// Vertical scroll (wire value 0).
    Vertical,
    /// Horizontal scroll (wire value 1).
    Horizontal,
}

impl From<bool> for KeyState {
    /// `true` is a press, `false` a release.
    fn from(pressed: bool) -> (r: KeyState) {
        if pressed {
            KeyState::Pressed
        } else {
            KeyState::Released
        }
    }
}

impl vstd::std_specs::convert::FromSpecImpl<bool> for KeyState {
    open spec fn obeys_from_spec() -> bool {
        true
    }

    open spec fn from_spec(v: bool) -> KeyState {
        if v {
            KeyState::Pressed
        } else {
            KeyState::Released
        }
    }
}

impl From<KeyState> for bool {
    /// True exactly for a press.
    fn from(state: KeyState) -> (r: bool) {
        match state {
            KeyState::Pressed => true,
            KeyState::Released => false,
        }
    }
}

impl vstd::std_specs::convert::FromSpecImpl<KeyState> for bool {
    open spec fn obeys_from_spec() -> bool {
        true
    }

    open spec fn from_spec(v: KeyState) -> bool {
        v is Pressed
    }
}

impl From<u32> for KeyState {
    /// 0 is a release; every other value a press.
    fn from(value: u32) -> (r: KeyState) {
        if value == 0 {
            KeyState::Released
        } else {
            KeyState::Pressed
        }
    }
}

impl vstd::std_specs::convert::FromSpecImpl<u32> for KeyState {
    open spec fn obeys_from_spec() -> bool {
        true
    }

    open spec fn from_spec(v: u32) -> KeyState {
        if v == 0 {
            KeyState::Released
        } else {
            KeyState::Pressed
        }
    }
}

impl From<bool> for ButtonState {
    /// `true` is a press, `false` a release.
    fn from(pressed: bool) -> (r: ButtonState) {
        if pressed {
            ButtonState::Pressed
        } else {
            ButtonState::Released
        }
    }
}

impl vstd::std_specs::convert::FromSpecImpl<bool> for ButtonState {
    open spec fn obeys_from_spec() -> bool {
        true
    }

    open spec fn from_spec(v: bool) -> ButtonState {
        if v {
            ButtonState::Pressed
        } else {
            ButtonState::Released
        }
    }
}

impl From<ButtonState> for bool {
    /// True exactly for a press.
    fn from(state: ButtonState) -> (r: bool) {
        match state {
            ButtonState::Pressed => true,
            ButtonState::Released => false,
        }
    }
}

impl vstd::std_specs::convert::FromSpecImpl<ButtonState> for bool {
    open spec fn obeys_from_spec() -> bool {
        true
    }

    open spec fn from_spec(v: ButtonState) -> bool {
        v is Pressed
    }
}

impl From<u32> for ButtonState {
    /// 0 is a release; every other value a press.
    fn from(value: u32) -> (r: ButtonState) {
        if value == 0 {
            ButtonState::Released
        } else {
            ButtonState::Pressed
        }
    }
}

impl vstd::std_specs::convert::FromSpecImpl<u32> for ButtonState {
    open spec fn obeys_from_spec() -> bool {
        true
    }

    open spec fn from_spec(v: u32) -> ButtonState {
        if v == 0 {
            ButtonState::Released
        } else {
            ButtonState::Pressed
        }
    }
}

impl From<u32> for Axis {
    /// 0 is vertical; every other value horizontal.
    fn from(value: u32) -> (r: Axis) {
        if value == 0 {
            Axis::Vertical
        } else {
            Axis::Horizontal
        }
    }
}

impl vstd::std_specs::convert::FromSpecImpl<u32> for Axis {
    open spec fn obeys_from_spec() -> bool {
        true
    }

    open spec fn from_spec(v: u32) -> Axis {
        if v == 0 {
            Axis::Vertical
        } else {
            Axis::Horizontal
        }
    }
}

/// An input event to inject into the compositor.
#[derive(Clone, Copy, Debug, PartialEq, Eq, Structural)]
pub enum InputEvent {
    /// Relative pointer motion.
    PointerMotion {
        /// Horizontal delta (positive = right).
        dx: Coord,
        /// Vertical delta (positive = down).
        dy: Coord,
    },
    /// Absolute pointer motion within a stream.
    PointerMotionAbsolute {
        /// PipeWire stream id.
        stream: u32,
        /// X coordinate within the stream.
        x: Coord,
        /// Y coordinate within the stream.
        y: Coord,
    },
    /// Pointer button press or release.
    PointerButton {
        /// Linux evdev button code (BTN_LEFT = 0x110).
        button: i32,
        /// Button state.
        state: ButtonState,
    },
    /// Smooth scroll.
    PointerAxis {
        /// Horizontal scroll amount.
        dx: Coord,
        /// Vertical scroll amount.
        dy: Coord,
    },
    /// Discrete scroll (wheel clicks).
    PointerAxisDiscrete {
        /// Scroll axis.
        axis: Axis,
        /// Number of steps (negative = opposite direction).
        steps: i32,
    },
    /// Key event by hardware keycode.
    KeyboardKeycode {
        /// Linux evdev keycode.
        keycode: i32,
        /// Key state.
        state: KeyState,
    },
    /// Key event by keysym.
    KeyboardKeysym {
        /// X11 keysym.
        keysym: i32,
        /// Key state.
        state: KeyState,
    },
    /// A finger touches the screen.
    TouchDown {
        /// PipeWire stream id.
        stream: u32,
        /// Touch slot (finger id).
        slot: u32,
        /// X coordinate.
        x: Coord,
        /// Y coordinate.
        y: Coord,
    },
    /// A touching finger moves.
    TouchMotion {
        /// PipeWire stream id.
        stream: u32,
        /// Touch slot (finger id).
        slot: u32,
        /// X coordinate.
        x: Coord,
        /// Y coordinate.
        y: Coord,
    },
    /// A finger is lifted.
    TouchUp {
        /// Touch slot (finger id).
        slot: u32,
    },
}

/// The evdev code of the left mouse button.
pub const BTN_LEFT: i32 = 0x110;

/// Whether an event is a keyboard event.
pub open spec fn is_keyboard_event(e: InputEvent) -> bool {
    e is KeyboardKeycode || e is KeyboardKeysym
}

/// Whether an event is a pointer event.
pub open spec fn is_pointer_event(e: InputEvent) -> bool {
    e is PointerMotion || e is PointerMotionAbsolute || e is PointerButton || e is PointerAxis
        || e is PointerAxisDiscrete
}

/// Whether an event is a touch event.
pub open spec fn is_touch_event(e: InputEvent) -> bool {
    e is TouchDown || e is TouchMotion || e is TouchUp
}

/// Every event is in exactly one class: motion, absolute motion, buttons,
/// smooth and discrete scrolling are pointer events; keycodes and keysyms
/// are keyboard events; touch down, motion and up are touch events.
pub proof fn lemma_event_class_by_variant(e: InputEvent)
    ensures
        (match e {
            InputEvent::PointerMotion { .. }
            | InputEvent::PointerMotionAbsolute { .. }
            | InputEvent::PointerButton { .. }
            | InputEvent::PointerAxis { .. }
            | InputEvent::PointerAxisDiscrete { .. } => is_pointer_event(e) && !is_keyboard_event(e)
                && !is_touch_event(e),
            InputEvent::KeyboardKeycode { .. }
            | InputEvent::KeyboardKeysym { .. } => is_keyboard_event(e) && !is_pointer_event(e)
                && !is_touch_event(e),
            InputEvent::TouchDown { .. }
            | InputEvent::TouchMotion { .. }
            | InputEvent::TouchUp { .. } => is_touch_event(e) && !is_keyboard_event(e)
                && !is_pointer_event(e),
        }),
{
}

impl InputEvent {
    /// A relative pointer motion event.
    pub fn pointer_motion(dx: Coord, dy: Coord) -> (r: InputEvent)
        ensures
            r == (InputEvent::PointerMotion { dx, dy }),
    {
        InputEvent::PointerMotion { dx, dy }
    }

    /// An absolute pointer motion event.
    pub fn pointer_motion_absolute(stream: u32, x: Coord, y: Coord) -> (r: InputEvent)
        ensures
            r == (InputEvent::PointerMotionAbsolute { stream, x, y }),
    {
        InputEvent::PointerMotionAbsolute { stream, x, y }
    }

    /// A pointer button event.
    pub fn pointer_button(button: i32, state: ButtonState) -> (r: InputEvent)
        ensures
            r == (InputEvent::PointerButton { button, state }),
    {
        InputEvent::PointerButton { button, state }
    }

    /// A left mouse button press (`true`) or release (`false`).
    pub fn left_click(pressed: bool) -> (r: InputEvent)
        ensures
            r == (InputEvent::PointerButton {
                button: BTN_LEFT,
                state: if pressed {
                    ButtonState::Pressed
                } else {
                    ButtonState::Released
                },
            }),
    {
        InputEvent::PointerButton {
            button: BTN_LEFT,
            state: if pressed {
                ButtonState::Pressed
            } else {
                ButtonState::Released
            },
        }
    }

    /// A keyboard keycode event.
    pub fn key(keycode: i32, state: KeyState) -> (r: InputEvent)
        ensures
            r == (InputEvent::KeyboardKeycode { keycode, state }),
    {
        InputEvent::KeyboardKeycode { keycode, state }
    }

    /// True for keyboard events.
    pub fn is_keyboard(&self) -> (r: bool)
        ensures
            r == is_keyboard_event(*self),
    {
        match self {
            InputEvent::KeyboardKeycode { .. } | InputEvent::KeyboardKeysym { .. } => true,
            _ => false,
        }
    }

    /// True for pointer events.
    pub fn is_pointer(&self) -> (r: bool)
        ensures
            r == is_pointer_event(*self),
    {
        match self {
            InputEvent::PointerMotion { .. }
            | InputEvent::PointerMotionAbsolute { .. }
            | InputEvent::PointerButton { .. }
            | InputEvent::PointerAxis { .. }
            | InputEvent::PointerAxisDiscrete { .. } => true,
            _ => false,
        }
    }

    /// True for touch events.
    pub fn is_touch(&self) -> (r: bool)
        ensures
            r == is_touch_event(*self),
    {
        match self {
            InputEvent::TouchDown { .. }
            | InputEvent::TouchMotion { .. }
            | InputEvent::TouchUp { .. } => true,
            _ => false,
        }
    }

    /// The name of the event's variant, such as `"PointerMotion"`.
    pub fn variant_name(&self) -> (r: &'static str)
        ensures
            r@ == event_type_name(*self)@,
    {
        match self {
            InputEvent::KeyboardKeycode { .. } => "KeyboardKeycode",
            InputEvent::KeyboardKeysym { .. } => "KeyboardKeysym",
            InputEvent::PointerMotion { .. } => "PointerMotion",
            InputEvent::PointerMotionAbsolute { .. } => "PointerMotionAbsolute",
            InputEvent::PointerButton { .. } => "PointerButton",
            InputEvent::PointerAxis { .. } => "PointerAxis",
            InputEvent::PointerAxisDiscrete { .. } => "PointerAxisDiscrete",
            InputEvent::TouchDown { .. } => "TouchDown",
            InputEvent::TouchMotion { .. } => "TouchMotion",
            InputEvent::TouchUp { .. } => "TouchUp",
        }
    }
}

/// The name of an event's variant.
pub open spec fn event_type_name(e: InputEvent) -> &'static str {
    match e {
        InputEvent::KeyboardKeycode { .. } => "KeyboardKeycode",
        InputEvent::KeyboardKeysym { .. } => "KeyboardKeysym",
        InputEvent::PointerMotion { .. } => "PointerMotion",
        InputEvent::PointerMotionAbsolute { .. } => "PointerMotionAbsolute",
        InputEvent::PointerButton { .. } => "PointerButton",
        InputEvent::PointerAxis { .. } => "PointerAxis",
        InputEvent::PointerAxisDiscrete { .. } => "PointerAxisDiscrete",
        InputEvent::TouchDown { .. } => "TouchDown",
        InputEvent::TouchMotion { .. } => "TouchMotion",
        InputEvent::TouchUp { .. } => "TouchUp",
    }
}

/// Every event belongs to exactly one of the three device classes.
pub proof fn lemma_event_class_partition(e: InputEvent)
    ensures
        is_keyboard_event(e) || is_pointer_event(e) || is_touch_event(e),
        !(is_keyboard_event(e) && is_pointer_event(e)),
        !(is_keyboard_event(e) && is_touch_event(e)),
        !(is_pointer_event(e) && is_touch_event(e)),
{
}

} // verus!
