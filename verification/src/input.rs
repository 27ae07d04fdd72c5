//! Input values that events carry and that callers configure.

use vstd::prelude::*;
use vstd::std_specs::convert::FromSpec;
use winit::event::{ElementState, MouseButton, TouchPhase};
use winit::event_loop::DeviceEventFilter;

verus! {

#[verifier::external_type_specification]
pub struct ExElementState(ElementState);

#[verifier::external_type_specification]
pub struct ExMouseButton(MouseButton);

#[verifier::external_type_specification]
pub struct ExTouchPhase(TouchPhase);

#[verifier::external_type_specification]
pub struct ExDeviceEventFilter(DeviceEventFilter);

/// Whether a key or button went down or up.
#[derive(Clone, Copy, Debug, PartialEq, Eq, Structural)]
pub enum WsiButtonState {
    Pressed,
    Released,
}

impl WsiButtonState {
    /// The name under which the state goes over the wire.
    pub fn name(&self) -> (r: &'static str)
        ensures
            r@ == (match *self {
                WsiButtonState::Pressed => "pressed"@,
                WsiButtonState::Released => "released"@,
            }),
    {
        match self {
            WsiButtonState::Pressed => "pressed",
            WsiButtonState::Released => "released",
        }
    }
}

impl From<ElementState> for WsiButtonState {
    fn from(state: ElementState) -> (r: WsiButtonState) {
        match state {
            ElementState::Pressed => WsiButtonState::Pressed,
            ElementState::Released => WsiButtonState::Released,
        }
    }
}

impl vstd::std_specs::convert::FromSpecImpl<ElementState> for WsiButtonState {
    open spec fn obeys_from_spec() -> bool {
        true
    }

    open spec fn from_spec(state: ElementState) -> WsiButtonState {
        match state {
            ElementState::Pressed => WsiButtonState::Pressed,
            ElementState::Released => WsiButtonState::Released,
        }
    }
}

/// When device events are held back from the application.
#[derive(Clone, Copy, Debug, PartialEq, Eq, Structural)]
pub enum WsiDeviceEventFilter {
    Always,
    Unfocused,
    Never,
}

impl From<WsiDeviceEventFilter> for DeviceEventFilter {
    fn from(filter: WsiDeviceEventFilter) -> (r: DeviceEventFilter) {
        match filter {
            WsiDeviceEventFilter::Always => DeviceEventFilter::Always,
            WsiDeviceEventFilter::Unfocused => DeviceEventFilter::Unfocused,
            WsiDeviceEventFilter::Never => DeviceEventFilter::Never,
        }
    }
}

impl vstd::std_specs::convert::FromSpecImpl<WsiDeviceEventFilter> for DeviceEventFilter {
    open spec fn obeys_from_spec() -> bool {
        true
    }

    open spec fn from_spec(filter: WsiDeviceEventFilter) -> DeviceEventFilter {
        match filter {
            WsiDeviceEventFilter::Always => DeviceEventFilter::Always,
            WsiDeviceEventFilter::Unfocused => DeviceEventFilter::Unfocused,
            WsiDeviceEventFilter::Never => DeviceEventFilter::Never,
        }
    }
}

/// A button of a mouse.
#[derive(Clone, Copy, Debug, PartialEq, Eq, Structural)]
pub enum WsiMouseButton {
    Left,
    Right,
    Middle,
    Other(u16),
}

/// How a mouse button goes over the wire: the three usual buttons by name, any other
/// by its number.
#[derive(Clone, Copy, Debug, PartialEq, Eq)]
pub enum MouseButtonWire {
    Name(&'static str),
    Number(u16),
}

impl WsiMouseButton {
    /// The wire form of the button.
    pub fn serialize(&self) -> (r: MouseButtonWire)
        ensures
            match *self {
                WsiMouseButton::Left => r matches MouseButtonWire::Name(s) && s@ == "left"@,
                WsiMouseButton::Right => r matches MouseButtonWire::Name(s) && s@ == "right"@,
                WsiMouseButton::Middle => r matches MouseButtonWire::Name(s) && s@ == "middle"@,
                WsiMouseButton::Other(u) => r == MouseButtonWire::Number(u),
            },
    {
        match self {
            WsiMouseButton::Left => MouseButtonWire::Name("left"),
            WsiMouseButton::Right => MouseButtonWire::Name("right"),
            WsiMouseButton::Middle => MouseButtonWire::Name("middle"),
            WsiMouseButton::Other(u) => MouseButtonWire::Number(*u),
        }
    }
}

impl From<MouseButton> for WsiMouseButton {
    fn from(button: MouseButton) -> (r: WsiMouseButton) {
        match button {
            MouseButton::Left => WsiMouseButton::Left,
            MouseButton::Right => WsiMouseButton::Right,
            MouseButton::Middle => WsiMouseButton::Middle,
            MouseButton::Other(u) => WsiMouseButton::Other(u),
        }
    }
}

impl vstd::std_specs::convert::FromSpecImpl<MouseButton> for WsiMouseButton {
    open spec fn obeys_from_spec() -> bool {
        true
    }

    open spec fn from_spec(button: MouseButton) -> WsiMouseButton {
        match button {
            MouseButton::Left => WsiMouseButton::Left,
            MouseButton::Right => WsiMouseButton::Right,
            MouseButton::Middle => WsiMouseButton::Middle,
            MouseButton::Other(u) => WsiMouseButton::Other(u),
        }
    }
}

/// Stage of a touch or of a scroll gesture.
#[derive(Clone, Copy, Debug, PartialEq, Eq, Structural)]
pub enum WsiTouchPhase {
    Started,
    Moved,
    Ended,
    Cancelled,
}

impl WsiTouchPhase {
    /// The name under which the phase goes over the wire.
    pub fn name(&self) -> (r: &'static str)
        ensures
            r@ == (match *self {
                WsiTouchPhase::Started => "started"@,
                WsiTouchPhase::Moved => "moved"@,
                WsiTouchPhase::Ended => "ended"@,
                WsiTouchPhase::Cancelled => "cancelled"@,
            }),
    {
        match self {
            WsiTouchPhase::Started => "started",
            WsiTouchPhase::Moved => "moved",
            WsiTouchPhase::Ended => "ended",
            WsiTouchPhase::Cancelled => "cancelled",
        }
    }
}

impl From<TouchPhase> for WsiTouchPhase {
    fn from(phase: TouchPhase) -> (r: WsiTouchPhase) {
        match phase {
            TouchPhase::Started => WsiTouchPhase::Started,
            TouchPhase::Moved => WsiTouchPhase::Moved,
            TouchPhase::Ended => WsiTouchPhase::Ended,
            TouchPhase::Cancelled => WsiTouchPhase::Cancelled,
        }
    }
}

impl vstd::std_specs::convert::FromSpecImpl<TouchPhase> for WsiTouchPhase {
    open spec fn obeys_from_spec() -> bool {
        true
    }

    open spec fn from_spec(phase: TouchPhase) -> WsiTouchPhase {
        match phase {
            TouchPhase::Started => WsiTouchPhase::Started,
            TouchPhase::Moved => WsiTouchPhase::Moved,
            TouchPhase::Ended => WsiTouchPhase::Ended,
            TouchPhase::Cancelled => WsiTouchPhase::Cancelled,
        }
    }
}

} // verus!
