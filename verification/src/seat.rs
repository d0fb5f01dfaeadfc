//! The input devices of a seat.

use vstd::prelude::*;

verus! {

/// What a seat can announce.
#[derive(Clone, Copy, Debug, PartialEq, Eq, Structural)]
pub enum Capability {
    Keyboard,
    Pointer,
    Touch,
}

/// A device to get from the seat, or to give back.
#[derive(Clone, Copy, Debug, PartialEq, Eq, Structural)]
pub enum DeviceRequest {
    GetKeyboard,
    GetPointer,
    ReleaseKeyboard,
    ReleasePointer,
}

/// The devices that a client holds: at most one keyboard and one pointer, whatever the number of
/// seats.
#[derive(Clone, Copy, Debug, PartialEq, Eq, Structural)]
pub struct Devices {
    pub keyboard: bool,
    pub pointer: bool,
}

impl Devices {
    pub open spec fn none() -> Devices {
        Devices { keyboard: false, pointer: false }
    }

    /// A device of this capability is held.
    pub open spec fn holds(self, capability: Capability) -> bool {
        match capability {
            Capability::Keyboard => self.keyboard,
            Capability::Pointer => self.pointer,
            Capability::Touch => false,
        }
    }

    /// The devices once the one of this capability is held, or is not. Touch devices are not kept.
    pub open spec fn with(self, capability: Capability, held: bool) -> Devices {
        match capability {
            Capability::Keyboard => Devices { keyboard: held, ..self },
            Capability::Pointer => Devices { pointer: held, ..self },
            Capability::Touch => self,
        }
    }

    /// What a newly announced capability makes the client ask for.
    pub open spec fn request_on_new(self, capability: Capability) -> Option<DeviceRequest> {
        match capability {
            Capability::Keyboard if !self.keyboard => Some(DeviceRequest::GetKeyboard),
            Capability::Pointer if !self.pointer => Some(DeviceRequest::GetPointer),
            _ => None,
        }
    }

    /// What a withdrawn capability makes the client give back.
    pub open spec fn request_on_removed(self, capability: Capability) -> Option<DeviceRequest> {
        match capability {
            Capability::Keyboard if self.keyboard => Some(DeviceRequest::ReleaseKeyboard),
            Capability::Pointer if self.pointer => Some(DeviceRequest::ReleasePointer),
            _ => None,
        }
    }

    /// No device is held yet.
    pub fn new() -> (devices: Devices)
        ensures
            devices == Devices::none(),
    {
        Devices { keyboard: false, pointer: false }
    }

    /// Gets the keyboard or the pointer of a seat that announces it, unless one is held already.
    pub fn new_capability(&mut self, capability: Capability) -> (request: Option<DeviceRequest>)
        ensures
            request == old(self).request_on_new(capability),
            *final(self) == old(self).with(capability, true),
    {
        if capability == Capability::Keyboard && !self.keyboard {
            self.keyboard = true;
            return Some(DeviceRequest::GetKeyboard);
        }
        if capability == Capability::Pointer && !self.pointer {
            self.pointer = true;
            return Some(DeviceRequest::GetPointer);
        }
        None
    }

    /// Releases the keyboard or the pointer that is held when its capability is withdrawn.
    pub fn remove_capability(&mut self, capability: Capability) -> (request: Option<DeviceRequest>)
        ensures
            request == old(self).request_on_removed(capability),
            *final(self) == old(self).with(capability, false),
    {
        if capability == Capability::Keyboard && self.keyboard {
            self.keyboard = false;
            return Some(DeviceRequest::ReleaseKeyboard);
        }
        if capability == Capability::Pointer && self.pointer {
            self.pointer = false;
            return Some(DeviceRequest::ReleasePointer);
        }
        None
    }
}

/// What happened in a pointer event.
#[derive(Clone, Copy, Debug, PartialEq, Eq, Structural)]
pub enum PointerEventKind {
    /// The button with this number went down.
    Press { button: u32 },
    /// Anything else.
    Other,
}

/// A pointer event on a surface.
#[derive(Clone, Copy, Debug, PartialEq, Eq)]
pub struct PointerEvent {
    /// The surface is the client's main surface.
    pub own_surface: bool,
    /// The position on the surface, in whole units.
    pub position: (i32, i32),
    pub kind: PointerEventKind,
}

impl PointerEvent {
    /// The event is a press of `button` on the client's main surface.
    pub open spec fn is_press(self, button: u32) -> bool {
        self.own_surface && self.kind == PointerEventKind::Press { button }
    }

    /// The button that went down on the client's main surface.
    pub fn pressed_button(&self) -> (button: Option<u32>)
        ensures
            forall|b: u32| button == Some(b) <==> #[trigger] self.is_press(b),
    {
        if !self.own_surface {
            return None;
        }
        match self.kind {
            PointerEventKind::Press { button } => Some(button),
            PointerEventKind::Other => None,
        }
    }
}

/// A capability that is announced twice is asked for once, and one that is withdrawn twice is
/// released once.
pub proof fn law_one_device_per_capability(devices: Devices, capability: Capability)
    ensures
        devices.with(capability, true).request_on_new(capability) is None,
        devices.with(capability, false).request_on_removed(capability) is None,
{
}

/// What was got is released again, and nothing else changes, when a capability comes and goes.
pub proof fn law_removal_undoes_announcement(devices: Devices, capability: Capability)
    requires
        !devices.holds(capability),
    ensures
        devices.with(capability, true).with(capability, false) == devices,
        devices.request_on_new(capability) is Some <==> devices.with(
            capability,
            true,
        ).request_on_removed(capability) is Some,
{
}

/// A newly announced keyboard or pointer that is not held is got, by the request of its own kind,
/// and nothing is got otherwise; a withdrawn one that is held is released likewise.
pub proof fn law_devices_go_by_their_capability(devices: Devices, capability: Capability)
    ensures
        devices.request_on_new(capability) == Some(DeviceRequest::GetKeyboard) <==> capability
            == Capability::Keyboard && !devices.keyboard,
        devices.request_on_new(capability) == Some(DeviceRequest::GetPointer) <==> capability
            == Capability::Pointer && !devices.pointer,
        devices.request_on_removed(capability) == Some(DeviceRequest::ReleaseKeyboard)
            <==> capability == Capability::Keyboard && devices.keyboard,
        devices.request_on_removed(capability) == Some(DeviceRequest::ReleasePointer)
            <==> capability == Capability::Pointer && devices.pointer,
        devices.request_on_new(capability) matches Some(request) ==> request
            == DeviceRequest::GetKeyboard || request == DeviceRequest::GetPointer,
        devices.request_on_removed(capability) matches Some(request) ==> request
            == DeviceRequest::ReleaseKeyboard || request == DeviceRequest::ReleasePointer,
{
}

/// A device is held once its capability was announced, and not held once it was withdrawn; the
/// devices of other capabilities stay as they are.
pub proof fn law_capabilities_are_independent(
    devices: Devices,
    capability: Capability,
    other: Capability,
    held: bool,
)
    requires
        capability != Capability::Touch,
    ensures
        devices.with(capability, held).holds(capability) == held,
        other != capability ==> devices.with(capability, held).holds(other) == devices.holds(other),
        devices.with(Capability::Touch, held) == devices,
        !Devices::none().holds(other),
{
}

/// A press on another surface is no press on the client's, and a press is one of a single button.
pub proof fn law_presses_are_on_the_own_surface(event: PointerEvent, button: u32, other: u32)
    ensures
        event.is_press(button) ==> event.own_surface && event.kind is Press,
        event.is_press(button) && event.is_press(other) ==> button == other,
        event.own_surface && event.kind == (PointerEventKind::Press { button }) ==> event.is_press(
            button,
        ),
{
}

} // verus!
