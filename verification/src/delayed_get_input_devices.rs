//! A window that is rendered before it gets the seat's input devices, one second later. The raw
//! events of the devices are then held against the order that the protocol prescribes, and what is
//! out of order gives a warning.

use std::collections::HashSet;

use vstd::prelude::*;
use vstd::string::StringExecFns;

use crate::canvas::{fill, painted};
use crate::geometry::{
    buffer_shape, shape_of, side_or, whole, whole_rect, BufferShape, Rect, SurfaceSize,
};
use crate::seat::Capability;
use crate::steps::{has_steps, once, stands_at};
use crate::text::{signed_decimal, signed_decimal_text};

verus! {

pub const WINDOW_W: u32 = 500;

pub const WINDOW_H: u32 = 400;

pub const WINDOW_COLOR: u32 = 0xFF30_70B0;

/// The nanoseconds between the moment when devices could be got and the moment when they are.
pub const DEVICE_DELAY: u64 = 1_000_000_000;

/// Paints the window.
pub fn paint_window(canvas: &mut [u8])
    ensures
        painted(old(canvas)@, final(canvas)@, |i: int| WINDOW_COLOR),
{
    fill(canvas, WINDOW_COLOR);
}

/// What a touch event does to a contact that is already down.
#[derive(Clone, Copy, Debug, PartialEq, Eq, Structural)]
pub enum TouchAction {
    Up,
    Motion,
    Shape,
    Orientation,
}

/// What a tablet tool does while it is in proximity.
#[derive(Clone, Copy, Debug, PartialEq, Eq, Structural)]
pub enum ToolAction {
    Down,
    Up,
    Motion,
    Pressure,
    Distance,
    Tilt,
    Rotation,
    Slider,
    Wheel,
    Button,
}

/// An event that came out of order.
#[derive(Clone, Copy, Debug, PartialEq, Eq, Structural)]
pub enum Warning {
    MotionWithoutEnter,
    KeyWithoutEnter,
    DuplicateTouchDown { id: i32 },
    TouchWithoutDown { action: TouchAction, id: i32 },
    DuplicateProximityIn,
    ProximityOutWithoutIn,
    ProximityOutWithoutUp,
    ToolOutOfProximity(ToolAction),
    DuplicateToolDown,
    ToolUpWithoutDown,
    ToolRemovedInProximity,
    ToolRemovedWhileDown,
    PadButtonWithoutEnter,
}

impl TouchAction {
    pub open spec fn spec_name(self) -> Seq<char> {
        match self {
            TouchAction::Up => "up"@,
            TouchAction::Motion => "motion"@,
            TouchAction::Shape => "shape"@,
            TouchAction::Orientation => "orientation"@,
        }
    }

    /// The protocol's name of the event.
    pub fn name(&self) -> (name: &'static str)
        ensures
            name@ == self.spec_name(),
    {
        match self {
            TouchAction::Up => "up",
            TouchAction::Motion => "motion",
            TouchAction::Shape => "shape",
            TouchAction::Orientation => "orientation",
        }
    }
}

impl ToolAction {
    pub open spec fn spec_name(self) -> Seq<char> {
        match self {
            ToolAction::Down => "down"@,
            ToolAction::Up => "up"@,
            ToolAction::Motion => "motion"@,
            ToolAction::Pressure => "pressure"@,
            ToolAction::Distance => "distance"@,
            ToolAction::Tilt => "tilt"@,
            ToolAction::Rotation => "rotation"@,
            ToolAction::Slider => "slider"@,
            ToolAction::Wheel => "wheel"@,
            ToolAction::Button => "button"@,
        }
    }

    /// The protocol's name of the event.
    pub fn name(&self) -> (name: &'static str)
        ensures
            name@ == self.spec_name(),
    {
        match self {
            ToolAction::Down => "down",
            ToolAction::Up => "up",
            ToolAction::Motion => "motion",
            ToolAction::Pressure => "pressure",
            ToolAction::Distance => "distance",
            ToolAction::Tilt => "tilt",
            ToolAction::Rotation => "rotation",
            ToolAction::Slider => "slider",
            ToolAction::Wheel => "wheel",
            ToolAction::Button => "button",
        }
    }
}

impl Warning {
    /// The text of the warning.
    pub open spec fn text(self) -> Seq<char> {
        match self {
            Warning::MotionWithoutEnter =>
                "WARNING: received motion without a preceding pointer enter"@,
            Warning::KeyWithoutEnter =>
                "WARNING: received keyboard key without a preceding keyboard enter"@,
            Warning::DuplicateTouchDown { id } =>
                "WARNING: received duplicate touch down for id "@ + signed_decimal(id as int),
            Warning::TouchWithoutDown { action, id } =>
                "WARNING: received touch "@ + action.spec_name()
                    + " without a preceding down for id "@ + signed_decimal(id as int),
            Warning::DuplicateProximityIn =>
                "WARNING: received duplicate tablet tool proximity_in"@,
            Warning::ProximityOutWithoutIn =>
                "WARNING: received tablet tool proximity_out without proximity_in"@,
            Warning::ProximityOutWithoutUp =>
                "WARNING: received tablet tool proximity_out without a preceding up"@,
            Warning::ToolOutOfProximity(action) =>
                "WARNING: received tablet tool "@ + action.spec_name()
                    + " without a preceding proximity_in"@,
            Warning::DuplicateToolDown =>
                "WARNING: received duplicate tablet tool down"@,
            Warning::ToolUpWithoutDown =>
                "WARNING: received tablet tool up without a preceding down"@,
            Warning::ToolRemovedInProximity =>
                "WARNING: tablet tool removed without proximity_out"@,
            Warning::ToolRemovedWhileDown =>
                "WARNING: tablet tool removed without up"@,
            Warning::PadButtonWithoutEnter =>
                "WARNING: received tablet pad button without a preceding enter"@,
        }
    }

    /// Writes the warning down.
    pub fn message(&self) -> (message: String)
        ensures
            message@ == self.text(),
    {
        match self {
            Warning::MotionWithoutEnter =>
                "WARNING: received motion without a preceding pointer enter".to_owned(),
            Warning::KeyWithoutEnter =>
                "WARNING: received keyboard key without a preceding keyboard enter".to_owned(),
            Warning::DuplicateTouchDown { id } => {
                let mut message = "WARNING: received duplicate touch down for id ".to_owned();
                message.append(signed_decimal_text(*id).as_str());
                message
            },
            Warning::TouchWithoutDown { action, id } => {
                let mut message = "WARNING: received touch ".to_owned();
                message.append(action.name());
                message.append(" without a preceding down for id ");
                message.append(signed_decimal_text(*id).as_str());
                message
            },
            Warning::DuplicateProximityIn =>
                "WARNING: received duplicate tablet tool proximity_in".to_owned(),
            Warning::ProximityOutWithoutIn =>
                "WARNING: received tablet tool proximity_out without proximity_in".to_owned(),
            Warning::ProximityOutWithoutUp =>
                "WARNING: received tablet tool proximity_out without a preceding up".to_owned(),
            Warning::ToolOutOfProximity(action) => {
                let mut message = "WARNING: received tablet tool ".to_owned();
                message.append(action.name());
                message.append(" without a preceding proximity_in");
                message
            },
            Warning::DuplicateToolDown =>
                "WARNING: received duplicate tablet tool down".to_owned(),
            Warning::ToolUpWithoutDown =>
                "WARNING: received tablet tool up without a preceding down".to_owned(),
            Warning::ToolRemovedInProximity =>
                "WARNING: tablet tool removed without proximity_out".to_owned(),
            Warning::ToolRemovedWhileDown =>
                "WARNING: tablet tool removed without up".to_owned(),
            Warning::PadButtonWithoutEnter =>
                "WARNING: received tablet pad button without a preceding enter".to_owned(),
        }
    }
}

/// An event of a tablet.
#[derive(Clone, Copy, Debug, PartialEq, Eq, Structural)]
pub enum TabletEvent {
    Removed,
    /// Anything else.
    Other,
}

impl TabletEvent {
    /// The tablet object is to be destroyed after the event.
    pub fn destroys(&self) -> (destroy: bool)
        ensures
            destroy == (*self == TabletEvent::Removed),
    {
        match self {
            TabletEvent::Removed => true,
            TabletEvent::Other => false,
        }
    }
}

/// Whether a device is present, going by an event that may tell.
pub open spec fn marked(before: bool, mark: Option<bool>) -> bool {
    match mark {
        Some(present) => present,
        None => before,
    }
}

/// Whether a device that was absent is present after a sequence of events.
pub open spec fn marked_all(marks: Seq<Option<bool>>) -> bool
    decreases marks.len(),
{
    if marks.len() == 0 {
        false
    } else {
        marked(marked_all(marks.drop_last()), marks.last())
    }
}

/// An event of a tablet tool.
#[derive(Clone, Copy, Debug, PartialEq, Eq, Structural)]
pub enum ToolEvent {
    ProximityIn,
    ProximityOut,
    Action(ToolAction),
    Removed,
    /// Anything else.
    Other,
}

impl ToolEvent {
    /// The tool object is to be destroyed after the event.
    pub fn destroys(&self) -> (destroy: bool)
        ensures
            destroy == (*self == ToolEvent::Removed),
    {
        match self {
            ToolEvent::Removed => true,
            _ => false,
        }
    }
}

/// What a tool event tells of the tool's being in proximity.
pub open spec fn proximity_mark(event: ToolEvent) -> Option<bool> {
    match event {
        ToolEvent::ProximityIn => Some(true),
        ToolEvent::ProximityOut => Some(false),
        _ => None,
    }
}

/// What a tool event tells of the tool's being down. A tool that goes away is not.
pub open spec fn contact_mark(event: ToolEvent) -> Option<bool> {
    match event {
        ToolEvent::Action(ToolAction::Down) => Some(true),
        ToolEvent::Action(ToolAction::Up) | ToolEvent::ProximityOut => Some(false),
        _ => None,
    }
}

/// What is known of a tablet tool from its events.
#[derive(Clone, Copy, Debug, PartialEq, Eq, Structural)]
pub struct TabletToolData {
    pub in_proximity: bool,
    pub down: bool,
}

impl TabletToolData {
    /// A tool without events.
    pub open spec fn initial() -> TabletToolData {
        TabletToolData { in_proximity: false, down: false }
    }

    /// The tool after an event.
    pub open spec fn after(self, event: ToolEvent) -> TabletToolData {
        TabletToolData {
            in_proximity: marked(self.in_proximity, proximity_mark(event)),
            down: marked(self.down, contact_mark(event)),
        }
    }

    /// The warning about a tool that acts out of proximity.
    pub open spec fn proximity_warnings(self, action: ToolAction) -> Seq<Warning> {
        if self.in_proximity {
            seq![]
        } else {
            seq![Warning::ToolOutOfProximity(action)]
        }
    }

    /// What is out of order about an event.
    pub open spec fn warnings(self, event: ToolEvent) -> Seq<Warning> {
        match event {
            ToolEvent::ProximityIn => if self.in_proximity {
                seq![Warning::DuplicateProximityIn]
            } else {
                seq![]
            },
            ToolEvent::ProximityOut => (if self.in_proximity {
                seq![]
            } else {
                seq![Warning::ProximityOutWithoutIn]
            }) + (if self.down {
                seq![Warning::ProximityOutWithoutUp]
            } else {
                seq![]
            }),
            ToolEvent::Action(action) => self.proximity_warnings(action) + (if action
                == ToolAction::Down && self.down {
                seq![Warning::DuplicateToolDown]
            } else if action == ToolAction::Up && !self.down {
                seq![Warning::ToolUpWithoutDown]
            } else {
                seq![]
            }),
            ToolEvent::Removed => (if self.in_proximity {
                seq![Warning::ToolRemovedInProximity]
            } else {
                seq![]
            }) + (if self.down {
                seq![Warning::ToolRemovedWhileDown]
            } else {
                seq![]
            }),
            ToolEvent::Other => seq![],
        }
    }

    /// The tool after a sequence of events.
    pub open spec fn after_all(self, events: Seq<ToolEvent>) -> TabletToolData
        decreases events.len(),
    {
        if events.len() == 0 {
            self
        } else {
            self.after_all(events.drop_last()).after(events.last())
        }
    }

    /// What is out of order in a sequence of events.
    pub open spec fn all_warnings(self, events: Seq<ToolEvent>) -> Seq<Warning>
        decreases events.len(),
    {
        if events.len() == 0 {
            seq![]
        } else {
            self.all_warnings(events.drop_last()) + self.after_all(events.drop_last()).warnings(
                events.last(),
            )
        }
    }

    pub fn new() -> (data: TabletToolData)
        ensures
            data == TabletToolData::initial(),
    {
        TabletToolData { in_proximity: false, down: false }
    }

    /// Warns about an action of a tool that is not in proximity.
    pub fn warn_if_out_of_proximity(&self, action: ToolAction, warnings: &mut Vec<Warning>)
        ensures
            final(warnings)@ == old(warnings)@ + self.proximity_warnings(action),
    {
        if !self.in_proximity {
            warnings.push(Warning::ToolOutOfProximity(action));
        }
    }

    /// Handles an event of the tool.
    pub fn event(&mut self, event: ToolEvent) -> (warnings: Vec<Warning>)
        ensures
            *final(self) == old(self).after(event),
            warnings@ == old(self).warnings(event),
    {
        let mut warnings: Vec<Warning> = Vec::new();
        match event {
            ToolEvent::ProximityIn => {
                if self.in_proximity {
                    warnings.push(Warning::DuplicateProximityIn);
                }
                self.in_proximity = true;
            },
            ToolEvent::ProximityOut => {
                if !self.in_proximity {
                    warnings.push(Warning::ProximityOutWithoutIn);
                }
                self.in_proximity = false;
                if self.down {
                    warnings.push(Warning::ProximityOutWithoutUp);
                }
                self.down = false;
            },
            ToolEvent::Action(action) => {
                self.warn_if_out_of_proximity(action, &mut warnings);
                match action {
                    ToolAction::Down => {
                        if self.down {
                            warnings.push(Warning::DuplicateToolDown);
                        }
                        self.down = true;
                    },
                    ToolAction::Up => {
                        if !self.down {
                            warnings.push(Warning::ToolUpWithoutDown);
                        }
                        self.down = false;
                    },
                    _ => {},
                }
            },
            ToolEvent::Removed => {
                if self.in_proximity {
                    warnings.push(Warning::ToolRemovedInProximity);
                }
                if self.down {
                    warnings.push(Warning::ToolRemovedWhileDown);
                }
            },
            ToolEvent::Other => {},
        }
        warnings
    }
}

/// An event of a tablet pad.
#[derive(Clone, Copy, Debug, PartialEq, Eq, Structural)]
pub enum PadEvent {
    Enter,
    Leave,
    Button,
    Removed,
    /// Anything else.
    Other,
}

impl PadEvent {
    /// The pad object is to be destroyed after the event.
    pub fn destroys(&self) -> (destroy: bool)
        ensures
            destroy == (*self == PadEvent::Removed),
    {
        match self {
            PadEvent::Removed => true,
            _ => false,
        }
    }
}

/// What a pad event tells of the pad's being on a surface.
pub open spec fn pad_mark(event: PadEvent) -> Option<bool> {
    match event {
        PadEvent::Enter => Some(true),
        PadEvent::Leave | PadEvent::Removed => Some(false),
        _ => None,
    }
}

/// What is known of a tablet pad from its events.
#[derive(Clone, Copy, Debug, PartialEq, Eq, Structural)]
pub struct TabletPadData {
    pub entered: bool,
}

impl TabletPadData {
    /// The pad after an event.
    pub open spec fn after(self, event: PadEvent) -> TabletPadData {
        TabletPadData { entered: marked(self.entered, pad_mark(event)) }
    }

    /// What is out of order about an event.
    pub open spec fn warning(self, event: PadEvent) -> Option<Warning> {
        if event == PadEvent::Button && !self.entered {
            Some(Warning::PadButtonWithoutEnter)
        } else {
            None
        }
    }

    pub fn new() -> (data: TabletPadData)
        ensures
            !data.entered,
    {
        TabletPadData { entered: false }
    }

    /// Handles an event of the pad.
    pub fn event(&mut self, event: PadEvent) -> (warning: Option<Warning>)
        ensures
            *final(self) == old(self).after(event),
            warning == old(self).warning(event),
    {
        match event {
            PadEvent::Enter => {
                self.entered = true;
            },
            PadEvent::Leave => {
                self.entered = false;
            },
            PadEvent::Button => {
                if !self.entered {
                    return Some(Warning::PadButtonWithoutEnter);
                }
            },
            PadEvent::Removed => {
                self.entered = false;
            },
            PadEvent::Other => {},
        }
        None
    }
}

/// An event of the pointer.
#[derive(Clone, Copy, Debug, PartialEq, Eq, Structural)]
pub enum PointerEvent {
    Enter,
    Leave,
    Motion,
    /// Anything else.
    Other,
}

/// An event of the keyboard.
#[derive(Clone, Copy, Debug, PartialEq, Eq, Structural)]
pub enum KeyboardEvent {
    Enter,
    Leave,
    Key,
    /// Anything else.
    Other,
}

/// An event of the touch device.
#[derive(Clone, Copy, Debug, PartialEq, Eq, Structural)]
pub enum TouchEvent {
    Down { id: i32 },
    Action { action: TouchAction, id: i32 },
    Cancel,
    /// Anything else.
    Other,
}

/// What a pointer event tells of the pointer's being on a surface.
pub open spec fn pointer_mark(event: PointerEvent) -> Option<bool> {
    match event {
        PointerEvent::Enter => Some(true),
        PointerEvent::Leave => Some(false),
        _ => None,
    }
}

/// What a keyboard event tells of the keyboard's being on a surface.
pub open spec fn keyboard_mark(event: KeyboardEvent) -> Option<bool> {
    match event {
        KeyboardEvent::Enter => Some(true),
        KeyboardEvent::Leave => Some(false),
        _ => None,
    }
}

/// The contacts that are down after an event.
pub open spec fn touches_after(before: Set<i32>, event: TouchEvent) -> Set<i32> {
    match event {
        TouchEvent::Down { id } => before.insert(id),
        TouchEvent::Action { action: TouchAction::Up, id } => before.remove(id),
        TouchEvent::Cancel => Set::empty(),
        _ => before,
    }
}

pub open spec fn touches_after_all(before: Set<i32>, events: Seq<TouchEvent>) -> Set<i32>
    decreases events.len(),
{
    if events.len() == 0 {
        before
    } else {
        touches_after(touches_after_all(before, events.drop_last()), events.last())
    }
}

/// What is out of order about a touch event.
pub open spec fn touch_warning(before: Set<i32>, event: TouchEvent) -> Option<Warning> {
    match event {
        TouchEvent::Down { id } => if before.contains(id) {
            Some(Warning::DuplicateTouchDown { id })
        } else {
            None
        },
        TouchEvent::Action { action, id } => if before.contains(id) {
            None
        } else {
            Some(Warning::TouchWithoutDown { action, id })
        },
        _ => None,
    }
}

/// What the client asks of the compositor, and of its buffer pool, in order.
#[derive(Clone, Copy, Debug, PartialEq, Eq, Structural)]
pub enum Request {
    /// Forget the buffer, whose size is out of date.
    DropBuffer,
    /// Get a canvas of this shape and paint the window on it.
    Paint(BufferShape),
    Damage(Rect),
    Attach,
    Commit,
    /// Tell that a capability was announced, and that its device will be got later.
    AnnounceDelayed(Capability),
    /// Get the pointer of a seat.
    GetPointer { seat: u32 },
    /// Get the keyboard of a seat.
    GetKeyboard { seat: u32 },
    /// Get the touch device of a seat.
    GetTouch { seat: u32 },
    /// Get the tablets of a seat.
    GetTabletSeat { seat: u32 },
    ReleasePointer,
    ReleaseKeyboard,
    ReleaseTouch,
    DestroyTabletSeat,
}

/// The state of the client. Seats go by numbers of the caller's choice.
#[derive(Debug)]
pub struct App {
    pub exit: bool,
    pub size: SurfaceSize,
    pub surface_rendered: bool,
    /// The first seat.
    pub seat: Option<u32>,
    /// The first seat with each capability.
    pub pointer_seat: Option<u32>,
    pub keyboard_seat: Option<u32>,
    pub touch_seat: Option<u32>,
    /// The devices that are held.
    pub pointer: bool,
    pub keyboard: bool,
    pub touch: bool,
    /// The compositor offers tablets.
    pub tablet_manager: bool,
    pub tablet_seat: bool,
    pub pointer_entered: bool,
    pub keyboard_entered: bool,
    /// The contacts that are down.
    pub active_touches: HashSet<i32>,
}

/// What a client is: its fields, with the contacts as a set.
#[verifier::ext_equal]
pub struct AppState {
    pub exit: bool,
    pub size: SurfaceSize,
    pub surface_rendered: bool,
    pub seat: Option<u32>,
    pub pointer_seat: Option<u32>,
    pub keyboard_seat: Option<u32>,
    pub touch_seat: Option<u32>,
    pub pointer: bool,
    pub keyboard: bool,
    pub touch: bool,
    pub tablet_manager: bool,
    pub tablet_seat: bool,
    pub pointer_entered: bool,
    pub keyboard_entered: bool,
    pub active_touches: Set<i32>,
}

impl View for App {
    type V = AppState;

    open spec fn view(&self) -> AppState {
        AppState {
            exit: self.exit,
            size: self.size,
            surface_rendered: self.surface_rendered,
            seat: self.seat,
            pointer_seat: self.pointer_seat,
            keyboard_seat: self.keyboard_seat,
            touch_seat: self.touch_seat,
            pointer: self.pointer,
            keyboard: self.keyboard,
            touch: self.touch,
            tablet_manager: self.tablet_manager,
            tablet_seat: self.tablet_seat,
            pointer_entered: self.pointer_entered,
            keyboard_entered: self.keyboard_entered,
            active_touches: self.active_touches@,
        }
    }
}

impl AppState {
    /// The client before any event.
    pub open spec fn initial(tablet_manager: bool) -> AppState {
        AppState {
            exit: false,
            size: SurfaceSize::initial(WINDOW_W, WINDOW_H),
            surface_rendered: false,
            seat: None,
            pointer_seat: None,
            keyboard_seat: None,
            touch_seat: None,
            pointer: false,
            keyboard: false,
            touch: false,
            tablet_manager,
            tablet_seat: false,
            pointer_entered: false,
            keyboard_entered: false,
            active_touches: Set::empty(),
        }
    }

    /// The window's size is one that can be drawn, and each device belongs to a seat.
    pub open spec fn wf(self) -> bool {
        &&& self.size.is_drawable()
        &&& self.pointer ==> self.pointer_seat is Some
        &&& self.keyboard ==> self.keyboard_seat is Some
        &&& self.touch ==> self.touch_seat is Some
        &&& self.tablet_seat ==> self.tablet_manager && self.seat is Some
    }

    pub open spec fn draw_requests(self) -> Seq<Request> {
        seq![
            Request::Paint(shape_of(self.size.width, self.size.height)),
            Request::Damage(whole(self.size.width, self.size.height)),
            Request::Attach,
            Request::Commit,
        ]
    }

    /// The client with the size that a configure event leads to.
    pub open spec fn resized(self, suggested: (Option<u32>, Option<u32>)) -> AppState {
        AppState {
            size: SurfaceSize::settled(
                side_or(suggested.0, WINDOW_W),
                side_or(suggested.1, WINDOW_H),
            ),
            ..self
        }
    }

    /// The configure event leads to new contents.
    pub open spec fn redraws(self, suggested: (Option<u32>, Option<u32>)) -> bool {
        self.size.calls_for_redraw(
            side_or(suggested.0, WINDOW_W),
            side_or(suggested.1, WINDOW_H),
        )
    }

    /// The client after a configure event.
    pub open spec fn configured(self, suggested: (Option<u32>, Option<u32>)) -> AppState {
        if self.redraws(suggested) {
            AppState { surface_rendered: true, ..self.resized(suggested) }
        } else {
            self.resized(suggested)
        }
    }

    pub open spec fn configure_requests(self, suggested: (Option<u32>, Option<u32>)) -> Seq<
        Request,
    > {
        if self.redraws(suggested) {
            seq![Request::DropBuffer] + self.resized(suggested).draw_requests()
        } else {
            seq![]
        }
    }

    /// There is a device to be got.
    pub open spec fn has_input(self) -> bool {
        ||| self.pointer_seat is Some
        ||| self.keyboard_seat is Some
        ||| self.touch_seat is Some
        ||| self.tablet_manager && self.seat is Some
    }

    /// What gets every device that there is.
    pub open spec fn device_requests(self) -> Seq<Request> {
        (match self.pointer_seat {
            Some(seat) => seq![Request::GetPointer { seat }],
            None => seq![],
        }) + (match self.keyboard_seat {
            Some(seat) => seq![Request::GetKeyboard { seat }],
            None => seq![],
        }) + (match self.touch_seat {
            Some(seat) => seq![Request::GetTouch { seat }],
            None => seq![],
        }) + (match self.seat {
            Some(seat) if self.tablet_manager => seq![Request::GetTabletSeat { seat }],
            _ => seq![],
        })
    }

    /// The client with every device that there is.
    pub open spec fn equipped(self) -> AppState {
        AppState {
            pointer: self.pointer || self.pointer_seat is Some,
            keyboard: self.keyboard || self.keyboard_seat is Some,
            touch: self.touch || self.touch_seat is Some,
            tablet_seat: self.tablet_seat || self.tablet_manager && self.seat is Some,
            ..self
        }
    }

    /// The client after a seat was announced. Only the first one counts.
    pub open spec fn with_seat(self, seat: u32) -> AppState {
        AppState {
            seat: if self.seat is None {
                Some(seat)
            } else {
                self.seat
            },
            ..self
        }
    }

    /// The seat whose device of this capability is used.
    pub open spec fn seat_of(self, capability: Capability) -> Option<u32> {
        match capability {
            Capability::Pointer => self.pointer_seat,
            Capability::Keyboard => self.keyboard_seat,
            Capability::Touch => self.touch_seat,
        }
    }

    /// A device of this capability is held.
    pub open spec fn holds(self, capability: Capability) -> bool {
        match capability {
            Capability::Pointer => self.pointer,
            Capability::Keyboard => self.keyboard,
            Capability::Touch => self.touch,
        }
    }

    /// The client after a capability was announced. Only the first seat that has it counts.
    pub open spec fn with_capability(self, seat: u32, capability: Capability) -> AppState {
        let seated = self.with_seat(seat);
        if self.seat_of(capability) is Some {
            seated
        } else {
            match capability {
                Capability::Pointer => AppState { pointer_seat: Some(seat), ..seated },
                Capability::Keyboard => AppState { keyboard_seat: Some(seat), ..seated },
                Capability::Touch => AppState { touch_seat: Some(seat), ..seated },
            }
        }
    }

    pub open spec fn capability_requests(self, capability: Capability) -> Seq<Request> {
        if self.seat_of(capability) is Some {
            seq![]
        } else {
            seq![Request::AnnounceDelayed(capability)]
        }
    }

    /// The client without the device of a capability, and without what its events have told.
    pub open spec fn bereft(self, capability: Capability) -> AppState {
        match capability {
            Capability::Pointer => AppState {
                pointer_seat: None,
                pointer: false,
                pointer_entered: false,
                ..self
            },
            Capability::Keyboard => AppState {
                keyboard_seat: None,
                keyboard: false,
                keyboard_entered: false,
                ..self
            },
            Capability::Touch => AppState {
                touch_seat: None,
                touch: false,
                active_touches: Set::empty(),
                ..self
            },
        }
    }

    pub open spec fn release_request(capability: Capability) -> Request {
        match capability {
            Capability::Pointer => Request::ReleasePointer,
            Capability::Keyboard => Request::ReleaseKeyboard,
            Capability::Touch => Request::ReleaseTouch,
        }
    }

    /// The client after a capability was withdrawn. Only the seat whose device is used counts.
    pub open spec fn without_capability(self, seat: u32, capability: Capability) -> AppState {
        if self.seat_of(capability) == Some(seat) {
            self.bereft(capability)
        } else {
            self
        }
    }

    pub open spec fn withdrawal_requests(self, seat: u32, capability: Capability) -> Seq<Request> {
        if self.seat_of(capability) == Some(seat) && self.holds(capability) {
            seq![AppState::release_request(capability)]
        } else {
            seq![]
        }
    }

    /// The client after the tablets of a seat have gone with it.
    pub open spec fn without_tablets(self, seat: u32) -> AppState {
        if self.seat == Some(seat) {
            AppState { seat: None, tablet_seat: false, ..self }
        } else {
            self
        }
    }

    /// The client after a seat was removed, with all that it had.
    pub open spec fn without_seat(self, seat: u32) -> AppState {
        self.without_tablets(seat).without_capability(
            seat,
            Capability::Pointer,
        ).without_capability(seat, Capability::Keyboard).without_capability(
            seat,
            Capability::Touch,
        )
    }

    /// The client after an event of the pointer.
    pub open spec fn pointed(self, event: PointerEvent) -> AppState {
        AppState { pointer_entered: marked(self.pointer_entered, pointer_mark(event)), ..self }
    }

    /// What is out of order about an event of the pointer.
    pub open spec fn pointer_warning(self, event: PointerEvent) -> Option<Warning> {
        if event == PointerEvent::Motion && !self.pointer_entered {
            Some(Warning::MotionWithoutEnter)
        } else {
            None
        }
    }

    /// The client after an event of the keyboard.
    pub open spec fn typed(self, event: KeyboardEvent) -> AppState {
        AppState { keyboard_entered: marked(self.keyboard_entered, keyboard_mark(event)), ..self }
    }

    /// What is out of order about an event of the keyboard.
    pub open spec fn keyboard_warning(self, event: KeyboardEvent) -> Option<Warning> {
        if event == KeyboardEvent::Key && !self.keyboard_entered {
            Some(Warning::KeyWithoutEnter)
        } else {
            None
        }
    }

    /// The client after an event of the touch device.
    pub open spec fn touched(self, event: TouchEvent) -> AppState {
        AppState { active_touches: touches_after(self.active_touches, event), ..self }
    }

    /// The client with its window rendered.
    pub open spec fn rendered(self) -> AppState {
        AppState { surface_rendered: true, ..self }
    }

    /// The client that is to end.
    pub open spec fn ending(self) -> AppState {
        AppState { exit: true, ..self }
    }

    pub open spec fn removal_requests(self, seat: u32) -> Seq<Request> {
        (if self.seat == Some(seat) && self.tablet_seat {
            seq![Request::DestroyTabletSeat]
        } else {
            seq![]
        }) + self.withdrawal_requests(seat, Capability::Pointer) + self.withdrawal_requests(
            seat,
            Capability::Keyboard,
        ) + self.withdrawal_requests(seat, Capability::Touch)
    }
}

impl App {
    pub fn new(tablet_manager: bool) -> (app: App)
        ensures
            app@ == AppState::initial(tablet_manager),
            app@.wf(),
    {
        App {
            exit: false,
            size: SurfaceSize::new(WINDOW_W, WINDOW_H),
            surface_rendered: false,
            seat: None,
            pointer_seat: None,
            keyboard_seat: None,
            touch_seat: None,
            pointer: false,
            keyboard: false,
            touch: false,
            tablet_manager,
            tablet_seat: false,
            pointer_entered: false,
            keyboard_entered: false,
            active_touches: HashSet::new(),
        }
    }

    /// Paints and shows the whole window.
    pub fn draw(&mut self, requests: &mut Vec<Request>)
        requires
            old(self)@.wf(),
        ensures
            final(self)@ == old(self)@.rendered(),
            final(requests)@ == old(requests)@ + old(self)@.draw_requests(),
    {
        requests.push(Request::Paint(buffer_shape(self.size.width, self.size.height)));
        requests.push(Request::Damage(whole_rect(self.size.width, self.size.height)));
        requests.push(Request::Attach);
        requests.push(Request::Commit);
        self.surface_rendered = true;
    }

    /// There is a device to be got.
    pub fn has_input_capability(&self) -> (capable: bool)
        ensures
            capable == self@.has_input(),
    {
        self.pointer_seat.is_some() || self.keyboard_seat.is_some() || self.touch_seat.is_some()
            || (self.tablet_manager && self.seat.is_some())
    }

    /// Gets every device that there is, and says whether there was any.
    pub fn request_devices(&mut self, requests: &mut Vec<Request>) -> (requested: bool)
        requires
            old(self)@.wf(),
        ensures
            final(self)@.wf(),
            final(self)@ == old(self)@.equipped(),
            final(requests)@ == old(requests)@ + old(self)@.device_requests(),
            requested == old(self)@.has_input(),
    {
        let mut requested = false;
        if let Some(seat) = self.pointer_seat {
            requests.push(Request::GetPointer { seat });
            self.pointer = true;
            requested = true;
        }
        if let Some(seat) = self.keyboard_seat {
            requests.push(Request::GetKeyboard { seat });
            self.keyboard = true;
            requested = true;
        }
        if let Some(seat) = self.touch_seat {
            requests.push(Request::GetTouch { seat });
            self.touch = true;
            requested = true;
        }
        if let Some(seat) = self.seat {
            if self.tablet_manager {
                requests.push(Request::GetTabletSeat { seat });
                self.tablet_seat = true;
                requested = true;
            }
        }
        requested
    }

    /// The compositor asks the window to close.
    pub fn request_close(&mut self)
        ensures
            final(self)@ == old(self)@.ending(),
    {
        self.exit = true;
    }

    /// Handles a configure event: the window is drawn again on the first one and on a new size.
    pub fn configure(&mut self, suggested: (Option<u32>, Option<u32>)) -> (requests: Vec<Request>)
        requires
            old(self)@.wf(),
            old(self)@.resized(suggested).size.is_drawable(),
        ensures
            final(self)@.wf(),
            final(self)@ == old(self)@.configured(suggested),
            requests@ == old(self)@.configure_requests(suggested),
    {
        let mut requests: Vec<Request> = Vec::new();
        if self.size.configure(suggested, (WINDOW_W, WINDOW_H)) {
            requests.push(Request::DropBuffer);
            self.draw(&mut requests);
        }
        requests
    }

    /// A seat is announced.
    pub fn new_seat(&mut self, seat: u32)
        requires
            old(self)@.wf(),
        ensures
            final(self)@.wf(),
            final(self)@ == old(self)@.with_seat(seat),
    {
        if self.seat.is_none() {
            self.seat = Some(seat);
        }
    }

    /// A seat announces a capability. Its device is not got yet.
    pub fn new_capability(&mut self, seat: u32, capability: Capability) -> (requests: Vec<Request>)
        requires
            old(self)@.wf(),
        ensures
            final(self)@.wf(),
            final(self)@ == old(self)@.with_capability(seat, capability),
            requests@ == old(self)@.capability_requests(capability),
    {
        let mut requests: Vec<Request> = Vec::new();
        if self.seat.is_none() {
            self.seat = Some(seat);
        }
        match capability {
            Capability::Pointer => {
                if self.pointer_seat.is_none() {
                    requests.push(Request::AnnounceDelayed(capability));
                    self.pointer_seat = Some(seat);
                }
            },
            Capability::Keyboard => {
                if self.keyboard_seat.is_none() {
                    requests.push(Request::AnnounceDelayed(capability));
                    self.keyboard_seat = Some(seat);
                }
            },
            Capability::Touch => {
                if self.touch_seat.is_none() {
                    requests.push(Request::AnnounceDelayed(capability));
                    self.touch_seat = Some(seat);
                }
            },
        }
        requests
    }

    /// Drops the pointer if it is one of this seat's.
    fn drop_pointer(&mut self, seat: u32, requests: &mut Vec<Request>)
        ensures
            final(self)@ == old(self)@.without_capability(seat, Capability::Pointer),
            final(requests)@ == old(requests)@ + old(self)@.withdrawal_requests(
                seat,
                Capability::Pointer,
            ),
    {
        if self.pointer_seat == Some(seat) {
            self.pointer_seat = None;
            if self.pointer {
                self.pointer = false;
                requests.push(Request::ReleasePointer);
            }
            self.pointer_entered = false;
        }
    }

    /// Drops the keyboard if it is one of this seat's.
    fn drop_keyboard(&mut self, seat: u32, requests: &mut Vec<Request>)
        ensures
            final(self)@ == old(self)@.without_capability(seat, Capability::Keyboard),
            final(requests)@ == old(requests)@ + old(self)@.withdrawal_requests(
                seat,
                Capability::Keyboard,
            ),
    {
        if self.keyboard_seat == Some(seat) {
            self.keyboard_seat = None;
            if self.keyboard {
                self.keyboard = false;
                requests.push(Request::ReleaseKeyboard);
            }
            self.keyboard_entered = false;
        }
    }

    /// Drops the touch device if it is one of this seat's.
    fn drop_touch(&mut self, seat: u32, requests: &mut Vec<Request>)
        ensures
            final(self)@ == old(self)@.without_capability(seat, Capability::Touch),
            final(requests)@ == old(requests)@ + old(self)@.withdrawal_requests(
                seat,
                Capability::Touch,
            ),
    {
        if self.touch_seat == Some(seat) {
            self.touch_seat = None;
            if self.touch {
                self.touch = false;
                requests.push(Request::ReleaseTouch);
            }
            self.active_touches.clear();
        }
    }

    /// A seat withdraws a capability.
    pub fn remove_capability(&mut self, seat: u32, capability: Capability) -> (requests: Vec<
        Request,
    >)
        requires
            old(self)@.wf(),
        ensures
            final(self)@.wf(),
            final(self)@ == old(self)@.without_capability(seat, capability),
            requests@ == old(self)@.withdrawal_requests(seat, capability),
    {
        let mut requests: Vec<Request> = Vec::new();
        match capability {
            Capability::Pointer => self.drop_pointer(seat, &mut requests),
            Capability::Keyboard => self.drop_keyboard(seat, &mut requests),
            Capability::Touch => self.drop_touch(seat, &mut requests),
        }
        requests
    }

    /// A seat goes away, with its devices.
    pub fn remove_seat(&mut self, seat: u32) -> (requests: Vec<Request>)
        requires
            old(self)@.wf(),
        ensures
            final(self)@.wf(),
            final(self)@ == old(self)@.without_seat(seat),
            requests@ == old(self)@.removal_requests(seat),
    {
        let mut requests: Vec<Request> = Vec::new();
        if self.seat == Some(seat) {
            self.seat = None;
            if self.tablet_seat {
                self.tablet_seat = false;
                requests.push(Request::DestroyTabletSeat);
            }
        }
        self.drop_pointer(seat, &mut requests);
        self.drop_keyboard(seat, &mut requests);
        self.drop_touch(seat, &mut requests);
        requests
    }

    /// Handles an event of the pointer.
    pub fn pointer_event(&mut self, event: PointerEvent) -> (warning: Option<Warning>)
        ensures
            final(self)@ == old(self)@.pointed(event),
            warning == old(self)@.pointer_warning(event),
    {
        match event {
            PointerEvent::Enter => {
                self.pointer_entered = true;
            },
            PointerEvent::Leave => {
                self.pointer_entered = false;
            },
            PointerEvent::Motion => {
                if !self.pointer_entered {
                    return Some(Warning::MotionWithoutEnter);
                }
            },
            PointerEvent::Other => {},
        }
        None
    }

    /// Handles an event of the keyboard.
    pub fn keyboard_event(&mut self, event: KeyboardEvent) -> (warning: Option<Warning>)
        ensures
            final(self)@ == old(self)@.typed(event),
            warning == old(self)@.keyboard_warning(event),
    {
        match event {
            KeyboardEvent::Enter => {
                self.keyboard_entered = true;
            },
            KeyboardEvent::Leave => {
                self.keyboard_entered = false;
            },
            KeyboardEvent::Key => {
                if !self.keyboard_entered {
                    return Some(Warning::KeyWithoutEnter);
                }
            },
            KeyboardEvent::Other => {},
        }
        None
    }

    /// Handles an event of the touch device.
    pub fn touch_event(&mut self, event: TouchEvent) -> (warning: Option<Warning>)
        ensures
            final(self)@ == old(self)@.touched(event),
            warning == touch_warning(old(self)@.active_touches, event),
    {
        match event {
            TouchEvent::Down { id } => {
                if !self.active_touches.insert(id) {
                    return Some(Warning::DuplicateTouchDown { id });
                }
            },
            TouchEvent::Action { action: TouchAction::Up, id } => {
                if !self.active_touches.remove(&id) {
                    return Some(Warning::TouchWithoutDown { action: TouchAction::Up, id });
                }
            },
            TouchEvent::Action { action, id } => {
                if !self.active_touches.contains(&id) {
                    return Some(Warning::TouchWithoutDown { action, id });
                }
            },
            TouchEvent::Cancel => {
                self.active_touches.clear();
            },
            TouchEvent::Other => {},
        }
        None
    }
}

/// When the devices are to be got. Times are in nanoseconds.
#[derive(Clone, Copy, Debug, PartialEq, Eq, Structural)]
pub struct DeviceSchedule {
    /// When the delay ends, while it runs.
    pub deadline: Option<u64>,
    /// Devices have been got.
    pub requested: bool,
}

impl DeviceSchedule {
    pub open spec fn initial() -> DeviceSchedule {
        DeviceSchedule { deadline: None, requested: false }
    }

    /// The delay begins: the window is rendered, there is a device to be got, none has been, and no
    /// delay is running.
    pub open spec fn arms(self, app: AppState) -> bool {
        !self.requested && self.deadline is None && app.surface_rendered && app.has_input()
    }

    /// The delay has ended at `now`.
    pub open spec fn due(self, now: u64) -> bool {
        self.deadline is Some && now >= self.deadline->0
    }

    /// The schedule after the client was looked at.
    pub open spec fn armed(self, app: AppState, now: u64) -> DeviceSchedule {
        if self.arms(app) {
            DeviceSchedule { deadline: Some((now + DEVICE_DELAY) as u64), ..self }
        } else {
            self
        }
    }

    /// The schedule after the time was looked at.
    pub open spec fn fired(self, app: AppState, now: u64) -> DeviceSchedule {
        if self.due(now) {
            DeviceSchedule { deadline: None, requested: app.has_input() }
        } else {
            self
        }
    }

    /// The time until the delay ends, while it runs.
    pub open spec fn remaining(self, now: u64) -> Option<u64> {
        match self.deadline {
            Some(deadline) => Some(
                if now < deadline {
                    (deadline - now) as u64
                } else {
                    0
                },
            ),
            None => None,
        }
    }

    /// The client after the time was looked at.
    pub open spec fn served(self, app: AppState, now: u64) -> AppState {
        if self.due(now) {
            app.equipped()
        } else {
            app
        }
    }

    pub open spec fn fire_requests(self, app: AppState, now: u64) -> Seq<Request> {
        if self.due(now) {
            app.device_requests()
        } else {
            seq![]
        }
    }

    pub fn new() -> (schedule: DeviceSchedule)
        ensures
            schedule == DeviceSchedule::initial(),
    {
        DeviceSchedule { deadline: None, requested: false }
    }

    /// How long the client may wait for events.
    pub fn timeout(&self, now: u64) -> (timeout: Option<u64>)
        ensures
            timeout == self.remaining(now),
    {
        match self.deadline {
            Some(deadline) => Some(deadline.saturating_sub(now)),
            None => None,
        }
    }

    /// Begins the delay where it is time for that, and says whether it did.
    pub fn arm(&mut self, app: &App, now: u64) -> (begun: bool)
        requires
            old(self).arms(app@) ==> now + DEVICE_DELAY <= u64::MAX,
        ensures
            *final(self) == old(self).armed(app@, now),
            begun == old(self).arms(app@),
    {
        if !self.requested && self.deadline.is_none() && app.surface_rendered
            && app.has_input_capability() {
            self.deadline = Some(now + DEVICE_DELAY);
            true
        } else {
            false
        }
    }

    /// Gets the devices if the delay has ended.
    pub fn fire(&mut self, app: &mut App, now: u64) -> (requests: Vec<Request>)
        requires
            old(app)@.wf(),
        ensures
            final(app)@.wf(),
            *final(self) == old(self).fired(old(app)@, now),
            final(app)@ == old(self).served(old(app)@, now),
            requests@ == old(self).fire_requests(old(app)@, now),
    {
        let mut requests: Vec<Request> = Vec::new();
        if let Some(deadline) = self.deadline {
            if now >= deadline {
                self.deadline = None;
                self.requested = app.request_devices(&mut requests);
            }
        }
        requests
    }
}

/// The delay begins only with a rendered window and a device to be got, and lasts for exactly its
/// time: before it ends nothing is got, and then everything is.
pub proof fn law_devices_come_after_the_delay(
    schedule: DeviceSchedule,
    app: AppState,
    start: u64,
    now: u64,
)
    requires
        schedule.arms(app),
        start + DEVICE_DELAY <= u64::MAX,
    ensures
        app.surface_rendered,
        app.has_input(),
        schedule.armed(app, start).due(now) <==> now >= start + DEVICE_DELAY,
{
}

/// Devices are got at most once: afterwards no delay begins again.
pub proof fn law_devices_are_requested_once(
    schedule: DeviceSchedule,
    app: AppState,
    later: AppState,
    now: u64,
)
    requires
        schedule.due(now),
        app.has_input(),
    ensures
        schedule.fired(app, now).requested,
        !schedule.fired(app, now).arms(later),
        schedule.fired(app, now).deadline is None,
{
}

/// Where the last device went away during the delay, the delay can begin again.
pub proof fn law_lost_devices_are_awaited_again(
    schedule: DeviceSchedule,
    app: AppState,
    later: AppState,
    now: u64,
)
    requires
        schedule.due(now),
        !app.has_input(),
        later.surface_rendered,
        later.has_input(),
    ensures
        schedule.fired(app, now).arms(later),
        app.device_requests() =~= seq![],
        app.equipped() == app,
{
}

/// Devices are got exactly when there is one to be got.
pub proof fn law_input_means_devices(app: AppState)
    ensures
        app.has_input() <==> app.device_requests().len() > 0,
{
}

/// Nothing of a removed seat is left.
pub proof fn law_removed_seats_are_forgotten(app: AppState, seat: u32, capability: Capability)
    requires
        app.wf(),
    ensures
        app.without_seat(seat).seat != Some(seat),
        app.without_seat(seat).seat_of(capability) != Some(seat),
        app.seat_of(capability) == Some(seat) ==> !app.without_seat(seat).holds(capability),
        app.seat_of(capability) != Some(seat) ==> app.without_seat(seat).seat_of(capability)
            == app.seat_of(capability) && app.without_seat(seat).holds(capability) == app.holds(
            capability,
        ),
        app.without_seat(seat).without_seat(seat) == app.without_seat(seat),
{
}

/// A removed seat gives back the devices that were got from it, and no others.
pub proof fn law_removal_releases_what_was_got(app: AppState, seat: u32)
    ensures
        app.removal_requests(seat).contains(Request::ReleasePointer) <==> app.pointer_seat == Some(
            seat,
        ) && app.pointer,
        app.removal_requests(seat).contains(Request::ReleaseKeyboard) <==> app.keyboard_seat
            == Some(seat) && app.keyboard,
        app.removal_requests(seat).contains(Request::ReleaseTouch) <==> app.touch_seat == Some(seat)
            && app.touch,
        app.removal_requests(seat).contains(Request::DestroyTabletSeat) <==> app.seat == Some(seat)
            && app.tablet_seat,
{
    let tablets: Seq<Request> = if app.seat == Some(seat) && app.tablet_seat {
        seq![Request::DestroyTabletSeat]
    } else {
        seq![]
    };
    let pointer = app.withdrawal_requests(seat, Capability::Pointer);
    let keyboard = app.withdrawal_requests(seat, Capability::Keyboard);
    let touch = app.withdrawal_requests(seat, Capability::Touch);
    let all = app.removal_requests(seat);
    if tablets.len() > 0 {
        assert(all[0] == Request::DestroyTabletSeat);
    }
    if pointer.len() > 0 {
        assert(all[tablets.len() as int] == Request::ReleasePointer);
    }
    if keyboard.len() > 0 {
        assert(all[(tablets.len() + pointer.len()) as int] == Request::ReleaseKeyboard);
    }
    if touch.len() > 0 {
        assert(all.last() == Request::ReleaseTouch);
    }
}

/// A capability that comes and goes leaves the client as it was, but for the first seat.
pub proof fn law_withdrawal_undoes_announcement(app: AppState, seat: u32, capability: Capability)
    requires
        app.wf(),
        app.seat_of(capability) is None,
        !app.pointer_entered,
        !app.keyboard_entered,
        app.active_touches == Set::<i32>::empty(),
    ensures
        app.with_capability(seat, capability).without_capability(seat, capability)
            == app.with_seat(seat),
{
}

/// The device comes with event `i` and does not go after it.
pub open spec fn comes_for_good(marks: Seq<Option<bool>>, i: int) -> bool {
    &&& 0 <= i < marks.len()
    &&& marks[i] == Some(true)
    &&& forall|j: int| i < j < marks.len() ==> #[trigger] marks[j] != Some(false)
}

/// A pointer, a keyboard, a tablet pad or a tablet tool counts as present exactly if it came at
/// some time and has not gone since. So does a tool as down.
pub proof fn law_present_since_coming(marks: Seq<Option<bool>>)
    ensures
        marked_all(marks) <==> exists|i: int| #[trigger] comes_for_good(marks, i),
    decreases marks.len(),
{
    if marks.len() > 0 {
        let before = marks.drop_last();
        let last = marks.len() - 1;
        law_present_since_coming(before);
        if marked_all(marks) {
            if marks[last] == Some(true) {
                assert(comes_for_good(marks, last));
            } else {
                let i = choose|i: int| #[trigger] comes_for_good(before, i);
                assert forall|j: int| i < j < marks.len() implies #[trigger] marks[j] != Some(
                    false,
                ) by {
                    if j < last {
                        assert(before[j] != Some(false));
                    }
                }
                assert(comes_for_good(marks, i));
            }
        }
        if exists|i: int| #[trigger] comes_for_good(marks, i) {
            let i = choose|i: int| #[trigger] comes_for_good(marks, i);
            if i < last {
                assert(marks[last] != Some(false));
                assert forall|j: int| i < j < before.len() implies #[trigger] before[j] != Some(
                    false,
                ) by {
                    assert(marks[j] != Some(false));
                }
                assert(comes_for_good(before, i));
            }
        }
    }
}

/// What is known of a fresh tool after a sequence of events is what their marks tell.
pub proof fn law_tools_follow_their_marks(events: Seq<ToolEvent>)
    ensures
        TabletToolData::initial().after_all(events).in_proximity == marked_all(
            events.map_values(|event: ToolEvent| proximity_mark(event)),
        ),
        TabletToolData::initial().after_all(events).down == marked_all(
            events.map_values(|event: ToolEvent| contact_mark(event)),
        ),
    decreases events.len(),
{
    if events.len() > 0 {
        let before = events.drop_last();
        law_tools_follow_their_marks(before);
        assert(events.map_values(|event: ToolEvent| proximity_mark(event)).drop_last()
            =~= before.map_values(|event: ToolEvent| proximity_mark(event)));
        assert(events.map_values(|event: ToolEvent| contact_mark(event)).drop_last()
            =~= before.map_values(|event: ToolEvent| contact_mark(event)));
    }
}

/// The event ends a contact.
pub open spec fn ends_contact(event: TouchEvent, id: i32) -> bool {
    event == TouchEvent::Cancel || event == (TouchEvent::Action { action: TouchAction::Up, id })
}

/// The contact comes down with event `i` and is not ended after it.
pub open spec fn down_for_good(events: Seq<TouchEvent>, id: i32, i: int) -> bool {
    &&& 0 <= i < events.len()
    &&& events[i] == (TouchEvent::Down { id })
    &&& forall|j: int| i < j < events.len() ==> !ends_contact(#[trigger] events[j], id)
}

/// A contact counts as down exactly if it came down at some time and has not ended since.
pub proof fn law_contacts_since_down(events: Seq<TouchEvent>, id: i32)
    ensures
        touches_after_all(Set::empty(), events).contains(id) <==> exists|i: int|
            #[trigger] down_for_good(events, id, i),
    decreases events.len(),
{
    if events.len() > 0 {
        let before = events.drop_last();
        let last = events.len() - 1;
        law_contacts_since_down(before, id);
        if touches_after_all(Set::empty(), events).contains(id) {
            if events[last] == (TouchEvent::Down { id }) {
                assert(down_for_good(events, id, last));
            } else {
                let i = choose|i: int| #[trigger] down_for_good(before, id, i);
                assert forall|j: int| i < j < events.len() implies !ends_contact(
                    #[trigger] events[j],
                    id,
                ) by {
                    if j < last {
                        assert(!ends_contact(before[j], id));
                    }
                }
                assert(down_for_good(events, id, i));
            }
        }
        if exists|i: int| #[trigger] down_for_good(events, id, i) {
            let i = choose|i: int| #[trigger] down_for_good(events, id, i);
            if i < last {
                assert(!ends_contact(events[last], id));
                assert forall|j: int| i < j < before.len() implies !ends_contact(
                    #[trigger] before[j],
                    id,
                ) by {
                    assert(!ends_contact(events[j], id));
                }
                assert(down_for_good(before, id, i));
            }
        }
    }
}

/// Contact `id` is down before event `n`: it came down and has not ended since.
pub open spec fn touching(events: Seq<TouchEvent>, id: i32, n: int) -> bool {
    exists|i: int| #[trigger] down_for_good(events.take(n), id, i)
}

/// A sequence of touch events gives a warning exactly where a contact comes down that is down, or
/// acts without being down.
pub proof fn law_touch_warnings(events: Seq<TouchEvent>, n: int)
    requires
        0 <= n < events.len(),
    ensures
        touch_warning(touches_after_all(Set::empty(), events.take(n)), events[n]) is None <==> (
        match events[n] {
            TouchEvent::Down { id } => !touching(events, id, n),
            TouchEvent::Action { action: _, id } => touching(events, id, n),
            _ => true,
        }),
{
    match events[n] {
        TouchEvent::Down { id } => law_contacts_since_down(events.take(n), id),
        TouchEvent::Action { action: _, id } => law_contacts_since_down(events.take(n), id),
        _ => {},
    }
}

/// A contact that comes down and goes up leaves the others as they were.
pub proof fn law_contacts_come_and_go(touches: Set<i32>, id: i32)
    requires
        !touches.contains(id),
    ensures
        touches_after(
            touches_after(touches, TouchEvent::Down { id }),
            TouchEvent::Action { action: TouchAction::Up, id },
        ) =~= touches,
{
}

/// The tool came near with event `i`, and has not gone away before event `n`.
pub open spec fn near_since(events: Seq<ToolEvent>, n: int, i: int) -> bool {
    &&& 0 <= i < n
    &&& events[i] == ToolEvent::ProximityIn
    &&& forall|j: int| i < j < n ==> #[trigger] events[j] != ToolEvent::ProximityOut
}

/// The tool is near before event `n`.
pub open spec fn near(events: Seq<ToolEvent>, n: int) -> bool {
    exists|i: int| #[trigger] near_since(events, n, i)
}

/// The tool came down with event `i`, and has neither gone up nor away before event `n`.
pub open spec fn tool_down_since(events: Seq<ToolEvent>, n: int, i: int) -> bool {
    &&& 0 <= i < n
    &&& events[i] == ToolEvent::Action(ToolAction::Down)
    &&& forall|j: int|
        i < j < n ==> #[trigger] events[j] != ToolEvent::Action(ToolAction::Up) && events[j]
            != ToolEvent::ProximityOut
}

/// The tool is down before event `n`.
pub open spec fn tool_down(events: Seq<ToolEvent>, n: int) -> bool {
    exists|i: int| #[trigger] tool_down_since(events, n, i)
}

/// Event `n` is in order: a tool comes near once before it goes away, comes down once before it
/// goes up, acts while it is near, goes away when it is up, and is removed when it is away.
pub open spec fn in_order(events: Seq<ToolEvent>, n: int) -> bool {
    match events[n] {
        ToolEvent::ProximityIn => !near(events, n),
        ToolEvent::ProximityOut => near(events, n) && !tool_down(events, n),
        ToolEvent::Action(ToolAction::Down) => near(events, n) && !tool_down(events, n),
        ToolEvent::Action(ToolAction::Up) => near(events, n) && tool_down(events, n),
        ToolEvent::Action(_) => near(events, n),
        ToolEvent::Removed => !near(events, n) && !tool_down(events, n),
        ToolEvent::Other => true,
    }
}

/// A tool is used as the protocol prescribes: in any number of sessions, each with any number of
/// contacts.
pub open spec fn proper_use(events: Seq<ToolEvent>) -> bool {
    forall|n: int| 0 <= n < events.len() ==> #[trigger] in_order(events, n)
}

/// What is known of a fresh tool after its first `n` events is where those have left it.
proof fn lemma_tool_after(events: Seq<ToolEvent>, n: int)
    requires
        0 <= n <= events.len(),
    ensures
        TabletToolData::initial().after_all(events.take(n)).in_proximity == near(events, n),
        TabletToolData::initial().after_all(events.take(n)).down == tool_down(events, n),
{
    let past = events.take(n);
    let proximity = past.map_values(|event: ToolEvent| proximity_mark(event));
    let contact = past.map_values(|event: ToolEvent| contact_mark(event));
    law_tools_follow_their_marks(past);
    law_present_since_coming(proximity);
    law_present_since_coming(contact);
    assert forall|i: int| #[trigger] comes_for_good(proximity, i) implies near_since(
        events,
        n,
        i,
    ) by {
        assert forall|j: int| i < j < n implies #[trigger] events[j]
            != ToolEvent::ProximityOut by {
            assert(proximity[j] != Some(false));
        }
    }
    assert forall|i: int| #[trigger] near_since(events, n, i) implies comes_for_good(
        proximity,
        i,
    ) by {
        assert forall|j: int| i < j < n implies #[trigger] proximity[j] != Some(false) by {
            assert(events[j] != ToolEvent::ProximityOut);
        }
    }
    assert forall|i: int| #[trigger] comes_for_good(contact, i) implies tool_down_since(
        events,
        n,
        i,
    ) by {
        assert forall|j: int| i < j < n implies #[trigger] events[j] != ToolEvent::Action(
            ToolAction::Up,
        ) && events[j] != ToolEvent::ProximityOut by {
            assert(contact[j] != Some(false));
        }
    }
    assert forall|i: int| #[trigger] tool_down_since(events, n, i) implies comes_for_good(
        contact,
        i,
    ) by {
        assert forall|j: int| i < j < n implies #[trigger] contact[j] != Some(false) by {
            assert(events[j] != ToolEvent::Action(ToolAction::Up) && events[j]
                != ToolEvent::ProximityOut);
        }
    }
    if near(events, n) {
        let i = choose|i: int| #[trigger] near_since(events, n, i);
        assert(comes_for_good(proximity, i));
    }
    if tool_down(events, n) {
        let i = choose|i: int| #[trigger] tool_down_since(events, n, i);
        assert(comes_for_good(contact, i));
    }
}

/// An event gives no warning exactly if it is in order.
pub proof fn law_events_in_order_are_silent(events: Seq<ToolEvent>, n: int)
    requires
        0 <= n < events.len(),
    ensures
        TabletToolData::initial().after_all(events.take(n)).warnings(events[n]).len() == 0
            <==> in_order(events, n),
{
    lemma_tool_after(events, n);
}

/// The first `n` events give no warning exactly if they are in order.
proof fn lemma_warnings_up_to(events: Seq<ToolEvent>, n: int)
    requires
        0 <= n <= events.len(),
    ensures
        TabletToolData::initial().all_warnings(events.take(n)).len() == 0 <==> forall|i: int|
            0 <= i < n ==> #[trigger] in_order(events, i),
    decreases n,
{
    if n > 0 {
        lemma_warnings_up_to(events, n - 1);
        law_events_in_order_are_silent(events, n - 1);
        assert(events.take(n).drop_last() =~= events.take(n - 1));
        assert(events.take(n).last() == events[n - 1]);
        if forall|i: int| 0 <= i < n - 1 ==> #[trigger] in_order(events, i) {
            if in_order(events, n - 1) {
                assert forall|i: int| 0 <= i < n implies #[trigger] in_order(events, i) by {}
            }
        }
    }
}

/// A tool gives no warning exactly if it is used properly, in any number of sessions and contacts,
/// and whatever other events come between.
pub proof fn law_proper_tool_use_is_silent(events: Seq<ToolEvent>)
    ensures
        TabletToolData::initial().all_warnings(events) == Seq::<Warning>::empty()
            <==> proper_use(events),
{
    lemma_warnings_up_to(events, events.len() as int);
    assert(events.take(events.len() as int) =~= events);
    if TabletToolData::initial().all_warnings(events).len() == 0 {
        assert(TabletToolData::initial().all_warnings(events) =~= Seq::<Warning>::empty());
    }
}

/// A tool that has gone away is as good as a fresh one, and can be removed without a warning.
pub proof fn law_each_session_starts_afresh(tool: TabletToolData)
    ensures
        tool.after(ToolEvent::ProximityOut) == TabletToolData::initial(),
        TabletToolData::initial().warnings(ToolEvent::Removed) =~= seq![],
{
}

/// Everything but coming near, going away and being removed gives a warning out of proximity.
pub proof fn law_tools_act_in_proximity(tool: TabletToolData, action: ToolAction)
    ensures
        tool.warnings(ToolEvent::Action(action)).contains(Warning::ToolOutOfProximity(action))
            <==> !tool.in_proximity,
{
    if !tool.in_proximity {
        assert(tool.warnings(ToolEvent::Action(action))[0] == Warning::ToolOutOfProximity(action));
    }
}

/// Every device is got from the seat that it belongs to: the pointer, the keyboard and the touch
/// device from the first seat that has one, and the tablets from the first seat, if the compositor
/// offers any. Each is got once, and nothing else is asked for.
#[verifier::spinoff_prover]
pub proof fn law_devices_are_got_from_their_seats(app: AppState, seat: u32)
    ensures
        ({
            let requests = app.device_requests();
            &&& requests.contains(Request::GetPointer { seat }) <==> app.pointer_seat == Some(seat)
            &&& requests.contains(Request::GetKeyboard { seat }) <==> app.keyboard_seat == Some(
                seat,
            )
            &&& requests.contains(Request::GetTouch { seat }) <==> app.touch_seat == Some(seat)
            &&& requests.contains(Request::GetTabletSeat { seat }) <==> app.tablet_manager
                && app.seat == Some(seat)
            &&& requests.len() <= 4
            &&& requests.no_duplicates()
            &&& forall|i: int|
                0 <= i < requests.len() ==> (#[trigger] requests[i] is GetPointer) || requests[i]
                    is GetKeyboard || requests[i] is GetTouch || requests[i] is GetTabletSeat
        }),
{
    let requests = app.device_requests();
    let p: int = if app.pointer_seat is Some {
        1
    } else {
        0
    };
    let k: int = if app.keyboard_seat is Some {
        1
    } else {
        0
    };
    let t: int = if app.touch_seat is Some {
        1
    } else {
        0
    };
    if app.pointer_seat is Some {
        assert(requests[0] == Request::GetPointer { seat: app.pointer_seat->0 });
    }
    if app.keyboard_seat is Some {
        assert(requests[p] == Request::GetKeyboard { seat: app.keyboard_seat->0 });
    }
    if app.touch_seat is Some {
        assert(requests[p + k] == Request::GetTouch { seat: app.touch_seat->0 });
    }
    if app.tablet_manager && app.seat is Some {
        assert(requests[p + k + t] == Request::GetTabletSeat { seat: app.seat->0 });
    }
}

/// The delay that has ended gets the devices, and until then nothing is got. Whatever is got is
/// held afterwards, and the rest of the client stays as it is.
pub proof fn law_devices_are_held_once_got(
    schedule: DeviceSchedule,
    app: AppState,
    now: u64,
    capability: Capability,
)
    ensures
        ({
            let after = schedule.served(app, now);
            let requests = schedule.fire_requests(app, now);
            &&& requests.len() > 0 ==> schedule.due(now)
            &&& schedule.due(now) ==> requests == app.device_requests()
            &&& !schedule.due(now) ==> after == app && schedule.fired(app, now) == schedule
            &&& schedule.due(now) ==> {
                &&& after.holds(capability) <==> app.holds(capability) || app.seat_of(
                    capability,
                ) is Some
                &&& after.tablet_seat <==> app.tablet_seat || app.tablet_manager && app.seat is Some
                &&& schedule.fired(app, now).deadline is None
                &&& schedule.fired(app, now).requested <==> requests.len() > 0
            }
            &&& after.seat_of(capability) == app.seat_of(capability)
            &&& after.seat == app.seat
            &&& after.size == app.size
            &&& after.surface_rendered == app.surface_rendered
            &&& after.exit == app.exit
            &&& after.active_touches == app.active_touches
            &&& after.pointer_entered == app.pointer_entered
            &&& after.keyboard_entered == app.keyboard_entered
        }),
{
    law_input_means_devices(app);
}

/// The delay begins as soon as the window is rendered and some device can be got, and not before;
/// it takes one second, does not begin again while it runs, and never begins again once devices
/// were got.
pub proof fn law_delay_begins_once(
    schedule: DeviceSchedule,
    app: AppState,
    later: AppState,
    now: u64,
)
    requires
        now + DEVICE_DELAY <= u64::MAX,
    ensures
        DeviceSchedule::initial().arms(app) <==> app.surface_rendered
            && app.device_requests().len() > 0,
        schedule.arms(app) ==> app.surface_rendered && app.device_requests().len() > 0,
        schedule.arms(app) <==> schedule.armed(app, now) != schedule,
        schedule.arms(app) ==> schedule.armed(app, now).deadline == Some(
            (now + 1_000_000_000) as u64,
        ),
        schedule.requested ==> !schedule.arms(app),
        schedule.deadline is Some ==> !schedule.arms(app),
        !schedule.armed(app, now).arms(app),
        schedule.armed(app, now).requested == schedule.requested,
{
    law_input_means_devices(app);
}

/// A client that waits as long as it may wakes up when the delay has ended, and at no time before;
/// without a delay it may wait for ever.
pub proof fn law_waiting_ends_with_the_delay(schedule: DeviceSchedule, now: u64, wait: u64)
    ensures
        schedule.remaining(now) is None <==> schedule.deadline is None,
        schedule.remaining(now) matches Some(time) ==> {
            &&& now + time <= u64::MAX ==> schedule.due((now + time) as u64)
            &&& wait < time ==> !schedule.due((now + wait) as u64)
            &&& schedule.due(now) <==> time == 0
        },
{
}

/// The first seat that is announced counts, and so does the first seat with a capability; a later
/// one changes neither. An announcement is told exactly if it is such a first one, and no device is
/// got by it.
pub proof fn law_first_seats_count(
    app: AppState,
    seat: u32,
    capability: Capability,
    other: Capability,
)
    ensures
        ({
            let after = app.with_capability(seat, capability);
            &&& app.seat_of(capability) is None ==> after.seat_of(capability) == Some(seat)
            &&& app.seat_of(capability) is Some ==> after.seat_of(capability) == app.seat_of(
                capability,
            )
            &&& other != capability ==> after.seat_of(other) == app.seat_of(other)
            &&& after.holds(other) == app.holds(other)
            &&& after.tablet_seat == app.tablet_seat
            &&& after.seat == app.with_seat(seat).seat
            &&& app.capability_requests(capability).len() > 0 <==> app.seat_of(capability) is None
            &&& app.seat_of(capability) is None ==> app.capability_requests(capability)[0]
                == Request::AnnounceDelayed(capability)
            &&& app.capability_requests(capability).len() <= 1
        }),
        app.seat is None ==> app.with_seat(seat).seat == Some(seat),
        app.seat is Some ==> app.with_seat(seat) == app,
        app.with_seat(seat) == (AppState { seat: app.with_seat(seat).seat, ..app }),
{
}

/// A capability that is withdrawn by the seat it is used from takes its device with it, and what
/// the device's events have told; the device is released if it was held. Another seat's withdrawal,
/// and the other capabilities, have no part in that.
pub proof fn law_withdrawn_devices_are_released(
    app: AppState,
    seat: u32,
    capability: Capability,
    other: Capability,
)
    ensures
        ({
            let after = app.without_capability(seat, capability);
            let requests = app.withdrawal_requests(seat, capability);
            let used = app.seat_of(capability) == Some(seat);
            &&& !used ==> after == app && requests.len() == 0
            &&& used ==> {
                &&& after.seat_of(capability) is None
                &&& !after.holds(capability)
                &&& capability == Capability::Pointer ==> !after.pointer_entered
                &&& capability == Capability::Keyboard ==> !after.keyboard_entered
                &&& capability == Capability::Touch ==> after.active_touches
                    == Set::<i32>::empty()
            }
            &&& capability != Capability::Pointer ==> after.pointer_entered == app.pointer_entered
            &&& capability != Capability::Keyboard ==> after.keyboard_entered
                == app.keyboard_entered
            &&& capability != Capability::Touch ==> after.active_touches == app.active_touches
            &&& other != capability ==> after.seat_of(other) == app.seat_of(other) && after.holds(
                other,
            ) == app.holds(other)
            &&& after.seat == app.seat
            &&& after.tablet_seat == app.tablet_seat
            &&& requests.contains(Request::ReleasePointer) <==> used && app.pointer && capability
                == Capability::Pointer
            &&& requests.contains(Request::ReleaseKeyboard) <==> used && app.keyboard && capability
                == Capability::Keyboard
            &&& requests.contains(Request::ReleaseTouch) <==> used && app.touch && capability
                == Capability::Touch
            &&& requests.len() <= 1
        }),
{
    let requests = app.withdrawal_requests(seat, capability);
    if requests.len() > 0 {
        assert(requests[0] == AppState::release_request(capability));
    }
}

/// Motion of the pointer is in order exactly between an enter and the next leave, and nothing else
/// of the pointer is ever out of order; other events do not matter, and a fresh pointer has not
/// entered.
pub proof fn law_motion_needs_an_enter(app: AppState, event: PointerEvent, tablet_manager: bool)
    ensures
        app.pointed(PointerEvent::Enter).pointer_warning(PointerEvent::Motion) is None,
        app.pointed(PointerEvent::Leave).pointer_warning(PointerEvent::Motion) == Some(
            Warning::MotionWithoutEnter,
        ),
        event != PointerEvent::Enter && event != PointerEvent::Leave ==> app.pointed(event) == app,
        event != PointerEvent::Motion ==> app.pointer_warning(event) is None,
        AppState::initial(tablet_manager).pointer_warning(PointerEvent::Motion) is Some,
        app.pointed(event) == (AppState {
            pointer_entered: app.pointed(event).pointer_entered,
            ..app
        }),
{
}

/// A key is in order exactly between an enter and the next leave of the keyboard, and nothing else
/// of the keyboard is ever out of order; other events do not matter, and a fresh keyboard has not
/// entered.
pub proof fn law_keys_need_an_enter(app: AppState, event: KeyboardEvent, tablet_manager: bool)
    ensures
        app.typed(KeyboardEvent::Enter).keyboard_warning(KeyboardEvent::Key) is None,
        app.typed(KeyboardEvent::Leave).keyboard_warning(KeyboardEvent::Key) == Some(
            Warning::KeyWithoutEnter,
        ),
        event != KeyboardEvent::Enter && event != KeyboardEvent::Leave ==> app.typed(event) == app,
        event != KeyboardEvent::Key ==> app.keyboard_warning(event) is None,
        AppState::initial(tablet_manager).keyboard_warning(KeyboardEvent::Key) is Some,
        app.typed(event) == (AppState {
            keyboard_entered: app.typed(event).keyboard_entered,
            ..app
        }),
{
}

/// A button of a tablet pad is in order exactly between an enter and the next leave or removal, and
/// nothing else of the pad is ever out of order.
pub proof fn law_pad_buttons_need_an_enter(pad: TabletPadData, event: PadEvent)
    ensures
        pad.after(PadEvent::Enter).warning(PadEvent::Button) is None,
        pad.after(PadEvent::Leave).warning(PadEvent::Button) == Some(
            Warning::PadButtonWithoutEnter,
        ),
        pad.after(PadEvent::Removed).warning(PadEvent::Button) == Some(
            Warning::PadButtonWithoutEnter,
        ),
        pad.after(PadEvent::Button) == pad,
        pad.after(PadEvent::Other) == pad,
        event != PadEvent::Button ==> pad.warning(event) is None,
{
}

/// A warning about a contact names the contact and what it did: that it came down while it was
/// down, or acted while it was not. The contacts are all that a touch event changes.
pub proof fn law_touch_warnings_name_the_contact(app: AppState, event: TouchEvent, id: i32)
    ensures
        ({
            let before = app.active_touches;
            let warning = touch_warning(before, event);
            &&& warning == Some(Warning::DuplicateTouchDown { id }) <==> event == (
            TouchEvent::Down { id }) && before.contains(id)
            &&& forall|action: TouchAction|
                warning == Some(Warning::TouchWithoutDown { action, id }) <==> event == (
                #[trigger] touch_action(action, id)) && !before.contains(id)
            &&& warning matches Some(w) ==> (w is DuplicateTouchDown || w is TouchWithoutDown)
            &&& app.touched(event) == AppState {
                active_touches: app.touched(event).active_touches,
                ..app
            }
        }),
{
}

/// The event of a contact that acts.
pub open spec fn touch_action(action: TouchAction, id: i32) -> TouchEvent {
    TouchEvent::Action { action, id }
}

/// Each warning about a tool names its fault: it is given exactly for the event that has it, at a
/// tool that is in the state for it.
#[verifier::spinoff_prover]
pub proof fn law_tool_warnings_name_the_fault(
    tool: TabletToolData,
    event: ToolEvent,
    action: ToolAction,
)
    ensures
        ({
            let warnings = tool.warnings(event);
            &&& warnings.contains(Warning::DuplicateProximityIn) <==> event
                == ToolEvent::ProximityIn && tool.in_proximity
            &&& warnings.contains(Warning::ProximityOutWithoutIn) <==> event
                == ToolEvent::ProximityOut && !tool.in_proximity
            &&& warnings.contains(Warning::ProximityOutWithoutUp) <==> event
                == ToolEvent::ProximityOut && tool.down
            &&& warnings.contains(Warning::ToolOutOfProximity(action)) <==> event
                == ToolEvent::Action(action) && !tool.in_proximity
            &&& warnings.contains(Warning::DuplicateToolDown) <==> event == ToolEvent::Action(
                ToolAction::Down,
            ) && tool.down
            &&& warnings.contains(Warning::ToolUpWithoutDown) <==> event == ToolEvent::Action(
                ToolAction::Up,
            ) && !tool.down
            &&& warnings.contains(Warning::ToolRemovedInProximity) <==> event == ToolEvent::Removed
                && tool.in_proximity
            &&& warnings.contains(Warning::ToolRemovedWhileDown) <==> event == ToolEvent::Removed
                && tool.down
            &&& warnings.len() <= 2
            &&& warnings.no_duplicates()
        }),
{
    let warnings = tool.warnings(event);
    match event {
        ToolEvent::ProximityIn => {
            if tool.in_proximity {
                assert(warnings[0] == Warning::DuplicateProximityIn);
            }
        },
        ToolEvent::ProximityOut => {
            if !tool.in_proximity {
                assert(warnings[0] == Warning::ProximityOutWithoutIn);
            }
            if tool.down {
                assert(warnings[warnings.len() - 1] == Warning::ProximityOutWithoutUp);
            }
        },
        ToolEvent::Action(done) => {
            if !tool.in_proximity {
                assert(warnings[0] == Warning::ToolOutOfProximity(done));
            }
            if done == ToolAction::Down && tool.down {
                assert(warnings[warnings.len() - 1] == Warning::DuplicateToolDown);
            }
            if done == ToolAction::Up && !tool.down {
                assert(warnings[warnings.len() - 1] == Warning::ToolUpWithoutDown);
            }
        },
        ToolEvent::Removed => {
            if tool.in_proximity {
                assert(warnings[0] == Warning::ToolRemovedInProximity);
            }
            if tool.down {
                assert(warnings[warnings.len() - 1] == Warning::ToolRemovedWhileDown);
            }
        },
        ToolEvent::Other => {},
    }
}

/// A tool is near from when it comes near until it goes away, and down from when it comes down
/// until it goes up or away; no other event moves it.
pub proof fn law_tools_come_and_go(tool: TabletToolData, event: ToolEvent)
    ensures
        ({
            let after = tool.after(event);
            &&& event == ToolEvent::ProximityIn ==> after.in_proximity
            &&& event == ToolEvent::ProximityOut ==> !after.in_proximity && !after.down
            &&& event == ToolEvent::Action(ToolAction::Down) ==> after.down
            &&& event == ToolEvent::Action(ToolAction::Up) ==> !after.down
            &&& after.in_proximity != tool.in_proximity ==> event == ToolEvent::ProximityIn
                || event == ToolEvent::ProximityOut
            &&& after.down != tool.down ==> event == ToolEvent::Action(ToolAction::Down) || event
                == ToolEvent::Action(ToolAction::Up) || event == ToolEvent::ProximityOut
        }),
{
}

/// A warning about a contact ends with the contact's number, and a warning about what a contact or
/// a tool did has the name of that in it.
pub proof fn law_texts_name_their_subject(action: TouchAction, tool_action: ToolAction, id: i32)
    ensures
        ({
            let text = Warning::DuplicateTouchDown { id }.text();
            let number = signed_decimal(id as int);
            text.skip(text.len() - number.len()) == number
        }),
        ({
            let text = Warning::TouchWithoutDown { action, id }.text();
            let number = signed_decimal(id as int);
            let start = "WARNING: received touch "@.len() as int;
            &&& text.skip(text.len() - number.len()) == number
            &&& text.subrange(start, start + action.spec_name().len()) == action.spec_name()
        }),
        ({
            let text = Warning::ToolOutOfProximity(tool_action).text();
            let start = "WARNING: received tablet tool "@.len() as int;
            text.subrange(start, start + tool_action.spec_name().len()) == tool_action.spec_name()
        }),
{
    let number = signed_decimal(id as int);
    let one = Warning::DuplicateTouchDown { id }.text();
    assert(one.skip(one.len() - number.len()) =~= number);
    let other = Warning::TouchWithoutDown { action, id }.text();
    let start = "WARNING: received touch "@.len() as int;
    assert(other.skip(other.len() - number.len()) =~= number);
    assert(other.subrange(start, start + action.spec_name().len()) =~= action.spec_name());
    let third = Warning::ToolOutOfProximity(tool_action).text();
    let begin = "WARNING: received tablet tool "@.len() as int;
    assert(third.subrange(begin, begin + tool_action.spec_name().len())
        =~= tool_action.spec_name());
}

/// A configure event settles on the suggested sides, and on the client's own ones where none are
/// suggested. If that changes what is known of the size, the old buffer is dropped, and a buffer of
/// just that size is painted, damaged, attached and committed, and the window counts as rendered;
/// otherwise nothing happens. Devices and seats have no part in it.
pub proof fn law_new_sizes_are_shown(app: AppState, suggested: (Option<u32>, Option<u32>))
    ensures
        ({
            let after = app.configured(suggested);
            let requests = app.configure_requests(suggested);
            let (width, height) = (after.size.width, after.size.height);
            &&& suggested.0 matches Some(side) ==> width == side
            &&& suggested.1 matches Some(side) ==> height == side
            &&& suggested.0 is None ==> width == WINDOW_W
            &&& suggested.1 is None ==> height == WINDOW_H
            &&& !after.size.first_configure
            &&& after.surface_rendered <==> app.surface_rendered || requests.len() > 0
            &&& after == AppState {
                size: after.size,
                surface_rendered: after.surface_rendered,
                ..app
            }
            &&& requests.len() > 0 <==> app.size != after.size
            &&& requests.len() > 0 ==> {
                &&& requests.len() == 5
                &&& once(requests, Request::Commit)
                &&& has_steps(
                    requests,
                    seq![
                        Request::DropBuffer,
                        Request::Paint(shape_of(width, height)),
                        Request::Damage(whole(width, height)),
                        Request::Attach,
                        Request::Commit,
                    ],
                )
            }
        }),
{
    let after = app.configured(suggested);
    let requests = app.configure_requests(suggested);
    let (width, height) = (after.size.width, after.size.height);
    if requests.len() > 0 {
        assert(requests[4] == Request::Commit);
        assert(stands_at(
            requests,
            seq![
                Request::DropBuffer,
                Request::Paint(shape_of(width, height)),
                Request::Damage(whole(width, height)),
                Request::Attach,
                Request::Commit,
            ],
            seq![0, 1, 2, 3, 4],
        ));
    }
}

/// The client starts without a rendered window, a seat, a device or a contact, and goes on until it
/// is asked to end.
pub proof fn law_start_and_end(app: AppState, tablet_manager: bool, capability: Capability)
    ensures
        ({
            let start = AppState::initial(tablet_manager);
            &&& !start.exit
            &&& !start.surface_rendered
            &&& start.seat is None
            &&& start.seat_of(capability) is None
            &&& !start.holds(capability)
            &&& !start.tablet_seat
            &&& start.tablet_manager == tablet_manager
            &&& start.device_requests().len() == 0
            &&& start.active_touches == Set::<i32>::empty()
            &&& start.size.first_configure
        }),
        app.ending().exit,
        app.ending() == (AppState { exit: app.ending().exit, ..app }),
        app.rendered().surface_rendered,
        app.rendered() == (AppState {
            surface_rendered: app.rendered().surface_rendered,
            ..app
        }),
{
}

/// A removed seat takes its tablets with it, and what the events of its devices have told; another
/// seat's removal has no part in either.
pub proof fn law_removed_seats_take_everything(app: AppState, seat: u32)
    ensures
        ({
            let after = app.without_seat(seat);
            &&& app.seat == Some(seat) ==> after.seat is None && !after.tablet_seat
            &&& app.seat != Some(seat) ==> after.seat == app.seat && after.tablet_seat
                == app.tablet_seat
            &&& app.pointer_seat == Some(seat) ==> !after.pointer_entered
            &&& app.pointer_seat != Some(seat) ==> after.pointer_entered == app.pointer_entered
            &&& app.keyboard_seat == Some(seat) ==> !after.keyboard_entered
            &&& app.keyboard_seat != Some(seat) ==> after.keyboard_entered == app.keyboard_entered
            &&& app.touch_seat == Some(seat) ==> after.active_touches == Set::<i32>::empty()
            &&& app.touch_seat != Some(seat) ==> after.active_touches == app.active_touches
            &&& after.exit == app.exit
            &&& after.size == app.size
            &&& after.surface_rendered == app.surface_rendered
            &&& after.tablet_manager == app.tablet_manager
            &&& app.removal_requests(seat).no_duplicates()
            &&& app.removal_requests(seat).len() <= 4
        }),
{
}

} // verus!
