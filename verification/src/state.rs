//! The status snapshot: what the display must show, and how incoming
//! status-change events overwrite it.

use vstd::prelude::*;

verus! {

/// Independent boolean flags for the left and right variants of the four
/// modifier families. Replaced wholesale on each modifier-change event.
#[derive(Clone, Copy, PartialEq, Eq, Structural, Debug)]
pub struct ModifierMask {
    pub left_shift: bool,
    pub right_shift: bool,
    pub left_ctrl: bool,
    pub right_ctrl: bool,
    pub left_alt: bool,
    pub right_alt: bool,
    pub left_gui: bool,
    pub right_gui: bool,
}

impl ModifierMask {
    /// The mask with no key held.
    pub open spec fn spec_all_clear() -> ModifierMask {
        ModifierMask {
            left_shift: false,
            right_shift: false,
            left_ctrl: false,
            right_ctrl: false,
            left_alt: false,
            right_alt: false,
            left_gui: false,
            right_gui: false,
        }
    }

    /// Builds the mask with no key held.
    pub fn all_clear() -> (r: ModifierMask)
        ensures
            r == ModifierMask::spec_all_clear(),
    {
        ModifierMask {
            left_shift: false,
            right_shift: false,
            left_ctrl: false,
            right_ctrl: false,
            left_alt: false,
            right_alt: false,
            left_gui: false,
            right_gui: false,
        }
    }
}

/// One of the four modifier families shown by the display; the left and
/// right physical keys of a family combine into one indicator.
#[derive(Clone, Copy, PartialEq, Eq, Structural, Debug)]
pub enum ModifierFamily {
    Shift,
    Ctrl,
    Alt,
    Gui,
}

/// Whether at least one of the family's two physical keys is held.
pub open spec fn family_held(m: ModifierMask, f: ModifierFamily) -> bool {
    match f {
        ModifierFamily::Shift => m.left_shift || m.right_shift,
        ModifierFamily::Ctrl => m.left_ctrl || m.right_ctrl,
        ModifierFamily::Alt => m.left_alt || m.right_alt,
        ModifierFamily::Gui => m.left_gui || m.right_gui,
    }
}

/// Runtime test matching `family_held`.
pub fn is_family_held(m: ModifierMask, f: ModifierFamily) -> (r: bool)
    ensures
        r == family_held(m, f),
{
    match f {
        ModifierFamily::Shift => m.left_shift || m.right_shift,
        ModifierFamily::Ctrl => m.left_ctrl || m.right_ctrl,
        ModifierFamily::Alt => m.left_alt || m.right_alt,
        ModifierFamily::Gui => m.left_gui || m.right_gui,
    }
}

/// A status-change event from the shared event stream. Kinds the display
/// does not consume arrive as `Ignored`.
#[derive(Clone, Copy, PartialEq, Eq, Structural, Debug)]
pub enum ControllerEvent {
    Layer(u8),
    Modifier(ModifierMask),
    Battery(u8),
    Ignored,
}

/// The continuously-overwritten snapshot of what must be shown.
#[derive(Clone, Copy, PartialEq, Eq, Structural, Debug)]
pub struct StatusState {
    /// Index of the active layer; an index into the configured layer names.
    pub layer: u8,
    /// The held modifier keys.
    pub modifiers: ModifierMask,
    /// Battery percentage; the upstream producer keeps it in `[0, 100]`.
    pub battery: u8,
}

impl StatusState {
    /// The snapshot at start: first layer, nothing held, empty battery.
    pub open spec fn spec_initial() -> StatusState {
        StatusState { layer: 0, modifiers: ModifierMask::spec_all_clear(), battery: 0 }
    }

    /// Builds the starting snapshot.
    pub fn initial() -> (r: StatusState)
        ensures
            r == StatusState::spec_initial(),
    {
        StatusState { layer: 0, modifiers: ModifierMask::all_clear(), battery: 0 }
    }
}

/// What one event does to the snapshot: each consumed kind overwrites
/// exactly its own field; ignored kinds change nothing.
pub open spec fn spec_apply(s: StatusState, e: ControllerEvent) -> StatusState {
    match e {
        ControllerEvent::Layer(l) => StatusState { layer: l, ..s },
        ControllerEvent::Modifier(m) => StatusState { modifiers: m, ..s },
        ControllerEvent::Battery(b) => StatusState { battery: b, ..s },
        ControllerEvent::Ignored => s,
    }
}

/// The snapshot after a whole sequence of events has been applied in order.
pub open spec fn spec_apply_all(s: StatusState, events: Seq<ControllerEvent>) -> StatusState
    decreases events.len(),
{
    if events.len() == 0 {
        s
    } else {
        spec_apply(spec_apply_all(s, events.drop_last()), events.last())
    }
}

impl StatusState {
    /// Overwrites the field the event carries, leaving the others unchanged.
    pub fn apply(&mut self, event: ControllerEvent)
        ensures
            *final(self) == spec_apply(*old(self), event),
    {
        match event {
            ControllerEvent::Layer(l) => {
                self.layer = l;
            },
            ControllerEvent::Modifier(m) => {
                self.modifiers = m;
            },
            ControllerEvent::Battery(b) => {
                self.battery = b;
            },
            ControllerEvent::Ignored => {},
        }
    }
}

} // verus!
