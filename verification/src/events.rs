//! Control events, and how controller messages are read as such.

use vstd::prelude::*;
use crate::table::PADS;

verus! {

/// The controller that selects the animation.
pub const KNOB_ANIMATION: u8 = 14;

/// The controller that steps the distance selector down.
pub const KNOB_DISTANCE_DOWN: u8 = 3;

/// The controller that steps the distance selector up.
pub const KNOB_DISTANCE_UP: u8 = 9;

/// The first of the eight controllers above the display.
pub const KNOB_FIRST: u8 = 72;

/// The controller that scales the thickness.
pub const KNOB_THICKNESS: u8 = 76;

/// The controller that adjusts the rate.
pub const KNOB_RATE: u8 = 77;

/// The controller that scales the duration.
pub const KNOB_DURATION: u8 = 78;

/// The controller that adjusts the hue; the last of the eight.
pub const KNOB_HUE: u8 = 79;

/// The controller of the assign button.
pub const BUTTON_ASSIGN: u8 = 86;

/// The highest key that reports a knob being touched.
pub const TOUCH_LAST: u8 = 10;

/// The key of the first pad.
pub const PAD_FIRST_KEY: u8 = 36;

/// The key of the last pad.
pub const PAD_LAST_KEY: u8 = 99;

/// The value that a control sends when it is fully on.
pub const FULL: u8 = 127;

/// A message that the controller and the engine exchange, with
/// seven-bit fields.
#[derive(Clone, Copy, Debug, PartialEq, Eq, Structural)]
pub enum Message {
    NoteOff { key: u8, vel: u8 },
    NoteOn { key: u8, vel: u8 },
    Controller { controller: u8, value: u8 },
}

/// What the engine reacts to.
#[derive(Clone, Copy, Debug, PartialEq, Eq, Structural)]
pub enum ControlEvent {
    /// A parameter knob was turned one step.
    KnobTurn { knob: u8, clockwise: bool },
    /// A knob was touched or let go.
    KnobTouch { knob: u8, pressed: bool },
    /// A pad was pressed.
    PadPress { pad: u8 },
    /// A pad was let go.
    PadRelease { pad: u8 },
    /// The assign button was pressed or let go.
    AssignMode { pressed: bool },
    /// Anything else: nothing reacts to it.
    Ignored,
}

/// Whether `controller` is one of the knobs that a turn is reported for.
pub open spec fn is_knob(controller: u8) -> bool {
    controller == KNOB_ANIMATION || controller == KNOB_DISTANCE_DOWN || controller
        == KNOB_DISTANCE_UP || (KNOB_FIRST <= controller <= KNOB_HUE)
}

/// Whether `key` is the key of a pad.
pub open spec fn is_pad_key(key: u8) -> bool {
    PAD_FIRST_KEY <= key <= PAD_LAST_KEY
}

/// The event that a message stands for.
pub open spec fn event_of(message: Message) -> ControlEvent {
    match message {
        Message::Controller { controller, value } => if is_knob(controller) {
            ControlEvent::KnobTurn { knob: controller, clockwise: value != FULL }
        } else if controller == BUTTON_ASSIGN {
            ControlEvent::AssignMode { pressed: value == FULL }
        } else {
            ControlEvent::Ignored
        },
        Message::NoteOn { key, vel } => if key <= TOUCH_LAST {
            ControlEvent::KnobTouch { knob: key, pressed: vel == FULL }
        } else if is_pad_key(key) {
            ControlEvent::PadPress { pad: (key - PAD_FIRST_KEY) as u8 }
        } else {
            ControlEvent::Ignored
        },
        Message::NoteOff { key, vel } => if is_pad_key(key) {
            ControlEvent::PadRelease { pad: (key - PAD_FIRST_KEY) as u8 }
        } else {
            ControlEvent::Ignored
        },
    }
}

/// Reads a controller message as a control event.
pub fn classify(message: Message) -> (r: ControlEvent)
    ensures
        r == event_of(message),
{
    match message {
        Message::Controller { controller, value } => {
            if controller == KNOB_ANIMATION || controller == KNOB_DISTANCE_DOWN || controller
                == KNOB_DISTANCE_UP || (controller >= KNOB_FIRST && controller <= KNOB_HUE) {
                ControlEvent::KnobTurn { knob: controller, clockwise: value != FULL }
            } else if controller == BUTTON_ASSIGN {
                ControlEvent::AssignMode { pressed: value == FULL }
            } else {
                ControlEvent::Ignored
            }
        },
        Message::NoteOn { key, vel } => {
            if key <= TOUCH_LAST {
                ControlEvent::KnobTouch { knob: key, pressed: vel == FULL }
            } else if key >= PAD_FIRST_KEY && key <= PAD_LAST_KEY {
                ControlEvent::PadPress { pad: key - PAD_FIRST_KEY }
            } else {
                ControlEvent::Ignored
            }
        },
        Message::NoteOff { key, vel: _ } => {
            if key >= PAD_FIRST_KEY && key <= PAD_LAST_KEY {
                ControlEvent::PadRelease { pad: key - PAD_FIRST_KEY }
            } else {
                ControlEvent::Ignored
            }
        },
    }
}

/// Every pad event that a message stands for names a pad of the grid.
pub proof fn lemma_pad_events_on_grid(message: Message)
    ensures
        match event_of(message) {
            ControlEvent::PadPress { pad } => pad < PADS,
            ControlEvent::PadRelease { pad } => pad < PADS,
            _ => true,
        },
{
}

} // verus!
