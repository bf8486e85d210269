//! What the state machine hands back to its driver: interpreted events
//! for the registered handler, and the per-step output of a session.

use crate::engine::{EngineCommand, EngineQuery};
use crate::types::{KeyState, MappedKeyboardError, ModifiersState};
use vstd::prelude::*;

verus! {

/// An interpreted keyboard event, ready for the registered handler.
#[derive(Clone, Debug, PartialEq, Eq)]
pub enum Event {
    /// A key was pressed or released
    Key {
        /// Serial number of the compositor event
        serial: u32,
        /// Timestamp of the event in milliseconds
        time: u32,
        /// The modifier snapshot at the time of the event
        mods: ModifiersState,
        /// The raw wire keycode
        rawkey: u32,
        /// The resolved keysym; 0 before a keymap is loaded or when the
        /// keycode maps to no single symbol
        keysym: u32,
        /// Whether the key was pressed or released
        state: KeyState,
        /// The UTF-8 text this event produces, if any, terminator stripped
        utf8: Option<Vec<u8>>,
    },
    /// Keyboard focus was gained on a surface
    Enter {
        /// Serial number of the compositor event
        serial: u32,
        /// The modifier snapshot at the time of the event
        mods: ModifiersState,
        /// The raw wire keycodes currently pressed
        rawkeys: Vec<u32>,
        /// The keysym resolved for each pressed keycode, in the same order
        keysyms: Vec<u32>,
    },
    /// Keyboard focus was lost
    Leave {
        /// Serial number of the compositor event
        serial: u32,
    },
    /// The compositor announced the key-repeat parameters
    RepeatInfo {
        /// Repeat rate in keys per second
        rate: i32,
        /// Delay before the first repeat, in milliseconds
        delay: i32,
    },
}

/// Mathematical shape of an [`Event`], with buffers as sequences.
#[verifier::ext_equal]
pub enum EventModel {
    /// A key was pressed or released
    Key {
        /// Serial number of the compositor event
        serial: u32,
        /// Timestamp of the event in milliseconds
        time: u32,
        /// The modifier snapshot at the time of the event
        mods: ModifiersState,
        /// The raw wire keycode
        rawkey: u32,
        /// The resolved keysym
        keysym: u32,
        /// Whether the key was pressed or released
        state: KeyState,
        /// The UTF-8 text this event produces, if any
        utf8: Option<Seq<u8>>,
    },
    /// Keyboard focus was gained on a surface
    Enter {
        /// Serial number of the compositor event
        serial: u32,
        /// The modifier snapshot at the time of the event
        mods: ModifiersState,
        /// The raw wire keycodes currently pressed
        rawkeys: Seq<u32>,
        /// The keysym resolved for each pressed keycode
        keysyms: Seq<u32>,
    },
    /// Keyboard focus was lost
    Leave {
        /// Serial number of the compositor event
        serial: u32,
    },
    /// The compositor announced the key-repeat parameters
    RepeatInfo {
        /// Repeat rate in keys per second
        rate: i32,
        /// Delay before the first repeat, in milliseconds
        delay: i32,
    },
}

impl View for Event {
    type V = EventModel;

    open spec fn view(&self) -> EventModel {
        match *self {
            Event::Key { serial, time, mods, rawkey, keysym, state, ref utf8 } => EventModel::Key {
                serial,
                time,
                mods,
                rawkey,
                keysym,
                state,
                utf8: match utf8 {
                    Some(b) => Some(b@),
                    None => None,
                },
            },
            Event::Enter { serial, mods, ref rawkeys, ref keysyms } => EventModel::Enter {
                serial,
                mods,
                rawkeys: rawkeys@,
                keysyms: keysyms@,
            },
            Event::Leave { serial } => EventModel::Leave { serial },
            Event::RepeatInfo { rate, delay } => EventModel::RepeatInfo { rate, delay },
        }
    }
}

/// How a finished session ends.
#[derive(Clone, Debug, PartialEq, Eq)]
pub enum SessionResult {
    /// Nothing to report to the handler
    Quiet,
    /// An interpreted event for the registered handler
    Event(Event),
    /// A keymap load failed
    Failed(MappedKeyboardError),
}

/// Mathematical shape of a [`SessionResult`].
#[verifier::ext_equal]
pub enum SessionResultModel {
    /// Nothing to report to the handler
    Quiet,
    /// An interpreted event for the registered handler
    Event(EventModel),
    /// A keymap load failed
    Failed(MappedKeyboardError),
}

impl View for SessionResult {
    type V = SessionResultModel;

    open spec fn view(&self) -> SessionResultModel {
        match *self {
            SessionResult::Quiet => SessionResultModel::Quiet,
            SessionResult::Event(ref e) => SessionResultModel::Event(e@),
            SessionResult::Failed(err) => SessionResultModel::Failed(err),
        }
    }
}

/// What the driver must do next within the current session.
#[derive(Clone, Debug, PartialEq, Eq)]
pub enum Step {
    /// Perform this engine call and hand its answer to `resume`
    Query(EngineQuery),
    /// The session is over
    Done(SessionResult),
}

/// Mathematical shape of a [`Step`].
#[verifier::ext_equal]
pub enum StepModel {
    /// Perform this engine call and hand its answer back
    Query(EngineQuery),
    /// The session is over
    Done(SessionResultModel),
}

impl View for Step {
    type V = StepModel;

    open spec fn view(&self) -> StepModel {
        match *self {
            Step::Query(q) => StepModel::Query(q),
            Step::Done(ref r) => StepModel::Done(r@),
        }
    }
}

/// The full output of one call into the state machine: releases to
/// perform (in order, before the query), and the next step.
#[derive(Clone, Debug, PartialEq, Eq)]
pub struct StepOut {
    /// Resource releases to perform, in order
    pub commands: Vec<EngineCommand>,
    /// What to do next
    pub step: Step,
}

/// Mathematical shape of a [`StepOut`].
#[verifier::ext_equal]
pub struct StepOutModel {
    /// Resource releases to perform, in order
    pub commands: Seq<EngineCommand>,
    /// What to do next
    pub step: StepModel,
}

impl View for StepOut {
    type V = StepOutModel;

    open spec fn view(&self) -> StepOutModel {
        StepOutModel { commands: self.commands@, step: self.step@ }
    }
}

} // verus!
