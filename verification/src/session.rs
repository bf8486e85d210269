//! The transition relation of the keyboard state machine.
//!
//! Every public operation of [`crate::state::KbState`] is specified
//! against one of the functions here: the function maps the abstract
//! state and the input (an event, or an engine reply) to the next
//! abstract state, the releases to perform, and the step to take.  The
//! executable machine is proved to follow these functions exactly, so
//! every property of the machine can be read off — and proved — at this
//! level alone.

use crate::engine::{EngineCommand, EngineQuery, ReplyModel, KEYCODE_OFFSET, MODS_EFFECTIVE};
use crate::events::{EventModel, SessionResultModel, StepModel};
use crate::state::{release_pair_commands, KbModel, PendingModel};
use crate::types::{
    mods_from_activation, ComposeFeedResult, ComposeStatus, KeyState, KeymapFormat,
    MappedKeyboardError,
};
use vstd::prelude::*;

verus! {

/// One transition: the state after, the releases it performs, and the
/// step it hands the driver.
#[verifier::ext_equal]
pub struct TransitionModel {
    /// The abstract state after the transition
    pub post: KbModel,
    /// Resource releases the driver performs, in order
    pub commands: Seq<EngineCommand>,
    /// The step handed to the driver
    pub step: StepModel,
}

/// An event reaches the handler only while one is attached; a detached
/// machine stays quiet.
pub open spec fn emit(pre: KbModel, ev: EventModel) -> SessionResultModel {
    if pre.attached {
        SessionResultModel::Event(ev)
    } else {
        SessionResultModel::Quiet
    }
}

/// A transition that changes nothing and reports nothing.
pub open spec fn quiet(pre: KbModel) -> TransitionModel {
    TransitionModel {
        post: pre,
        commands: Seq::empty(),
        step: StepModel::Done(SessionResultModel::Quiet),
    }
}

/// The text a filled buffer yields: everything up to the trailing
/// terminator byte.
pub open spec fn strip_terminator(b: Seq<u8>) -> Option<Seq<u8>> {
    if b.len() == 0 {
        None
    } else {
        Some(b.drop_last())
    }
}

/// Finish a key session: report the key with the text it produced.
pub open spec fn key_done(
    pre: KbModel,
    serial: u32,
    time: u32,
    rawkey: u32,
    keysym: u32,
    state: KeyState,
    utf8: Option<Seq<u8>>,
) -> TransitionModel {
    TransitionModel {
        post: KbModel { pending: PendingModel::Idle, ..pre },
        commands: Seq::empty(),
        step: StepModel::Done(
            emit(
                pre,
                EventModel::Key {
                    serial,
                    time,
                    mods: pre.mods_state,
                    rawkey,
                    keysym,
                    state,
                    utf8,
                },
            ),
        ),
    }
}

/// Begin direct text resolution for a pressed key: the first phase of the
/// two-phase query, against the interpretation state.
pub open spec fn direct_size_query(
    pre: KbModel,
    serial: u32,
    time: u32,
    rawkey: u32,
    keysym: u32,
) -> TransitionModel {
    TransitionModel {
        post: KbModel {
            pending: PendingModel::KeyAwaitDirectSize { serial, time, rawkey, keysym },
            ..pre
        },
        commands: Seq::empty(),
        step: StepModel::Query(
            EngineQuery::KeyGetUtf8Size {
                state: pre.interp->0,
                keycode: (rawkey + KEYCODE_OFFSET) as u32,
            },
        ),
    }
}

/// Abandon the session in flight after an answer that does not fit it:
/// a half-installed resource is released, everything installed stays.
pub open spec fn abort(pre: KbModel) -> TransitionModel {
    match pre.pending {
        PendingModel::AwaitState { keymap } => TransitionModel {
            post: KbModel { keymap: None, pending: PendingModel::Idle, ..pre },
            commands: seq![EngineCommand::ReleaseKeymap { keymap }],
            step: StepModel::Done(SessionResultModel::Quiet),
        },
        PendingModel::ComposeAwaitState { table } => TransitionModel {
            post: KbModel { pending: PendingModel::Idle, ..pre },
            commands: seq![EngineCommand::ReleaseComposeTable { table }],
            step: StepModel::Done(SessionResultModel::Quiet),
        },
        _ => TransitionModel {
            post: KbModel { pending: PendingModel::Idle, ..pre },
            commands: Seq::empty(),
            step: StepModel::Done(SessionResultModel::Quiet),
        },
    }
}

/// A compositor keymap notification.  A locked machine ignores it, as
/// does the format that carries no keymap; otherwise the old pair is
/// released first and a compilation of the new bytes begins.
pub open spec fn on_keymap_model(pre: KbModel, format: KeymapFormat) -> TransitionModel {
    if pre.locked || format is NoKeymap {
        quiet(pre)
    } else {
        TransitionModel {
            post: KbModel {
                keymap: None,
                interp: None,
                pending: PendingModel::BytesAwaitKeymap,
                ..pre
            },
            commands: release_pair_commands(pre),
            step: StepModel::Query(EngineQuery::CompileKeymapFromBytes),
        }
    }
}

/// A modifier notification.  Before the machine is ready it is a no-op;
/// otherwise the raw masks are folded into the interpretation state.
pub open spec fn on_modifiers_model(
    pre: KbModel,
    depressed: u32,
    latched: u32,
    locked_mods: u32,
    group: u32,
) -> TransitionModel {
    match pre.interp {
        None => quiet(pre),
        Some(h) => TransitionModel {
            post: KbModel { pending: PendingModel::AwaitMask, ..pre },
            commands: Seq::empty(),
            step: StepModel::Query(
                EngineQuery::UpdateMask { state: h, depressed, latched, locked_mods, group },
            ),
        },
    }
}

/// A key notification.  Before the machine is ready the keysym is 0 and
/// no text is produced, without consulting the engine; otherwise the
/// keysym is resolved first.
pub open spec fn on_key_model(
    pre: KbModel,
    serial: u32,
    time: u32,
    rawkey: u32,
    state: KeyState,
) -> TransitionModel {
    match pre.interp {
        None => key_done(pre, serial, time, rawkey, 0, state, None),
        Some(h) => TransitionModel {
            post: KbModel {
                pending: PendingModel::KeyAwaitSym {
                    serial,
                    time,
                    rawkey,
                    pressed: state is Pressed,
                },
                ..pre
            },
            commands: Seq::empty(),
            step: StepModel::Query(
                EngineQuery::KeyGetOneSym {
                    state: h,
                    keycode: (rawkey + KEYCODE_OFFSET) as u32,
                },
            ),
        },
    }
}

/// The focus-gain event once every pressed key has its keysym.
pub open spec fn enter_done(
    pre: KbModel,
    serial: u32,
    rawkeys: Seq<u32>,
    keysyms: Seq<u32>,
) -> TransitionModel {
    TransitionModel {
        post: KbModel { pending: PendingModel::Idle, ..pre },
        commands: Seq::empty(),
        step: StepModel::Done(
            emit(pre, EventModel::Enter { serial, mods: pre.mods_state, rawkeys, keysyms }),
        ),
    }
}

/// A focus-gain notification with the set of currently pressed keys.
/// Before the machine is ready every keysym is 0; otherwise each pressed
/// key's keysym is resolved in order.
pub open spec fn on_enter_model(pre: KbModel, serial: u32, rawkeys: Seq<u32>) -> TransitionModel {
    match pre.interp {
        None => enter_done(pre, serial, rawkeys, Seq::new(rawkeys.len(), |i: int| 0u32)),
        Some(h) => {
            if rawkeys.len() == 0 {
                enter_done(pre, serial, rawkeys, Seq::empty())
            } else {
                TransitionModel {
                    post: KbModel {
                        pending: PendingModel::EnterAwaitSym {
                            serial,
                            rawkeys,
                            keysyms: Seq::empty(),
                        },
                        ..pre
                    },
                    commands: Seq::empty(),
                    step: StepModel::Query(
                        EngineQuery::KeyGetOneSym {
                            state: h,
                            keycode: (rawkeys[0] + KEYCODE_OFFSET) as u32,
                        },
                    ),
                }
            }
        },
    }
}

/// A focus-loss notification: reported as it is.
pub open spec fn on_leave_model(pre: KbModel, serial: u32) -> TransitionModel {
    TransitionModel {
        post: pre,
        commands: Seq::empty(),
        step: StepModel::Done(emit(pre, EventModel::Leave { serial })),
    }
}

/// A repeat-info notification: rate and delay pass through unchanged.
pub open spec fn on_repeat_info_model(pre: KbModel, rate: i32, delay: i32) -> TransitionModel {
    TransitionModel {
        post: pre,
        commands: Seq::empty(),
        step: StepModel::Done(emit(pre, EventModel::RepeatInfo { rate, delay })),
    }
}

/// A named-parameters load.  A name that cannot be handed to the engine
/// is rejected outright; otherwise a compilation from the names begins,
/// and the loaded pair stays untouched until it succeeds.
pub open spec fn load_from_names_model(pre: KbModel, names_ok: bool) -> TransitionModel {
    if !names_ok {
        TransitionModel {
            post: pre,
            commands: Seq::empty(),
            step: StepModel::Done(
                SessionResultModel::Failed(MappedKeyboardError::InvalidParameter),
            ),
        }
    } else {
        TransitionModel {
            post: KbModel { pending: PendingModel::NamesAwaitKeymap, ..pre },
            commands: Seq::empty(),
            step: StepModel::Query(EngineQuery::CompileKeymapFromNames),
        }
    }
}

/// Begin building the compose session.  A machine that already has one
/// keeps it; otherwise a compose table for the driver's locale is
/// requested.
pub open spec fn begin_compose_model(pre: KbModel) -> TransitionModel {
    if pre.compose_table is Some || pre.compose_state is Some {
        quiet(pre)
    } else {
        TransitionModel {
            post: KbModel { pending: PendingModel::ComposeAwaitTable, ..pre },
            commands: Seq::empty(),
            step: StepModel::Query(EngineQuery::CreateComposeTable { context: pre.context }),
        }
    }
}

/// The answer to the query of the session in flight.  An answer that
/// does not fit the session aborts it (see [`abort`]); an answer while
/// no session is in flight is ignored.
pub open spec fn resume_model(pre: KbModel, reply: ReplyModel) -> TransitionModel {
    match pre.pending {
        PendingModel::Idle => quiet(pre),
        PendingModel::BytesAwaitKeymap => match reply {
            ReplyModel::Keymap { handle: None } => TransitionModel {
                post: KbModel { pending: PendingModel::Idle, ..pre },
                commands: Seq::empty(),
                step: StepModel::Done(SessionResultModel::Failed(MappedKeyboardError::Malformed)),
            },
            ReplyModel::Keymap { handle: Some(k) } => TransitionModel {
                post: KbModel {
                    keymap: Some(k),
                    pending: PendingModel::AwaitState { keymap: k },
                    ..pre
                },
                commands: Seq::empty(),
                step: StepModel::Query(EngineQuery::CreateState { keymap: k }),
            },
            _ => abort(pre),
        },
        PendingModel::NamesAwaitKeymap => match reply {
            ReplyModel::Keymap { handle: None } => TransitionModel {
                post: KbModel { pending: PendingModel::Idle, ..pre },
                commands: Seq::empty(),
                step: StepModel::Done(SessionResultModel::Failed(MappedKeyboardError::BadNames)),
            },
            ReplyModel::Keymap { handle: Some(k) } => TransitionModel {
                post: KbModel {
                    keymap: Some(k),
                    interp: None,
                    locked: true,
                    pending: PendingModel::AwaitState { keymap: k },
                    ..pre
                },
                commands: release_pair_commands(pre),
                step: StepModel::Query(EngineQuery::CreateState { keymap: k }),
            },
            _ => abort(pre),
        },
        PendingModel::AwaitState { keymap } => match reply {
            ReplyModel::State { handle } => TransitionModel {
                post: KbModel {
                    interp: Some(handle),
                    pending: PendingModel::AwaitModifiers,
                    ..pre
                },
                commands: Seq::empty(),
                step: StepModel::Query(EngineQuery::QueryModifiers { state: handle }),
            },
            _ => abort(pre),
        },
        PendingModel::AwaitModifiers => match reply {
            ReplyModel::Modifiers { active } => TransitionModel {
                post: KbModel {
                    mods_state: mods_from_activation(active),
                    pending: PendingModel::Idle,
                    ..pre
                },
                commands: Seq::empty(),
                step: StepModel::Done(SessionResultModel::Quiet),
            },
            _ => abort(pre),
        },
        PendingModel::AwaitMask => match reply {
            ReplyModel::Mask { changed } => {
                if changed & MODS_EFFECTIVE != 0 {
                    TransitionModel {
                        post: KbModel { pending: PendingModel::AwaitModifiers, ..pre },
                        commands: Seq::empty(),
                        step: StepModel::Query(EngineQuery::QueryModifiers { state: pre.interp->0 }),
                    }
                } else {
                    TransitionModel {
                        post: KbModel { pending: PendingModel::Idle, ..pre },
                        commands: Seq::empty(),
                        step: StepModel::Done(SessionResultModel::Quiet),
                    }
                }
            },
            _ => abort(pre),
        },
        PendingModel::ComposeAwaitTable => match reply {
            ReplyModel::ComposeHandle { handle: None } => TransitionModel {
                post: KbModel { pending: PendingModel::Idle, ..pre },
                commands: Seq::empty(),
                step: StepModel::Done(SessionResultModel::Quiet),
            },
            ReplyModel::ComposeHandle { handle: Some(t) } => TransitionModel {
                post: KbModel { pending: PendingModel::ComposeAwaitState { table: t }, ..pre },
                commands: Seq::empty(),
                step: StepModel::Query(EngineQuery::CreateComposeState { table: t }),
            },
            _ => abort(pre),
        },
        PendingModel::ComposeAwaitState { table } => match reply {
            ReplyModel::ComposeHandle { handle: None } => TransitionModel {
                post: KbModel { pending: PendingModel::Idle, ..pre },
                commands: seq![EngineCommand::ReleaseComposeTable { table }],
                step: StepModel::Done(SessionResultModel::Quiet),
            },
            ReplyModel::ComposeHandle { handle: Some(s) } => TransitionModel {
                post: KbModel {
                    compose_table: Some(table),
                    compose_state: Some(s),
                    pending: PendingModel::Idle,
                    ..pre
                },
                commands: Seq::empty(),
                step: StepModel::Done(SessionResultModel::Quiet),
            },
            _ => abort(pre),
        },
        PendingModel::KeyAwaitSym { serial, time, rawkey, pressed } => match reply {
            ReplyModel::Sym { keysym } => {
                if !pressed {
                    key_done(pre, serial, time, rawkey, keysym, KeyState::Released, None)
                } else {
                    match pre.compose_state {
                        Some(c) => TransitionModel {
                            post: KbModel {
                                pending: PendingModel::KeyAwaitFeed { serial, time, rawkey, keysym },
                                ..pre
                            },
                            commands: Seq::empty(),
                            step: StepModel::Query(EngineQuery::ComposeFeed { compose: c, keysym }),
                        },
                        None => direct_size_query(pre, serial, time, rawkey, keysym),
                    }
                }
            },
            _ => abort(pre),
        },
        PendingModel::KeyAwaitFeed { serial, time, rawkey, keysym } => match reply {
            ReplyModel::Feed { result } => match result {
                ComposeFeedResult::Accepted => TransitionModel {
                    post: KbModel {
                        pending: PendingModel::KeyAwaitStatus { serial, time, rawkey, keysym },
                        ..pre
                    },
                    commands: Seq::empty(),
                    step: StepModel::Query(
                        EngineQuery::GetComposeStatus { compose: pre.compose_state->0 },
                    ),
                },
                ComposeFeedResult::Ignored => direct_size_query(pre, serial, time, rawkey, keysym),
            },
            _ => abort(pre),
        },
        PendingModel::KeyAwaitStatus { serial, time, rawkey, keysym } => match reply {
            ReplyModel::Status { status } => match status {
                ComposeStatus::Composed => TransitionModel {
                    post: KbModel {
                        pending: PendingModel::KeyAwaitComposeSize { serial, time, rawkey, keysym },
                        ..pre
                    },
                    commands: Seq::empty(),
                    step: StepModel::Query(
                        EngineQuery::ComposeUtf8Size { compose: pre.compose_state->0 },
                    ),
                },
                ComposeStatus::Nothing => direct_size_query(pre, serial, time, rawkey, keysym),
                ComposeStatus::Composing => key_done(
                    pre, serial, time, rawkey, keysym, KeyState::Pressed, None,
                ),
                ComposeStatus::Cancelled => key_done(
                    pre, serial, time, rawkey, keysym, KeyState::Pressed, None,
                ),
            },
            _ => abort(pre),
        },
        PendingModel::KeyAwaitComposeSize { serial, time, rawkey, keysym } => match reply {
            ReplyModel::Size { size } => {
                if size <= 1 {
                    key_done(pre, serial, time, rawkey, keysym, KeyState::Pressed, None)
                } else {
                    TransitionModel {
                        post: KbModel {
                            pending: PendingModel::KeyAwaitComposeFill {
                                serial,
                                time,
                                rawkey,
                                keysym,
                            },
                            ..pre
                        },
                        commands: Seq::empty(),
                        step: StepModel::Query(
                            EngineQuery::ComposeUtf8Fill { compose: pre.compose_state->0, size },
                        ),
                    }
                }
            },
            _ => abort(pre),
        },
        PendingModel::KeyAwaitComposeFill { serial, time, rawkey, keysym } => match reply {
            ReplyModel::Bytes { bytes } => key_done(
                pre, serial, time, rawkey, keysym, KeyState::Pressed, strip_terminator(bytes),
            ),
            _ => abort(pre),
        },
        PendingModel::KeyAwaitDirectSize { serial, time, rawkey, keysym } => match reply {
            ReplyModel::Size { size } => {
                if size <= 1 {
                    key_done(pre, serial, time, rawkey, keysym, KeyState::Pressed, None)
                } else {
                    TransitionModel {
                        post: KbModel {
                            pending: PendingModel::KeyAwaitDirectFill {
                                serial,
                                time,
                                rawkey,
                                keysym,
                            },
                            ..pre
                        },
                        commands: Seq::empty(),
                        step: StepModel::Query(
                            EngineQuery::KeyGetUtf8Fill {
                                state: pre.interp->0,
                                keycode: (rawkey + KEYCODE_OFFSET) as u32,
                                size,
                            },
                        ),
                    }
                }
            },
            _ => abort(pre),
        },
        PendingModel::KeyAwaitDirectFill { serial, time, rawkey, keysym } => match reply {
            ReplyModel::Bytes { bytes } => key_done(
                pre, serial, time, rawkey, keysym, KeyState::Pressed, strip_terminator(bytes),
            ),
            _ => abort(pre),
        },
        PendingModel::EnterAwaitSym { serial, rawkeys, keysyms } => match reply {
            ReplyModel::Sym { keysym } => {
                let done_syms = keysyms.push(keysym);
                if done_syms.len() == rawkeys.len() {
                    enter_done(pre, serial, rawkeys, done_syms)
                } else {
                    TransitionModel {
                        post: KbModel {
                            pending: PendingModel::EnterAwaitSym {
                                serial,
                                rawkeys,
                                keysyms: done_syms,
                            },
                            ..pre
                        },
                        commands: Seq::empty(),
                        step: StepModel::Query(
                            EngineQuery::KeyGetOneSym {
                                state: pre.interp->0,
                                keycode: (rawkeys[done_syms.len() as int] + KEYCODE_OFFSET) as u32,
                            },
                        ),
                    }
                }
            },
            _ => abort(pre),
        },
    }
}

} // verus!
