//! The library's laws: properties of the transition relation, stated
//! and proved once and for all at the level of the abstract models.

use crate::engine::{EngineCommand, EngineQuery, ReplyModel, KEYCODE_OFFSET, MODS_EFFECTIVE};
use crate::events::{EventModel, SessionResultModel, StepModel};
use crate::session::{
    emit, load_from_names_model, on_enter_model, on_key_model, on_keymap_model, on_leave_model,
    on_modifiers_model, on_repeat_info_model, resume_model,
};
use crate::state::{KbModel, PendingModel};
use crate::types::{
    mods_from_activation, rmlvo_ok, ComposeStatus, KeyState, KeymapFormat, MappedKeyboardError,
    ModifierActivation, RMLVO,
};
use vstd::prelude::*;

verus! {

/// Before any keymap is loaded, a key event resolves to keysym 0 with no
/// text, and a focus-gain event resolves every pressed key to keysym 0 —
/// in both cases without a single engine call.
pub proof fn lemma_unready_yields_empty_results(
    pre: KbModel,
    serial: u32,
    time: u32,
    rawkey: u32,
    key_state: KeyState,
    enter_serial: u32,
    rawkeys: Seq<u32>,
)
    requires
        pre.wf(),
        pre.pending is Idle,
        !pre.is_ready(),
    ensures
        on_key_model(pre, serial, time, rawkey, key_state) == (crate::session::TransitionModel {
            post: pre,
            commands: Seq::empty(),
            step: StepModel::Done(
                emit(
                    pre,
                    EventModel::Key {
                        serial,
                        time,
                        mods: pre.mods_state,
                        rawkey,
                        keysym: 0,
                        state: key_state,
                        utf8: None,
                    },
                ),
            ),
        }),
        ({
            let t = on_enter_model(pre, enter_serial, rawkeys);
            &&& t.post == pre
            &&& t.commands == Seq::<EngineCommand>::empty()
            &&& t.step == StepModel::Done(
                emit(
                    pre,
                    EventModel::Enter {
                        serial: enter_serial,
                        mods: pre.mods_state,
                        rawkeys,
                        keysyms: Seq::new(rawkeys.len(), |i: int| 0u32),
                    },
                ),
            )
        }),
{
    assert(KbModel { pending: PendingModel::Idle, ..pre } =~= pre);
}

/// Loading a keymap over a loaded one releases the old interpretation
/// state exactly once, and the old keymap exactly once, both before the
/// replacement pair exists; the load ends with the new pair installed
/// and a fresh modifier snapshot.
pub proof fn lemma_reload_releases_old_pair_once(
    pre: KbModel,
    new_keymap: u64,
    new_state: u64,
    active: ModifierActivation,
)
    requires
        pre.wf(),
        pre.pending is Idle,
        !pre.locked,
        pre.interp is Some,
    ensures
        ({
            let t1 = on_keymap_model(pre, KeymapFormat::XkbV1);
            let t2 = resume_model(t1.post, ReplyModel::Keymap { handle: Some(new_keymap) });
            let t3 = resume_model(t2.post, ReplyModel::State { handle: new_state });
            let t4 = resume_model(t3.post, ReplyModel::Modifiers { active });
            &&& t1.commands == seq![
                EngineCommand::ReleaseState { state: pre.interp->0 },
                EngineCommand::ReleaseKeymap { keymap: pre.keymap->0 },
            ]
            &&& t1.step == StepModel::Query(EngineQuery::CompileKeymapFromBytes)
            &&& t2.commands == Seq::<EngineCommand>::empty()
            &&& t2.step == StepModel::Query(EngineQuery::CreateState { keymap: new_keymap })
            &&& t3.commands == Seq::<EngineCommand>::empty()
            &&& t3.step == StepModel::Query(EngineQuery::QueryModifiers { state: new_state })
            &&& t4.commands == Seq::<EngineCommand>::empty()
            &&& t4.step == StepModel::Done(SessionResultModel::Quiet)
            &&& t4.post == (KbModel {
                keymap: Some(new_keymap),
                interp: Some(new_state),
                mods_state: mods_from_activation(active),
                pending: PendingModel::Idle,
                ..pre
            })
            &&& t4.post.wf()
        }),
{
    let t1 = on_keymap_model(pre, KeymapFormat::XkbV1);
    assert(t1.commands =~= seq![
        EngineCommand::ReleaseState { state: pre.interp->0 },
        EngineCommand::ReleaseKeymap { keymap: pre.keymap->0 },
    ]);
    let t2 = resume_model(t1.post, ReplyModel::Keymap { handle: Some(new_keymap) });
    let t3 = resume_model(t2.post, ReplyModel::State { handle: new_state });
    let t4 = resume_model(t3.post, ReplyModel::Modifiers { active });
    assert(t4.post =~= KbModel {
        keymap: Some(new_keymap),
        interp: Some(new_state),
        mods_state: mods_from_activation(active),
        pending: PendingModel::Idle,
        ..pre
    });
}

/// A modifier update whose changed-components bitset excludes the
/// effective-modifiers bit leaves the snapshot — and the whole state —
/// unchanged, with no per-name query.
pub proof fn lemma_modifier_update_unchanged(
    pre: KbModel,
    depressed: u32,
    latched: u32,
    locked_mods: u32,
    group: u32,
    changed: u32,
)
    requires
        pre.wf(),
        pre.pending is Idle,
        pre.interp is Some,
        changed & MODS_EFFECTIVE == 0,
    ensures
        ({
            let t1 = on_modifiers_model(pre, depressed, latched, locked_mods, group);
            let t2 = resume_model(t1.post, ReplyModel::Mask { changed });
            &&& t1.step == StepModel::Query(
                EngineQuery::UpdateMask {
                    state: pre.interp->0,
                    depressed,
                    latched,
                    locked_mods,
                    group,
                },
            )
            &&& t2.post == pre
            &&& t2.step == StepModel::Done(SessionResultModel::Quiet)
            &&& t2.commands == Seq::<EngineCommand>::empty()
        }),
{
    let t1 = on_modifiers_model(pre, depressed, latched, locked_mods, group);
    let t2 = resume_model(t1.post, ReplyModel::Mask { changed });
    assert(t2.post =~= pre);
}

/// A modifier update whose changed-components bitset includes the
/// effective-modifiers bit recomputes all six named-modifier answers
/// from the engine's per-name query.
pub proof fn lemma_modifier_update_effective(
    pre: KbModel,
    depressed: u32,
    latched: u32,
    locked_mods: u32,
    group: u32,
    changed: u32,
    active: ModifierActivation,
)
    requires
        pre.wf(),
        pre.pending is Idle,
        pre.interp is Some,
        changed & MODS_EFFECTIVE != 0,
    ensures
        ({
            let t1 = on_modifiers_model(pre, depressed, latched, locked_mods, group);
            let t2 = resume_model(t1.post, ReplyModel::Mask { changed });
            let t3 = resume_model(t2.post, ReplyModel::Modifiers { active });
            &&& t2.step == StepModel::Query(EngineQuery::QueryModifiers { state: pre.interp->0 })
            &&& t3.post == (KbModel { mods_state: mods_from_activation(active), ..pre })
            &&& t3.step == StepModel::Done(SessionResultModel::Quiet)
        }),
{
    let t1 = on_modifiers_model(pre, depressed, latched, locked_mods, group);
    let t2 = resume_model(t1.post, ReplyModel::Mask { changed });
    let t3 = resume_model(t2.post, ReplyModel::Modifiers { active });
    assert(t3.post =~= KbModel { mods_state: mods_from_activation(active), ..pre });
}

/// The compose policy for a pressed key whose keysym was accepted into
/// the sequence: composed text is read out, an empty status falls back
/// to direct resolution, and a sequence in progress or just cancelled
/// produces no text for this event.
pub proof fn lemma_compose_status_policy(
    pre: KbModel,
    serial: u32,
    time: u32,
    rawkey: u32,
    keysym: u32,
    status: ComposeStatus,
)
    requires
        pre.wf(),
        pre.pending == (PendingModel::KeyAwaitStatus { serial, time, rawkey, keysym }),
    ensures
        ({
            let t = resume_model(pre, ReplyModel::Status { status });
            &&& (status is Composed ==> t.step == StepModel::Query(
                EngineQuery::ComposeUtf8Size { compose: pre.compose_state->0 },
            ))
            &&& (status is Nothing ==> t.step == StepModel::Query(
                EngineQuery::KeyGetUtf8Size {
                    state: pre.interp->0,
                    keycode: (rawkey + KEYCODE_OFFSET) as u32,
                },
            ))
            &&& (status is Composing || status is Cancelled ==> t.step == StepModel::Done(
                emit(
                    pre,
                    EventModel::Key {
                        serial,
                        time,
                        mods: pre.mods_state,
                        rawkey,
                        keysym,
                        state: KeyState::Pressed,
                        utf8: None,
                    },
                ),
            ))
        }),
{
}

/// A pressed key on a machine without a compose session goes straight
/// to direct text resolution.
pub proof fn lemma_press_without_compose_resolves_directly(
    pre: KbModel,
    serial: u32,
    time: u32,
    rawkey: u32,
    keysym: u32,
)
    requires
        pre.wf(),
        pre.pending == (PendingModel::KeyAwaitSym { serial, time, rawkey, pressed: true }),
        pre.compose_state is None,
    ensures
        resume_model(pre, ReplyModel::Sym { keysym }).step == StepModel::Query(
            EngineQuery::KeyGetUtf8Size {
                state: pre.interp->0,
                keycode: (rawkey + KEYCODE_OFFSET) as u32,
            },
        ),
{
}

/// The two-phase text query: a reported size of at most one byte (just
/// the terminator) yields no text; a larger size is fetched with a
/// buffer of exactly that size, and the text reported is the fill
/// result with the final terminator byte stripped.
pub proof fn lemma_two_phase_text_query(
    pre: KbModel,
    serial: u32,
    time: u32,
    rawkey: u32,
    keysym: u32,
    size: u32,
    bytes: Seq<u8>,
)
    requires
        pre.wf(),
        pre.pending == (PendingModel::KeyAwaitDirectSize { serial, time, rawkey, keysym }),
        bytes.len() == size,
    ensures
        ({
            let t1 = resume_model(pre, ReplyModel::Size { size });
            &&& (size <= 1 ==> t1.step == StepModel::Done(
                emit(
                    pre,
                    EventModel::Key {
                        serial,
                        time,
                        mods: pre.mods_state,
                        rawkey,
                        keysym,
                        state: KeyState::Pressed,
                        utf8: None,
                    },
                ),
            ))
            &&& (size > 1 ==> t1.step == StepModel::Query(
                EngineQuery::KeyGetUtf8Fill {
                    state: pre.interp->0,
                    keycode: (rawkey + KEYCODE_OFFSET) as u32,
                    size,
                },
            ))
            &&& (size > 1 ==> {
                let t2 = resume_model(t1.post, ReplyModel::Bytes { bytes });
                &&& t2.step == StepModel::Done(
                    emit(
                        pre,
                        EventModel::Key {
                            serial,
                            time,
                            mods: pre.mods_state,
                            rawkey,
                            keysym,
                            state: KeyState::Pressed,
                            utf8: Some(bytes.drop_last()),
                        },
                    ),
                )
                &&& t2.post.pending is Idle
            })
        }),
{
}

/// A named-parameters description whose fields are all absent is always
/// accepted, and begins a compilation that uses the engine defaults.
pub proof fn lemma_names_defaults_accepted(pre: KbModel)
    requires
        pre.wf(),
        pre.pending is Idle,
    ensures
        ({
            let all_default = RMLVO {
                rules: None,
                model: None,
                layout: None,
                variant: None,
                options: None,
            };
            let t = load_from_names_model(pre, rmlvo_ok(all_default));
            &&& rmlvo_ok(all_default)
            &&& t.step == StepModel::Query(EngineQuery::CompileKeymapFromNames)
            &&& t.post == (KbModel { pending: PendingModel::NamesAwaitKeymap, ..pre })
            &&& t.commands == Seq::<EngineCommand>::empty()
        }),
{
}

/// A named-parameters description that the engine cannot compile fails
/// with the bad-names error and leaves any previously loaded keymap,
/// interpretation state and modifier snapshot untouched.
pub proof fn lemma_names_failure_keeps_keymap(pre: KbModel)
    requires
        pre.wf(),
        pre.pending is NamesAwaitKeymap,
    ensures
        ({
            let t = resume_model(pre, ReplyModel::Keymap { handle: None });
            &&& t.step == StepModel::Done(
                SessionResultModel::Failed(MappedKeyboardError::BadNames),
            )
            &&& t.commands == Seq::<EngineCommand>::empty()
            &&& t.post == (KbModel { pending: PendingModel::Idle, ..pre })
            &&& t.post.keymap == pre.keymap
            &&& t.post.interp == pre.interp
            &&& t.post.mods_state == pre.mods_state
        }),
{
}

/// A parameter string that cannot be handed to the engine is rejected
/// outright, without touching the state or the engine.
pub proof fn lemma_names_invalid_rejected(pre: KbModel)
    requires
        pre.wf(),
        pre.pending is Idle,
    ensures
        load_from_names_model(pre, false) == (crate::session::TransitionModel {
            post: pre,
            commands: Seq::empty(),
            step: StepModel::Done(
                SessionResultModel::Failed(MappedKeyboardError::InvalidParameter),
            ),
        }),
{
}

/// A named-parameters compilation that succeeds releases the old pair
/// exactly once, installs the new pair, and locks the machine against
/// compositor keymaps.
pub proof fn lemma_names_success_locks(
    pre: KbModel,
    new_keymap: u64,
    new_state: u64,
    active: ModifierActivation,
)
    requires
        pre.wf(),
        pre.pending is NamesAwaitKeymap,
    ensures
        ({
            let t1 = resume_model(pre, ReplyModel::Keymap { handle: Some(new_keymap) });
            let t2 = resume_model(t1.post, ReplyModel::State { handle: new_state });
            let t3 = resume_model(t2.post, ReplyModel::Modifiers { active });
            &&& t1.commands == crate::state::release_pair_commands(pre)
            &&& t1.step == StepModel::Query(EngineQuery::CreateState { keymap: new_keymap })
            &&& t3.post == (KbModel {
                keymap: Some(new_keymap),
                interp: Some(new_state),
                mods_state: mods_from_activation(active),
                locked: true,
                pending: PendingModel::Idle,
                ..pre
            })
            &&& t3.post.wf()
        }),
{
    let t1 = resume_model(pre, ReplyModel::Keymap { handle: Some(new_keymap) });
    let t2 = resume_model(t1.post, ReplyModel::State { handle: new_state });
    let t3 = resume_model(t2.post, ReplyModel::Modifiers { active });
    assert(t3.post =~= KbModel {
        keymap: Some(new_keymap),
        interp: Some(new_state),
        mods_state: mods_from_activation(active),
        locked: true,
        pending: PendingModel::Idle,
        ..pre
    });
}

/// A released key never feeds compose and never produces text: the
/// session ends right after the keysym answer, reporting the keysym
/// alone.
pub proof fn lemma_release_never_produces_text(
    pre: KbModel,
    serial: u32,
    time: u32,
    rawkey: u32,
    keysym: u32,
)
    requires
        pre.wf(),
        pre.pending == (PendingModel::KeyAwaitSym { serial, time, rawkey, pressed: false }),
    ensures
        ({
            let t = resume_model(pre, ReplyModel::Sym { keysym });
            &&& t.step == StepModel::Done(
                emit(
                    pre,
                    EventModel::Key {
                        serial,
                        time,
                        mods: pre.mods_state,
                        rawkey,
                        keysym,
                        state: KeyState::Released,
                        utf8: None,
                    },
                ),
            )
            &&& t.commands == Seq::<EngineCommand>::empty()
            &&& t.post.pending is Idle
        }),
{
}

/// A modifier notification before the machine is ready changes nothing
/// and asks the engine nothing.
pub proof fn lemma_modifiers_before_ready_are_ignored(
    pre: KbModel,
    depressed: u32,
    latched: u32,
    locked_mods: u32,
    group: u32,
)
    requires
        pre.wf(),
        pre.pending is Idle,
        !pre.is_ready(),
    ensures
        on_modifiers_model(pre, depressed, latched, locked_mods, group)
            == crate::session::quiet(pre),
{
}

/// Every engine answer preserves the state's well-formedness — in
/// particular, an interpretation state exists exactly when a keymap is
/// loaded whenever the machine is at rest, and the compose state never
/// outlives its table.
pub proof fn lemma_resume_preserves_wf(pre: KbModel, reply: ReplyModel)
    requires
        pre.wf(),
    ensures
        resume_model(pre, reply).post.wf(),
{
}

/// While no handler is attached, no transition reports an event — for
/// any engine answer and any notification — even though the
/// interpretation state stays loaded and keeps being updated.
pub proof fn lemma_detached_stays_silent(
    pre: KbModel,
    reply: ReplyModel,
    format: KeymapFormat,
    serial: u32,
    time: u32,
    rawkey: u32,
    key_state: KeyState,
    rawkeys: Seq<u32>,
    rate: i32,
    delay: i32,
)
    requires
        !pre.attached,
    ensures
        !(resume_model(pre, reply).step matches StepModel::Done(SessionResultModel::Event(_))),
        !(on_keymap_model(pre, format).step matches StepModel::Done(
            SessionResultModel::Event(_),
        )),
        !(on_key_model(pre, serial, time, rawkey, key_state).step matches StepModel::Done(
            SessionResultModel::Event(_),
        )),
        !(on_enter_model(pre, serial, rawkeys).step matches StepModel::Done(
            SessionResultModel::Event(_),
        )),
        !(on_leave_model(pre, serial).step matches StepModel::Done(
            SessionResultModel::Event(_),
        )),
        !(on_repeat_info_model(pre, rate, delay).step matches StepModel::Done(
            SessionResultModel::Event(_),
        )),
{
}

} // verus!
