//! The keyboard interpretation state: native-resource handles, the
//! modifier snapshot, and the session the machine is in the middle of.

use crate::engine::{EngineCommand, EngineQuery, EngineReply, KEYCODE_OFFSET, MODS_EFFECTIVE};
use crate::events::{Event, SessionResult, Step, StepOut, StepOutModel};
use crate::session::{
    abort, begin_compose_model, load_from_names_model, on_enter_model, on_key_model,
    on_keymap_model, on_leave_model, on_modifiers_model, on_repeat_info_model, resume_model,
};
use crate::types::{rmlvo_ok, KeyState, KeymapFormat, ModifiersState, RMLVO};
use vstd::prelude::*;

verus! {

/// The engine call the machine is waiting on, together with what it must
/// remember to finish the session.
#[derive(Clone, Debug, PartialEq, Eq)]
pub enum Pending {
    /// No session is in flight
    Idle,
    /// A byte-blob keymap compilation is in flight; the previous keymap
    /// and interpretation state are already released
    BytesAwaitKeymap,
    /// A named-parameters keymap compilation is in flight; the previous
    /// keymap and interpretation state are still in place
    NamesAwaitKeymap,
    /// An interpretation state is being created for a freshly compiled
    /// keymap
    AwaitState {
        /// Handle of the freshly compiled keymap
        keymap: u64,
    },
    /// The per-name modifier queries that finish a keymap load or a
    /// modifier update are in flight
    AwaitModifiers,
    /// A mask update is in flight
    AwaitMask,
    /// A compose-table construction is in flight
    ComposeAwaitTable,
    /// A compose-state construction is in flight; the table is not yet
    /// installed
    ComposeAwaitState {
        /// Handle of the freshly built compose table
        table: u64,
    },
    /// A key event is waiting for its keysym
    KeyAwaitSym {
        /// Serial number of the compositor event
        serial: u32,
        /// Timestamp of the event
        time: u32,
        /// The raw wire keycode
        rawkey: u32,
        /// Whether the key was pressed
        pressed: bool,
    },
    /// A pressed key's keysym was fed to compose; the reply is pending
    KeyAwaitFeed {
        /// Serial number of the compositor event
        serial: u32,
        /// Timestamp of the event
        time: u32,
        /// The raw wire keycode
        rawkey: u32,
        /// The resolved keysym
        keysym: u32,
    },
    /// The compose status after an accepted feed is pending
    KeyAwaitStatus {
        /// Serial number of the compositor event
        serial: u32,
        /// Timestamp of the event
        time: u32,
        /// The raw wire keycode
        rawkey: u32,
        /// The resolved keysym
        keysym: u32,
    },
    /// The byte count of the composed text is pending
    KeyAwaitComposeSize {
        /// Serial number of the compositor event
        serial: u32,
        /// Timestamp of the event
        time: u32,
        /// The raw wire keycode
        rawkey: u32,
        /// The resolved keysym
        keysym: u32,
    },
    /// The composed text itself is pending
    KeyAwaitComposeFill {
        /// Serial number of the compositor event
        serial: u32,
        /// Timestamp of the event
        time: u32,
        /// The raw wire keycode
        rawkey: u32,
        /// The resolved keysym
        keysym: u32,
    },
    /// The byte count of the directly resolved text is pending
    KeyAwaitDirectSize {
        /// Serial number of the compositor event
        serial: u32,
        /// Timestamp of the event
        time: u32,
        /// The raw wire keycode
        rawkey: u32,
        /// The resolved keysym
        keysym: u32,
    },
    /// The directly resolved text itself is pending
    KeyAwaitDirectFill {
        /// Serial number of the compositor event
        serial: u32,
        /// Timestamp of the event
        time: u32,
        /// The raw wire keycode
        rawkey: u32,
        /// The resolved keysym
        keysym: u32,
    },
    /// A focus-gain event is resolving the keysym of each pressed key
    EnterAwaitSym {
        /// Serial number of the compositor event
        serial: u32,
        /// The raw wire keycodes currently pressed
        rawkeys: Vec<u32>,
        /// The keysyms resolved so far, one per keycode already answered
        keysyms: Vec<u32>,
    },
}

/// Mathematical shape of [`Pending`], with buffers as sequences.
#[verifier::ext_equal]
pub enum PendingModel {
    /// No session is in flight
    Idle,
    /// A byte-blob keymap compilation is in flight
    BytesAwaitKeymap,
    /// A named-parameters keymap compilation is in flight
    NamesAwaitKeymap,
    /// An interpretation state is being created
    AwaitState {
        /// Handle of the freshly compiled keymap
        keymap: u64,
    },
    /// The per-name modifier queries are in flight
    AwaitModifiers,
    /// A mask update is in flight
    AwaitMask,
    /// A compose-table construction is in flight
    ComposeAwaitTable,
    /// A compose-state construction is in flight
    ComposeAwaitState {
        /// Handle of the freshly built compose table
        table: u64,
    },
    /// A key event is waiting for its keysym
    KeyAwaitSym {
        /// Serial number of the compositor event
        serial: u32,
        /// Timestamp of the event
        time: u32,
        /// The raw wire keycode
        rawkey: u32,
        /// Whether the key was pressed
        pressed: bool,
    },
    /// A compose-feed answer is pending
    KeyAwaitFeed {
        /// Serial number of the compositor event
        serial: u32,
        /// Timestamp of the event
        time: u32,
        /// The raw wire keycode
        rawkey: u32,
        /// The resolved keysym
        keysym: u32,
    },
    /// The compose status is pending
    KeyAwaitStatus {
        /// Serial number of the compositor event
        serial: u32,
        /// Timestamp of the event
        time: u32,
        /// The raw wire keycode
        rawkey: u32,
        /// The resolved keysym
        keysym: u32,
    },
    /// The byte count of the composed text is pending
    KeyAwaitComposeSize {
        /// Serial number of the compositor event
        serial: u32,
        /// Timestamp of the event
        time: u32,
        /// The raw wire keycode
        rawkey: u32,
        /// The resolved keysym
        keysym: u32,
    },
    /// The composed text itself is pending
    KeyAwaitComposeFill {
        /// Serial number of the compositor event
        serial: u32,
        /// Timestamp of the event
        time: u32,
        /// The raw wire keycode
        rawkey: u32,
        /// The resolved keysym
        keysym: u32,
    },
    /// The byte count of the directly resolved text is pending
    KeyAwaitDirectSize {
        /// Serial number of the compositor event
        serial: u32,
        /// Timestamp of the event
        time: u32,
        /// The raw wire keycode
        rawkey: u32,
        /// The resolved keysym
        keysym: u32,
    },
    /// The directly resolved text itself is pending
    KeyAwaitDirectFill {
        /// Serial number of the compositor event
        serial: u32,
        /// Timestamp of the event
        time: u32,
        /// The raw wire keycode
        rawkey: u32,
        /// The resolved keysym
        keysym: u32,
    },
    /// A focus-gain event is resolving the keysym of each pressed key
    EnterAwaitSym {
        /// Serial number of the compositor event
        serial: u32,
        /// The raw wire keycodes currently pressed
        rawkeys: Seq<u32>,
        /// The keysyms resolved so far
        keysyms: Seq<u32>,
    },
}

impl View for Pending {
    type V = PendingModel;

    open spec fn view(&self) -> PendingModel {
        match *self {
            Pending::Idle => PendingModel::Idle,
            Pending::BytesAwaitKeymap => PendingModel::BytesAwaitKeymap,
            Pending::NamesAwaitKeymap => PendingModel::NamesAwaitKeymap,
            Pending::AwaitState { keymap } => PendingModel::AwaitState { keymap },
            Pending::AwaitModifiers => PendingModel::AwaitModifiers,
            Pending::AwaitMask => PendingModel::AwaitMask,
            Pending::ComposeAwaitTable => PendingModel::ComposeAwaitTable,
            Pending::ComposeAwaitState { table } => PendingModel::ComposeAwaitState { table },
            Pending::KeyAwaitSym { serial, time, rawkey, pressed } => PendingModel::KeyAwaitSym {
                serial,
                time,
                rawkey,
                pressed,
            },
            Pending::KeyAwaitFeed { serial, time, rawkey, keysym } => PendingModel::KeyAwaitFeed {
                serial,
                time,
                rawkey,
                keysym,
            },
            Pending::KeyAwaitStatus { serial, time, rawkey, keysym } => PendingModel::KeyAwaitStatus {
                serial,
                time,
                rawkey,
                keysym,
            },
            Pending::KeyAwaitComposeSize { serial, time, rawkey, keysym } => PendingModel::KeyAwaitComposeSize {
                serial,
                time,
                rawkey,
                keysym,
            },
            Pending::KeyAwaitComposeFill { serial, time, rawkey, keysym } => PendingModel::KeyAwaitComposeFill {
                serial,
                time,
                rawkey,
                keysym,
            },
            Pending::KeyAwaitDirectSize { serial, time, rawkey, keysym } => PendingModel::KeyAwaitDirectSize {
                serial,
                time,
                rawkey,
                keysym,
            },
            Pending::KeyAwaitDirectFill { serial, time, rawkey, keysym } => PendingModel::KeyAwaitDirectFill {
                serial,
                time,
                rawkey,
                keysym,
            },
            Pending::EnterAwaitSym { serial, ref rawkeys, ref keysyms } => PendingModel::EnterAwaitSym {
                serial,
                rawkeys: rawkeys@,
                keysyms: keysyms@,
            },
        }
    }
}

/// The state of one mapped keyboard.
///
/// It owns (by handle) a context, at most one keymap with its
/// interpretation state, and at most one compose table with its compose
/// state; it tracks the modifier snapshot, whether a manually specified
/// keymap locks out compositor keymaps, whether a handler is attached,
/// and the session in flight.
pub struct KbState {
    context: u64,
    keymap: Option<u64>,
    interp: Option<u64>,
    compose_table: Option<u64>,
    compose_state: Option<u64>,
    mods_state: ModifiersState,
    locked: bool,
    attached: bool,
    pending: Pending,
}

/// Mathematical shape of a [`KbState`].
#[verifier::ext_equal]
pub struct KbModel {
    /// Handle of the context
    pub context: u64,
    /// Handle of the loaded keymap, if any
    pub keymap: Option<u64>,
    /// Handle of the interpretation state, if any
    pub interp: Option<u64>,
    /// Handle of the compose table, if any
    pub compose_table: Option<u64>,
    /// Handle of the compose state, if any
    pub compose_state: Option<u64>,
    /// The current modifier snapshot
    pub mods_state: ModifiersState,
    /// Whether compositor-supplied keymaps are ignored
    pub locked: bool,
    /// Whether a handler is attached
    pub attached: bool,
    /// The session in flight
    pub pending: PendingModel,
}

impl View for KbState {
    type V = KbModel;

    closed spec fn view(&self) -> KbModel {
        KbModel {
            context: self.context,
            keymap: self.keymap,
            interp: self.interp,
            compose_table: self.compose_table,
            compose_state: self.compose_state,
            mods_state: self.mods_state,
            locked: self.locked,
            attached: self.attached,
            pending: self.pending@,
        }
    }
}

impl KbModel {
    /// Whether a keymap has been successfully loaded: the machine resolves
    /// symbols and text only when this holds.
    pub open spec fn is_ready(self) -> bool {
        self.interp is Some
    }

    /// Whether no session is in flight.
    pub open spec fn is_idle(self) -> bool {
        self.pending is Idle
    }

    /// Well-formedness: the interpretation state exists exactly when a
    /// keymap does (except in the middle of a load, where the machine is
    /// between releasing the old pair and installing the new one), the
    /// compose state never outlives its table, and each pending session
    /// only awaits an answer that the machine's resources can receive.
    pub open spec fn wf(self) -> bool {
        &&& (self.compose_state is Some ==> self.compose_table is Some)
        &&& match self.pending {
            PendingModel::Idle => self.interp is Some <==> self.keymap is Some,
            PendingModel::BytesAwaitKeymap => self.interp is None && self.keymap is None,
            PendingModel::NamesAwaitKeymap => self.interp is Some <==> self.keymap is Some,
            PendingModel::AwaitState { keymap } => self.keymap == Some(keymap) && self.interp is None,
            PendingModel::AwaitModifiers => self.interp is Some && self.keymap is Some,
            PendingModel::AwaitMask => self.interp is Some && self.keymap is Some,
            PendingModel::ComposeAwaitTable => self.compose_table is None
                && self.compose_state is None && (self.interp is Some <==> self.keymap is Some),
            PendingModel::ComposeAwaitState { .. } => self.compose_table is None
                && self.compose_state is None && (self.interp is Some <==> self.keymap is Some),
            PendingModel::KeyAwaitSym { rawkey, .. } => self.interp is Some && self.keymap is Some
                && rawkey + KEYCODE_OFFSET <= u32::MAX,
            PendingModel::KeyAwaitFeed { rawkey, .. } => self.interp is Some && self.keymap is Some
                && self.compose_state is Some && rawkey + KEYCODE_OFFSET <= u32::MAX,
            PendingModel::KeyAwaitStatus { rawkey, .. } => self.interp is Some
                && self.keymap is Some && self.compose_state is Some && rawkey + KEYCODE_OFFSET
                <= u32::MAX,
            PendingModel::KeyAwaitComposeSize { rawkey, .. } => self.interp is Some
                && self.keymap is Some && self.compose_state is Some && rawkey + KEYCODE_OFFSET
                <= u32::MAX,
            PendingModel::KeyAwaitComposeFill { rawkey, .. } => self.interp is Some
                && self.keymap is Some && self.compose_state is Some && rawkey + KEYCODE_OFFSET
                <= u32::MAX,
            PendingModel::KeyAwaitDirectSize { rawkey, .. } => self.interp is Some
                && self.keymap is Some && rawkey + KEYCODE_OFFSET <= u32::MAX,
            PendingModel::KeyAwaitDirectFill { rawkey, .. } => self.interp is Some
                && self.keymap is Some && rawkey + KEYCODE_OFFSET <= u32::MAX,
            PendingModel::EnterAwaitSym { rawkeys, keysyms, .. } => self.interp is Some
                && self.keymap is Some && keysyms.len() < rawkeys.len() && (forall|i: int|
                0 <= i < rawkeys.len() ==> rawkeys[i] + KEYCODE_OFFSET <= u32::MAX),
        }
    }
}

/// The releases that tearing a state down performs, in order: compose
/// state, compose table, interpretation state, keymap, and the context
/// last.
pub open spec fn teardown_commands(pre: KbModel) -> Seq<EngineCommand> {
    let s1: Seq<EngineCommand> = match pre.compose_state {
        Some(h) => seq![EngineCommand::ReleaseComposeState { compose: h }],
        None => Seq::empty(),
    };
    let s2: Seq<EngineCommand> = match pre.compose_table {
        Some(h) => seq![EngineCommand::ReleaseComposeTable { table: h }],
        None => Seq::empty(),
    };
    let s3: Seq<EngineCommand> = match pre.interp {
        Some(h) => seq![EngineCommand::ReleaseState { state: h }],
        None => Seq::empty(),
    };
    let s4: Seq<EngineCommand> = match pre.keymap {
        Some(h) => seq![EngineCommand::ReleaseKeymap { keymap: h }],
        None => Seq::empty(),
    };
    s1 + s2 + s3 + s4 + seq![EngineCommand::ReleaseContext { context: pre.context }]
}

/// The releases that replacing the loaded keymap performs, in order:
/// interpretation state first, then the keymap it interprets.
pub open spec fn release_pair_commands(pre: KbModel) -> Seq<EngineCommand> {
    let s1: Seq<EngineCommand> = match pre.interp {
        Some(h) => seq![EngineCommand::ReleaseState { state: h }],
        None => Seq::empty(),
    };
    let s2: Seq<EngineCommand> = match pre.keymap {
        Some(h) => seq![EngineCommand::ReleaseKeymap { keymap: h }],
        None => Seq::empty(),
    };
    s1 + s2
}

impl KbState {
    /// A fresh state over an engine context: no keymap, no compose
    /// session, nothing active, a handler attached.
    pub fn new(context: u64) -> (s: KbState)
        ensures
            s@ == (KbModel {
                context,
                keymap: None,
                interp: None,
                compose_table: None,
                compose_state: None,
                mods_state: crate::types::mods_none(),
                locked: false,
                attached: true,
                pending: PendingModel::Idle,
            }),
            s@.wf(),
    {
        KbState {
            context,
            keymap: None,
            interp: None,
            compose_table: None,
            compose_state: None,
            mods_state: ModifiersState::new(),
            locked: false,
            attached: true,
            pending: Pending::Idle,
        }
    }

    /// Whether a keymap has been successfully loaded.
    pub fn ready(&self) -> (r: bool)
        ensures
            r == self@.is_ready(),
    {
        match self.interp {
            Some(_) => true,
            None => false,
        }
    }

    /// The current modifier snapshot.
    pub fn modifiers(&self) -> (m: ModifiersState)
        ensures
            m == self@.mods_state,
    {
        self.mods_state
    }

    /// Whether a manually specified keymap locks out compositor keymaps.
    pub fn is_locked(&self) -> (r: bool)
        ensures
            r == self@.locked,
    {
        self.locked
    }

    /// Stop delivering interpreted events to the handler.  The
    /// interpretation state itself stays loaded.
    pub fn detach(&mut self)
        ensures
            final(self)@ == (KbModel { attached: false, ..old(self)@ }),
    {
        self.attached = false;
    }

    /// Resume delivering interpreted events to the handler.
    pub fn attach(&mut self)
        ensures
            final(self)@ == (KbModel { attached: true, ..old(self)@ }),
    {
        self.attached = true;
    }

    /// Tear the state down, handing back every release the driver must
    /// perform, the context last.
    pub fn teardown(self) -> (commands: Vec<EngineCommand>)
        ensures
            commands@ == teardown_commands(self@),
    {
        let mut commands: Vec<EngineCommand> = Vec::new();
        match self.compose_state {
            Some(h) => commands.push(EngineCommand::ReleaseComposeState { compose: h }),
            None => (),
        }
        match self.compose_table {
            Some(h) => commands.push(EngineCommand::ReleaseComposeTable { table: h }),
            None => (),
        }
        match self.interp {
            Some(h) => commands.push(EngineCommand::ReleaseState { state: h }),
            None => (),
        }
        match self.keymap {
            Some(h) => commands.push(EngineCommand::ReleaseKeymap { keymap: h }),
            None => (),
        }
        commands.push(EngineCommand::ReleaseContext { context: self.context });
        proof {
            assert(commands@ =~= teardown_commands(self@));
        }
        commands
    }

    /// Hand an event to the handler — or swallow it while none is
    /// attached.
    fn finish_event(&self, ev: Event) -> (r: SessionResult)
        ensures
            r@ == crate::session::emit(self@, ev@),
    {
        if self.attached {
            SessionResult::Event(ev)
        } else {
            SessionResult::Quiet
        }
    }

    /// Abandon the session `p`, which has already been taken out of the
    /// machine, releasing whatever the session had half-installed.
    fn abort_with(&mut self, p: Pending) -> (r: StepOut)
        requires
            old(self)@.pending is Idle,
        ensures
            ({
                let t = abort(KbModel { pending: p@, ..old(self)@ });
                &&& final(self)@ == t.post
                &&& r@ == (StepOutModel { commands: t.commands, step: t.step })
            }),
    {
        match p {
            Pending::AwaitState { keymap } => {
                self.keymap = None;
                StepOut {
                    commands: vec![EngineCommand::ReleaseKeymap { keymap }],
                    step: Step::Done(SessionResult::Quiet),
                }
            },
            Pending::ComposeAwaitState { table } => StepOut {
                commands: vec![EngineCommand::ReleaseComposeTable { table }],
                step: Step::Done(SessionResult::Quiet),
            },
            _ => StepOut { commands: Vec::new(), step: Step::Done(SessionResult::Quiet) },
        }
    }

    /// A compositor keymap notification.  A locked machine and the
    /// format carrying no keymap are ignored; otherwise the old pair is
    /// released and a compilation of the new bytes begins.
    pub fn on_keymap(&mut self, format: KeymapFormat) -> (r: StepOut)
        requires
            old(self)@.wf(),
            old(self)@.is_idle(),
        ensures
            ({
                let t = on_keymap_model(old(self)@, format);
                &&& final(self)@ == t.post
                &&& r@ == (StepOutModel { commands: t.commands, step: t.step })
                &&& final(self)@.wf()
            }),
    {
        match format {
            KeymapFormat::NoKeymap => StepOut {
                commands: Vec::new(),
                step: Step::Done(SessionResult::Quiet),
            },
            KeymapFormat::XkbV1 => {
                if self.locked {
                    StepOut { commands: Vec::new(), step: Step::Done(SessionResult::Quiet) }
                } else {
                    let mut commands: Vec<EngineCommand> = Vec::new();
                    match self.interp {
                        Some(h) => commands.push(EngineCommand::ReleaseState { state: h }),
                        None => (),
                    }
                    match self.keymap {
                        Some(k) => commands.push(EngineCommand::ReleaseKeymap { keymap: k }),
                        None => (),
                    }
                    self.interp = None;
                    self.keymap = None;
                    self.pending = Pending::BytesAwaitKeymap;
                    proof {
                        assert(commands@ =~= release_pair_commands(old(self)@));
                    }
                    StepOut { commands, step: Step::Query(EngineQuery::CompileKeymapFromBytes) }
                }
            },
        }
    }

    /// A modifier notification: fold the raw masks into the
    /// interpretation state.  A no-op before the machine is ready.
    pub fn on_modifiers(
        &mut self,
        mods_depressed: u32,
        mods_latched: u32,
        mods_locked: u32,
        group: u32,
    ) -> (r: StepOut)
        requires
            old(self)@.wf(),
            old(self)@.is_idle(),
        ensures
            ({
                let t = on_modifiers_model(
                    old(self)@,
                    mods_depressed,
                    mods_latched,
                    mods_locked,
                    group,
                );
                &&& final(self)@ == t.post
                &&& r@ == (StepOutModel { commands: t.commands, step: t.step })
                &&& final(self)@.wf()
            }),
    {
        match self.interp {
            None => StepOut { commands: Vec::new(), step: Step::Done(SessionResult::Quiet) },
            Some(h) => {
                self.pending = Pending::AwaitMask;
                StepOut {
                    commands: Vec::new(),
                    step: Step::Query(
                        EngineQuery::UpdateMask {
                            state: h,
                            depressed: mods_depressed,
                            latched: mods_latched,
                            locked_mods: mods_locked,
                            group,
                        },
                    ),
                }
            },
        }
    }

    /// A key notification.  Before the machine is ready the keysym is 0
    /// and no text is produced, without consulting the engine; otherwise
    /// the keysym is resolved first.  The keycode is the raw wire value;
    /// the engine offset is applied here.
    pub fn on_key(&mut self, serial: u32, time: u32, rawkey: u32, state: KeyState) -> (r: StepOut)
        requires
            old(self)@.wf(),
            old(self)@.is_idle(),
            rawkey + KEYCODE_OFFSET <= u32::MAX,
        ensures
            ({
                let t = on_key_model(old(self)@, serial, time, rawkey, state);
                &&& final(self)@ == t.post
                &&& r@ == (StepOutModel { commands: t.commands, step: t.step })
                &&& final(self)@.wf()
            }),
    {
        match self.interp {
            None => {
                let ev = Event::Key {
                    serial,
                    time,
                    mods: self.mods_state,
                    rawkey,
                    keysym: 0,
                    state,
                    utf8: None,
                };
                StepOut { commands: Vec::new(), step: Step::Done(self.finish_event(ev)) }
            },
            Some(h) => {
                let pressed = match state {
                    KeyState::Pressed => true,
                    KeyState::Released => false,
                };
                self.pending = Pending::KeyAwaitSym { serial, time, rawkey, pressed };
                StepOut {
                    commands: Vec::new(),
                    step: Step::Query(
                        EngineQuery::KeyGetOneSym { state: h, keycode: rawkey + KEYCODE_OFFSET },
                    ),
                }
            },
        }
    }

    /// A focus-loss notification: reported as it is.
    pub fn on_leave(&self, serial: u32) -> (r: StepOut)
        ensures
            ({
                let t = on_leave_model(self@, serial);
                &&& r@ == (StepOutModel { commands: t.commands, step: t.step })
            }),
    {
        StepOut {
            commands: Vec::new(),
            step: Step::Done(self.finish_event(Event::Leave { serial })),
        }
    }

    /// A repeat-info notification: rate and delay pass through unchanged.
    pub fn on_repeat_info(&self, rate: i32, delay: i32) -> (r: StepOut)
        ensures
            ({
                let t = on_repeat_info_model(self@, rate, delay);
                &&& r@ == (StepOutModel { commands: t.commands, step: t.step })
            }),
    {
        StepOut {
            commands: Vec::new(),
            step: Step::Done(self.finish_event(Event::RepeatInfo { rate, delay })),
        }
    }

    /// Load a keymap from named parameters instead of compositor bytes.
    /// A parameter that cannot be handed to the engine is rejected
    /// outright; otherwise a compilation from the names begins, and the
    /// loaded pair stays untouched until it succeeds.
    pub fn load_from_names(&mut self, rmlvo: &RMLVO) -> (r: StepOut)
        requires
            old(self)@.wf(),
            old(self)@.is_idle(),
        ensures
            ({
                let t = load_from_names_model(old(self)@, rmlvo_ok(*rmlvo));
                &&& final(self)@ == t.post
                &&& r@ == (StepOutModel { commands: t.commands, step: t.step })
                &&& final(self)@.wf()
            }),
    {
        if !rmlvo.is_valid() {
            StepOut {
                commands: Vec::new(),
                step: Step::Done(
                    SessionResult::Failed(crate::types::MappedKeyboardError::InvalidParameter),
                ),
            }
        } else {
            self.pending = Pending::NamesAwaitKeymap;
            StepOut {
                commands: Vec::new(),
                step: Step::Query(EngineQuery::CompileKeymapFromNames),
            }
        }
    }

    /// Begin building the compose session for the driver's locale.  A
    /// machine that already has one keeps it; a failure along the way
    /// merely leaves compose disabled.
    pub fn begin_compose_init(&mut self) -> (r: StepOut)
        requires
            old(self)@.wf(),
            old(self)@.is_idle(),
        ensures
            ({
                let t = begin_compose_model(old(self)@);
                &&& final(self)@ == t.post
                &&& r@ == (StepOutModel { commands: t.commands, step: t.step })
                &&& final(self)@.wf()
            }),
    {
        let has_table = match self.compose_table {
            Some(_) => true,
            None => false,
        };
        let has_state = match self.compose_state {
            Some(_) => true,
            None => false,
        };
        if has_table || has_state {
            StepOut { commands: Vec::new(), step: Step::Done(SessionResult::Quiet) }
        } else {
            self.pending = Pending::ComposeAwaitTable;
            StepOut {
                commands: Vec::new(),
                step: Step::Query(EngineQuery::CreateComposeTable { context: self.context }),
            }
        }
    }

    /// A focus-gain notification with the set of currently pressed keys.
    /// Before the machine is ready every keysym is 0; otherwise each
    /// pressed key's keysym is resolved in order, and the event is
    /// reported once the last answer is in.
    pub fn on_enter(&mut self, serial: u32, rawkeys: Vec<u32>) -> (r: StepOut)
        requires
            old(self)@.wf(),
            old(self)@.is_idle(),
            forall|i: int| 0 <= i < rawkeys@.len() ==> rawkeys@[i] + KEYCODE_OFFSET <= u32::MAX,
        ensures
            ({
                let t = on_enter_model(old(self)@, serial, rawkeys@);
                &&& final(self)@ == t.post
                &&& r@ == (StepOutModel { commands: t.commands, step: t.step })
                &&& final(self)@.wf()
            }),
    {
        match self.interp {
            None => {
                let n = rawkeys.len();
                let mut keysyms: Vec<u32> = Vec::new();
                let mut i: usize = 0;
                while i < n
                    invariant
                        i <= n,
                        keysyms@ =~= Seq::new(i as nat, |j: int| 0u32),
                    decreases n - i,
                {
                    keysyms.push(0);
                    i = i + 1;
                    proof {
                        assert(keysyms@ =~= Seq::new(i as nat, |j: int| 0u32));
                    }
                }
                let ev = Event::Enter { serial, mods: self.mods_state, rawkeys, keysyms };
                StepOut { commands: Vec::new(), step: Step::Done(self.finish_event(ev)) }
            },
            Some(h) => {
                if rawkeys.len() == 0 {
                    let keysyms: Vec<u32> = Vec::new();
                    let ev = Event::Enter { serial, mods: self.mods_state, rawkeys, keysyms };
                    StepOut { commands: Vec::new(), step: Step::Done(self.finish_event(ev)) }
                } else {
                    let keycode = rawkeys[0] + KEYCODE_OFFSET;
                    self.pending = Pending::EnterAwaitSym {
                        serial,
                        rawkeys,
                        keysyms: Vec::new(),
                    };
                    StepOut {
                        commands: Vec::new(),
                        step: Step::Query(EngineQuery::KeyGetOneSym { state: h, keycode }),
                    }
                }
            },
        }
    }

    /// The engine's answer to the query of the session in flight.  An
    /// answer that does not fit the session abandons it; an answer while
    /// no session is in flight is ignored.
    pub fn resume(&mut self, reply: EngineReply) -> (r: StepOut)
        requires
            old(self)@.wf(),
        ensures
            ({
                let t = resume_model(old(self)@, reply@);
                &&& final(self)@ == t.post
                &&& r@ == (StepOutModel { commands: t.commands, step: t.step })
                &&& final(self)@.wf()
            }),
    {
        let mut p = Pending::Idle;
        core::mem::swap(&mut p, &mut self.pending);
        match p {
            Pending::Idle => StepOut {
                commands: Vec::new(),
                step: Step::Done(SessionResult::Quiet),
            },
            Pending::BytesAwaitKeymap => {
                proof {
                    assert((KbModel { pending: PendingModel::BytesAwaitKeymap, ..self@ })
                        =~= old(self)@);
                }
                self.resume_bytes_await(reply)
            },
            Pending::NamesAwaitKeymap => {
                proof {
                    assert((KbModel { pending: PendingModel::NamesAwaitKeymap, ..self@ })
                        =~= old(self)@);
                }
                self.resume_names_await(reply)
            },
            Pending::AwaitState { keymap } => {
                proof {
                    assert((KbModel { pending: PendingModel::AwaitState { keymap }, ..self@ })
                        =~= old(self)@);
                }
                self.resume_await_state(keymap, reply)
            },
            Pending::AwaitModifiers => {
                proof {
                    assert((KbModel { pending: PendingModel::AwaitModifiers, ..self@ })
                        =~= old(self)@);
                }
                self.resume_await_modifiers(reply)
            },
            Pending::AwaitMask => {
                proof {
                    assert((KbModel { pending: PendingModel::AwaitMask, ..self@ })
                        =~= old(self)@);
                }
                self.resume_await_mask(reply)
            },
            Pending::ComposeAwaitTable => {
                proof {
                    assert((KbModel { pending: PendingModel::ComposeAwaitTable, ..self@ })
                        =~= old(self)@);
                }
                self.resume_compose_table(reply)
            },
            Pending::ComposeAwaitState { table } => {
                proof {
                    assert((KbModel {
                        pending: PendingModel::ComposeAwaitState { table },
                        ..self@
                    }) =~= old(self)@);
                }
                self.resume_compose_state(table, reply)
            },
            Pending::KeyAwaitSym { serial, time, rawkey, pressed } => {
                proof {
                    assert((KbModel {
                        pending: PendingModel::KeyAwaitSym { serial, time, rawkey, pressed },
                        ..self@
                    }) =~= old(self)@);
                }
                self.resume_key_sym(serial, time, rawkey, pressed, reply)
            },
            Pending::KeyAwaitFeed { serial, time, rawkey, keysym } => {
                proof {
                    assert((KbModel {
                        pending: PendingModel::KeyAwaitFeed { serial, time, rawkey, keysym },
                        ..self@
                    }) =~= old(self)@);
                }
                self.resume_key_feed(serial, time, rawkey, keysym, reply)
            },
            Pending::KeyAwaitStatus { serial, time, rawkey, keysym } => {
                proof {
                    assert((KbModel {
                        pending: PendingModel::KeyAwaitStatus { serial, time, rawkey, keysym },
                        ..self@
                    }) =~= old(self)@);
                }
                self.resume_key_status(serial, time, rawkey, keysym, reply)
            },
            Pending::KeyAwaitComposeSize { serial, time, rawkey, keysym } => {
                proof {
                    assert((KbModel {
                        pending: PendingModel::KeyAwaitComposeSize { serial, time, rawkey, keysym },
                        ..self@
                    }) =~= old(self)@);
                }
                self.resume_key_compose_size(serial, time, rawkey, keysym, reply)
            },
            Pending::KeyAwaitComposeFill { serial, time, rawkey, keysym } => {
                proof {
                    assert((KbModel {
                        pending: PendingModel::KeyAwaitComposeFill { serial, time, rawkey, keysym },
                        ..self@
                    }) =~= old(self)@);
                }
                self.resume_key_compose_fill(serial, time, rawkey, keysym, reply)
            },
            Pending::KeyAwaitDirectSize { serial, time, rawkey, keysym } => {
                proof {
                    assert((KbModel {
                        pending: PendingModel::KeyAwaitDirectSize { serial, time, rawkey, keysym },
                        ..self@
                    }) =~= old(self)@);
                }
                self.resume_key_direct_size(serial, time, rawkey, keysym, reply)
            },
            Pending::KeyAwaitDirectFill { serial, time, rawkey, keysym } => {
                proof {
                    assert((KbModel {
                        pending: PendingModel::KeyAwaitDirectFill { serial, time, rawkey, keysym },
                        ..self@
                    }) =~= old(self)@);
                }
                self.resume_key_direct_fill(serial, time, rawkey, keysym, reply)
            },
            Pending::EnterAwaitSym { serial, rawkeys, keysyms } => {
                proof {
                    assert((KbModel {
                        pending: PendingModel::EnterAwaitSym {
                            serial,
                            rawkeys: rawkeys@,
                            keysyms: keysyms@,
                        },
                        ..self@
                    }) =~= old(self)@);
                }
                self.resume_enter(serial, rawkeys, keysyms, reply)
            },
        }
    }

    /// The byte-blob compilation answer: install the new keymap or
    /// report the bytes as malformed.
    fn resume_bytes_await(&mut self, reply: EngineReply) -> (r: StepOut)
        requires
            old(self)@.pending is Idle,
            (KbModel { pending: PendingModel::BytesAwaitKeymap, ..old(self)@ }).wf(),
        ensures
            ({
                let t = resume_model(
                    KbModel { pending: PendingModel::BytesAwaitKeymap, ..old(self)@ },
                    reply@,
                );
                &&& final(self)@ == t.post
                &&& r@ == (StepOutModel { commands: t.commands, step: t.step })
                &&& final(self)@.wf()
            }),
    {
        match reply {
            EngineReply::Keymap { handle: None } => StepOut {
                commands: Vec::new(),
                step: Step::Done(
                    SessionResult::Failed(crate::types::MappedKeyboardError::Malformed),
                ),
            },
            EngineReply::Keymap { handle: Some(k) } => {
                self.keymap = Some(k);
                self.pending = Pending::AwaitState { keymap: k };
                StepOut {
                    commands: Vec::new(),
                    step: Step::Query(EngineQuery::CreateState { keymap: k }),
                }
            },
            _ => self.abort_with(Pending::BytesAwaitKeymap),
        }
    }

    /// The named-parameters compilation answer: on success release the
    /// old pair, install the new keymap and lock the machine; on failure
    /// leave everything untouched.
    fn resume_names_await(&mut self, reply: EngineReply) -> (r: StepOut)
        requires
            old(self)@.pending is Idle,
            (KbModel { pending: PendingModel::NamesAwaitKeymap, ..old(self)@ }).wf(),
        ensures
            ({
                let t = resume_model(
                    KbModel { pending: PendingModel::NamesAwaitKeymap, ..old(self)@ },
                    reply@,
                );
                &&& final(self)@ == t.post
                &&& r@ == (StepOutModel { commands: t.commands, step: t.step })
                &&& final(self)@.wf()
            }),
    {
        match reply {
            EngineReply::Keymap { handle: None } => StepOut {
                commands: Vec::new(),
                step: Step::Done(
                    SessionResult::Failed(crate::types::MappedKeyboardError::BadNames),
                ),
            },
            EngineReply::Keymap { handle: Some(k) } => {
                let mut commands: Vec<EngineCommand> = Vec::new();
                match self.interp {
                    Some(h) => commands.push(EngineCommand::ReleaseState { state: h }),
                    None => (),
                }
                match self.keymap {
                    Some(old_k) => commands.push(EngineCommand::ReleaseKeymap { keymap: old_k }),
                    None => (),
                }
                self.interp = None;
                self.keymap = Some(k);
                self.locked = true;
                self.pending = Pending::AwaitState { keymap: k };
                proof {
                    assert(commands@ =~= release_pair_commands(
                        KbModel { pending: PendingModel::NamesAwaitKeymap, ..old(self)@ },
                    ));
                }
                StepOut { commands, step: Step::Query(EngineQuery::CreateState { keymap: k }) }
            },
            _ => self.abort_with(Pending::NamesAwaitKeymap),
        }
    }

    /// The interpretation-state creation answer: install it and query
    /// the initial modifier snapshot.
    fn resume_await_state(&mut self, keymap: u64, reply: EngineReply) -> (r: StepOut)
        requires
            old(self)@.pending is Idle,
            (KbModel { pending: PendingModel::AwaitState { keymap }, ..old(self)@ }).wf(),
        ensures
            ({
                let t = resume_model(
                    KbModel { pending: PendingModel::AwaitState { keymap }, ..old(self)@ },
                    reply@,
                );
                &&& final(self)@ == t.post
                &&& r@ == (StepOutModel { commands: t.commands, step: t.step })
                &&& final(self)@.wf()
            }),
    {
        match reply {
            EngineReply::State { handle } => {
                self.interp = Some(handle);
                self.pending = Pending::AwaitModifiers;
                StepOut {
                    commands: Vec::new(),
                    step: Step::Query(EngineQuery::QueryModifiers { state: handle }),
                }
            },
            _ => self.abort_with(Pending::AwaitState { keymap }),
        }
    }

    /// The per-name modifier answers: install the new snapshot.
    fn resume_await_modifiers(&mut self, reply: EngineReply) -> (r: StepOut)
        requires
            old(self)@.pending is Idle,
            (KbModel { pending: PendingModel::AwaitModifiers, ..old(self)@ }).wf(),
        ensures
            ({
                let t = resume_model(
                    KbModel { pending: PendingModel::AwaitModifiers, ..old(self)@ },
                    reply@,
                );
                &&& final(self)@ == t.post
                &&& r@ == (StepOutModel { commands: t.commands, step: t.step })
                &&& final(self)@.wf()
            }),
    {
        match reply {
            EngineReply::Modifiers { active } => {
                self.mods_state.update_with(active);
                StepOut { commands: Vec::new(), step: Step::Done(SessionResult::Quiet) }
            },
            _ => self.abort_with(Pending::AwaitModifiers),
        }
    }

    /// The changed-components answer of a mask update: the snapshot is
    /// recomputed only when the effective modifiers changed.
    fn resume_await_mask(&mut self, reply: EngineReply) -> (r: StepOut)
        requires
            old(self)@.pending is Idle,
            (KbModel { pending: PendingModel::AwaitMask, ..old(self)@ }).wf(),
        ensures
            ({
                let t = resume_model(
                    KbModel { pending: PendingModel::AwaitMask, ..old(self)@ },
                    reply@,
                );
                &&& final(self)@ == t.post
                &&& r@ == (StepOutModel { commands: t.commands, step: t.step })
                &&& final(self)@.wf()
            }),
    {
        match reply {
            EngineReply::Mask { changed } => {
                if changed & MODS_EFFECTIVE != 0 {
                    let h = match self.interp {
                        Some(h) => h,
                        None => {
                            proof {
                                assert(false);
                            }
                            0
                        },
                    };
                    self.pending = Pending::AwaitModifiers;
                    StepOut {
                        commands: Vec::new(),
                        step: Step::Query(EngineQuery::QueryModifiers { state: h }),
                    }
                } else {
                    StepOut { commands: Vec::new(), step: Step::Done(SessionResult::Quiet) }
                }
            },
            _ => self.abort_with(Pending::AwaitMask),
        }
    }

    /// The compose-table construction answer: on failure compose simply
    /// stays disabled.
    fn resume_compose_table(&mut self, reply: EngineReply) -> (r: StepOut)
        requires
            old(self)@.pending is Idle,
            (KbModel { pending: PendingModel::ComposeAwaitTable, ..old(self)@ }).wf(),
        ensures
            ({
                let t = resume_model(
                    KbModel { pending: PendingModel::ComposeAwaitTable, ..old(self)@ },
                    reply@,
                );
                &&& final(self)@ == t.post
                &&& r@ == (StepOutModel { commands: t.commands, step: t.step })
                &&& final(self)@.wf()
            }),
    {
        match reply {
            EngineReply::ComposeHandle { handle: None } => StepOut {
                commands: Vec::new(),
                step: Step::Done(SessionResult::Quiet),
            },
            EngineReply::ComposeHandle { handle: Some(t) } => {
                self.pending = Pending::ComposeAwaitState { table: t };
                StepOut {
                    commands: Vec::new(),
                    step: Step::Query(EngineQuery::CreateComposeState { table: t }),
                }
            },
            _ => self.abort_with(Pending::ComposeAwaitTable),
        }
    }

    /// The compose-state construction answer: on failure the half-built
    /// table is released and compose stays disabled.
    fn resume_compose_state(&mut self, table: u64, reply: EngineReply) -> (r: StepOut)
        requires
            old(self)@.pending is Idle,
            (KbModel { pending: PendingModel::ComposeAwaitState { table }, ..old(self)@ }).wf(),
        ensures
            ({
                let t = resume_model(
                    KbModel { pending: PendingModel::ComposeAwaitState { table }, ..old(self)@ },
                    reply@,
                );
                &&& final(self)@ == t.post
                &&& r@ == (StepOutModel { commands: t.commands, step: t.step })
                &&& final(self)@.wf()
            }),
    {
        match reply {
            EngineReply::ComposeHandle { handle: None } => StepOut {
                commands: vec![EngineCommand::ReleaseComposeTable { table }],
                step: Step::Done(SessionResult::Quiet),
            },
            EngineReply::ComposeHandle { handle: Some(s) } => {
                self.compose_table = Some(table);
                self.compose_state = Some(s);
                StepOut { commands: Vec::new(), step: Step::Done(SessionResult::Quiet) }
            },
            _ => self.abort_with(Pending::ComposeAwaitState { table }),
        }
    }

    /// The keysym answer of a key event.  A release reports the keysym
    /// with no text; a press is fed to compose when a session exists and
    /// resolved directly otherwise.
    fn resume_key_sym(
        &mut self,
        serial: u32,
        time: u32,
        rawkey: u32,
        pressed: bool,
        reply: EngineReply,
    ) -> (r: StepOut)
        requires
            old(self)@.pending is Idle,
            (KbModel {
                pending: PendingModel::KeyAwaitSym { serial, time, rawkey, pressed },
                ..old(self)@
            }).wf(),
        ensures
            ({
                let t = resume_model(
                    KbModel {
                        pending: PendingModel::KeyAwaitSym { serial, time, rawkey, pressed },
                        ..old(self)@
                    },
                    reply@,
                );
                &&& final(self)@ == t.post
                &&& r@ == (StepOutModel { commands: t.commands, step: t.step })
                &&& final(self)@.wf()
            }),
    {
        match reply {
            EngineReply::Sym { keysym } => {
                if !pressed {
                    let ev = Event::Key {
                        serial,
                        time,
                        mods: self.mods_state,
                        rawkey,
                        keysym,
                        state: KeyState::Released,
                        utf8: None,
                    };
                    StepOut { commands: Vec::new(), step: Step::Done(self.finish_event(ev)) }
                } else {
                    match self.compose_state {
                        Some(c) => {
                            self.pending = Pending::KeyAwaitFeed { serial, time, rawkey, keysym };
                            StepOut {
                                commands: Vec::new(),
                                step: Step::Query(EngineQuery::ComposeFeed { compose: c, keysym }),
                            }
                        },
                        None => self.direct_size(serial, time, rawkey, keysym),
                    }
                }
            },
            _ => self.abort_with(Pending::KeyAwaitSym { serial, time, rawkey, pressed }),
        }
    }

    /// The compose-feed answer: an accepted keysym continues with the
    /// status query, a rejected one falls back to direct resolution.
    fn resume_key_feed(
        &mut self,
        serial: u32,
        time: u32,
        rawkey: u32,
        keysym: u32,
        reply: EngineReply,
    ) -> (r: StepOut)
        requires
            old(self)@.pending is Idle,
            (KbModel {
                pending: PendingModel::KeyAwaitFeed { serial, time, rawkey, keysym },
                ..old(self)@
            }).wf(),
        ensures
            ({
                let t = resume_model(
                    KbModel {
                        pending: PendingModel::KeyAwaitFeed { serial, time, rawkey, keysym },
                        ..old(self)@
                    },
                    reply@,
                );
                &&& final(self)@ == t.post
                &&& r@ == (StepOutModel { commands: t.commands, step: t.step })
                &&& final(self)@.wf()
            }),
    {
        match reply {
            EngineReply::Feed { result } => match result {
                crate::types::ComposeFeedResult::Accepted => {
                    let c = match self.compose_state {
                        Some(c) => c,
                        None => {
                            proof {
                                assert(false);
                            }
                            0
                        },
                    };
                    self.pending = Pending::KeyAwaitStatus { serial, time, rawkey, keysym };
                    StepOut {
                        commands: Vec::new(),
                        step: Step::Query(EngineQuery::GetComposeStatus { compose: c }),
                    }
                },
                crate::types::ComposeFeedResult::Ignored => self.direct_size(
                    serial, time, rawkey, keysym,
                ),
            },
            _ => self.abort_with(Pending::KeyAwaitFeed { serial, time, rawkey, keysym }),
        }
    }

    /// The compose status: composed text is read out, no sequence falls
    /// back to direct resolution, and a sequence in progress or just
    /// cancelled produces no text.
    fn resume_key_status(
        &mut self,
        serial: u32,
        time: u32,
        rawkey: u32,
        keysym: u32,
        reply: EngineReply,
    ) -> (r: StepOut)
        requires
            old(self)@.pending is Idle,
            (KbModel {
                pending: PendingModel::KeyAwaitStatus { serial, time, rawkey, keysym },
                ..old(self)@
            }).wf(),
        ensures
            ({
                let t = resume_model(
                    KbModel {
                        pending: PendingModel::KeyAwaitStatus { serial, time, rawkey, keysym },
                        ..old(self)@
                    },
                    reply@,
                );
                &&& final(self)@ == t.post
                &&& r@ == (StepOutModel { commands: t.commands, step: t.step })
                &&& final(self)@.wf()
            }),
    {
        match reply {
            EngineReply::Status { status } => match status {
                crate::types::ComposeStatus::Composed => {
                    let c = match self.compose_state {
                        Some(c) => c,
                        None => {
                            proof {
                                assert(false);
                            }
                            0
                        },
                    };
                    self.pending = Pending::KeyAwaitComposeSize { serial, time, rawkey, keysym };
                    StepOut {
                        commands: Vec::new(),
                        step: Step::Query(EngineQuery::ComposeUtf8Size { compose: c }),
                    }
                },
                crate::types::ComposeStatus::Nothing => self.direct_size(
                    serial, time, rawkey, keysym,
                ),
                crate::types::ComposeStatus::Composing => self.key_event_done(
                    serial, time, rawkey, keysym, None,
                ),
                crate::types::ComposeStatus::Cancelled => self.key_event_done(
                    serial, time, rawkey, keysym, None,
                ),
            },
            _ => self.abort_with(Pending::KeyAwaitStatus { serial, time, rawkey, keysym }),
        }
    }

    /// The composed text's byte count: a size of at most one byte (just
    /// the terminator) yields no text, anything larger is fetched with a
    /// buffer of exactly that size.
    fn resume_key_compose_size(
        &mut self,
        serial: u32,
        time: u32,
        rawkey: u32,
        keysym: u32,
        reply: EngineReply,
    ) -> (r: StepOut)
        requires
            old(self)@.pending is Idle,
            (KbModel {
                pending: PendingModel::KeyAwaitComposeSize { serial, time, rawkey, keysym },
                ..old(self)@
            }).wf(),
        ensures
            ({
                let t = resume_model(
                    KbModel {
                        pending: PendingModel::KeyAwaitComposeSize { serial, time, rawkey, keysym },
                        ..old(self)@
                    },
                    reply@,
                );
                &&& final(self)@ == t.post
                &&& r@ == (StepOutModel { commands: t.commands, step: t.step })
                &&& final(self)@.wf()
            }),
    {
        match reply {
            EngineReply::Size { size } => {
                if size <= 1 {
                    self.key_event_done(serial, time, rawkey, keysym, None)
                } else {
                    let c = match self.compose_state {
                        Some(c) => c,
                        None => {
                            proof {
                                assert(false);
                            }
                            0
                        },
                    };
                    self.pending = Pending::KeyAwaitComposeFill { serial, time, rawkey, keysym };
                    StepOut {
                        commands: Vec::new(),
                        step: Step::Query(EngineQuery::ComposeUtf8Fill { compose: c, size }),
                    }
                }
            },
            _ => self.abort_with(Pending::KeyAwaitComposeSize { serial, time, rawkey, keysym }),
        }
    }

    /// The composed text: reported with the trailing terminator
    /// stripped.
    fn resume_key_compose_fill(
        &mut self,
        serial: u32,
        time: u32,
        rawkey: u32,
        keysym: u32,
        reply: EngineReply,
    ) -> (r: StepOut)
        requires
            old(self)@.pending is Idle,
            (KbModel {
                pending: PendingModel::KeyAwaitComposeFill { serial, time, rawkey, keysym },
                ..old(self)@
            }).wf(),
        ensures
            ({
                let t = resume_model(
                    KbModel {
                        pending: PendingModel::KeyAwaitComposeFill { serial, time, rawkey, keysym },
                        ..old(self)@
                    },
                    reply@,
                );
                &&& final(self)@ == t.post
                &&& r@ == (StepOutModel { commands: t.commands, step: t.step })
                &&& final(self)@.wf()
            }),
    {
        match reply {
            EngineReply::Bytes { bytes } => {
                let text = Self::strip_terminator_exec(bytes);
                self.key_event_done(serial, time, rawkey, keysym, text)
            },
            _ => self.abort_with(Pending::KeyAwaitComposeFill { serial, time, rawkey, keysym }),
        }
    }

    /// The directly resolved text's byte count: a size of at most one
    /// byte yields no text, anything larger is fetched with a buffer of
    /// exactly that size.
    fn resume_key_direct_size(
        &mut self,
        serial: u32,
        time: u32,
        rawkey: u32,
        keysym: u32,
        reply: EngineReply,
    ) -> (r: StepOut)
        requires
            old(self)@.pending is Idle,
            (KbModel {
                pending: PendingModel::KeyAwaitDirectSize { serial, time, rawkey, keysym },
                ..old(self)@
            }).wf(),
        ensures
            ({
                let t = resume_model(
                    KbModel {
                        pending: PendingModel::KeyAwaitDirectSize { serial, time, rawkey, keysym },
                        ..old(self)@
                    },
                    reply@,
                );
                &&& final(self)@ == t.post
                &&& r@ == (StepOutModel { commands: t.commands, step: t.step })
                &&& final(self)@.wf()
            }),
    {
        match reply {
            EngineReply::Size { size } => {
                if size <= 1 {
                    self.key_event_done(serial, time, rawkey, keysym, None)
                } else {
                    let h = match self.interp {
                        Some(h) => h,
                        None => {
                            proof {
                                assert(false);
                            }
                            0
                        },
                    };
                    self.pending = Pending::KeyAwaitDirectFill { serial, time, rawkey, keysym };
                    StepOut {
                        commands: Vec::new(),
                        step: Step::Query(
                            EngineQuery::KeyGetUtf8Fill {
                                state: h,
                                keycode: rawkey + KEYCODE_OFFSET,
                                size,
                            },
                        ),
                    }
                }
            },
            _ => self.abort_with(Pending::KeyAwaitDirectSize { serial, time, rawkey, keysym }),
        }
    }

    /// The directly resolved text: reported with the trailing terminator
    /// stripped.
    fn resume_key_direct_fill(
        &mut self,
        serial: u32,
        time: u32,
        rawkey: u32,
        keysym: u32,
        reply: EngineReply,
    ) -> (r: StepOut)
        requires
            old(self)@.pending is Idle,
            (KbModel {
                pending: PendingModel::KeyAwaitDirectFill { serial, time, rawkey, keysym },
                ..old(self)@
            }).wf(),
        ensures
            ({
                let t = resume_model(
                    KbModel {
                        pending: PendingModel::KeyAwaitDirectFill { serial, time, rawkey, keysym },
                        ..old(self)@
                    },
                    reply@,
                );
                &&& final(self)@ == t.post
                &&& r@ == (StepOutModel { commands: t.commands, step: t.step })
                &&& final(self)@.wf()
            }),
    {
        match reply {
            EngineReply::Bytes { bytes } => {
                let text = Self::strip_terminator_exec(bytes);
                self.key_event_done(serial, time, rawkey, keysym, text)
            },
            _ => self.abort_with(Pending::KeyAwaitDirectFill { serial, time, rawkey, keysym }),
        }
    }

    /// One keysym answer of a focus-gain event: recorded, and either the
    /// next pressed key is queried or the event is reported.
    fn resume_enter(
        &mut self,
        serial: u32,
        rawkeys: Vec<u32>,
        keysyms: Vec<u32>,
        reply: EngineReply,
    ) -> (r: StepOut)
        requires
            old(self)@.pending is Idle,
            (KbModel {
                pending: PendingModel::EnterAwaitSym {
                    serial,
                    rawkeys: rawkeys@,
                    keysyms: keysyms@,
                },
                ..old(self)@
            }).wf(),
        ensures
            ({
                let t = resume_model(
                    KbModel {
                        pending: PendingModel::EnterAwaitSym {
                            serial,
                            rawkeys: rawkeys@,
                            keysyms: keysyms@,
                        },
                        ..old(self)@
                    },
                    reply@,
                );
                &&& final(self)@ == t.post
                &&& r@ == (StepOutModel { commands: t.commands, step: t.step })
                &&& final(self)@.wf()
            }),
    {
        match reply {
            EngineReply::Sym { keysym } => {
                let mut keysyms = keysyms;
                keysyms.push(keysym);
                if keysyms.len() == rawkeys.len() {
                    let ev = Event::Enter { serial, mods: self.mods_state, rawkeys, keysyms };
                    StepOut { commands: Vec::new(), step: Step::Done(self.finish_event(ev)) }
                } else {
                    let h = match self.interp {
                        Some(h) => h,
                        None => {
                            proof {
                                assert(false);
                            }
                            0
                        },
                    };
                    let keycode = rawkeys[keysyms.len()] + KEYCODE_OFFSET;
                    self.pending = Pending::EnterAwaitSym { serial, rawkeys, keysyms };
                    StepOut {
                        commands: Vec::new(),
                        step: Step::Query(EngineQuery::KeyGetOneSym { state: h, keycode }),
                    }
                }
            },
            _ => self.abort_with(Pending::EnterAwaitSym { serial, rawkeys, keysyms }),
        }
    }


    /// Begin direct text resolution for a pressed key: the first phase
    /// of the two-phase query.
    fn direct_size(&mut self, serial: u32, time: u32, rawkey: u32, keysym: u32) -> (r: StepOut)
        requires
            old(self)@.interp is Some,
            old(self)@.pending is Idle,
            rawkey + KEYCODE_OFFSET <= u32::MAX,
        ensures
            ({
                let t = crate::session::direct_size_query(
                    KbModel { pending: old(self)@.pending, ..old(self)@ },
                    serial,
                    time,
                    rawkey,
                    keysym,
                );
                &&& final(self)@ == t.post
                &&& r@ == (StepOutModel { commands: t.commands, step: t.step })
            }),
    {
        let h = match self.interp {
            Some(h) => h,
            None => {
                proof {
                    assert(false);
                }
                0
            },
        };
        self.pending = Pending::KeyAwaitDirectSize { serial, time, rawkey, keysym };
        StepOut {
            commands: Vec::new(),
            step: Step::Query(
                EngineQuery::KeyGetUtf8Size { state: h, keycode: rawkey + KEYCODE_OFFSET },
            ),
        }
    }

    /// Finish a key session: report the key with the text it produced.
    fn key_event_done(
        &self,
        serial: u32,
        time: u32,
        rawkey: u32,
        keysym: u32,
        utf8: Option<Vec<u8>>,
    ) -> (r: StepOut)
        ensures
            ({
                let t = crate::session::key_done(
                    self@,
                    serial,
                    time,
                    rawkey,
                    keysym,
                    KeyState::Pressed,
                    match utf8 {
                        Some(b) => Some(b@),
                        None => None,
                    },
                );
                &&& r@ == (StepOutModel { commands: t.commands, step: t.step })
                &&& t.post == (KbModel { pending: PendingModel::Idle, ..self@ })
            }),
    {
        let ev = Event::Key {
            serial,
            time,
            mods: self.mods_state,
            rawkey,
            keysym,
            state: KeyState::Pressed,
            utf8,
        };
        StepOut { commands: Vec::new(), step: Step::Done(self.finish_event(ev)) }
    }

    /// The text a filled buffer yields: everything up to the trailing
    /// terminator byte.
    fn strip_terminator_exec(bytes: Vec<u8>) -> (r: Option<Vec<u8>>)
        ensures
            ({
                let s = crate::session::strip_terminator(bytes@);
                match r {
                    Some(b) => s == Some(b@),
                    None => s is None,
                }
            }),
    {
        let mut b = bytes;
        if b.len() == 0 {
            None
        } else {
            b.pop();
            Some(b)
        }
    }
}

} // verus!
