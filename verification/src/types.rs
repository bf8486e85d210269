//! Plain data carried through the keyboard state machine.

use vstd::prelude::*;

verus! {

/// Current state of the keyboard modifiers.
///
/// Each field represents a modifier and is `true` if this modifier is
/// active.  For some modifiers, this means that the key is currently
/// pressed, others are toggled (like caps lock).
#[derive(Copy, Clone, Debug, PartialEq, Eq, Structural)]
pub struct ModifiersState {
    /// The "control" key
    pub ctrl: bool,
    /// The "alt" key
    pub alt: bool,
    /// The "shift" key
    pub shift: bool,
    /// The "Caps lock" key
    pub caps_lock: bool,
    /// The "logo" key, also known as the "windows" key on most keyboards
    pub logo: bool,
    /// The "Num lock" key
    pub num_lock: bool,
}

/// The engine's answers to the six per-name effective-activation queries,
/// one for each named modifier that the snapshot tracks.
#[derive(Copy, Clone, Debug, PartialEq, Eq, Structural)]
pub struct ModifierActivation {
    /// Whether the "control" modifier is effectively active
    pub ctrl: bool,
    /// Whether the "alt" modifier is effectively active
    pub alt: bool,
    /// Whether the "shift" modifier is effectively active
    pub shift: bool,
    /// Whether the "caps lock" modifier is effectively active
    pub caps_lock: bool,
    /// Whether the "logo" modifier is effectively active
    pub logo: bool,
    /// Whether the "num lock" modifier is effectively active
    pub num_lock: bool,
}

/// The modifier snapshot that a [`ModifierActivation`] reply induces.
pub open spec fn mods_from_activation(active: ModifierActivation) -> ModifiersState {
    ModifiersState {
        ctrl: active.ctrl,
        alt: active.alt,
        shift: active.shift,
        caps_lock: active.caps_lock,
        logo: active.logo,
        num_lock: active.num_lock,
    }
}

/// The snapshot in which nothing is active.
pub open spec fn mods_none() -> ModifiersState {
    ModifiersState {
        ctrl: false,
        alt: false,
        shift: false,
        caps_lock: false,
        logo: false,
        num_lock: false,
    }
}

impl ModifiersState {
    /// The snapshot before any modifier update: nothing active.
    pub fn new() -> (r: ModifiersState)
        ensures
            r == mods_none(),
    {
        ModifiersState {
            ctrl: false,
            alt: false,
            shift: false,
            caps_lock: false,
            logo: false,
            num_lock: false,
        }
    }

    /// Recompute every field of the snapshot from the engine's per-name
    /// effective-activation answers.
    pub fn update_with(&mut self, active: ModifierActivation)
        ensures
            *final(self) == mods_from_activation(active),
    {
        self.ctrl = active.ctrl;
        self.alt = active.alt;
        self.shift = active.shift;
        self.caps_lock = active.caps_lock;
        self.logo = active.logo;
        self.num_lock = active.num_lock;
    }
}

/// An error that occurred while trying to initialize or reload a mapped
/// keyboard.
#[derive(Copy, Clone, Debug, PartialEq, Eq, Structural)]
pub enum MappedKeyboardError {
    /// The interpretation engine is not available
    XKBNotFound,
    /// The provided names specified a keymap that would not be loaded
    BadNames,
    /// The keymap bytes handed over for loading could not be compiled
    Malformed,
    /// A provided parameter string cannot be handed to the engine
    /// (it contains a NUL byte)
    InvalidParameter,
}

/// The named-parameters description of a keymap.
///
/// All fields are optional, and the engine default is used for a field
/// that is `None`.
pub struct RMLVO {
    /// The rules file to use
    pub rules: Option<String>,
    /// The keyboard model by which to interpret keycodes and LEDs
    pub model: Option<String>,
    /// A comma separated list of layouts (languages) to include in the keymap
    pub layout: Option<String>,
    /// A comma separated list of variants, one per layout, which may modify or
    /// augment the respective layout in various ways
    pub variant: Option<String>,
    /// A comma separated list of options, through which the user specifies
    /// non-layout related preferences, like which key combinations are
    /// used for switching layouts, or which key is the Compose key
    pub options: Option<String>,
}

/// Whether a byte string can be handed to the engine as a C string:
/// it holds no NUL byte.
pub open spec fn bytes_nul_free(b: Seq<u8>) -> bool {
    forall|i: int| 0 <= i < b.len() ==> b[i] != 0
}

/// Whether an optional parameter string can be handed to the engine:
/// absent, or encoding to bytes without a NUL.
pub open spec fn opt_name_ok(name: Option<String>) -> bool {
    match name {
        Some(s) => bytes_nul_free(vstd::utf8::encode_utf8(s@)),
        None => true,
    }
}

/// Whether every parameter string of a named-keymap description can be
/// handed to the engine.
pub open spec fn rmlvo_ok(r: RMLVO) -> bool {
    &&& opt_name_ok(r.rules)
    &&& opt_name_ok(r.model)
    &&& opt_name_ok(r.layout)
    &&& opt_name_ok(r.variant)
    &&& opt_name_ok(r.options)
}

/// Whether a byte slice holds no NUL byte.
pub fn nul_free_bytes(b: &[u8]) -> (r: bool)
    ensures
        r == bytes_nul_free(b@),
{
    let mut i: usize = 0;
    while i < b.len()
        invariant
            i <= b@.len(),
            forall|j: int| 0 <= j < i ==> b@[j] != 0,
        decreases b@.len() - i,
    {
        if b[i] == 0 {
            return false;
        }
        i = i + 1;
    }
    true
}

/// Whether an optional parameter string can be handed to the engine.
pub fn name_ok(name: &Option<String>) -> (r: bool)
    ensures
        r == opt_name_ok(*name),
{
    match name {
        Some(s) => nul_free_bytes(s.as_str().as_bytes()),
        None => true,
    }
}

impl RMLVO {
    /// Whether every parameter string of this description can be handed
    /// to the engine.
    pub fn is_valid(&self) -> (r: bool)
        ensures
            r == rmlvo_ok(*self),
    {
        let rules_ok = name_ok(&self.rules);
        let model_ok = name_ok(&self.model);
        let layout_ok = name_ok(&self.layout);
        let variant_ok = name_ok(&self.variant);
        let options_ok = name_ok(&self.options);
        rules_ok && model_ok && layout_ok && variant_ok && options_ok
    }
}

/// The serialization format of a keymap handed over by the compositor.
#[derive(Copy, Clone, Debug, PartialEq, Eq, Structural)]
pub enum KeymapFormat {
    /// The textual keymap description the engine compiles
    XkbV1,
    /// No keymap is available for this keyboard
    NoKeymap,
}

/// Whether a key event is a press or a release.
#[derive(Copy, Clone, Debug, PartialEq, Eq, Structural)]
pub enum KeyState {
    /// The key was released
    Released,
    /// The key was pressed
    Pressed,
}

/// The engine's answer to feeding one keysym into the compose state.
#[derive(Copy, Clone, Debug, PartialEq, Eq, Structural)]
pub enum ComposeFeedResult {
    /// The keysym was accepted into the current sequence
    Accepted,
    /// The keysym is not part of a compose sequence here
    Ignored,
}

/// The status of the compose state after a feed.
#[derive(Copy, Clone, Debug, PartialEq, Eq, Structural)]
pub enum ComposeStatus {
    /// No compose sequence is in progress
    Nothing,
    /// A sequence is in progress
    Composing,
    /// A sequence was just completed
    Composed,
    /// The last sequence was cancelled
    Cancelled,
}

} // verus!
