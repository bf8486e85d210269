//! The request/reply protocol between the state machine and the external
//! interpretation engine.
//!
//! The engine owns opaque native resources (a context, a keymap, an
//! interpretation state, a compose table and a compose state); the library
//! refers to each by an opaque handle and never dereferences one.  A
//! [`EngineQuery`] names one engine call whose answer the machine needs;
//! an [`EngineCommand`] names one fire-and-forget release.

use crate::types::{ComposeFeedResult, ComposeStatus, ModifierActivation};
use vstd::prelude::*;

verus! {

/// The bit of the engine's changed-components bitset that reports a change
/// of the effective modifiers.
pub const MODS_EFFECTIVE: u32 = 8;

/// The fixed offset between a raw wire keycode and the keycode space the
/// engine queries expect.
pub const KEYCODE_OFFSET: u32 = 8;

/// One engine call whose result the state machine is waiting for.
///
/// `keycode` fields already carry the [`KEYCODE_OFFSET`] applied by the
/// machine; a driver passes them to the engine unchanged.
#[derive(Copy, Clone, Debug, PartialEq, Eq, Structural)]
pub enum EngineQuery {
    /// Compile a keymap from the byte blob the driver is holding for the
    /// keymap event it is dispatching; answered with [`EngineReply::Keymap`]
    CompileKeymapFromBytes,
    /// Compile a keymap from the named parameters the driver passed to
    /// `load_from_names`; answered with [`EngineReply::Keymap`]
    CompileKeymapFromNames,
    /// Create an interpretation state for the compiled keymap; answered
    /// with [`EngineReply::State`]
    CreateState {
        /// Handle of the keymap to interpret
        keymap: u64,
    },
    /// Fold the raw modifier masks into the interpretation state; answered
    /// with [`EngineReply::Mask`] carrying the changed-components bitset
    UpdateMask {
        /// Handle of the interpretation state
        state: u64,
        /// Depressed modifier mask
        depressed: u32,
        /// Latched modifier mask
        latched: u32,
        /// Locked modifier mask
        locked_mods: u32,
        /// Layout group index
        group: u32,
    },
    /// Query, for each named modifier, whether it is effectively active;
    /// answered with [`EngineReply::Modifiers`]
    QueryModifiers {
        /// Handle of the interpretation state
        state: u64,
    },
    /// Resolve a keycode to a single keysym; answered with
    /// [`EngineReply::Sym`]
    KeyGetOneSym {
        /// Handle of the interpretation state
        state: u64,
        /// Engine keycode (offset already applied)
        keycode: u32,
    },
    /// First phase of text resolution: ask, with a null buffer, how many
    /// bytes the text needs including the terminator; answered with
    /// [`EngineReply::Size`]
    KeyGetUtf8Size {
        /// Handle of the interpretation state
        state: u64,
        /// Engine keycode (offset already applied)
        keycode: u32,
    },
    /// Second phase of text resolution: fill a buffer of exactly `size`
    /// bytes; answered with [`EngineReply::Bytes`]
    KeyGetUtf8Fill {
        /// Handle of the interpretation state
        state: u64,
        /// Engine keycode (offset already applied)
        keycode: u32,
        /// Byte count to allocate, terminator included
        size: u32,
    },
    /// Build a compose table for the locale the driver chose; answered
    /// with [`EngineReply::ComposeHandle`]
    CreateComposeTable {
        /// Handle of the context
        context: u64,
    },
    /// Create a compose state over a compose table; answered with
    /// [`EngineReply::ComposeHandle`]
    CreateComposeState {
        /// Handle of the compose table
        table: u64,
    },
    /// Feed one keysym into the compose state; answered with
    /// [`EngineReply::Feed`]
    ComposeFeed {
        /// Handle of the compose state
        compose: u64,
        /// The keysym to feed
        keysym: u32,
    },
    /// Query the status of the compose state; answered with
    /// [`EngineReply::Status`]
    GetComposeStatus {
        /// Handle of the compose state
        compose: u64,
    },
    /// First phase of reading composed text: its byte count including the
    /// terminator; answered with [`EngineReply::Size`]
    ComposeUtf8Size {
        /// Handle of the compose state
        compose: u64,
    },
    /// Second phase of reading composed text: fill a buffer of exactly
    /// `size` bytes; answered with [`EngineReply::Bytes`]
    ComposeUtf8Fill {
        /// Handle of the compose state
        compose: u64,
        /// Byte count to allocate, terminator included
        size: u32,
    },
}

/// One release of a native resource.  A command needs no answer; the
/// machine has already forgotten the handle when it emits one.
#[derive(Copy, Clone, Debug, PartialEq, Eq, Structural)]
pub enum EngineCommand {
    /// Release an interpretation state
    ReleaseState {
        /// Handle of the interpretation state
        state: u64,
    },
    /// Release a keymap
    ReleaseKeymap {
        /// Handle of the keymap
        keymap: u64,
    },
    /// Release a compose state
    ReleaseComposeState {
        /// Handle of the compose state
        compose: u64,
    },
    /// Release a compose table
    ReleaseComposeTable {
        /// Handle of the compose table
        table: u64,
    },
    /// Release the context
    ReleaseContext {
        /// Handle of the context
        context: u64,
    },
}

/// The engine's answer to the query the machine was waiting for.
#[derive(Clone, Debug, PartialEq, Eq)]
pub enum EngineReply {
    /// Result of a keymap compilation; `None` when compilation failed
    Keymap {
        /// Handle of the compiled keymap, if any
        handle: Option<u64>,
    },
    /// Handle of a freshly created interpretation state
    State {
        /// Handle of the interpretation state
        handle: u64,
    },
    /// Changed-components bitset returned by a mask update
    Mask {
        /// The changed components; bit [`MODS_EFFECTIVE`] reports a change
        /// of the effective modifiers
        changed: u32,
    },
    /// The per-name effective-activation answers
    Modifiers {
        /// One answer per named modifier
        active: ModifierActivation,
    },
    /// A resolved keysym
    Sym {
        /// The keysym; 0 when the keycode maps to no single symbol
        keysym: u32,
    },
    /// A text byte count, terminator included
    Size {
        /// The byte count
        size: u32,
    },
    /// A filled text buffer, terminator included
    Bytes {
        /// The buffer contents
        bytes: Vec<u8>,
    },
    /// Answer to a compose feed
    Feed {
        /// Whether the keysym was accepted into the sequence
        result: ComposeFeedResult,
    },
    /// Status of the compose state
    Status {
        /// The reported status
        status: ComposeStatus,
    },
    /// Result of building a compose table or compose state; `None` when
    /// the construction failed
    ComposeHandle {
        /// The new handle, if any
        handle: Option<u64>,
    },
}

/// Mathematical shape of an [`EngineReply`], with the buffer as a sequence.
#[verifier::ext_equal]
pub enum ReplyModel {
    /// Result of a keymap compilation
    Keymap {
        /// Handle of the compiled keymap, if any
        handle: Option<u64>,
    },
    /// Handle of a freshly created interpretation state
    State {
        /// Handle of the interpretation state
        handle: u64,
    },
    /// Changed-components bitset
    Mask {
        /// The changed components
        changed: u32,
    },
    /// The per-name effective-activation answers
    Modifiers {
        /// One answer per named modifier
        active: ModifierActivation,
    },
    /// A resolved keysym
    Sym {
        /// The keysym
        keysym: u32,
    },
    /// A text byte count, terminator included
    Size {
        /// The byte count
        size: u32,
    },
    /// A filled text buffer, terminator included
    Bytes {
        /// The buffer contents
        bytes: Seq<u8>,
    },
    /// Answer to a compose feed
    Feed {
        /// Whether the keysym was accepted
        result: ComposeFeedResult,
    },
    /// Status of the compose state
    Status {
        /// The reported status
        status: ComposeStatus,
    },
    /// Result of building a compose table or compose state
    ComposeHandle {
        /// The new handle, if any
        handle: Option<u64>,
    },
}

impl View for EngineReply {
    type V = ReplyModel;

    open spec fn view(&self) -> ReplyModel {
        match *self {
            EngineReply::Keymap { handle } => ReplyModel::Keymap { handle },
            EngineReply::State { handle } => ReplyModel::State { handle },
            EngineReply::Mask { changed } => ReplyModel::Mask { changed },
            EngineReply::Modifiers { active } => ReplyModel::Modifiers { active },
            EngineReply::Sym { keysym } => ReplyModel::Sym { keysym },
            EngineReply::Size { size } => ReplyModel::Size { size },
            EngineReply::Bytes { ref bytes } => ReplyModel::Bytes { bytes: bytes@ },
            EngineReply::Feed { result } => ReplyModel::Feed { result },
            EngineReply::Status { status } => ReplyModel::Status { status },
            EngineReply::ComposeHandle { handle } => ReplyModel::ComposeHandle { handle },
        }
    }
}

} // verus!
