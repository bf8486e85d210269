//! Keyboard-interpretation core for a display-server input client.
//!
//! Raw hardware key events and modifier masks are interpreted into key
//! symbols and UTF-8 text with the help of an external interpretation
//! engine that compiles a keymap at runtime.  The engine is reached only
//! through an explicit request/reply protocol: every operation that needs
//! the engine returns an [`engine::EngineQuery`] describing the single call
//! to perform, and the caller hands the answer back through
//! [`state::KbState::resume`].  The state machine itself — keymap lifecycle,
//! modifier tracking, symbol and text resolution, and compose-sequence
//! policy — is verified.

pub mod engine;
pub mod events;
pub mod laws;
pub mod locale;
pub mod session;
pub mod state;
pub mod types;

pub use state::KbState;
pub use types::{MappedKeyboardError, ModifiersState, RMLVO};
