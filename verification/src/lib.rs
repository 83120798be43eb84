//! A bridge between a line-oriented request protocol and a consensus engine.
//!
//! The library holds the protocol and the session: which requests there are,
//! what each of them asks of the engine and in which order, what the
//! engine's answers mean for the response, and which engine resources the
//! session holds between requests. It makes no call into the engine itself:
//! [`handler::handle_line`] and [`handler::Pending::resume`] serve a request
//! step by step, and between two steps the caller makes the one call that
//! [`handler::Pending::call`] names. What holds of whole requests is proved
//! in [`runs`].

pub mod chainstate;
pub mod engine;
pub mod handler;
pub mod hexcode;
pub mod protocol;
pub mod runs;
pub mod script_pubkey;
pub mod state;
pub mod text;
