//! Move orchestration for a triangular-board connection game.
//!
//! The crate resolves a row/column cell reference against a textual board
//! layout, gates requests on the API version, and sequences a human placement
//! and a conditional bot reply into one turn. The rules engine, the notation
//! codec and the bots answer through events; every decision made between two
//! of their answers is made, and verified, here.

pub mod error;
pub mod laws;
pub mod layout;
pub mod registry;
pub mod requests;
pub mod text;
pub mod turn;
pub mod version;

