//! What the service is asked and what it answers, as plain values.

use vstd::prelude::*;

verus! {

/// A user of the service, as the user store knows them.
#[derive(Debug)]
pub struct User {
    pub username: String,
}

/// The answer to "who am I".
#[derive(Debug)]
pub struct MeResponse {
    pub username: String,
}

/// The name shown for a visitor whom the user store does not know.
pub open spec fn guest_name() -> Seq<char> {
    "Guest"@
}

/// The answer to "who am I": the stored user's name, or the guest name
/// where the store holds no user.
pub fn me_response(user: Option<User>) -> (me: MeResponse)
    ensures
        me.username@ == match user {
            Some(u) => u.username@,
            None => guest_name(),
        },
{
    match user {
        Some(u) => MeResponse { username: u.username },
        None => MeResponse { username: String::from_str("Guest") },
    }
}

/// A request for an empty board.
#[derive(Clone, Copy, Debug, PartialEq, Eq, Structural)]
pub struct NewGameRequest {
    pub size: u32,
}

/// The path of a request for a turn against a bot.
#[derive(Debug)]
pub struct PvbParams {
    /// The version token of the path.
    pub api_version: String,
    /// The identifier of the bot that is to reply.
    pub bot_id: String,
}

/// The body of a request for a turn against a bot: the human's move and
/// the position it is made in.
#[derive(Debug)]
pub struct PvbMoveRequest {
    /// The layout segment of the submitted position: its rows, separated
    /// by `/`.
    pub layout: String,
    /// The row of the cell, counted from zero.
    pub row: usize,
    /// The column of the cell within its row, counted from zero.
    pub col: usize,
}

} // verus!
