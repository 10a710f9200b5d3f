//! The uniform error payload and the kinds of failure of a turn.

use vstd::prelude::*;

verus! {

/// The kinds of failure that a turn can end in. Each is the client's to
/// mend; none is a fault of the service.
#[derive(Clone, Copy, Debug, PartialEq, Eq, Structural)]
pub enum ErrorKind {
    /// The version token is not an accepted one.
    VersionRejected,
    /// The submitted position could not be decoded.
    NotationInvalid,
    /// The position was terminal before any move was attempted.
    GameAlreadyOver,
    /// The cell reference does not name a cell of the layout.
    CoordinateOutOfBounds,
    /// The engine named no player to move.
    NoNextPlayer,
    /// The engine refused a placement.
    MoveRejected,
    /// The requested bot is not registered.
    BotNotFound,
    /// The bot had no move to offer.
    NoBotMove,
}

/// The characters of an optional string.
pub open spec fn optional_text(s: Option<String>) -> Option<Seq<char>> {
    match s {
        Some(text) => Some(text@),
        None => None,
    }
}

/// What a client is told of a failure.
#[derive(Debug)]
pub struct ErrorResponse {
    /// A message for a human reader.
    pub message: String,
    /// The version token of the request, where it was known.
    pub api_version: Option<String>,
    /// The bot identifier of the request, where it was known.
    pub bot_id: Option<String>,
}

/// An [`ErrorResponse`] as plain values.
pub struct ErrorResponseView {
    pub message: Seq<char>,
    pub api_version: Option<Seq<char>>,
    pub bot_id: Option<Seq<char>>,
}

impl View for ErrorResponse {
    type V = ErrorResponseView;

    open spec fn view(&self) -> ErrorResponseView {
        ErrorResponseView {
            message: self.message@,
            api_version: optional_text(self.api_version),
            bot_id: optional_text(self.bot_id),
        }
    }
}

impl ErrorResponse {
    /// Builds the payload from a message and what is known of the request.
    pub fn error(message: &str, api_version: Option<String>, bot_id: Option<String>) -> (res:
        ErrorResponse)
        ensures
            res@ == (ErrorResponseView {
                message: message@,
                api_version: optional_text(api_version),
                bot_id: optional_text(bot_id),
            }),
    {
        ErrorResponse { message: String::from_str(message), api_version, bot_id }
    }

    /// A copy of the payload.
    pub fn duplicate(&self) -> (res: ErrorResponse)
        ensures
            res@ == self@,
    {
        let api_version: Option<String> = match &self.api_version {
            Some(text) => Some(text.clone()),
            None => None,
        };
        let bot_id: Option<String> = match &self.bot_id {
            Some(text) => Some(text.clone()),
            None => None,
        };
        ErrorResponse { message: self.message.clone(), api_version, bot_id }
    }
}

/// The payload that answers a request for player-versus-player play, which
/// the service does not offer.
pub open spec fn pvp_unavailable_view() -> ErrorResponseView {
    ErrorResponseView {
        message: "PVP not implemented yet"@,
        api_version: None,
        bot_id: None,
    }
}

/// Builds the answer to a request for player-versus-player play.
pub fn pvp_unavailable() -> (res: ErrorResponse)
    ensures
        res@ == pvp_unavailable_view(),
{
    ErrorResponse::error("PVP not implemented yet", None, None)
}

} // verus!
