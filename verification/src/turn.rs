//! The turn orchestrator: one human placement and, if the game goes on, one
//! bot placement, sequenced as a single turn.
//!
//! The rules engine, the notation codec and the bots are not part of this
//! crate. A [`Turn`] therefore never touches a position itself: it holds the
//! next thing to be done with it, its pending [`Action`], and takes the
//! outcome as an [`Event`]. Whoever drives a turn performs the pending action
//! on the position it owns, reports what came of it, and goes on until the
//! pending action is a reply or a failure. An event that does not answer the
//! pending action changes nothing, so the action is simply still pending.

use vstd::prelude::*;
use crate::error::{ErrorKind, ErrorResponse, ErrorResponseView};
use crate::layout::{resolve, row_col_to_coords, CellIndex, ResolveError};
use crate::registry::{first_position, BotRegistry};
use crate::requests::{PvbMoveRequest, PvbParams};
use crate::text::{join, joined};
use crate::version::{accepted_version, check_api_version, version_rejection};

verus! {

/// What came of the action that was pending.
#[derive(Debug)]
pub enum Event {
    /// The submitted position was decoded.
    Decoded,
    /// The submitted position could not be decoded.
    DecodeFailed { reason: String },
    /// Whether the position is terminal.
    Over(bool),
    /// The player to move, if the engine names one.
    Player(Option<u32>),
    /// The engine applied the placement.
    Placed,
    /// The engine refused the placement.
    Rejected { reason: String },
    /// The bot chose a cell.
    BotChose,
    /// The bot had no cell to choose.
    BotPassed,
    /// The position was encoded.
    Encoded { notation: String },
}

/// An [`Event`] as plain values.
pub enum EventView {
    Decoded,
    DecodeFailed { reason: Seq<char> },
    Over(bool),
    Player(Option<u32>),
    Placed,
    Rejected { reason: Seq<char> },
    BotChose,
    BotPassed,
    Encoded { notation: Seq<char> },
}

impl View for Event {
    type V = EventView;

    open spec fn view(&self) -> EventView {
        match self {
            Event::Decoded => EventView::Decoded,
            Event::DecodeFailed { reason } => EventView::DecodeFailed { reason: reason@ },
            Event::Over(over) => EventView::Over(*over),
            Event::Player(who) => EventView::Player(*who),
            Event::Placed => EventView::Placed,
            Event::Rejected { reason } => EventView::Rejected { reason: reason@ },
            Event::BotChose => EventView::BotChose,
            Event::BotPassed => EventView::BotPassed,
            Event::Encoded { notation } => EventView::Encoded { notation: notation@ },
        }
    }
}

/// What is to be done next with the position of a turn. `Reply` and `Fail`
/// end the turn.
#[derive(Debug)]
pub enum Action {
    /// Decode the submitted position.
    Decode,
    /// Ask the engine whether the decoded position is terminal.
    CheckStart,
    /// Ask the engine who is to move: that player is the human.
    HumanPlayer,
    /// Convert the linear index with the board size to a coordinate and
    /// apply the player's placement there.
    PlaceHuman { player: u32, index: u32, board_size: u32 },
    /// Ask the engine whether the human's placement ended the game.
    CheckAfterHuman,
    /// Ask the bot at this position of the registry for a move.
    ChooseBotMove { bot: usize },
    /// Ask the engine who is to move now: that player is the bot.
    BotPlayer,
    /// Apply the player's placement at the cell that the bot chose.
    PlaceBot { player: u32 },
    /// Encode the position.
    Encode,
    /// Answer the request with the encoded position.
    Reply { notation: String },
    /// Answer the request with the failure. The position is dropped.
    Fail { kind: ErrorKind, response: ErrorResponse },
}

/// An [`Action`] as plain values.
pub enum ActionView {
    Decode,
    CheckStart,
    HumanPlayer,
    PlaceHuman { player: u32, index: u32, board_size: u32 },
    CheckAfterHuman,
    ChooseBotMove { bot: usize },
    BotPlayer,
    PlaceBot { player: u32 },
    Encode,
    Reply { notation: Seq<char> },
    Fail { kind: ErrorKind, response: ErrorResponseView },
}

impl View for Action {
    type V = ActionView;

    open spec fn view(&self) -> ActionView {
        match self {
            Action::Decode => ActionView::Decode,
            Action::CheckStart => ActionView::CheckStart,
            Action::HumanPlayer => ActionView::HumanPlayer,
            Action::PlaceHuman { player, index, board_size } => ActionView::PlaceHuman {
                player: *player,
                index: *index,
                board_size: *board_size,
            },
            Action::CheckAfterHuman => ActionView::CheckAfterHuman,
            Action::ChooseBotMove { bot } => ActionView::ChooseBotMove { bot: *bot },
            Action::BotPlayer => ActionView::BotPlayer,
            Action::PlaceBot { player } => ActionView::PlaceBot { player: *player },
            Action::Encode => ActionView::Encode,
            Action::Reply { notation } => ActionView::Reply { notation: notation@ },
            Action::Fail { kind, response } => ActionView::Fail {
                kind: *kind,
                response: response@,
            },
        }
    }
}

/// A turn as plain values: the request, what the engine has confirmed so
/// far, and the pending action.
pub struct TurnView {
    pub api_version: Seq<char>,
    pub bot_id: Seq<char>,
    pub layout: Seq<char>,
    pub row: usize,
    pub col: usize,
    /// Whether the engine has applied the human's placement.
    pub human_placed: bool,
    /// Whether the engine has applied the bot's placement.
    pub bot_placed: bool,
    pub pending: ActionView,
}

/// How many stones the turn has put on the board so far.
pub open spec fn placements(t: TurnView) -> nat {
    (if t.human_placed {
        1nat
    } else {
        0nat
    }) + (if t.bot_placed {
        1nat
    } else {
        0nat
    })
}

/// Whether the turn has ended, in a reply or in a failure.
pub open spec fn ended(t: TurnView) -> bool {
    t.pending is Reply || t.pending is Fail
}

/// The turn with another pending action.
pub open spec fn moved(t: TurnView, pending: ActionView) -> TurnView {
    TurnView { pending, ..t }
}

/// The turn ended by a failure of the given kind. The payload carries the
/// message and the request's version token and bot identifier.
pub open spec fn failed(t: TurnView, kind: ErrorKind, message: Seq<char>) -> TurnView {
    TurnView {
        pending: ActionView::Fail {
            kind,
            response: ErrorResponseView {
                message,
                api_version: Some(t.api_version),
                bot_id: Some(t.bot_id),
            },
        },
        ..t
    }
}

/// Whether the engine's coordinate conversion can take the cell: it takes
/// 32-bit numbers.
pub open spec fn addressable(cell: CellIndex) -> bool {
    cell.index <= u32::MAX && cell.board_size <= u32::MAX
}

/// The message for a cell reference that could not be resolved.
pub open spec fn coordinate_message(error: ResolveError) -> Seq<char> {
    "Invalid coordinates: "@ + error.message_text()
}

/// The message for a bot that is not registered: it lists the identifiers
/// that are, separated by a comma and a space.
pub open spec fn bot_not_found_message(bot_id: Seq<char>, names: Seq<Seq<char>>) -> Seq<char> {
    "Bot not found: "@ + bot_id + ", available bots: ["@ + joined(names, ", "@) + "]"@
}

/// The cell of the request as the engine's conversion takes it. Meaningful
/// where the cell resolves and is addressable.
pub open spec fn resolved_cell(t: TurnView) -> (u32, u32) {
    match resolve(t.layout, t.row, t.col) {
        Ok(cell) => (cell.index as u32, cell.board_size as u32),
        Err(_) => (0u32, 0u32),
    }
}

/// The turn as it begins. The version gate comes first: a request with
/// another version token has failed before anything is done with its body.
pub open spec fn opening(
    api_version: Seq<char>,
    bot_id: Seq<char>,
    layout: Seq<char>,
    row: usize,
    col: usize,
) -> TurnView {
    TurnView {
        api_version,
        bot_id,
        layout,
        row,
        col,
        human_placed: false,
        bot_placed: false,
        pending: if accepted_version(api_version) {
            ActionView::Decode
        } else {
            ActionView::Fail {
                kind: ErrorKind::VersionRejected,
                response: version_rejection(api_version),
            }
        },
    }
}

/// The turn after an event, given the registered bot identifiers.
pub open spec fn next_turn(t: TurnView, e: EventView, names: Seq<Seq<char>>) -> TurnView {
    match t.pending {
        ActionView::Decode => match e {
            EventView::Decoded => moved(t, ActionView::CheckStart),
            EventView::DecodeFailed { reason } => failed(
                t,
                ErrorKind::NotationInvalid,
                "Invalid YEN format: "@ + reason,
            ),
            _ => t,
        },
        ActionView::CheckStart => match e {
            EventView::Over(over) => if over {
                failed(t, ErrorKind::GameAlreadyOver, "Game is already over"@)
            } else {
                match resolve(t.layout, t.row, t.col) {
                    Err(error) => failed(
                        t,
                        ErrorKind::CoordinateOutOfBounds,
                        coordinate_message(error),
                    ),
                    Ok(cell) => if addressable(cell) {
                        moved(t, ActionView::HumanPlayer)
                    } else {
                        failed(
                            t,
                            ErrorKind::CoordinateOutOfBounds,
                            coordinate_message(ResolveError::InvalidConversion),
                        )
                    },
                }
            },
            _ => t,
        },
        ActionView::HumanPlayer => match e {
            EventView::Player(who) => match who {
                Some(player) => moved(
                    t,
                    ActionView::PlaceHuman {
                        player,
                        index: resolved_cell(t).0,
                        board_size: resolved_cell(t).1,
                    },
                ),
                None => failed(
                    t,
                    ErrorKind::NoNextPlayer,
                    "No next player available for human move"@,
                ),
            },
            _ => t,
        },
        ActionView::PlaceHuman { .. } => match e {
            EventView::Placed => TurnView {
                pending: ActionView::CheckAfterHuman,
                human_placed: true,
                ..t
            },
            EventView::Rejected { reason } => failed(
                t,
                ErrorKind::MoveRejected,
                "Invalid human move: "@ + reason,
            ),
            _ => t,
        },
        ActionView::CheckAfterHuman => match e {
            EventView::Over(over) => if over {
                moved(t, ActionView::Encode)
            } else {
                match first_position(names, t.bot_id) {
                    Some(i) => moved(t, ActionView::ChooseBotMove { bot: i as usize }),
                    None => failed(
                        t,
                        ErrorKind::BotNotFound,
                        bot_not_found_message(t.bot_id, names),
                    ),
                }
            },
            _ => t,
        },
        ActionView::ChooseBotMove { .. } => match e {
            EventView::BotChose => moved(t, ActionView::BotPlayer),
            EventView::BotPassed => failed(
                t,
                ErrorKind::NoBotMove,
                "No valid moves available for the bot"@,
            ),
            _ => t,
        },
        ActionView::BotPlayer => match e {
            EventView::Player(who) => match who {
                Some(player) => moved(t, ActionView::PlaceBot { player }),
                None => failed(
                    t,
                    ErrorKind::NoNextPlayer,
                    "No next player available for bot move"@,
                ),
            },
            _ => t,
        },
        ActionView::PlaceBot { .. } => match e {
            EventView::Placed => TurnView { pending: ActionView::Encode, bot_placed: true, ..t },
            EventView::Rejected { reason } => failed(
                t,
                ErrorKind::MoveRejected,
                "Game error applying bot move: "@ + reason,
            ),
            _ => t,
        },
        ActionView::Encode => match e {
            EventView::Encoded { notation } => moved(t, ActionView::Reply { notation }),
            _ => t,
        },
        ActionView::Reply { .. } => t,
        ActionView::Fail { .. } => t,
    }
}

/// What holds of every turn that was begun and stepped: the placements
/// that the engine has confirmed are those that the pending action comes
/// after, and a human placement is asked for only at a cell that resolved.
pub open spec fn consistent(t: TurnView) -> bool {
    match t.pending {
        ActionView::Decode => !t.human_placed && !t.bot_placed,
        ActionView::CheckStart => !t.human_placed && !t.bot_placed,
        ActionView::HumanPlayer => !t.human_placed && !t.bot_placed && (resolve(
            t.layout,
            t.row,
            t.col,
        ) matches Ok(cell) && addressable(cell)),
        ActionView::PlaceHuman { index, board_size, .. } => !t.human_placed && !t.bot_placed
            && resolve(t.layout, t.row, t.col) == Ok::<CellIndex, ResolveError>(
            CellIndex { index: index as usize, board_size: board_size as usize },
        ),
        ActionView::CheckAfterHuman => t.human_placed && !t.bot_placed,
        ActionView::ChooseBotMove { .. } => t.human_placed && !t.bot_placed,
        ActionView::BotPlayer => t.human_placed && !t.bot_placed,
        ActionView::PlaceBot { .. } => t.human_placed && !t.bot_placed,
        ActionView::Encode => t.human_placed,
        ActionView::Reply { .. } => t.human_placed,
        ActionView::Fail { .. } => !t.bot_placed,
    }
}

/// A turn in progress.
pub struct Turn {
    api_version: String,
    bot_id: String,
    layout: String,
    row: usize,
    col: usize,
    index: u32,
    board_size: u32,
    human_placed: bool,
    bot_placed: bool,
    pending: Action,
}

impl View for Turn {
    type V = TurnView;

    closed spec fn view(&self) -> TurnView {
        TurnView {
            api_version: self.api_version@,
            bot_id: self.bot_id@,
            layout: self.layout@,
            row: self.row,
            col: self.col,
            human_placed: self.human_placed,
            bot_placed: self.bot_placed,
            pending: self.pending@,
        }
    }
}

/// A failure of the given kind for a request with the given version token
/// and bot identifier.
fn failure(kind: ErrorKind, message: String, api_version: &String, bot_id: &String) -> (action:
    Action)
    ensures
        action@ == (ActionView::Fail {
            kind,
            response: ErrorResponseView {
                message: message@,
                api_version: Some(api_version@),
                bot_id: Some(bot_id@),
            },
        }),
{
    Action::Fail {
        kind,
        response: ErrorResponse {
            message,
            api_version: Some(api_version.clone()),
            bot_id: Some(bot_id.clone()),
        },
    }
}

/// `detail` written after `prefix`.
fn prefixed(prefix: &str, detail: &str) -> (s: String)
    ensures
        s@ == prefix@ + detail@,
{
    let mut s: String = String::from_str(prefix);
    s.append(detail);
    s
}

impl Turn {
    /// While the human's player is asked for, the cell of the request is
    /// resolved and kept; and the turn is consistent.
    #[verifier::type_invariant]
    closed spec fn coherent(self) -> bool {
        &&& consistent(self@)
        &&& self.pending@ is HumanPlayer ==> resolve(self.layout@, self.row, self.col) == Ok::<
            CellIndex,
            ResolveError,
        >(CellIndex { index: self.index as usize, board_size: self.board_size as usize })
    }

    /// Begins a turn for a request. The version gate is passed first.
    pub fn begin(params: PvbParams, request: PvbMoveRequest) -> (turn: Turn)
        ensures
            turn@ == opening(
                params.api_version@,
                params.bot_id@,
                request.layout@,
                request.row,
                request.col,
            ),
            consistent(turn@),
    {
        let pending: Action = match check_api_version(params.api_version.as_str()) {
            Ok(_) => Action::Decode,
            Err(response) => Action::Fail { kind: ErrorKind::VersionRejected, response },
        };
        Turn {
            api_version: params.api_version,
            bot_id: params.bot_id,
            layout: request.layout,
            row: request.row,
            col: request.col,
            index: 0,
            board_size: 0,
            human_placed: false,
            bot_placed: false,
            pending,
        }
    }

    /// The action that is to be performed next, or the reply or failure
    /// that ends the turn.
    pub fn pending(&self) -> (action: &Action)
        ensures
            action@ == self@.pending,
            consistent(self@),
    {
        proof {
            use_type_invariant(self);
        }
        &self.pending
    }

    /// Whether the turn has ended.
    pub fn is_over(&self) -> (over: bool)
        ensures
            over == ended(self@),
    {
        match &self.pending {
            Action::Reply { .. } => true,
            Action::Fail { .. } => true,
            _ => false,
        }
    }

    /// How many stones the turn has put on the board so far.
    pub fn stones_placed(&self) -> (n: u8)
        ensures
            n == placements(self@),
            n <= 2,
    {
        let human: u8 = if self.human_placed {
            1
        } else {
            0
        };
        let bot: u8 = if self.bot_placed {
            1
        } else {
            0
        };
        human + bot
    }

    /// Takes what came of the pending action and decides what is next.
    pub fn step<B>(self, event: Event, registry: &BotRegistry<B>) -> (next: Turn)
        ensures
            next@ == next_turn(self@, event@, registry@),
            consistent(self@),
            consistent(next@),
    {
        proof {
            use_type_invariant(&self);
        }
        let Turn {
            api_version,
            bot_id,
            layout,
            row,
            col,
            index,
            board_size,
            human_placed,
            bot_placed,
            pending,
        } = self;
        let mut index: u32 = index;
        let mut board_size: u32 = board_size;
        let mut human_placed: bool = human_placed;
        let mut bot_placed: bool = bot_placed;
        let pending: Action = match pending {
            Action::Decode => match event {
                Event::Decoded => Action::CheckStart,
                Event::DecodeFailed { reason } => failure(
                    ErrorKind::NotationInvalid,
                    prefixed("Invalid YEN format: ", reason.as_str()),
                    &api_version,
                    &bot_id,
                ),
                _ => Action::Decode,
            },
            Action::CheckStart => match event {
                Event::Over(over) => if over {
                    failure(
                        ErrorKind::GameAlreadyOver,
                        String::from_str("Game is already over"),
                        &api_version,
                        &bot_id,
                    )
                } else {
                    match row_col_to_coords(layout.as_str(), row, col) {
                        Err(error) => failure(
                            ErrorKind::CoordinateOutOfBounds,
                            prefixed("Invalid coordinates: ", error.message().as_str()),
                            &api_version,
                            &bot_id,
                        ),
                        Ok(cell) => if cell.index <= u32::MAX as usize && cell.board_size
                            <= u32::MAX as usize {
                            index = cell.index as u32;
                            board_size = cell.board_size as u32;
                            Action::HumanPlayer
                        } else {
                            failure(
                                ErrorKind::CoordinateOutOfBounds,
                                prefixed(
                                    "Invalid coordinates: ",
                                    ResolveError::InvalidConversion.message().as_str(),
                                ),
                                &api_version,
                                &bot_id,
                            )
                        },
                    }
                },
                _ => Action::CheckStart,
            },
            Action::HumanPlayer => match event {
                Event::Player(who) => match who {
                    Some(player) => Action::PlaceHuman { player, index, board_size },
                    None => failure(
                        ErrorKind::NoNextPlayer,
                        String::from_str("No next player available for human move"),
                        &api_version,
                        &bot_id,
                    ),
                },
                _ => Action::HumanPlayer,
            },
            Action::PlaceHuman { player, index: at, board_size: size } => match event {
                Event::Placed => {
                    human_placed = true;
                    Action::CheckAfterHuman
                },
                Event::Rejected { reason } => failure(
                    ErrorKind::MoveRejected,
                    prefixed("Invalid human move: ", reason.as_str()),
                    &api_version,
                    &bot_id,
                ),
                _ => Action::PlaceHuman { player, index: at, board_size: size },
            },
            Action::CheckAfterHuman => match event {
                Event::Over(over) => if over {
                    Action::Encode
                } else {
                    match registry.find(bot_id.as_str()) {
                        Some(bot) => Action::ChooseBotMove { bot },
                        None => {
                            let names: Vec<String> = registry.names();
                            let mut message: String = prefixed("Bot not found: ", bot_id.as_str());
                            message.append(", available bots: [");
                            message.append(join(&names, ", ").as_str());
                            message.append("]");
                            failure(ErrorKind::BotNotFound, message, &api_version, &bot_id)
                        },
                    }
                },
                _ => Action::CheckAfterHuman,
            },
            Action::ChooseBotMove { bot } => match event {
                Event::BotChose => Action::BotPlayer,
                Event::BotPassed => failure(
                    ErrorKind::NoBotMove,
                    String::from_str("No valid moves available for the bot"),
                    &api_version,
                    &bot_id,
                ),
                _ => Action::ChooseBotMove { bot },
            },
            Action::BotPlayer => match event {
                Event::Player(who) => match who {
                    Some(player) => Action::PlaceBot { player },
                    None => failure(
                        ErrorKind::NoNextPlayer,
                        String::from_str("No next player available for bot move"),
                        &api_version,
                        &bot_id,
                    ),
                },
                _ => Action::BotPlayer,
            },
            Action::PlaceBot { player } => match event {
                Event::Placed => {
                    bot_placed = true;
                    Action::Encode
                },
                Event::Rejected { reason } => failure(
                    ErrorKind::MoveRejected,
                    prefixed("Game error applying bot move: ", reason.as_str()),
                    &api_version,
                    &bot_id,
                ),
                _ => Action::PlaceBot { player },
            },
            Action::Encode => match event {
                Event::Encoded { notation } => Action::Reply { notation },
                _ => Action::Encode,
            },
            Action::Reply { notation } => Action::Reply { notation },
            Action::Fail { kind, response } => Action::Fail { kind, response },
        };
        Turn {
            api_version,
            bot_id,
            layout,
            row,
            col,
            index,
            board_size,
            human_placed,
            bot_placed,
            pending,
        }
    }
}

} // verus!
