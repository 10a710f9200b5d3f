use gamey::error::ErrorKind;
use gamey::registry::BotRegistry;
use gamey::requests::{PvbMoveRequest, PvbParams};
use gamey::turn::{Action, Event, Turn};

const EMPTY_BOARD: &str = "./../.../..../...../....../.......";

fn registry() -> BotRegistry<u8> {
    BotRegistry::new().with_bot("random_bot", 1u8)
}

fn begin(version: &str, bot: &str, layout: &str, row: usize, col: usize) -> Turn {
    Turn::begin(
        PvbParams { api_version: version.to_string(), bot_id: bot.to_string() },
        PvbMoveRequest { layout: layout.to_string(), row, col },
    )
}

fn run(mut turn: Turn, events: Vec<Event>, registry: &BotRegistry<u8>) -> Turn {
    for event in events {
        turn = turn.step(event, registry);
    }
    turn
}

fn expect_failure(turn: &Turn, kind: ErrorKind, message: &str, version: &str, bot: &str) {
    match turn.pending() {
        Action::Fail { kind: got, response } => {
            assert_eq!(*got, kind);
            assert_eq!(response.message, message);
            assert_eq!(response.api_version.as_deref(), Some(version));
            assert_eq!(response.bot_id.as_deref(), Some(bot));
        }
        other => panic!("expected a failure, got {:?}", other),
    }
    assert!(turn.is_over());
}

fn human_placed(bot: &str, registry: &BotRegistry<u8>) -> Turn {
    run(
        begin("v1", bot, EMPTY_BOARD, 0, 0),
        vec![Event::Decoded, Event::Over(false), Event::Player(Some(0)), Event::Placed],
        registry,
    )
}

#[test]
fn test_pvb_valid_request() {
    let registry = registry();
    let mut turn = begin("v1", "random_bot", EMPTY_BOARD, 0, 0);
    assert!(matches!(turn.pending(), Action::Decode));
    assert_eq!(turn.stones_placed(), 0);

    turn = turn.step(Event::Decoded, &registry);
    assert!(matches!(turn.pending(), Action::CheckStart));

    turn = turn.step(Event::Over(false), &registry);
    assert!(matches!(turn.pending(), Action::HumanPlayer));

    turn = turn.step(Event::Player(Some(0)), &registry);
    assert!(matches!(
        turn.pending(),
        Action::PlaceHuman { player: 0, index: 0, board_size: 4 }
    ));
    assert_eq!(turn.stones_placed(), 0);

    turn = turn.step(Event::Placed, &registry);
    assert!(matches!(turn.pending(), Action::CheckAfterHuman));
    assert_eq!(turn.stones_placed(), 1);

    turn = turn.step(Event::Over(false), &registry);
    assert!(matches!(turn.pending(), Action::ChooseBotMove { bot: 0 }));

    turn = turn.step(Event::BotChose, &registry);
    assert!(matches!(turn.pending(), Action::BotPlayer));

    turn = turn.step(Event::Player(Some(1)), &registry);
    assert!(matches!(turn.pending(), Action::PlaceBot { player: 1 }));
    assert_eq!(turn.stones_placed(), 1);

    turn = turn.step(Event::Placed, &registry);
    assert!(matches!(turn.pending(), Action::Encode));
    assert_eq!(turn.stones_placed(), 2);
    assert!(!turn.is_over());

    turn = turn.step(Event::Encoded { notation: "next position".to_string() }, &registry);
    match turn.pending() {
        Action::Reply { notation } => assert_eq!(notation, "next position"),
        other => panic!("expected a reply, got {:?}", other),
    }
    assert!(turn.is_over());
    assert_eq!(turn.stones_placed(), 2);
}

#[test]
fn test_pvb_unknown_bot() {
    let registry: BotRegistry<u8> = BotRegistry::new();
    let turn = human_placed("unknown_bot", &registry).step(Event::Over(false), &registry);
    expect_failure(
        &turn,
        ErrorKind::BotNotFound,
        "Bot not found: unknown_bot, available bots: []",
        "v1",
        "unknown_bot",
    );
}

#[test]
fn test_invalid_api_version() {
    let turn = begin("v2", "random_bot", EMPTY_BOARD, 0, 0);
    match turn.pending() {
        Action::Fail { kind, response } => {
            assert_eq!(*kind, ErrorKind::VersionRejected);
            assert_eq!(response.message, "Unsupported API version: v2");
            assert_eq!(response.api_version.as_deref(), Some("v2"));
            assert_eq!(response.bot_id, None);
        }
        other => panic!("expected a failure, got {:?}", other),
    }
    assert!(turn.is_over());
}

#[test]
fn version_is_checked_before_the_body() {
    let registry = registry();
    let turn = begin("V1", "no_such_bot", "", 99, 99);
    assert!(matches!(
        turn.pending(),
        Action::Fail { kind: ErrorKind::VersionRejected, .. }
    ));
    let turn = run(turn, vec![Event::Decoded, Event::Over(false)], &registry);
    assert!(matches!(
        turn.pending(),
        Action::Fail { kind: ErrorKind::VersionRejected, .. }
    ));
}

#[test]
fn undecodable_position_is_a_notation_error() {
    let registry = registry();
    let turn = begin("v1", "random_bot", EMPTY_BOARD, 0, 0)
        .step(Event::DecodeFailed { reason: "bad layout".to_string() }, &registry);
    expect_failure(
        &turn,
        ErrorKind::NotationInvalid,
        "Invalid YEN format: bad layout",
        "v1",
        "random_bot",
    );
    assert_eq!(turn.stones_placed(), 0);
}

#[test]
fn terminal_position_is_refused_before_the_cell_is_looked_at() {
    let registry = registry();
    let turn = run(
        begin("v1", "random_bot", EMPTY_BOARD, 99, 99),
        vec![Event::Decoded, Event::Over(true)],
        &registry,
    );
    expect_failure(&turn, ErrorKind::GameAlreadyOver, "Game is already over", "v1", "random_bot");
    assert_eq!(turn.stones_placed(), 0);
}

#[test]
fn terminal_position_is_refused_for_a_valid_cell_too() {
    let registry = registry();
    let turn = run(
        begin("v1", "random_bot", EMPTY_BOARD, 0, 0),
        vec![Event::Decoded, Event::Over(true)],
        &registry,
    );
    expect_failure(&turn, ErrorKind::GameAlreadyOver, "Game is already over", "v1", "random_bot");
    let turn = run(
        turn,
        vec![Event::Player(Some(0)), Event::Placed, Event::Over(false), Event::Placed],
        &registry,
    );
    expect_failure(&turn, ErrorKind::GameAlreadyOver, "Game is already over", "v1", "random_bot");
    assert_eq!(turn.stones_placed(), 0);
}

#[test]
fn row_out_of_bounds_is_a_coordinate_error() {
    let registry = registry();
    let turn = run(
        begin("v1", "random_bot", EMPTY_BOARD, 7, 0),
        vec![Event::Decoded, Event::Over(false)],
        &registry,
    );
    expect_failure(
        &turn,
        ErrorKind::CoordinateOutOfBounds,
        "Invalid coordinates: row out of bounds: 7 (rows=7)",
        "v1",
        "random_bot",
    );
}

#[test]
fn column_out_of_bounds_is_a_coordinate_error() {
    let registry = registry();
    let turn = run(
        begin("v1", "random_bot", EMPTY_BOARD, 2, 3),
        vec![Event::Decoded, Event::Over(false)],
        &registry,
    );
    expect_failure(
        &turn,
        ErrorKind::CoordinateOutOfBounds,
        "Invalid coordinates: col out of bounds: 3 (row_len=3)",
        "v1",
        "random_bot",
    );
    assert_eq!(turn.stones_placed(), 0);
}

#[test]
fn placement_is_asked_for_at_the_resolved_cell() {
    let registry = registry();
    let turn = run(
        begin("v1", "random_bot", "B/.R/.../..../.....", 3, 2),
        vec![Event::Decoded, Event::Over(false), Event::Player(Some(1))],
        &registry,
    );
    assert!(matches!(
        turn.pending(),
        Action::PlaceHuman { player: 1, index: 8, board_size: 3 }
    ));
}

#[test]
fn missing_human_player_is_reported() {
    let registry = registry();
    let turn = run(
        begin("v1", "random_bot", EMPTY_BOARD, 0, 0),
        vec![Event::Decoded, Event::Over(false), Event::Player(None)],
        &registry,
    );
    expect_failure(
        &turn,
        ErrorKind::NoNextPlayer,
        "No next player available for human move",
        "v1",
        "random_bot",
    );
}

#[test]
fn refused_human_move_is_a_move_error() {
    let registry = registry();
    let turn = run(
        begin("v1", "random_bot", EMPTY_BOARD, 0, 0),
        vec![
            Event::Decoded,
            Event::Over(false),
            Event::Player(Some(0)),
            Event::Rejected { reason: "cell is taken".to_string() },
        ],
        &registry,
    );
    expect_failure(
        &turn,
        ErrorKind::MoveRejected,
        "Invalid human move: cell is taken",
        "v1",
        "random_bot",
    );
    assert_eq!(turn.stones_placed(), 0);
}

#[test]
fn winning_human_move_is_answered_without_the_bot() {
    let registry = registry();
    let mut turn = human_placed("random_bot", &registry).step(Event::Over(true), &registry);
    assert!(matches!(turn.pending(), Action::Encode));
    assert_eq!(turn.stones_placed(), 1);

    turn = turn.step(Event::Encoded { notation: "won".to_string() }, &registry);
    match turn.pending() {
        Action::Reply { notation } => assert_eq!(notation, "won"),
        other => panic!("expected a reply, got {:?}", other),
    }
    assert_eq!(turn.stones_placed(), 1);

    turn = run(turn, vec![Event::BotChose, Event::Player(Some(1)), Event::Placed], &registry);
    assert!(matches!(turn.pending(), Action::Reply { .. }));
    assert_eq!(turn.stones_placed(), 1);
}

#[test]
fn winning_human_move_needs_no_registered_bot() {
    let registry: BotRegistry<u8> = BotRegistry::new();
    let turn = run(
        human_placed("unknown_bot", &registry),
        vec![Event::Over(true), Event::Encoded { notation: "won".to_string() }],
        &registry,
    );
    assert!(matches!(turn.pending(), Action::Reply { .. }));
}

#[test]
fn unknown_bot_message_lists_the_registered_identifiers() {
    let registry = BotRegistry::new()
        .with_bot("random_bot", 1u8)
        .with_bot("greedy_bot", 2u8)
        .with_bot("minimax", 3u8);
    let turn = human_placed("unknown_bot", &registry).step(Event::Over(false), &registry);
    expect_failure(
        &turn,
        ErrorKind::BotNotFound,
        "Bot not found: unknown_bot, available bots: [random_bot, greedy_bot, minimax]",
        "v1",
        "unknown_bot",
    );
    assert_eq!(turn.stones_placed(), 1);
}

#[test]
fn bot_is_asked_at_its_position_in_the_registry() {
    let registry = BotRegistry::new()
        .with_bot("random_bot", 1u8)
        .with_bot("greedy_bot", 2u8);
    let turn = human_placed("greedy_bot", &registry).step(Event::Over(false), &registry);
    match turn.pending() {
        Action::ChooseBotMove { bot } => {
            assert_eq!(*bot, 1);
            assert_eq!(registry.bot_at(*bot), Some(&2u8));
        }
        other => panic!("expected the bot to be asked, got {:?}", other),
    }
}

#[test]
fn bot_without_a_move_is_reported() {
    let registry = registry();
    let turn = run(
        human_placed("random_bot", &registry),
        vec![Event::Over(false), Event::BotPassed],
        &registry,
    );
    expect_failure(
        &turn,
        ErrorKind::NoBotMove,
        "No valid moves available for the bot",
        "v1",
        "random_bot",
    );
}

#[test]
fn missing_bot_player_is_reported() {
    let registry = registry();
    let turn = run(
        human_placed("random_bot", &registry),
        vec![Event::Over(false), Event::BotChose, Event::Player(None)],
        &registry,
    );
    expect_failure(
        &turn,
        ErrorKind::NoNextPlayer,
        "No next player available for bot move",
        "v1",
        "random_bot",
    );
}

#[test]
fn refused_bot_move_is_a_move_error() {
    let registry = registry();
    let turn = run(
        human_placed("random_bot", &registry),
        vec![
            Event::Over(false),
            Event::BotChose,
            Event::Player(Some(1)),
            Event::Rejected { reason: "not your turn".to_string() },
        ],
        &registry,
    );
    expect_failure(
        &turn,
        ErrorKind::MoveRejected,
        "Game error applying bot move: not your turn",
        "v1",
        "random_bot",
    );
    assert_eq!(turn.stones_placed(), 1);
}

#[test]
fn event_that_answers_another_action_changes_nothing() {
    let registry = registry();
    let mut turn = begin("v1", "random_bot", EMPTY_BOARD, 0, 0);
    turn = run(
        turn,
        vec![
            Event::Over(true),
            Event::Player(Some(0)),
            Event::Placed,
            Event::BotChose,
            Event::Encoded { notation: "x".to_string() },
        ],
        &registry,
    );
    assert!(matches!(turn.pending(), Action::Decode));
    assert_eq!(turn.stones_placed(), 0);

    turn = run(turn, vec![Event::Decoded, Event::Decoded, Event::Placed], &registry);
    assert!(matches!(turn.pending(), Action::CheckStart));

    turn = run(
        turn,
        vec![Event::Over(false), Event::Over(true), Event::Placed, Event::BotPassed],
        &registry,
    );
    assert!(matches!(turn.pending(), Action::HumanPlayer));
    assert_eq!(turn.stones_placed(), 0);
}

#[test]
fn ended_turn_stays_as_it_is() {
    let registry = registry();
    let turn = run(
        human_placed("random_bot", &registry),
        vec![
            Event::Over(false),
            Event::BotChose,
            Event::Player(Some(1)),
            Event::Placed,
            Event::Encoded { notation: "done".to_string() },
            Event::Decoded,
            Event::Over(false),
            Event::Placed,
            Event::Encoded { notation: "again".to_string() },
        ],
        &registry,
    );
    match turn.pending() {
        Action::Reply { notation } => assert_eq!(notation, "done"),
        other => panic!("expected a reply, got {:?}", other),
    }
    assert_eq!(turn.stones_placed(), 2);
}
