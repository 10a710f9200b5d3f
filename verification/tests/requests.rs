use gamey::error::{pvp_unavailable, ErrorKind, ErrorResponse};
use gamey::requests::{me_response, NewGameRequest, User};

#[test]
fn stored_user_is_named() {
    let me = me_response(Some(User { username: "ada".to_string() }));
    assert_eq!(me.username, "ada");
}

#[test]
fn unknown_visitor_is_a_guest() {
    let me = me_response(None);
    assert_eq!(me.username, "Guest");
}

#[test]
fn new_game_request_holds_its_size() {
    let request = NewGameRequest { size: 5 };
    assert_eq!(request, NewGameRequest { size: 5 });
    assert_ne!(request, NewGameRequest { size: 7 });
}

#[test]
fn error_payload_holds_what_it_was_given() {
    let error = ErrorResponse::error("boom", Some("v1".to_string()), Some("random_bot".to_string()));
    assert_eq!(error.message, "boom");
    assert_eq!(error.api_version, Some("v1".to_string()));
    assert_eq!(error.bot_id, Some("random_bot".to_string()));

    let bare = ErrorResponse::error("boom", None, None);
    assert_eq!(bare.message, "boom");
    assert_eq!(bare.api_version, None);
    assert_eq!(bare.bot_id, None);
}

#[test]
fn duplicate_of_a_payload_is_equal_field_by_field() {
    let error = ErrorResponse::error("boom", Some("v1".to_string()), None);
    let copy = error.duplicate();
    assert_eq!(copy.message, error.message);
    assert_eq!(copy.api_version, error.api_version);
    assert_eq!(copy.bot_id, error.bot_id);
}

#[test]
fn pvp_is_not_offered() {
    let error = pvp_unavailable();
    assert_eq!(error.message, "PVP not implemented yet");
    assert_eq!(error.api_version, None);
    assert_eq!(error.bot_id, None);
}

#[test]
fn error_kinds_are_distinct() {
    let kinds = [
        ErrorKind::VersionRejected,
        ErrorKind::NotationInvalid,
        ErrorKind::GameAlreadyOver,
        ErrorKind::CoordinateOutOfBounds,
        ErrorKind::NoNextPlayer,
        ErrorKind::MoveRejected,
        ErrorKind::BotNotFound,
        ErrorKind::NoBotMove,
    ];
    for (i, a) in kinds.iter().enumerate() {
        for (j, b) in kinds.iter().enumerate() {
            assert_eq!(a == b, i == j);
        }
    }
}
