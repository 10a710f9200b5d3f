//! What holds of every turn, whatever the engine, the codec and the bot
//! answer.

use vstd::prelude::*;
use crate::error::ErrorKind;
use crate::layout::resolve;
use crate::registry::lemma_first_position;
use crate::turn::{
    addressable, bot_not_found_message, consistent, ended, failed, moved, next_turn, opening,
    placements, ActionView, EventView, TurnView,
};
use crate::version::{accepted_version, version_rejection};

verus! {

/// The turn after a sequence of events, taken in order.
pub open spec fn run(t: TurnView, events: Seq<EventView>, names: Seq<Seq<char>>) -> TurnView
    decreases events.len(),
{
    if events.len() == 0 {
        t
    } else {
        next_turn(run(t, events.drop_last(), names), events.last(), names)
    }
}

/// One more event takes a run one step further.
pub proof fn lemma_run_push(
    t: TurnView,
    events: Seq<EventView>,
    e: EventView,
    names: Seq<Seq<char>>,
)
    ensures
        run(t, events.push(e), names) == next_turn(run(t, events, names), e, names),
{
    assert(events.push(e).drop_last() =~= events);
}

/// A turn begins consistent.
pub proof fn lemma_opening_consistent(
    api_version: Seq<char>,
    bot_id: Seq<char>,
    layout: Seq<char>,
    row: usize,
    col: usize,
)
    ensures
        consistent(opening(api_version, bot_id, layout, row, col)),
        placements(opening(api_version, bot_id, layout, row, col)) == 0,
{
}

/// An event leaves a consistent turn consistent.
pub proof fn lemma_event_keeps_consistent(t: TurnView, e: EventView, names: Seq<Seq<char>>)
    requires
        consistent(t),
    ensures
        consistent(next_turn(t, e, names)),
{
}

/// Events leave a consistent turn consistent, however many there are.
pub proof fn lemma_run_keeps_consistent(
    t: TurnView,
    events: Seq<EventView>,
    names: Seq<Seq<char>>,
)
    requires
        consistent(t),
    ensures
        consistent(run(t, events, names)),
    decreases events.len(),
{
    if events.len() > 0 {
        lemma_run_keeps_consistent(t, events.drop_last(), names);
    }
}

/// A turn puts at most two stones on the board, and none before it has
/// asked for the human's placement; a turn that ends in a reply has put the
/// human's stone there, and one that ends in a failure has not put the
/// bot's.
pub proof fn lemma_stones_of_a_turn(
    api_version: Seq<char>,
    bot_id: Seq<char>,
    layout: Seq<char>,
    row: usize,
    col: usize,
    events: Seq<EventView>,
    names: Seq<Seq<char>>,
)
    ensures
        ({
            let t = run(opening(api_version, bot_id, layout, row, col), events, names);
            &&& placements(t) <= 2
            &&& t.pending is Reply ==> placements(t) >= 1
            &&& t.pending is Fail ==> placements(t) <= 1
        }),
{
    lemma_run_keeps_consistent(opening(api_version, bot_id, layout, row, col), events, names);
}

/// A turn that has ended stays as it is, whatever is reported to it.
pub proof fn lemma_ended_turn_stays(t: TurnView, events: Seq<EventView>, names: Seq<Seq<char>>)
    requires
        ended(t),
    ensures
        run(t, events, names) == t,
    decreases events.len(),
{
    if events.len() > 0 {
        lemma_ended_turn_stays(t, events.drop_last(), names);
    }
}

/// A request with another version token than the supported one has failed
/// as the turn begins, whatever its body holds, and nothing is ever done
/// with its position.
pub proof fn lemma_other_version_is_refused(
    api_version: Seq<char>,
    bot_id: Seq<char>,
    layout: Seq<char>,
    row: usize,
    col: usize,
    events: Seq<EventView>,
    names: Seq<Seq<char>>,
)
    requires
        !accepted_version(api_version),
    ensures
        ({
            let t = opening(api_version, bot_id, layout, row, col);
            &&& t.pending == (ActionView::Fail {
                kind: ErrorKind::VersionRejected,
                response: version_rejection(api_version),
            })
            &&& run(t, events, names) == t
        }),
{
    lemma_ended_turn_stays(opening(api_version, bot_id, layout, row, col), events, names);
}

/// With the supported version token, a position that decodes and is not
/// terminal, and a cell of the layout, the turn asks for the placement of
/// the player to move at the resolved cell; once the engine has applied it,
/// the turn has put one stone on the board and asks whether the game goes
/// on.
pub proof fn lemma_human_placement(
    api_version: Seq<char>,
    bot_id: Seq<char>,
    layout: Seq<char>,
    row: usize,
    col: usize,
    player: u32,
    names: Seq<Seq<char>>,
)
    requires
        accepted_version(api_version),
        resolve(layout, row, col) is Ok,
        addressable(resolve(layout, row, col)->Ok_0),
    ensures
        ({
            let cell = resolve(layout, row, col)->Ok_0;
            let asked = run(
                opening(api_version, bot_id, layout, row, col),
                seq![EventView::Decoded, EventView::Over(false), EventView::Player(Some(player))],
                names,
            );
            let placed = next_turn(asked, EventView::Placed, names);
            &&& asked.pending == (ActionView::PlaceHuman {
                player,
                index: cell.index as u32,
                board_size: cell.board_size as u32,
            })
            &&& placements(asked) == 0
            &&& placed.pending is CheckAfterHuman
            &&& placements(placed) == 1
            &&& consistent(placed)
        }),
{
    let start = opening(api_version, bot_id, layout, row, col);
    let e0 = Seq::<EventView>::empty();
    let e1 = e0.push(EventView::Decoded);
    let e2 = e1.push(EventView::Over(false));
    let e3 = e2.push(EventView::Player(Some(player)));
    lemma_run_push(start, e0, EventView::Decoded, names);
    lemma_run_push(start, e1, EventView::Over(false), names);
    lemma_run_push(start, e2, EventView::Player(Some(player)), names);
    assert(e3 =~= seq![
        EventView::Decoded,
        EventView::Over(false),
        EventView::Player(Some(player)),
    ]);
}

/// A cell reference that names no cell of the layout ends the turn in the
/// failure `CoordinateOutOfBounds` once the position is known not to be
/// terminal, before any player is asked for.
pub proof fn lemma_unknown_cell_is_refused(t: TurnView, names: Seq<Seq<char>>)
    requires
        t.pending is CheckStart,
        resolve(t.layout, t.row, t.col) is Err,
    ensures
        next_turn(t, EventView::Over(false), names) == failed(
            t,
            ErrorKind::CoordinateOutOfBounds,
            crate::turn::coordinate_message(resolve(t.layout, t.row, t.col)->Err_0),
        ),
{
}

/// A position that is terminal before the human's move ends the turn in
/// the failure `GameAlreadyOver`: whatever the cell reference is, it is not
/// looked at, and no placement is ever asked for.
pub proof fn lemma_terminal_position_is_refused(
    t: TurnView,
    events: Seq<EventView>,
    names: Seq<Seq<char>>,
)
    requires
        consistent(t),
        t.pending is CheckStart,
    ensures
        ({
            let refused = next_turn(t, EventView::Over(true), names);
            &&& refused == failed(t, ErrorKind::GameAlreadyOver, "Game is already over"@)
            &&& run(refused, events, names) == refused
            &&& placements(refused) == 0
        }),
{
    lemma_ended_turn_stays(next_turn(t, EventView::Over(true), names), events, names);
}

/// Once the human's placement has ended the game, the turn only encodes and
/// replies.
spec fn answering_alone(t: TurnView) -> bool {
    &&& t.pending is Encode || t.pending is Reply
    &&& t.human_placed
    &&& !t.bot_placed
}

proof fn lemma_answering_alone_runs(t: TurnView, events: Seq<EventView>, names: Seq<Seq<char>>)
    requires
        answering_alone(t),
    ensures
        answering_alone(run(t, events, names)),
    decreases events.len(),
{
    if events.len() > 0 {
        lemma_answering_alone_runs(t, events.drop_last(), names);
    }
}

/// If the human's placement ends the game, the bot is not asked: the turn
/// goes on to encode the position, answers with what the codec gives, and
/// has put exactly one stone on the board, whatever is reported to it
/// afterwards.
pub proof fn lemma_winning_move_is_answered_alone(
    t: TurnView,
    events: Seq<EventView>,
    notation: Seq<char>,
    names: Seq<Seq<char>>,
)
    requires
        consistent(t),
        t.pending is CheckAfterHuman,
    ensures
        ({
            let won = next_turn(t, EventView::Over(true), names);
            let later = run(won, events, names);
            &&& won == moved(t, ActionView::Encode)
            &&& next_turn(won, EventView::Encoded { notation }, names) == moved(
                t,
                ActionView::Reply { notation },
            )
            &&& later.pending is Encode || later.pending is Reply
            &&& placements(later) == 1
        }),
{
    lemma_answering_alone_runs(next_turn(t, EventView::Over(true), names), events, names);
}

/// Once the game goes on after the human's placement, the turn can only
/// reply after the bot's placement.
spec fn awaiting_bot(t: TurnView) -> bool {
    &&& t.human_placed
    &&& match t.pending {
        ActionView::ChooseBotMove { .. } => !t.bot_placed,
        ActionView::BotPlayer => !t.bot_placed,
        ActionView::PlaceBot { .. } => !t.bot_placed,
        ActionView::Encode => t.bot_placed,
        ActionView::Reply { .. } => t.bot_placed,
        ActionView::Fail { .. } => !t.bot_placed,
        _ => false,
    }
}

proof fn lemma_awaiting_bot_runs(t: TurnView, events: Seq<EventView>, names: Seq<Seq<char>>)
    requires
        awaiting_bot(t),
    ensures
        awaiting_bot(run(t, events, names)),
    decreases events.len(),
{
    if events.len() > 0 {
        lemma_awaiting_bot_runs(t, events.drop_last(), names);
    }
}

/// If the game goes on after the human's placement, a turn that ends in a
/// reply has put exactly two stones on the board, the human's and the
/// bot's; one that ends in a failure from there has put only the human's,
/// and answers with no position.
pub proof fn lemma_reply_after_bot_has_two_stones(
    t: TurnView,
    events: Seq<EventView>,
    names: Seq<Seq<char>>,
)
    requires
        consistent(t),
        t.pending is CheckAfterHuman,
    ensures
        ({
            let later = run(next_turn(t, EventView::Over(false), names), events, names);
            &&& later.pending is Reply ==> placements(later) == 2
            &&& later.pending is Fail ==> placements(later) == 1
        }),
{
    lemma_awaiting_bot_runs(next_turn(t, EventView::Over(false), names), events, names);
}

/// With a registered bot that offers a move which the engine accepts, the
/// turn that goes on after the human's placement ends in the reply that the
/// codec gives, with two stones placed.
pub proof fn lemma_bot_reply_completes(
    t: TurnView,
    player: u32,
    notation: Seq<char>,
    names: Seq<Seq<char>>,
)
    requires
        consistent(t),
        t.pending is CheckAfterHuman,
        names.contains(t.bot_id),
    ensures
        ({
            let done = run(
                t,
                seq![
                    EventView::Over(false),
                    EventView::BotChose,
                    EventView::Player(Some(player)),
                    EventView::Placed,
                    EventView::Encoded { notation },
                ],
                names,
            );
            &&& done.pending == ActionView::Reply { notation }
            &&& placements(done) == 2
        }),
{
    lemma_first_position(names, t.bot_id);
    let e0 = Seq::<EventView>::empty();
    let e1 = e0.push(EventView::Over(false));
    let e2 = e1.push(EventView::BotChose);
    let e3 = e2.push(EventView::Player(Some(player)));
    let e4 = e3.push(EventView::Placed);
    let e5 = e4.push(EventView::Encoded { notation });
    lemma_run_push(t, e0, EventView::Over(false), names);
    lemma_run_push(t, e1, EventView::BotChose, names);
    lemma_run_push(t, e2, EventView::Player(Some(player)), names);
    lemma_run_push(t, e3, EventView::Placed, names);
    lemma_run_push(t, e4, EventView::Encoded { notation }, names);
    assert(e5 =~= seq![
        EventView::Over(false),
        EventView::BotChose,
        EventView::Player(Some(player)),
        EventView::Placed,
        EventView::Encoded { notation },
    ]);
}

/// A bot identifier that is not registered ends the turn in the failure
/// `BotNotFound` as soon as the game is known to go on after the human's
/// placement. The message lists the registered identifiers, all of them and
/// in their order, whatever else the turn holds.
pub proof fn lemma_unknown_bot_is_reported(t: TurnView, names: Seq<Seq<char>>)
    requires
        t.pending is CheckAfterHuman,
        !names.contains(t.bot_id),
    ensures
        next_turn(t, EventView::Over(false), names) == failed(
            t,
            ErrorKind::BotNotFound,
            bot_not_found_message(t.bot_id, names),
        ),
{
    lemma_first_position(names, t.bot_id);
}

/// A registered bot is asked for its move as soon as the game is known to
/// go on after the human's placement: the one at the first position where
/// its identifier stands.
pub proof fn lemma_known_bot_is_asked(t: TurnView, names: Seq<Seq<char>>)
    requires
        t.pending is CheckAfterHuman,
        names.contains(t.bot_id),
        names.len() <= usize::MAX,
    ensures
        next_turn(t, EventView::Over(false), names).pending is ChooseBotMove,
        ({
            let bot = next_turn(t, EventView::Over(false), names).pending->ChooseBotMove_bot;
            &&& bot < names.len()
            &&& names[bot as int] == t.bot_id
            &&& forall|j: int| 0 <= j < bot ==> names[j] != t.bot_id
        }),
{
    lemma_first_position(names, t.bot_id);
}

} // verus!
