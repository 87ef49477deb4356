//! A turn: the move by the roll, the year's turn on passing the first tile,
//! and the tile that the player lands on.

use crate::config::SIDE_JOB_PAY;
use crate::error::GameError;
use crate::game::tiles::is_tile_event_handled;
use crate::log::LogEntry;
use crate::models::asset::AssetTable;
use crate::models::board::BoardTile;
use crate::models::game_state::GameState;
use crate::models::multiplier::Multiplier;
use crate::models::player::{aged_effects, fits_i32, Player};
use vstd::prelude::*;

verus! {

/// Whether the move of the player by `roll` passes the first tile.
pub open spec fn passes_start(p: Player, roll: u32, board_len: int) -> bool {
    p.position + roll >= board_len
}

/// Where the move of the player by `roll` ends.
pub open spec fn landing(p: Player, roll: u32, board_len: int) -> int
    recommends
        board_len > 0,
{
    (p.position + roll) % board_len
}

/// Whether the turn can be taken without leaving the range of the
/// player's counters.
pub open spec fn turn_in_range(p: Player, roll: u32, board_len: int) -> bool {
    &&& p.position + roll <= usize::MAX
    &&& p.turns_taken < i32::MAX
    &&& passes_start(p, roll, board_len) ==> p.year < u32::MAX && (p.eligible_for_side_job_pay
        ==> fits_i32(p.cash + SIDE_JOB_PAY))
}

/// Whether `q` is the player `p` after the move by `roll`: a turn more is
/// taken and the position is the landing. On passing the first tile a new
/// year begins, the lasting effects age, the pay of the side job comes in
/// where the player is eligible, every player is eligible again, and the
/// crop factors are forgotten.
pub open spec fn is_moved(p: Player, roll: u32, board_len: int, q: Player) -> bool {
    if passes_start(p, roll, board_len) {
        &&& q == (Player {
            position: landing(p, roll, board_len) as usize,
            turns_taken: (p.turns_taken + 1) as i32,
            year: (p.year + 1) as u32,
            cash: if p.eligible_for_side_job_pay {
                (p.cash + SIDE_JOB_PAY) as i32
            } else {
                p.cash
            },
            eligible_for_side_job_pay: true,
            crop_yield_multipliers: AssetTable::<Multiplier>::spec_empty(),
            persistent_effects: q.persistent_effects,
            ..p
        })
        &&& q.persistent_effects@ == aged_effects(p.persistent_effects@)
    } else {
        q == (Player {
            position: landing(p, roll, board_len) as usize,
            turns_taken: (p.turns_taken + 1) as i32,
            ..p
        })
    }
}

/// The entries for passing the first tile; none where it is not passed.
pub open spec fn passing_entries(p: Player, roll: u32, board_len: int) -> Seq<LogEntry> {
    if passes_start(p, roll, board_len) {
        seq![
            LogEntry::PassedGo { name: p.name },
            LogEntry::YearAdvanced { year: (p.year + 1) as u32 },
            if p.eligible_for_side_job_pay {
                LogEntry::SideJobPay { cash: (p.cash + SIDE_JOB_PAY) as i32 }
            } else {
                LogEntry::NoSideJobPay
            },
        ]
    } else {
        Seq::empty()
    }
}

/// The entries for landing on a tile: the roll and the tile's name, and the
/// tile's description where it has one that is not empty.
pub open spec fn landing_entries(roll: u32, tile: BoardTile) -> Seq<LogEntry> {
    match tile.description {
        Some(d) => if d@.len() > 0 {
            seq![LogEntry::Rolled { steps: roll, tile: tile.name }, LogEntry::Text { text: d }]
        } else {
            seq![LogEntry::Rolled { steps: roll, tile: tile.name }]
        },
        None => seq![LogEntry::Rolled { steps: roll, tile: tile.name }],
    }
}

/// The entry for a tile that failed; none where it did not.
pub open spec fn tile_failure_entries(t: Result<(), GameError>) -> Seq<LogEntry> {
    match t {
        Ok(()) => Seq::empty(),
        Err(e) => seq![LogEntry::TileFailed { reason: e }],
    }
}

/// Whether `r` and `after` are what a turn of the player under
/// `player_id` with the roll `roll` leaves of the state `before`.
///
/// * A missing player, a board without tiles and a counter out of range are
///   errors, and nothing changes.
/// * Otherwise the player moves as `is_moved` says and the tile of the
///   landing is handled as `is_tile_event_handled` says. A tile that fails
///   is logged; the turn stands, and its log is returned.
pub open spec fn is_turn_handled(
    before: GameState,
    player_id: usize,
    roll: u32,
    r: Result<Vec<LogEntry>, GameError>,
    after: GameState,
) -> bool {
    if !before.players.has(player_id) {
        r == Err::<Vec<LogEntry>, GameError>(GameError::PlayerNotFound { player_id }) && after
            == before
    } else if before.board@.len() == 0 {
        r == Err::<Vec<LogEntry>, GameError>(GameError::InvalidPosition { position: 0 }) && after
            == before
    } else if !turn_in_range(
        before.players.player(player_id),
        roll,
        before.board@.len() as int,
    ) {
        r == Err::<Vec<LogEntry>, GameError>(GameError::AmountOutOfRange) && after == before
    } else {
        let i = before.players.index_of(player_id);
        let p = before.players.player(player_id);
        let n = before.board@.len() as int;
        let tile = before.board@[landing(p, roll, n)];
        exists|moved: GameState, t: Result<(), GameError>, event_logs: Seq<LogEntry>|
            #![trigger is_tile_event_handled(moved, player_id, tile, passing_entries(p, roll, n) + landing_entries(roll, tile), t, after, event_logs)]
            {
                &&& before.same_but_players(moved)
                &&& moved.players.entries@.len() == before.players.entries@.len()
                &&& moved.players.entries@ == before.players.entries@.update(
                    i,
                    (player_id, moved.players.entries@[i].1),
                )
                &&& is_moved(p, roll, n, moved.players.entries@[i].1)
                &&& is_tile_event_handled(
                    moved,
                    player_id,
                    tile,
                    passing_entries(p, roll, n) + landing_entries(roll, tile),
                    t,
                    after,
                    event_logs,
                )
                &&& r.is_ok()
                &&& r.unwrap()@ == event_logs + tile_failure_entries(t)
            }
    }
}

/// Whether the seats `after` are under the ids of the seats `before`, with
/// one turn more taken by the player in the seat `i` and as many as before
/// by everyone else.
pub open spec fn is_turn_counted(
    before: Seq<(usize, Player)>,
    i: int,
    after: Seq<(usize, Player)>,
) -> bool {
    &&& after.len() == before.len()
    &&& forall|j: int|
        0 <= j < before.len() ==> (#[trigger] after[j]).0 == before[j].0 && after[j].1.turns_taken
            == before[j].1.turns_taken + if j == i {
            1int
        } else {
            0int
        }
}

/// Takes a turn for the player under `player_id` with the roll `roll` and
/// returns the log of it. A turn that is taken counts once, whatever the
/// tile does; a turn that is refused changes nothing.
#[verifier::rlimit(50)]
pub fn handle_player_turn(game: &mut GameState, player_id: usize, roll: u32) -> (r: Result<
    Vec<LogEntry>,
    GameError,
>)
    ensures
        is_turn_handled(*old(game), player_id, roll, r, *final(game)),
        r.is_ok() || old(game).books_balanced() ==> final(game).books_balanced(),
        r.is_ok() ==> is_turn_counted(
            old(game).players.entries@,
            old(game).players.index_of(player_id),
            final(game).players.entries@,
        ),
        r.is_err() ==> *final(game) == *old(game),
{
    let i = match game.players.position(player_id) {
        Some(i) => i,
        None => {
            return Err(GameError::PlayerNotFound { player_id });
        },
    };
    let board_len = game.board.len();
    if board_len == 0 {
        return Err(GameError::InvalidPosition { position: 0 });
    }
    let ghost p = old(game).players.player(player_id);
    let old_position = game.players.entries[i].1.position;
    if old_position > usize::MAX - roll as usize {
        return Err(GameError::AmountOutOfRange);
    }
    let total = old_position + roll as usize;
    let passes = total >= board_len;
    let new_position = total % board_len;
    if game.players.entries[i].1.turns_taken == i32::MAX {
        return Err(GameError::AmountOutOfRange);
    }
    let pay: i64 = game.players.entries[i].1.cash as i64 + SIDE_JOB_PAY as i64;
    if passes && (game.players.entries[i].1.year == u32::MAX || (
    game.players.entries[i].1.eligible_for_side_job_pay && pay > i32::MAX as i64)) {
        return Err(GameError::AmountOutOfRange);
    }
    let tile = game.board[new_position].clone();
    let mut logs: Vec<LogEntry> = Vec::new();
    game.players.entries[i].1.turns_taken += 1;
    if passes {
        logs.push(LogEntry::PassedGo { name: game.players.entries[i].1.name.clone() });
        game.players.entries[i].1.advance_year();
        logs.push(LogEntry::YearAdvanced { year: game.players.entries[i].1.year });
        if game.players.entries[i].1.eligible_for_side_job_pay {
            game.players.entries[i].1.cash = pay as i32;
            logs.push(LogEntry::SideJobPay { cash: pay as i32 });
        } else {
            logs.push(LogEntry::NoSideJobPay);
        }
        game.players.entries[i].1.eligible_for_side_job_pay = true;
        game.players.entries[i].1.reset_crop_multipliers();
    }
    game.players.entries[i].1.position = new_position;
    assert(logs@ =~= passing_entries(p, roll, board_len as int));
    logs.push(LogEntry::Rolled { steps: roll, tile: tile.name.clone() });
    match &tile.description {
        Some(d) => {
            if !d.as_str().is_empty() {
                logs.push(LogEntry::Text { text: d.clone() });
            }
        },
        None => {},
    }
    let ghost moved = *game;
    let ghost opening = logs@;
    proof {
        assert(opening =~= passing_entries(p, roll, board_len as int) + landing_entries(roll, tile));
        assert(moved.players.entries@ =~= old(game).players.entries@.update(
            i as int,
            (player_id, moved.players.entries@[i as int].1),
        ));
        assert(is_moved(p, roll, board_len as int, moved.players.entries@[i as int].1));
    }
    let t = game.handle_tile_event(player_id, &tile, &mut logs);
    let ghost event_logs = logs@;
    let ghost outcome = t;
    match t {
        Ok(()) => {},
        Err(e) => {
            logs.push(LogEntry::TileFailed { reason: e });
        },
    }
    proof {
        assert(logs@ =~= event_logs + tile_failure_entries(outcome));
        assert(is_tile_event_handled(
            moved,
            player_id,
            tile,
            passing_entries(p, roll, board_len as int) + landing_entries(roll, tile),
            outcome,
            *game,
            event_logs,
        ));
    }
    Ok(logs)
}

} // verus!
