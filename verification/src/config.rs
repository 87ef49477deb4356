//! The fixed numbers of the game and the six farmers it comes with.

use crate::models::player::PlayerType;
use vstd::prelude::*;
use vstd::string::StringExecFns;

verus! {

/// The net worth that wins the game.
pub const WINNING_NET_WORTH: i32 = 250_000;

/// What a player holds in cash at the start.
pub const STARTING_CASH: i32 = 5000;

/// The acres that every player starts with.
pub const STARTING_LAND: i32 = 20;

/// What a player owes the bank at the start.
pub const STARTING_DEBT: i32 = 5000;

/// The year in which a player starts.
pub const STARTING_YEAR: u32 = 1;

/// The tile on which a player starts.
pub const STARTING_POSITION: usize = 0;

/// The most that a player may owe.
pub const MAX_DEBT: i32 = 50_000;

/// The step in which the bank lends.
pub const LOAN_INCREMENT: i32 = 5000;

/// The most cows that a farm may hold, ridges apart.
pub const FARM_COW_LIMIT: i32 = 20;

/// What a player collects for a year's side job on passing the first tile.
pub const SIDE_JOB_PAY: i32 = 5000;

/// The number of tiles on the board.
pub const BOARD_SIZE: usize = 49;

/// One of the farmers that the game comes with.
#[derive(Debug, Clone, Copy, PartialEq, Eq)]
pub struct NativePlayer {
    pub name: &'static str,
    pub color: &'static str,
}

/// The farmer at place `i` of the six.
pub open spec fn native_player_at(i: int) -> (Seq<char>, Seq<char>) {
    if i == 0 {
        ("Roza Ray"@, "Red"@)
    } else if i == 1 {
        ("Harrah Harry"@, "Brown"@)
    } else if i == 2 {
        ("Toppenish Tom"@, "Green"@)
    } else if i == 3 {
        ("Satus Sam"@, "Blue"@)
    } else if i == 4 {
        ("Sunnyside Sidney"@, "White"@)
    } else {
        ("Wapato Willie"@, "Yellow"@)
    }
}

/// The six farmers that the game comes with, in their fixed order.
pub fn native_players() -> (v: Vec<NativePlayer>)
    ensures
        v.len() == 6,
        forall|i: int|
            0 <= i < 6 ==> (#[trigger] v[i]).name@ == native_player_at(i).0 && v[i].color@
                == native_player_at(i).1,
{
    let mut v: Vec<NativePlayer> = Vec::new();
    v.push(NativePlayer { name: "Roza Ray", color: "Red" });
    v.push(NativePlayer { name: "Harrah Harry", color: "Brown" });
    v.push(NativePlayer { name: "Toppenish Tom", color: "Green" });
    v.push(NativePlayer { name: "Satus Sam", color: "Blue" });
    v.push(NativePlayer { name: "Sunnyside Sidney", color: "White" });
    v.push(NativePlayer { name: "Wapato Willie", color: "Yellow" });
    v
}

/// The player type of a computer player called `name`.
pub fn create_ai_player(name: &str) -> (p: PlayerType)
    ensures
        p matches PlayerType::AI(n) && n@ == name@,
{
    PlayerType::AI(String::from_str(name))
}

} // verus!
