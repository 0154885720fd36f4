//! Plain data records for the snapshot: the upstream response schemas are
//! foreign contracts, so each record here carries the fields the snapshot
//! consumer reads, as plain values.

use vstd::prelude::*;

verus! {

/// One scheduled or live game. Identity is the upstream id; a game carries
/// zero or more pitcher identifiers.
#[derive(Debug, Clone)]
pub struct Game {
    pub id: String,
    pub pitcher_ids: Vec<String>,
}

/// A ranked strikeout-leader entry for one season.
#[derive(Debug, Clone)]
pub struct StrikeoutLeader {
    pub player_id: String,
    pub value: i64,
}

/// A ranked at-bat-leader entry for one season.
#[derive(Debug, Clone)]
pub struct AtBatLeader {
    pub player_id: String,
    pub value: i64,
}

/// Per-pitcher season statistics.
#[derive(Debug, Clone)]
pub struct PitchingStats {
    pub player_id: String,
    pub strikeouts: i64,
}

/// A team record.
#[derive(Debug, Clone)]
pub struct Team {
    pub id: String,
    pub full_name: String,
}

/// A player position record.
#[derive(Debug, Clone)]
pub struct Position {
    pub player_id: String,
    pub team_id: String,
}

/// A historical game-update record for the season.
#[derive(Debug, Clone)]
pub struct GameUpdate {
    pub game_id: String,
}

/// An idol-ranking entry.
#[derive(Debug, Clone)]
pub struct Idol {
    pub player_id: String,
}

/// A narrative feed event, tagged by its numeric event type.
#[derive(Debug, Clone)]
pub struct FeedItem {
    pub id: String,
    pub event_type: u64,
    pub description: String,
}

/// The simulation header carried by an input event.
#[derive(Debug, Clone)]
pub struct Sim {
    pub season: isize,
}

/// The two candidate schedules and the simulation header.
#[derive(Debug, Clone)]
pub struct GamesData {
    pub schedule: Vec<Game>,
    pub tomorrow_schedule: Vec<Game>,
    pub sim: Sim,
}

/// The payload of an input event.
#[derive(Debug, Clone)]
pub struct EventValue {
    pub games: GamesData,
}

/// An input event: the current schedules and season, supplied by the caller.
#[derive(Debug, Clone)]
pub struct Event {
    pub value: EventValue,
}

/// The immutable aggregate of every fetched dataset for one build.
#[derive(Debug)]
pub struct State {
    pub strikeouts: Vec<StrikeoutLeader>,
    pub at_bats: Vec<AtBatLeader>,
    pub pitcher_stats: Vec<PitchingStats>,
    pub teams: Vec<Team>,
    pub players: Vec<Position>,
    pub games: Vec<Game>,
    pub past_games: Vec<GameUpdate>,
    pub idols: Vec<Idol>,
    pub black_hole: Vec<FeedItem>,
    pub sun_2: Vec<FeedItem>,
    pub season: isize,
}

} // verus!
