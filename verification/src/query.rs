//! The nine upstream queries issued for one snapshot build: which dataset
//! each one fetches, which endpoint it goes to, and which parameters it
//! carries. The driver that actually performs the HTTP requests consumes
//! these descriptions; everything here is plain data with exact contracts.

use vstd::prelude::*;

verus! {

/// Numeric feed type of a Black Hole narrative event.
pub const BLACK_HOLE_EVENT_TYPE: u64 = 157;

/// Numeric feed type of a Sun 2 narrative event.
pub const SUN_2_EVENT_TYPE: u64 = 156;

/// The Sun 2 feed is capped at this many most recent events.
pub const SUN_2_FEED_LIMIT: u64 = 100;

/// The nine datasets fetched for one snapshot, in the order the build
/// issues them.
#[derive(Debug, Clone, Copy, PartialEq, Eq, Structural)]
pub enum Dataset {
    StrikeoutLeaders,
    AtBatLeaders,
    PitchingStats,
    Teams,
    Players,
    BlackHole,
    Sun2,
    PastGames,
    Idols,
}

/// Parameters of a season-leaders query.
#[derive(Debug, Clone)]
pub struct LeadersQuery {
    pub category: String,
    pub stat: String,
    pub season: isize,
}

/// Parameters of a player-stats query. The pitcher-id filter is the
/// comma-joined id list derived from the game list.
#[derive(Debug, Clone)]
pub struct StatsQuery {
    pub category: String,
    pub player_ids: String,
    pub season: isize,
}

/// Parameters of the historical-games query.
#[derive(Debug, Clone)]
pub struct GamesQuery {
    pub season: isize,
}

/// Parameters of the player-positions query.
#[derive(Debug, Clone)]
pub struct PlayersQuery {
    pub forbidden: bool,
}

/// Parameters of a global-feed query.
#[derive(Debug, Clone)]
pub struct FeedQuery {
    pub event_type: u64,
    pub limit: Option<u64>,
}

/// One fully parameterized upstream request.
#[derive(Debug, Clone)]
pub enum Request {
    SeasonLeaders(LeadersQuery),
    PlayerStats(StatsQuery),
    AllTeams,
    Players(PlayersQuery),
    GlobalFeed(FeedQuery),
    PastGames(GamesQuery),
    Idols,
}

/// Whether a dataset's query is scoped to the season being built.
pub open spec fn is_season_scoped(d: Dataset) -> bool {
    match d {
        Dataset::StrikeoutLeaders => true,
        Dataset::AtBatLeaders => true,
        Dataset::PitchingStats => true,
        Dataset::PastGames => true,
        Dataset::Teams => false,
        Dataset::Players => false,
        Dataset::BlackHole => false,
        Dataset::Sun2 => false,
        Dataset::Idols => false,
    }
}

/// The season parameter a request carries, if it carries one at all.
pub open spec fn season_param(r: Request) -> Option<isize> {
    match r {
        Request::SeasonLeaders(q) => Some(q.season),
        Request::PlayerStats(q) => Some(q.season),
        Request::PastGames(q) => Some(q.season),
        Request::AllTeams => None,
        Request::Players(_) => None,
        Request::GlobalFeed(_) => None,
        Request::Idols => None,
    }
}

/// The exact request that fetches dataset `d` for the given season and
/// derived pitcher-id filter.
pub open spec fn request_matches(r: Request, d: Dataset, season: isize, pitcher_ids: Seq<char>) -> bool {
    match d {
        Dataset::StrikeoutLeaders => r matches Request::SeasonLeaders(q) && q.category@
            == "batting"@ && q.stat@ == "strikeouts"@ && q.season == season,
        Dataset::AtBatLeaders => r matches Request::SeasonLeaders(q) && q.category@ == "batting"@
            && q.stat@ == "at_bats"@ && q.season == season,
        Dataset::PitchingStats => r matches Request::PlayerStats(q) && q.category@ == "pitching"@
            && q.player_ids@ == pitcher_ids && q.season == season,
        Dataset::Teams => r is AllTeams,
        Dataset::Players => r matches Request::Players(q) && q.forbidden == false,
        Dataset::BlackHole => r matches Request::GlobalFeed(q) && q.event_type
            == BLACK_HOLE_EVENT_TYPE && q.limit is None,
        Dataset::Sun2 => r matches Request::GlobalFeed(q) && q.event_type == SUN_2_EVENT_TYPE
            && q.limit == Some(SUN_2_FEED_LIMIT),
        Dataset::PastGames => r matches Request::PastGames(q) && q.season == season,
        Dataset::Idols => r is Idols,
    }
}

/// Builds the request for one dataset. The season goes through unchanged
/// into every season-scoped query and into no other.
pub fn request_for(d: Dataset, season: isize, pitcher_ids: &String) -> (r: Request)
    ensures
        request_matches(r, d, season, pitcher_ids@),
        season_param(r) == (if is_season_scoped(d) {
            Some(season)
        } else {
            None::<isize>
        }),
{
    match d {
        Dataset::StrikeoutLeaders => Request::SeasonLeaders(LeadersQuery {
            category: "batting".to_owned(),
            stat: "strikeouts".to_owned(),
            season,
        }),
        Dataset::AtBatLeaders => Request::SeasonLeaders(LeadersQuery {
            category: "batting".to_owned(),
            stat: "at_bats".to_owned(),
            season,
        }),
        Dataset::PitchingStats => Request::PlayerStats(StatsQuery {
            category: "pitching".to_owned(),
            player_ids: pitcher_ids.clone(),
            season,
        }),
        Dataset::Teams => Request::AllTeams,
        Dataset::Players => Request::Players(PlayersQuery { forbidden: false }),
        Dataset::BlackHole => Request::GlobalFeed(FeedQuery {
            event_type: BLACK_HOLE_EVENT_TYPE,
            limit: None,
        }),
        Dataset::Sun2 => Request::GlobalFeed(FeedQuery {
            event_type: SUN_2_EVENT_TYPE,
            limit: Some(SUN_2_FEED_LIMIT),
        }),
        Dataset::PastGames => Request::PastGames(GamesQuery { season }),
        Dataset::Idols => Request::Idols,
    }
}

/// A request carries a season parameter exactly when its dataset is
/// season-scoped, and then it is the build's own season, unchanged.
pub proof fn lemma_season_scoping(r: Request, d: Dataset, season: isize, pitcher_ids: Seq<char>)
    requires
        request_matches(r, d, season, pitcher_ids),
    ensures
        is_season_scoped(d) ==> season_param(r) == Some(season),
        !is_season_scoped(d) ==> season_param(r) is None,
{
}

/// The fixed endpoint each request goes to.
pub fn endpoint_url(r: &Request) -> (u: &'static str)
    ensures
        r is SeasonLeaders ==> u@ == "https://api.blaseball-reference.com/v1/seasonLeaders"@,
        r is PlayerStats ==> u@ == "https://api.blaseball-reference.com/v1/playerStats"@,
        r is AllTeams ==> u@ == "https://www.blaseball.com/database/allTeams"@,
        r is Players ==> u@ == "https://api.sibr.dev/chronicler/v1/players"@,
        r is GlobalFeed ==> u@ == "https://www.blaseball.com/database/feed/global"@,
        r is PastGames ==> u@ == "https://api.sibr.dev/chronicler/v1/games"@,
        r is Idols ==> u@ == "https://www.blaseball.com/api/getIdols"@,
{
    match r {
        Request::SeasonLeaders(_) => "https://api.blaseball-reference.com/v1/seasonLeaders",
        Request::PlayerStats(_) => "https://api.blaseball-reference.com/v1/playerStats",
        Request::AllTeams => "https://www.blaseball.com/database/allTeams",
        Request::Players(_) => "https://api.sibr.dev/chronicler/v1/players",
        Request::GlobalFeed(_) => "https://www.blaseball.com/database/feed/global",
        Request::PastGames(_) => "https://api.sibr.dev/chronicler/v1/games",
        Request::Idols => "https://www.blaseball.com/api/getIdols",
    }
}

} // verus!
