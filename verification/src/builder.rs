//! The snapshot build: one slot per dataset, a fixed failure policy per
//! dataset, and a final assembly that can only succeed once every slot is
//! filled. The builder decides; a driver outside this crate performs the
//! HTTP fetches and hands each outcome back.

use vstd::prelude::*;
use crate::model::AtBatLeader;
use crate::model::Event;
use crate::model::FeedItem;
use crate::model::Game;
use crate::model::GameUpdate;
use crate::model::Idol;
use crate::model::PitchingStats;
use crate::model::Position;
use crate::model::State;
use crate::model::StrikeoutLeader;
use crate::model::Team;
use crate::pitchers::comma_join;
use crate::pitchers::comma_pitchers;
use crate::pitchers::pitcher_ids_of;
use crate::query::Dataset;
use crate::query::Request;
use crate::query::request_for;
use crate::query::request_matches;

verus! {

/// Failure policy of one dataset: a strict dataset aborts the build on any
/// failure; a fallback dataset substitutes an empty sequence when its
/// response cannot be decoded. Transport failures abort either way.
#[derive(Debug, Clone, Copy, PartialEq, Eq, Structural)]
pub enum Policy {
    Strict,
    FallbackOnDecodeError,
}

/// Why a single fetch failed: the request itself, or its body's schema.
#[derive(Debug, Clone, Copy, PartialEq, Eq, Structural)]
pub enum FailureCause {
    Transport,
    Decode,
}

/// Why a build was aborted: the offending dataset and the kind of failure.
#[derive(Debug, Clone, Copy, PartialEq, Eq, Structural)]
pub struct BuildError {
    pub dataset: Dataset,
    pub cause: FailureCause,
}

/// What one fetch produced: a decoded body, a transport failure, or a body
/// that did not match the expected schema.
#[derive(Debug, Clone)]
pub enum FetchOutcome<T> {
    Success(T),
    TransportFailure,
    DecodeFailure,
}

/// The failure policy of each dataset. Exactly the three leader and
/// pitching statistics fall back to empty on a decode failure; every other
/// dataset is strict.
pub open spec fn spec_policy(d: Dataset) -> Policy {
    match d {
        Dataset::StrikeoutLeaders => Policy::FallbackOnDecodeError,
        Dataset::AtBatLeaders => Policy::FallbackOnDecodeError,
        Dataset::PitchingStats => Policy::FallbackOnDecodeError,
        Dataset::Teams => Policy::Strict,
        Dataset::Players => Policy::Strict,
        Dataset::BlackHole => Policy::Strict,
        Dataset::Sun2 => Policy::Strict,
        Dataset::PastGames => Policy::Strict,
        Dataset::Idols => Policy::Strict,
    }
}

/// The failure policy of one dataset.
pub fn policy_for(d: Dataset) -> (p: Policy)
    ensures
        p == spec_policy(d),
{
    match d {
        Dataset::StrikeoutLeaders => Policy::FallbackOnDecodeError,
        Dataset::AtBatLeaders => Policy::FallbackOnDecodeError,
        Dataset::PitchingStats => Policy::FallbackOnDecodeError,
        Dataset::Teams => Policy::Strict,
        Dataset::Players => Policy::Strict,
        Dataset::BlackHole => Policy::Strict,
        Dataset::Sun2 => Policy::Strict,
        Dataset::PastGames => Policy::Strict,
        Dataset::Idols => Policy::Strict,
    }
}

/// What applying a dataset's policy to one fetch outcome yields, at the
/// level of the contained sequence.
pub open spec fn spec_resolve<T>(d: Dataset, outcome: FetchOutcome<Vec<T>>) -> Result<
    Seq<T>,
    BuildError,
> {
    match outcome {
        FetchOutcome::Success(v) => Ok(v@),
        FetchOutcome::TransportFailure => Err(
            BuildError { dataset: d, cause: FailureCause::Transport },
        ),
        FetchOutcome::DecodeFailure => if spec_policy(d) is FallbackOnDecodeError {
            Ok(Seq::empty())
        } else {
            Err(BuildError { dataset: d, cause: FailureCause::Decode })
        },
    }
}

/// Applies the dataset's failure policy to one fetch outcome: a decoded
/// body is kept as it came, a transport failure always aborts, and a decode
/// failure aborts only a strict dataset, yielding the empty list otherwise.
pub fn resolve<T>(d: Dataset, outcome: FetchOutcome<Vec<T>>) -> (r: Result<Vec<T>, BuildError>)
    ensures
        outcome matches FetchOutcome::Success(v) ==> r == Ok::<Vec<T>, BuildError>(v),
        outcome is TransportFailure ==> r == Err::<Vec<T>, BuildError>(
            (BuildError { dataset: d, cause: FailureCause::Transport }),
        ),
        outcome is DecodeFailure && spec_policy(d) is FallbackOnDecodeError ==> (r matches Ok(v)
            && v@ =~= Seq::<T>::empty()),
        outcome is DecodeFailure && spec_policy(d) is Strict ==> r == Err::<Vec<T>, BuildError>(
            (BuildError { dataset: d, cause: FailureCause::Decode }),
        ),
        (r matches Ok(v) ==> spec_resolve(d, outcome) == Ok::<Seq<T>, BuildError>(v@)),
        (r matches Err(e) ==> spec_resolve(d, outcome) == Err::<Seq<T>, BuildError>(e)),
{
    match outcome {
        FetchOutcome::Success(v) => Ok(v),
        FetchOutcome::TransportFailure => Err(
            BuildError { dataset: d, cause: FailureCause::Transport },
        ),
        FetchOutcome::DecodeFailure => match policy_for(d) {
            Policy::FallbackOnDecodeError => Ok(Vec::new()),
            Policy::Strict => Err(BuildError { dataset: d, cause: FailureCause::Decode }),
        },
    }
}

/// A decode failure on a fallback dataset resolves to the empty dataset
/// rather than an error, so the build goes on without it.
pub proof fn lemma_decode_failure_falls_back<T>(d: Dataset, outcome: FetchOutcome<Vec<T>>)
    requires
        spec_policy(d) is FallbackOnDecodeError,
        outcome is DecodeFailure,
    ensures
        spec_resolve(d, outcome) == Ok::<Seq<T>, BuildError>(Seq::empty()),
{
}

/// Any failure on a strict dataset resolves to an error naming that dataset
/// and whether transport or decoding was at fault, so the build aborts.
pub proof fn lemma_strict_failure_aborts<T>(d: Dataset, outcome: FetchOutcome<Vec<T>>)
    requires
        spec_policy(d) is Strict,
        !(outcome is Success),
    ensures
        spec_resolve(d, outcome) matches Err(e) && e.dataset == d && e.cause == (if outcome
            is TransportFailure {
            FailureCause::Transport
        } else {
            FailureCause::Decode
        }),
{
}

/// The game list a build derives from an input event: tomorrow's schedule
/// when it is non-empty, today's schedule otherwise.
pub open spec fn selected_games(e: Event) -> Seq<Game> {
    if e.value.games.tomorrow_schedule@.len() > 0 {
        e.value.games.tomorrow_schedule@
    } else {
        e.value.games.schedule@
    }
}

/// Whether the fallback to today's schedule is taken for an input event;
/// exactly then a warning is due from the driver.
pub open spec fn fallback_taken(e: Event) -> bool {
    e.value.games.tomorrow_schedule@.len() == 0
}

/// When tomorrow's schedule is non-empty it is chosen exactly, same
/// elements in the same order, and no fallback warning is due.
pub proof fn lemma_tomorrow_precedence(e: Event)
    requires
        e.value.games.tomorrow_schedule@.len() > 0,
    ensures
        selected_games(e) == e.value.games.tomorrow_schedule@,
        !fallback_taken(e),
{
}

/// When tomorrow's schedule is empty, today's schedule is chosen and the
/// fallback warning is due.
pub proof fn lemma_schedule_fallback(e: Event)
    requires
        e.value.games.tomorrow_schedule@.len() == 0,
    ensures
        selected_games(e) == e.value.games.schedule@,
        fallback_taken(e),
{
}

/// An in-progress snapshot build: the chosen game list and season, the
/// pitcher-id filter derived from the games, and one slot per dataset.
#[derive(Debug)]
pub struct Builder {
    pub games: Vec<Game>,
    pub season: isize,
    pub pitcher_ids: String,
    pub strikeouts: Option<Vec<StrikeoutLeader>>,
    pub at_bats: Option<Vec<AtBatLeader>>,
    pub pitcher_stats: Option<Vec<PitchingStats>>,
    pub teams: Option<Vec<Team>>,
    pub players: Option<Vec<Position>>,
    pub black_hole: Option<Vec<FeedItem>>,
    pub sun_2: Option<Vec<FeedItem>>,
    pub past_games: Option<Vec<GameUpdate>>,
    pub idols: Option<Vec<Idol>>,
}

/// Recording the strikeout-leaders dataset touches nothing but its slot.
pub open spec fn same_except_strikeouts(a: Builder, b: Builder) -> bool {
    &&& a.games == b.games
    &&& a.season == b.season
    &&& a.pitcher_ids == b.pitcher_ids
    &&& a.at_bats == b.at_bats
    &&& a.pitcher_stats == b.pitcher_stats
    &&& a.teams == b.teams
    &&& a.players == b.players
    &&& a.black_hole == b.black_hole
    &&& a.sun_2 == b.sun_2
    &&& a.past_games == b.past_games
    &&& a.idols == b.idols
}

/// Recording the at-bat-leaders dataset touches nothing but its slot.
pub open spec fn same_except_at_bats(a: Builder, b: Builder) -> bool {
    &&& a.games == b.games
    &&& a.season == b.season
    &&& a.pitcher_ids == b.pitcher_ids
    &&& a.strikeouts == b.strikeouts
    &&& a.pitcher_stats == b.pitcher_stats
    &&& a.teams == b.teams
    &&& a.players == b.players
    &&& a.black_hole == b.black_hole
    &&& a.sun_2 == b.sun_2
    &&& a.past_games == b.past_games
    &&& a.idols == b.idols
}

/// Recording the pitching-statistics dataset touches nothing but its slot.
pub open spec fn same_except_pitcher_stats(a: Builder, b: Builder) -> bool {
    &&& a.games == b.games
    &&& a.season == b.season
    &&& a.pitcher_ids == b.pitcher_ids
    &&& a.strikeouts == b.strikeouts
    &&& a.at_bats == b.at_bats
    &&& a.teams == b.teams
    &&& a.players == b.players
    &&& a.black_hole == b.black_hole
    &&& a.sun_2 == b.sun_2
    &&& a.past_games == b.past_games
    &&& a.idols == b.idols
}

/// Recording the teams dataset touches nothing but its slot.
pub open spec fn same_except_teams(a: Builder, b: Builder) -> bool {
    &&& a.games == b.games
    &&& a.season == b.season
    &&& a.pitcher_ids == b.pitcher_ids
    &&& a.strikeouts == b.strikeouts
    &&& a.at_bats == b.at_bats
    &&& a.pitcher_stats == b.pitcher_stats
    &&& a.players == b.players
    &&& a.black_hole == b.black_hole
    &&& a.sun_2 == b.sun_2
    &&& a.past_games == b.past_games
    &&& a.idols == b.idols
}

/// Recording the player-positions dataset touches nothing but its slot.
pub open spec fn same_except_players(a: Builder, b: Builder) -> bool {
    &&& a.games == b.games
    &&& a.season == b.season
    &&& a.pitcher_ids == b.pitcher_ids
    &&& a.strikeouts == b.strikeouts
    &&& a.at_bats == b.at_bats
    &&& a.pitcher_stats == b.pitcher_stats
    &&& a.teams == b.teams
    &&& a.black_hole == b.black_hole
    &&& a.sun_2 == b.sun_2
    &&& a.past_games == b.past_games
    &&& a.idols == b.idols
}

/// Recording the Black Hole feed touches nothing but its slot.
pub open spec fn same_except_black_hole(a: Builder, b: Builder) -> bool {
    &&& a.games == b.games
    &&& a.season == b.season
    &&& a.pitcher_ids == b.pitcher_ids
    &&& a.strikeouts == b.strikeouts
    &&& a.at_bats == b.at_bats
    &&& a.pitcher_stats == b.pitcher_stats
    &&& a.teams == b.teams
    &&& a.players == b.players
    &&& a.sun_2 == b.sun_2
    &&& a.past_games == b.past_games
    &&& a.idols == b.idols
}

/// Recording the Sun 2 feed touches nothing but its slot.
pub open spec fn same_except_sun_2(a: Builder, b: Builder) -> bool {
    &&& a.games == b.games
    &&& a.season == b.season
    &&& a.pitcher_ids == b.pitcher_ids
    &&& a.strikeouts == b.strikeouts
    &&& a.at_bats == b.at_bats
    &&& a.pitcher_stats == b.pitcher_stats
    &&& a.teams == b.teams
    &&& a.players == b.players
    &&& a.black_hole == b.black_hole
    &&& a.past_games == b.past_games
    &&& a.idols == b.idols
}

/// Recording the historical-games dataset touches nothing but its slot.
pub open spec fn same_except_past_games(a: Builder, b: Builder) -> bool {
    &&& a.games == b.games
    &&& a.season == b.season
    &&& a.pitcher_ids == b.pitcher_ids
    &&& a.strikeouts == b.strikeouts
    &&& a.at_bats == b.at_bats
    &&& a.pitcher_stats == b.pitcher_stats
    &&& a.teams == b.teams
    &&& a.players == b.players
    &&& a.black_hole == b.black_hole
    &&& a.sun_2 == b.sun_2
    &&& a.idols == b.idols
}

/// Recording the idols dataset touches nothing but its slot.
pub open spec fn same_except_idols(a: Builder, b: Builder) -> bool {
    &&& a.games == b.games
    &&& a.season == b.season
    &&& a.pitcher_ids == b.pitcher_ids
    &&& a.strikeouts == b.strikeouts
    &&& a.at_bats == b.at_bats
    &&& a.pitcher_stats == b.pitcher_stats
    &&& a.teams == b.teams
    &&& a.players == b.players
    &&& a.black_hole == b.black_hole
    &&& a.sun_2 == b.sun_2
    &&& a.past_games == b.past_games
}

impl Builder {
    /// The derived pitcher-id filter matches the game list.
    pub open spec fn wf(self) -> bool {
        self.pitcher_ids@ == comma_join(pitcher_ids_of(self.games@))
    }

    /// Every dataset slot is filled.
    pub open spec fn complete(self) -> bool {
        &&& self.strikeouts is Some
        &&& self.at_bats is Some
        &&& self.pitcher_stats is Some
        &&& self.teams is Some
        &&& self.players is Some
        &&& self.black_hole is Some
        &&& self.sun_2 is Some
        &&& self.past_games is Some
        &&& self.idols is Some
    }

    /// No dataset slot is filled yet.
    pub open spec fn fresh(self) -> bool {
        &&& self.strikeouts is None
        &&& self.at_bats is None
        &&& self.pitcher_stats is None
        &&& self.teams is None
        &&& self.players is None
        &&& self.black_hole is None
        &&& self.sun_2 is None
        &&& self.past_games is None
        &&& self.idols is None
    }

    /// The first unfilled dataset, in the order the build issues them.
    pub open spec fn spec_next_dataset(self) -> Option<Dataset> {
        if self.strikeouts is None {
            Some(Dataset::StrikeoutLeaders)
        } else if self.at_bats is None {
            Some(Dataset::AtBatLeaders)
        } else if self.pitcher_stats is None {
            Some(Dataset::PitchingStats)
        } else if self.teams is None {
            Some(Dataset::Teams)
        } else if self.players is None {
            Some(Dataset::Players)
        } else if self.black_hole is None {
            Some(Dataset::BlackHole)
        } else if self.sun_2 is None {
            Some(Dataset::Sun2)
        } else if self.past_games is None {
            Some(Dataset::PastGames)
        } else if self.idols is None {
            Some(Dataset::Idols)
        } else {
            None
        }
    }

    /// Starts a build from an explicit game list and season. The pitcher-id
    /// filter is derived here, before any fetch is issued.
    pub fn from_games_and_season(games: Vec<Game>, season: isize) -> (b: Builder)
        ensures
            b.wf(),
            b.fresh(),
            b.games == games,
            b.season == season,
            b.pitcher_ids@ == comma_join(pitcher_ids_of(games@)),
    {
        let pitcher_ids = comma_pitchers(&games);
        Builder {
            games,
            season,
            pitcher_ids,
            strikeouts: None,
            at_bats: None,
            pitcher_stats: None,
            teams: None,
            players: None,
            black_hole: None,
            sun_2: None,
            past_games: None,
            idols: None,
        }
    }

    /// Starts a build from an input event: tomorrow's schedule when it is
    /// non-empty, today's schedule otherwise, and the event's season. The
    /// second result is true exactly when the fallback was taken; the
    /// driver owes a warning then.
    pub fn from_event(data: Event) -> (r: (Builder, bool))
        ensures
            r.0.wf(),
            r.0.fresh(),
            r.0.games@ == selected_games(data),
            r.0.season == data.value.games.sim.season,
            r.1 == fallback_taken(data),
    {
        let fallback = data.value.games.tomorrow_schedule.is_empty();
        let games = if fallback {
            data.value.games.schedule
        } else {
            data.value.games.tomorrow_schedule
        };
        let b = Builder::from_games_and_season(games, data.value.games.sim.season);
        (b, fallback)
    }

    /// The first dataset still to fetch; nothing once the build is
    /// complete.
    pub fn next_dataset(&self) -> (r: Option<Dataset>)
        ensures
            r == self.spec_next_dataset(),
            r is None <==> self.complete(),
    {
        if self.strikeouts.is_none() {
            Some(Dataset::StrikeoutLeaders)
        } else if self.at_bats.is_none() {
            Some(Dataset::AtBatLeaders)
        } else if self.pitcher_stats.is_none() {
            Some(Dataset::PitchingStats)
        } else if self.teams.is_none() {
            Some(Dataset::Teams)
        } else if self.players.is_none() {
            Some(Dataset::Players)
        } else if self.black_hole.is_none() {
            Some(Dataset::BlackHole)
        } else if self.sun_2.is_none() {
            Some(Dataset::Sun2)
        } else if self.past_games.is_none() {
            Some(Dataset::PastGames)
        } else if self.idols.is_none() {
            Some(Dataset::Idols)
        } else {
            None
        }
    }

    /// The request that fetches one dataset for this build, parameterized
    /// by the build's season and derived pitcher-id filter.
    pub fn request(&self, d: Dataset) -> (r: Request)
        ensures
            request_matches(r, d, self.season, self.pitcher_ids@),
    {
        request_for(d, self.season, &self.pitcher_ids)
    }

    /// Records the strikeout-leaders outcome: a body that would not decode
    /// yields the empty list instead of an error; a transport failure
    /// aborts the build.
    pub fn supply_strikeouts(&mut self, outcome: FetchOutcome<Vec<StrikeoutLeader>>) -> (r: Result<
        (),
        BuildError,
    >)
        ensures
            same_except_strikeouts(*old(self), *final(self)),
            outcome matches FetchOutcome::Success(v) ==> (r is Ok && final(self).strikeouts
                == Some(v)),
            outcome is DecodeFailure ==> (r is Ok && (final(self).strikeouts matches Some(v)
                && v@ =~= Seq::<StrikeoutLeader>::empty())),
            outcome is TransportFailure ==> (r == Err::<(), BuildError>(
                (BuildError { dataset: Dataset::StrikeoutLeaders, cause: FailureCause::Transport }),
            ) && final(self).strikeouts == old(self).strikeouts),
    {
        match resolve(Dataset::StrikeoutLeaders, outcome) {
            Ok(v) => {
                self.strikeouts = Some(v);
                Ok(())
            },
            Err(e) => Err(e),
        }
    }

    /// Records the at-bat-leaders outcome: a body that would not decode
    /// yields the empty list instead of an error; a transport failure
    /// aborts the build.
    pub fn supply_at_bats(&mut self, outcome: FetchOutcome<Vec<AtBatLeader>>) -> (r: Result<
        (),
        BuildError,
    >)
        ensures
            same_except_at_bats(*old(self), *final(self)),
            outcome matches FetchOutcome::Success(v) ==> (r is Ok && final(self).at_bats == Some(
                v,
            )),
            outcome is DecodeFailure ==> (r is Ok && (final(self).at_bats matches Some(v) && v@
                =~= Seq::<AtBatLeader>::empty())),
            outcome is TransportFailure ==> (r == Err::<(), BuildError>(
                (BuildError { dataset: Dataset::AtBatLeaders, cause: FailureCause::Transport }),
            ) && final(self).at_bats == old(self).at_bats),
    {
        match resolve(Dataset::AtBatLeaders, outcome) {
            Ok(v) => {
                self.at_bats = Some(v);
                Ok(())
            },
            Err(e) => Err(e),
        }
    }

    /// Records the pitching-statistics outcome: a body that would not
    /// decode yields the empty list instead of an error; a transport
    /// failure aborts the build.
    pub fn supply_pitcher_stats(&mut self, outcome: FetchOutcome<Vec<PitchingStats>>) -> (r: Result<
        (),
        BuildError,
    >)
        ensures
            same_except_pitcher_stats(*old(self), *final(self)),
            outcome matches FetchOutcome::Success(v) ==> (r is Ok && final(self).pitcher_stats
                == Some(v)),
            outcome is DecodeFailure ==> (r is Ok && (final(self).pitcher_stats matches Some(v)
                && v@ =~= Seq::<PitchingStats>::empty())),
            outcome is TransportFailure ==> (r == Err::<(), BuildError>(
                (BuildError { dataset: Dataset::PitchingStats, cause: FailureCause::Transport }),
            ) && final(self).pitcher_stats == old(self).pitcher_stats),
    {
        match resolve(Dataset::PitchingStats, outcome) {
            Ok(v) => {
                self.pitcher_stats = Some(v);
                Ok(())
            },
            Err(e) => Err(e),
        }
    }

    /// Records the teams outcome; any failure aborts the build with an
    /// error naming this dataset and the cause.
    pub fn supply_teams(&mut self, outcome: FetchOutcome<Vec<Team>>) -> (r: Result<(), BuildError>)
        ensures
            same_except_teams(*old(self), *final(self)),
            outcome matches FetchOutcome::Success(v) ==> (r is Ok && final(self).teams == Some(v)),
            outcome is DecodeFailure ==> (r == Err::<(), BuildError>(
                (BuildError { dataset: Dataset::Teams, cause: FailureCause::Decode }),
            ) && final(self).teams == old(self).teams),
            outcome is TransportFailure ==> (r == Err::<(), BuildError>(
                (BuildError { dataset: Dataset::Teams, cause: FailureCause::Transport }),
            ) && final(self).teams == old(self).teams),
    {
        match resolve(Dataset::Teams, outcome) {
            Ok(v) => {
                self.teams = Some(v);
                Ok(())
            },
            Err(e) => Err(e),
        }
    }

    /// Records the player-positions outcome; any failure aborts the build
    /// with an error naming this dataset and the cause.
    pub fn supply_players(&mut self, outcome: FetchOutcome<Vec<Position>>) -> (r: Result<
        (),
        BuildError,
    >)
        ensures
            same_except_players(*old(self), *final(self)),
            outcome matches FetchOutcome::Success(v) ==> (r is Ok && final(self).players == Some(
                v,
            )),
            outcome is DecodeFailure ==> (r == Err::<(), BuildError>(
                (BuildError { dataset: Dataset::Players, cause: FailureCause::Decode }),
            ) && final(self).players == old(self).players),
            outcome is TransportFailure ==> (r == Err::<(), BuildError>(
                (BuildError { dataset: Dataset::Players, cause: FailureCause::Transport }),
            ) && final(self).players == old(self).players),
    {
        match resolve(Dataset::Players, outcome) {
            Ok(v) => {
                self.players = Some(v);
                Ok(())
            },
            Err(e) => Err(e),
        }
    }

    /// Records the Black Hole feed outcome; any failure aborts the build
    /// with an error naming this dataset and the cause.
    pub fn supply_black_hole(&mut self, outcome: FetchOutcome<Vec<FeedItem>>) -> (r: Result<
        (),
        BuildError,
    >)
        ensures
            same_except_black_hole(*old(self), *final(self)),
            outcome matches FetchOutcome::Success(v) ==> (r is Ok && final(self).black_hole
                == Some(v)),
            outcome is DecodeFailure ==> (r == Err::<(), BuildError>(
                (BuildError { dataset: Dataset::BlackHole, cause: FailureCause::Decode }),
            ) && final(self).black_hole == old(self).black_hole),
            outcome is TransportFailure ==> (r == Err::<(), BuildError>(
                (BuildError { dataset: Dataset::BlackHole, cause: FailureCause::Transport }),
            ) && final(self).black_hole == old(self).black_hole),
    {
        match resolve(Dataset::BlackHole, outcome) {
            Ok(v) => {
                self.black_hole = Some(v);
                Ok(())
            },
            Err(e) => Err(e),
        }
    }

    /// Records the Sun 2 feed outcome; any failure aborts the build with an
    /// error naming this dataset and the cause.
    pub fn supply_sun_2(&mut self, outcome: FetchOutcome<Vec<FeedItem>>) -> (r: Result<
        (),
        BuildError,
    >)
        ensures
            same_except_sun_2(*old(self), *final(self)),
            outcome matches FetchOutcome::Success(v) ==> (r is Ok && final(self).sun_2 == Some(v)),
            outcome is DecodeFailure ==> (r == Err::<(), BuildError>(
                (BuildError { dataset: Dataset::Sun2, cause: FailureCause::Decode }),
            ) && final(self).sun_2 == old(self).sun_2),
            outcome is TransportFailure ==> (r == Err::<(), BuildError>(
                (BuildError { dataset: Dataset::Sun2, cause: FailureCause::Transport }),
            ) && final(self).sun_2 == old(self).sun_2),
    {
        match resolve(Dataset::Sun2, outcome) {
            Ok(v) => {
                self.sun_2 = Some(v);
                Ok(())
            },
            Err(e) => Err(e),
        }
    }

    /// Records the historical-games outcome; any failure aborts the build
    /// with an error naming this dataset and the cause.
    pub fn supply_past_games(&mut self, outcome: FetchOutcome<Vec<GameUpdate>>) -> (r: Result<
        (),
        BuildError,
    >)
        ensures
            same_except_past_games(*old(self), *final(self)),
            outcome matches FetchOutcome::Success(v) ==> (r is Ok && final(self).past_games
                == Some(v)),
            outcome is DecodeFailure ==> (r == Err::<(), BuildError>(
                (BuildError { dataset: Dataset::PastGames, cause: FailureCause::Decode }),
            ) && final(self).past_games == old(self).past_games),
            outcome is TransportFailure ==> (r == Err::<(), BuildError>(
                (BuildError { dataset: Dataset::PastGames, cause: FailureCause::Transport }),
            ) && final(self).past_games == old(self).past_games),
    {
        match resolve(Dataset::PastGames, outcome) {
            Ok(v) => {
                self.past_games = Some(v);
                Ok(())
            },
            Err(e) => Err(e),
        }
    }

    /// Records the idols outcome; any failure aborts the build with an
    /// error naming this dataset and the cause.
    pub fn supply_idols(&mut self, outcome: FetchOutcome<Vec<Idol>>) -> (r: Result<(), BuildError>)
        ensures
            same_except_idols(*old(self), *final(self)),
            outcome matches FetchOutcome::Success(v) ==> (r is Ok && final(self).idols == Some(v)),
            outcome is DecodeFailure ==> (r == Err::<(), BuildError>(
                (BuildError { dataset: Dataset::Idols, cause: FailureCause::Decode }),
            ) && final(self).idols == old(self).idols),
            outcome is TransportFailure ==> (r == Err::<(), BuildError>(
                (BuildError { dataset: Dataset::Idols, cause: FailureCause::Transport }),
            ) && final(self).idols == old(self).idols),
    {
        match resolve(Dataset::Idols, outcome) {
            Ok(v) => {
                self.idols = Some(v);
                Ok(())
            },
            Err(e) => Err(e),
        }
    }

    /// Assembles the snapshot. Nothing comes out while any dataset is still
    /// missing, so no partial snapshot can ever be produced; once all nine
    /// are in, every field is exactly what was supplied, and the snapshot
    /// keeps the build's game list and season unchanged.
    pub fn finish(self) -> (r: Option<State>)
        ensures
            r is Some <==> self.complete(),
            r matches Some(s) ==> {
                &&& Some(s.strikeouts) == self.strikeouts
                &&& Some(s.at_bats) == self.at_bats
                &&& Some(s.pitcher_stats) == self.pitcher_stats
                &&& Some(s.teams) == self.teams
                &&& Some(s.players) == self.players
                &&& Some(s.black_hole) == self.black_hole
                &&& Some(s.sun_2) == self.sun_2
                &&& Some(s.past_games) == self.past_games
                &&& Some(s.idols) == self.idols
                &&& s.games == self.games
                &&& s.season == self.season
            },
    {
        match self {
            Builder {
                games,
                season,
                pitcher_ids: _,
                strikeouts: Some(strikeouts),
                at_bats: Some(at_bats),
                pitcher_stats: Some(pitcher_stats),
                teams: Some(teams),
                players: Some(players),
                black_hole: Some(black_hole),
                sun_2: Some(sun_2),
                past_games: Some(past_games),
                idols: Some(idols),
            } => Some(
                State {
                    strikeouts,
                    at_bats,
                    pitcher_stats,
                    teams,
                    players,
                    games,
                    past_games,
                    idols,
                    black_hole,
                    sun_2,
                    season,
                },
            ),
            _ => None,
        }
    }
}

} // verus!

