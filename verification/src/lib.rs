//! Assembles one immutable snapshot of a simulated-sports season — teams,
//! players, games, leaderboards, idol rankings and narrative feed events —
//! from nine independent upstream datasets.
//!
//! Everything that decides is here and verified: which schedule a build
//! uses, the pitcher-id filter derived from it, how each query is
//! parameterized, which failures abort the build and which fall back to an
//! empty dataset, and the final assembly that can only succeed once every
//! dataset is in. An unverified driver performs the fetches and hands each
//! outcome back through [`Builder`].

mod builder;
mod model;
mod pitchers;
mod query;

pub use builder::BuildError;
pub use builder::Builder;
pub use builder::FailureCause;
pub use builder::FetchOutcome;
pub use builder::Policy;
pub use builder::fallback_taken;
pub use builder::lemma_decode_failure_falls_back;
pub use builder::lemma_schedule_fallback;
pub use builder::lemma_strict_failure_aborts;
pub use builder::lemma_tomorrow_precedence;
pub use builder::policy_for;
pub use builder::resolve;
pub use builder::selected_games;
pub use builder::spec_policy;
pub use builder::spec_resolve;

pub use pitchers::collect_pitcher_ids;
pub use pitchers::comma_join;
pub use pitchers::comma_pitchers;
pub use pitchers::join_with_commas;
pub use pitchers::lemma_empty_game_contributes_nothing;
pub use pitchers::pitcher_ids_of;

pub use query::BLACK_HOLE_EVENT_TYPE;
pub use query::Dataset;
pub use query::FeedQuery;
pub use query::GamesQuery;
pub use query::LeadersQuery;
pub use query::PlayersQuery;
pub use query::Request;
pub use query::SUN_2_EVENT_TYPE;
pub use query::SUN_2_FEED_LIMIT;
pub use query::StatsQuery;
pub use query::endpoint_url;
pub use query::is_season_scoped;
pub use query::lemma_season_scoping;
pub use query::request_for;
pub use query::request_matches;
pub use query::season_param;
pub use model::AtBatLeader;
pub use model::Event;
pub use model::EventValue;
pub use model::FeedItem;
pub use model::Game;
pub use model::GameUpdate;
pub use model::GamesData;
pub use model::Idol;
pub use model::PitchingStats;
pub use model::Position;
pub use model::Sim;
pub use model::State;
pub use model::StrikeoutLeader;
pub use model::Team;
