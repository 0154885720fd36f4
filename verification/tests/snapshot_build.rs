use idol_api::AtBatLeader;
use idol_api::BuildError;
use idol_api::Builder;
use idol_api::Dataset;
use idol_api::Event;
use idol_api::EventValue;
use idol_api::FailureCause;
use idol_api::FeedItem;
use idol_api::FetchOutcome;
use idol_api::Game;
use idol_api::GameUpdate;
use idol_api::GamesData;
use idol_api::Idol;
use idol_api::PitchingStats;
use idol_api::Policy;
use idol_api::Position;
use idol_api::Request;
use idol_api::Sim;
use idol_api::StrikeoutLeader;
use idol_api::Team;
use idol_api::comma_pitchers;
use idol_api::endpoint_url;
use idol_api::policy_for;
use idol_api::request_for;
use idol_api::resolve;

fn game(id: &str, pitchers: &[&str]) -> Game {
    Game { id: id.to_string(), pitcher_ids: pitchers.iter().map(|p| p.to_string()).collect() }
}

fn event(tomorrow: Vec<Game>, today: Vec<Game>, season: isize) -> Event {
    Event {
        value: EventValue {
            games: GamesData {
                schedule: today,
                tomorrow_schedule: tomorrow,
                sim: Sim { season },
            },
        },
    }
}

fn supply_all_success(b: &mut Builder) {
    b.supply_strikeouts(FetchOutcome::Success(vec![StrikeoutLeader {
        player_id: "s1".to_string(),
        value: 31,
    }]))
    .unwrap();
    b.supply_at_bats(FetchOutcome::Success(vec![AtBatLeader {
        player_id: "a1".to_string(),
        value: 118,
    }]))
    .unwrap();
    b.supply_pitcher_stats(FetchOutcome::Success(vec![PitchingStats {
        player_id: "p1".to_string(),
        strikeouts: 77,
    }]))
    .unwrap();
    b.supply_teams(FetchOutcome::Success(vec![Team {
        id: "t1".to_string(),
        full_name: "Hades Tigers".to_string(),
    }]))
    .unwrap();
    b.supply_players(FetchOutcome::Success(vec![Position {
        player_id: "p1".to_string(),
        team_id: "t1".to_string(),
    }]))
    .unwrap();
    b.supply_black_hole(FetchOutcome::Success(vec![FeedItem {
        id: "f1".to_string(),
        event_type: 157,
        description: "The Black Hole swallows the runs.".to_string(),
    }]))
    .unwrap();
    b.supply_sun_2(FetchOutcome::Success(vec![FeedItem {
        id: "f2".to_string(),
        event_type: 156,
        description: "Sun 2 smiles.".to_string(),
    }]))
    .unwrap();
    b.supply_past_games(FetchOutcome::Success(vec![GameUpdate { game_id: "g9".to_string() }]))
        .unwrap();
    b.supply_idols(FetchOutcome::Success(vec![Idol { player_id: "i1".to_string() }])).unwrap();
}

#[test]
fn tomorrow_schedule_takes_precedence() {
    let tomorrow = vec![game("g1", &["p1"]), game("g2", &[])];
    let today = vec![game("g3", &["p9"])];
    let (b, fallback) = Builder::from_event(event(tomorrow, today, 5));
    assert!(!fallback);
    let ids: Vec<&str> = b.games.iter().map(|g| g.id.as_str()).collect();
    assert_eq!(ids, vec!["g1", "g2"]);
}

#[test]
fn empty_tomorrow_falls_back_to_today() {
    let today = vec![game("g3", &["p9"]), game("g4", &[])];
    let (b, fallback) = Builder::from_event(event(vec![], today, 5));
    assert!(fallback);
    let ids: Vec<&str> = b.games.iter().map(|g| g.id.as_str()).collect();
    assert_eq!(ids, vec!["g3", "g4"]);
}

#[test]
fn snapshot_games_equal_tomorrow_schedule() {
    let tomorrow = vec![game("g1", &["p1"]), game("g2", &["p2"])];
    let (mut b, fallback) = Builder::from_event(event(tomorrow, vec![], 5));
    assert!(!fallback);
    supply_all_success(&mut b);
    let s = b.finish().expect("complete build must produce a snapshot");
    let ids: Vec<&str> = s.games.iter().map(|g| g.id.as_str()).collect();
    assert_eq!(ids, vec!["g1", "g2"]);
    assert_eq!(s.season, 5);
}

#[test]
fn pitcher_filter_joins_ids_in_game_order() {
    let games = vec![game("g1", &["p1", "p2"]), game("g2", &["p3"])];
    assert_eq!(comma_pitchers(&games), "p1,p2,p3");
}

#[test]
fn pitcher_filter_of_no_games_is_empty() {
    let games: Vec<Game> = vec![];
    assert_eq!(comma_pitchers(&games), "");
}

#[test]
fn game_without_pitchers_adds_no_separator() {
    let games = vec![game("g1", &["a"]), game("g2", &[]), game("g3", &["b"])];
    assert_eq!(comma_pitchers(&games), "a,b");
}

#[test]
fn duplicate_pitcher_ids_are_kept() {
    let games = vec![game("g1", &["p1"]), game("g2", &["p1"])];
    assert_eq!(comma_pitchers(&games), "p1,p1");
}

#[test]
fn builder_carries_derived_pitcher_filter() {
    let b = Builder::from_games_and_season(vec![game("g1", &["x", "y"])], 3);
    assert_eq!(b.pitcher_ids, "x,y");
    match b.request(Dataset::PitchingStats) {
        Request::PlayerStats(q) => {
            assert_eq!(q.category, "pitching");
            assert_eq!(q.player_ids, "x,y");
            assert_eq!(q.season, 3);
        }
        _ => panic!("pitching stats must use the player-stats query"),
    }
}

#[test]
fn strikeout_decode_failure_is_soft() {
    let (mut b, _) = Builder::from_event(event(vec![game("g1", &["p1"])], vec![], 7));
    assert!(b.supply_strikeouts(FetchOutcome::DecodeFailure).is_ok());
    supply_rest_after_strikeouts(&mut b);
    let s = b.finish().expect("decode failure on strikeouts must not abort the build");
    assert!(s.strikeouts.is_empty());
    assert_eq!(s.at_bats.len(), 1);
    assert_eq!(s.teams.len(), 1);
    assert_eq!(s.players.len(), 1);
    assert_eq!(s.black_hole.len(), 1);
    assert_eq!(s.sun_2.len(), 1);
    assert_eq!(s.past_games.len(), 1);
    assert_eq!(s.idols.len(), 1);
}

fn supply_rest_after_strikeouts(b: &mut Builder) {
    b.supply_at_bats(FetchOutcome::Success(vec![AtBatLeader {
        player_id: "a1".to_string(),
        value: 4,
    }]))
    .unwrap();
    b.supply_pitcher_stats(FetchOutcome::Success(vec![])).unwrap();
    b.supply_teams(FetchOutcome::Success(vec![Team {
        id: "t1".to_string(),
        full_name: "Ohio Worms".to_string(),
    }]))
    .unwrap();
    b.supply_players(FetchOutcome::Success(vec![Position {
        player_id: "p1".to_string(),
        team_id: "t1".to_string(),
    }]))
    .unwrap();
    b.supply_black_hole(FetchOutcome::Success(vec![FeedItem {
        id: "f1".to_string(),
        event_type: 157,
        description: "collapse".to_string(),
    }]))
    .unwrap();
    b.supply_sun_2(FetchOutcome::Success(vec![FeedItem {
        id: "f2".to_string(),
        event_type: 156,
        description: "shine".to_string(),
    }]))
    .unwrap();
    b.supply_past_games(FetchOutcome::Success(vec![GameUpdate { game_id: "g0".to_string() }]))
        .unwrap();
    b.supply_idols(FetchOutcome::Success(vec![Idol { player_id: "i1".to_string() }])).unwrap();
}

#[test]
fn at_bat_and_pitching_decode_failures_are_soft() {
    let mut b = Builder::from_games_and_season(vec![], 1);
    b.supply_strikeouts(FetchOutcome::Success(vec![])).unwrap();
    assert!(b.supply_at_bats(FetchOutcome::DecodeFailure).is_ok());
    assert!(b.supply_pitcher_stats(FetchOutcome::DecodeFailure).is_ok());
    assert_eq!(b.at_bats.as_ref().map(|v| v.len()), Some(0));
    assert_eq!(b.pitcher_stats.as_ref().map(|v| v.len()), Some(0));
}

#[test]
fn teams_decode_failure_aborts_the_build() {
    let mut b = Builder::from_games_and_season(vec![game("g1", &["p1"])], 7);
    b.supply_strikeouts(FetchOutcome::Success(vec![])).unwrap();
    b.supply_at_bats(FetchOutcome::Success(vec![])).unwrap();
    b.supply_pitcher_stats(FetchOutcome::Success(vec![])).unwrap();
    let err = b.supply_teams(FetchOutcome::DecodeFailure).unwrap_err();
    assert_eq!(err, BuildError { dataset: Dataset::Teams, cause: FailureCause::Decode });
    assert!(b.finish().is_none(), "no partial snapshot may be produced");
}

#[test]
fn transport_failure_aborts_even_soft_datasets() {
    let mut b = Builder::from_games_and_season(vec![], 7);
    let err = b.supply_strikeouts(FetchOutcome::TransportFailure).unwrap_err();
    assert_eq!(
        err,
        BuildError { dataset: Dataset::StrikeoutLeaders, cause: FailureCause::Transport }
    );
}

#[test]
fn strict_transport_failure_names_the_dataset() {
    let idols: FetchOutcome<Vec<Idol>> = FetchOutcome::TransportFailure;
    let err = resolve(Dataset::Idols, idols).unwrap_err();
    assert_eq!(err, BuildError { dataset: Dataset::Idols, cause: FailureCause::Transport });
}

#[test]
fn policies_match_the_dataset_table() {
    assert_eq!(policy_for(Dataset::StrikeoutLeaders), Policy::FallbackOnDecodeError);
    assert_eq!(policy_for(Dataset::AtBatLeaders), Policy::FallbackOnDecodeError);
    assert_eq!(policy_for(Dataset::PitchingStats), Policy::FallbackOnDecodeError);
    assert_eq!(policy_for(Dataset::Teams), Policy::Strict);
    assert_eq!(policy_for(Dataset::Players), Policy::Strict);
    assert_eq!(policy_for(Dataset::BlackHole), Policy::Strict);
    assert_eq!(policy_for(Dataset::Sun2), Policy::Strict);
    assert_eq!(policy_for(Dataset::PastGames), Policy::Strict);
    assert_eq!(policy_for(Dataset::Idols), Policy::Strict);
}

fn season_of(r: &Request) -> Option<isize> {
    match r {
        Request::SeasonLeaders(q) => Some(q.season),
        Request::PlayerStats(q) => Some(q.season),
        Request::PastGames(q) => Some(q.season),
        Request::AllTeams => None,
        Request::Players(_) => None,
        Request::GlobalFeed(_) => None,
        Request::Idols => None,
    }
}

#[test]
fn season_scoped_queries_carry_the_season() {
    let filter = "p1".to_string();
    let all = [
        Dataset::StrikeoutLeaders,
        Dataset::AtBatLeaders,
        Dataset::PitchingStats,
        Dataset::Teams,
        Dataset::Players,
        Dataset::BlackHole,
        Dataset::Sun2,
        Dataset::PastGames,
        Dataset::Idols,
    ];
    let scoped = [
        Dataset::StrikeoutLeaders,
        Dataset::AtBatLeaders,
        Dataset::PitchingStats,
        Dataset::PastGames,
    ];
    for d in all {
        let r = request_for(d, 42, &filter);
        if scoped.contains(&d) {
            assert_eq!(season_of(&r), Some(42), "{:?} must carry season=42", d);
        } else {
            assert_eq!(season_of(&r), None, "{:?} must carry no season parameter", d);
        }
    }
}

#[test]
fn leader_queries_are_parameterized_exactly() {
    let filter = String::new();
    match request_for(Dataset::StrikeoutLeaders, 11, &filter) {
        Request::SeasonLeaders(q) => {
            assert_eq!(q.category, "batting");
            assert_eq!(q.stat, "strikeouts");
            assert_eq!(q.season, 11);
        }
        _ => panic!("strikeout leaders must use the season-leaders query"),
    }
    match request_for(Dataset::AtBatLeaders, 11, &filter) {
        Request::SeasonLeaders(q) => {
            assert_eq!(q.category, "batting");
            assert_eq!(q.stat, "at_bats");
            assert_eq!(q.season, 11);
        }
        _ => panic!("at-bat leaders must use the season-leaders query"),
    }
}

#[test]
fn feed_queries_use_fixed_event_types() {
    let filter = String::new();
    match request_for(Dataset::BlackHole, 0, &filter) {
        Request::GlobalFeed(q) => {
            assert_eq!(q.event_type, 157);
            assert_eq!(q.limit, None);
        }
        _ => panic!("the Black Hole feed must use the global-feed query"),
    }
    match request_for(Dataset::Sun2, 0, &filter) {
        Request::GlobalFeed(q) => {
            assert_eq!(q.event_type, 156);
            assert_eq!(q.limit, Some(100));
        }
        _ => panic!("the Sun 2 feed must use the global-feed query"),
    }
}

#[test]
fn players_query_excludes_forbidden() {
    match request_for(Dataset::Players, 0, &String::new()) {
        Request::Players(q) => assert!(!q.forbidden),
        _ => panic!("players must use the players query"),
    }
}

#[test]
fn endpoints_are_fixed_per_request() {
    let filter = String::new();
    assert_eq!(
        endpoint_url(&request_for(Dataset::StrikeoutLeaders, 1, &filter)),
        "https://api.blaseball-reference.com/v1/seasonLeaders"
    );
    assert_eq!(
        endpoint_url(&request_for(Dataset::PitchingStats, 1, &filter)),
        "https://api.blaseball-reference.com/v1/playerStats"
    );
    assert_eq!(
        endpoint_url(&request_for(Dataset::Teams, 1, &filter)),
        "https://www.blaseball.com/database/allTeams"
    );
    assert_eq!(
        endpoint_url(&request_for(Dataset::Players, 1, &filter)),
        "https://api.sibr.dev/chronicler/v1/players"
    );
    assert_eq!(
        endpoint_url(&request_for(Dataset::BlackHole, 1, &filter)),
        "https://www.blaseball.com/database/feed/global"
    );
    assert_eq!(
        endpoint_url(&request_for(Dataset::Sun2, 1, &filter)),
        "https://www.blaseball.com/database/feed/global"
    );
    assert_eq!(
        endpoint_url(&request_for(Dataset::PastGames, 1, &filter)),
        "https://api.sibr.dev/chronicler/v1/games"
    );
    assert_eq!(
        endpoint_url(&request_for(Dataset::Idols, 1, &filter)),
        "https://www.blaseball.com/api/getIdols"
    );
}

#[test]
fn datasets_are_issued_in_build_order() {
    let mut b = Builder::from_games_and_season(vec![], 2);
    let expected = [
        Dataset::StrikeoutLeaders,
        Dataset::AtBatLeaders,
        Dataset::PitchingStats,
        Dataset::Teams,
        Dataset::Players,
        Dataset::BlackHole,
        Dataset::Sun2,
        Dataset::PastGames,
        Dataset::Idols,
    ];
    for d in expected {
        assert_eq!(b.next_dataset(), Some(d));
        match d {
            Dataset::StrikeoutLeaders => b.supply_strikeouts(FetchOutcome::Success(vec![])),
            Dataset::AtBatLeaders => b.supply_at_bats(FetchOutcome::Success(vec![])),
            Dataset::PitchingStats => b.supply_pitcher_stats(FetchOutcome::Success(vec![])),
            Dataset::Teams => b.supply_teams(FetchOutcome::Success(vec![])),
            Dataset::Players => b.supply_players(FetchOutcome::Success(vec![])),
            Dataset::BlackHole => b.supply_black_hole(FetchOutcome::Success(vec![])),
            Dataset::Sun2 => b.supply_sun_2(FetchOutcome::Success(vec![])),
            Dataset::PastGames => b.supply_past_games(FetchOutcome::Success(vec![])),
            Dataset::Idols => b.supply_idols(FetchOutcome::Success(vec![])),
        }
        .unwrap();
    }
    assert_eq!(b.next_dataset(), None);
    assert!(b.finish().is_some());
}

#[test]
fn unfinished_build_yields_no_snapshot() {
    let b = Builder::from_games_and_season(vec![game("g1", &["p1"])], 9);
    assert!(b.finish().is_none());
}

#[test]
fn snapshot_keeps_supplied_datasets_verbatim() {
    let mut b = Builder::from_games_and_season(vec![game("g1", &["p1"])], 13);
    supply_all_success(&mut b);
    let s = b.finish().unwrap();
    assert_eq!(s.strikeouts[0].player_id, "s1");
    assert_eq!(s.strikeouts[0].value, 31);
    assert_eq!(s.at_bats[0].player_id, "a1");
    assert_eq!(s.pitcher_stats[0].strikeouts, 77);
    assert_eq!(s.teams[0].full_name, "Hades Tigers");
    assert_eq!(s.players[0].team_id, "t1");
    assert_eq!(s.black_hole[0].event_type, 157);
    assert_eq!(s.sun_2[0].event_type, 156);
    assert_eq!(s.past_games[0].game_id, "g9");
    assert_eq!(s.idols[0].player_id, "i1");
    assert_eq!(s.season, 13);
}
