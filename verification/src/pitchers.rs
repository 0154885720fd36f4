//! Derivation of the pitcher-id filter: every pitcher id of every game, in
//! game-list order, joined into one comma-separated string. A game with no
//! pitchers contributes nothing, so no stray separator can appear.

use vstd::prelude::*;
use vstd::string::StringExecFns;
use crate::model::Game;

verus! {

/// All pitcher ids of all games, concatenated in game-list order.
/// Duplicates are kept.
pub open spec fn pitcher_ids_of(games: Seq<Game>) -> Seq<Seq<char>>
    decreases games.len(),
{
    if games.len() == 0 {
        Seq::empty()
    } else {
        pitcher_ids_of(games.drop_last()) + games.last().pitcher_ids.deep_view()
    }
}

/// The ids joined with a single comma between consecutive ids and nothing
/// before the first or after the last.
pub open spec fn comma_join(ids: Seq<Seq<char>>) -> Seq<char>
    decreases ids.len(),
{
    if ids.len() == 0 {
        Seq::empty()
    } else if ids.len() == 1 {
        ids[0]
    } else {
        comma_join(ids.drop_last()) + seq![','] + ids.last()
    }
}

/// A game without pitcher ids contributes nothing to the derived id list.
pub proof fn lemma_empty_game_contributes_nothing(games: Seq<Game>, g: Game)
    requires
        g.pitcher_ids@.len() == 0,
    ensures
        pitcher_ids_of(games.push(g)) == pitcher_ids_of(games),
{
    assert(games.push(g).drop_last() =~= games);
    assert(games.push(g).last() == g);
    assert(g.pitcher_ids.deep_view() =~= Seq::<Seq<char>>::empty());
    assert(pitcher_ids_of(games.push(g)) =~= pitcher_ids_of(games));
}

/// Collects every pitcher id of every game, in game-list order.
pub fn collect_pitcher_ids(games: &Vec<Game>) -> (ids: Vec<String>)
    ensures
        ids.deep_view() == pitcher_ids_of(games@),
{
    let mut ids: Vec<String> = Vec::new();
    let mut i: usize = 0;
    while i < games.len()
        invariant
            i <= games.len(),
            ids.deep_view() == pitcher_ids_of(games@.take(i as int)),
        decreases games.len() - i,
    {
        let mut j: usize = 0;
        while j < games[i].pitcher_ids.len()
            invariant
                i < games.len(),
                j <= games@[i as int].pitcher_ids@.len(),
                ids.deep_view() == pitcher_ids_of(games@.take(i as int))
                    + games@[i as int].pitcher_ids.deep_view().take(j as int),
            decreases games@[i as int].pitcher_ids@.len() - j,
        {
            let ghost prev = ids.deep_view();
            ids.push(games[i].pitcher_ids[j].clone());
            j += 1;
            proof {
                assert(ids.deep_view() =~= prev.push(games@[i as int].pitcher_ids.deep_view()[j - 1]));
                assert(games@[i as int].pitcher_ids.deep_view().take(j as int) =~= games@[i
                    as int].pitcher_ids.deep_view().take(j - 1).push(games@[i
                    as int].pitcher_ids.deep_view()[j - 1]));
                assert(ids.deep_view() =~= pitcher_ids_of(games@.take(i as int)) + games@[i
                    as int].pitcher_ids.deep_view().take(j as int));
            }
        }
        i += 1;
        proof {
            assert(games@.take(i as int).drop_last() =~= games@.take(i - 1));
            assert(games@.take(i as int).last() == games@[i - 1]);
            assert(games@[i - 1].pitcher_ids.deep_view().take(games@[i
                - 1].pitcher_ids@.len() as int) =~= games@[i - 1].pitcher_ids.deep_view());
            assert(ids.deep_view() =~= pitcher_ids_of(games@.take(i as int)));
        }
    }
    proof {
        assert(games@.take(games@.len() as int) =~= games@);
    }
    ids
}

/// Joins the ids with commas, one between each consecutive pair.
pub fn join_with_commas(ids: &Vec<String>) -> (r: String)
    ensures
        r@ == comma_join(ids.deep_view()),
{
    let mut out = String::new();
    let mut j: usize = 0;
    while j < ids.len()
        invariant
            j <= ids.len(),
            out@ == comma_join(ids.deep_view().take(j as int)),
        decreases ids.len() - j,
    {
        if j > 0 {
            out.append(",");
        }
        out.append(ids[j].as_str());
        j += 1;
        proof {
            reveal_strlit(",");
            assert(","@ =~= seq![',']);
            assert(ids.deep_view().take(j as int).drop_last() =~= ids.deep_view().take(j - 1));
            assert(ids.deep_view().take(j as int).last() == ids.deep_view()[j - 1]);
            if j == 1 {
                assert(comma_join(ids.deep_view().take(0)) =~= Seq::<char>::empty());
                assert(out@ =~= ids.deep_view()[0]);
            }
            assert(out@ =~= comma_join(ids.deep_view().take(j as int)));
        }
    }
    proof {
        assert(ids.deep_view().take(ids@.len() as int) =~= ids.deep_view());
    }
    out
}

/// The pitcher-id filter string for a game list: the comma-joined
/// concatenation of each game's pitcher ids, in game-list order.
pub fn comma_pitchers(games: &Vec<Game>) -> (r: String)
    ensures
        r@ == comma_join(pitcher_ids_of(games@)),
{
    let ids = collect_pitcher_ids(games);
    join_with_commas(&ids)
}

} // verus!
