use vstd::prelude::*;

use crate::game::{
    in_table, is_offer, offer_parts, outcome, pulled_some, Action, ActionError,
    Game, lemma_buyable_positions,
};
use crate::orb::{lemma_catalog_pool_len, Orb, OrbRarity};
use crate::run::{buyable_positions, pulled_at, BASE_MULTIPLIER, STARTING_HP};

verus! {

/// How many entries of `sale` name an orb of rarity `rarity`.
pub open spec fn count_of_rarity(orbs: Seq<Orb>, sale: Seq<usize>, rarity: OrbRarity) -> nat
    decreases sale.len(),
{
    if sale.len() == 0 {
        0
    } else {
        count_of_rarity(orbs, sale.drop_last(), rarity) + if orbs[sale.last() as int].rarity
            == rarity {
            1nat
        } else {
            0nat
        }
    }
}

proof fn lemma_count_concat(orbs: Seq<Orb>, a: Seq<usize>, b: Seq<usize>, rarity: OrbRarity)
    ensures
        count_of_rarity(orbs, a + b, rarity) == count_of_rarity(orbs, a, rarity) + count_of_rarity(
            orbs,
            b,
            rarity,
        ),
    decreases b.len(),
{
    if b.len() > 0 {
        lemma_count_concat(orbs, a, b.drop_last(), rarity);
        assert((a + b).drop_last() =~= a + b.drop_last());
    }
}

/// A sequence whose entries all name orbs of `of` counts its length for `of`
/// and nothing for any other rarity.
proof fn lemma_count_uniform(orbs: Seq<Orb>, s: Seq<usize>, of: OrbRarity, rarity: OrbRarity)
    requires
        forall|j: int| 0 <= j < s.len() ==> orbs[#[trigger] s[j] as int].rarity == of,
    ensures
        count_of_rarity(orbs, s, rarity) == if of == rarity {
            s.len()
        } else {
            0
        },
    decreases s.len(),
{
    if s.len() > 0 {
        let t = s.drop_last();
        assert forall|j: int| 0 <= j < t.len() implies orbs[#[trigger] t[j] as int].rarity == of by {
            assert(t[j] == s[j]);
        }
        lemma_count_uniform(orbs, t, of, rarity);
        assert(orbs[s[s.len() - 1] as int].rarity == of);
    }
}

/// Every action outside the transition table is rejected, and the game is
/// left as it was.
pub proof fn lemma_outside_table_rejected(
    g: Game,
    a: Action,
    r: Result<(), ActionError>,
    new: Game,
)
    requires
        !in_table(g, a),
        outcome(g, a, r, new),
    ensures
        r is Err,
        new == g,
{
}

/// Starting a game gives level 1 with no points, full health of 5, the
/// starting debt of 10 moonrocks, and eleven effects in the pull pool.
pub proof fn lemma_start_game(r: Result<(), ActionError>, new: Game)
    requires
        outcome(Game::New, Action::StartGame, r, new),
    ensures
        r is Ok,
        new is Level,
        new->Level_game_data.level == 1,
        new->Level_game_data.points == 0,
        new->Level_game_data.hp == 5,
        new->Level_game_data.max_hp == 5,
        new->Level_game_data.moonrocks_spent == 10,
        new->Level_game_data.pullable_orb_effects@.len() == 11,
{
    lemma_catalog_pool_len();
}

/// Cashing out with no points fails with `NoPointsToCashOut` and changes nothing.
pub proof fn lemma_cash_out_without_points(
    g: Game,
    r: Result<(), ActionError>,
    new: Game,
)
    requires
        g is Level,
        g->Level_game_data.points == 0,
        outcome(g, Action::CashOut, r, new),
    ensures
        r == Err::<(), ActionError>(ActionError::NoPointsToCashOut),
        new == g,
{
}

/// Cashing out with points ends the game with exactly points plus
/// moonrocks earned minus moonrocks spent, which may be negative.
pub proof fn lemma_cash_out(g: Game, r: Result<(), ActionError>, new: Game)
    requires
        g is Level,
        g->Level_game_data.points > 0,
        outcome(g, Action::CashOut, r, new),
    ensures
        r is Ok,
        new is Complete,
        new->moonrocks_diff == g->Level_game_data.points + g->Level_game_data.moonrocks_earned
            - g->Level_game_data.moonrocks_spent,
{
}

/// Entering the shop fails with `MilestoneNotMetYet` exactly when the points
/// are below the milestone. Otherwise the game moves to the shop with an
/// offer of at most six buyable orbs: at most three common, two rare and
/// one cosmic.
pub proof fn lemma_enter_shop(g: Game, r: Result<(), ActionError>, new: Game)
    requires
        g is Level,
        outcome(g, Action::EnterShop, r, new),
    ensures
        (r == Err::<(), ActionError>(ActionError::MilestoneNotMetYet)) <==> g->Level_game_data.points
            < g->Level_game_data.milestone,
        g->Level_game_data.points >= g->Level_game_data.milestone ==> {
            let orbs = g->Level_game_data.all_orbs@;
            let sale = new->Shop_game_data.sale_orbs_indices@;
            &&& r is Ok
            &&& new is Shop
            &&& sale.len() <= 6
            &&& count_of_rarity(orbs, sale, OrbRarity::Common) <= 3
            &&& count_of_rarity(orbs, sale, OrbRarity::Rare) <= 2
            &&& count_of_rarity(orbs, sale, OrbRarity::Cosmic) <= 1
            &&& forall|j: int|
                0 <= j < sale.len() ==> #[trigger] sale[j] < orbs.len() && orbs[sale[j] as int].buyable is Yes
        },
{
    let d = g->Level_game_data;
    if d.points >= d.milestone {
        let orbs = d.all_orbs@;
        let sale = new->Shop_game_data.sale_orbs_indices@;
        assert(is_offer(orbs, sale));
        let (c, rr, k) = choose|c: Seq<usize>, rr: Seq<usize>, k: Seq<usize>|
            offer_parts(orbs, sale, c, rr, k);
        lemma_buyable_positions(orbs, OrbRarity::Common);
        lemma_buyable_positions(orbs, OrbRarity::Rare);
        lemma_buyable_positions(orbs, OrbRarity::Cosmic);
        let pc = buyable_positions(orbs, OrbRarity::Common);
        let pr = buyable_positions(orbs, OrbRarity::Rare);
        let pk = buyable_positions(orbs, OrbRarity::Cosmic);
        assert forall|j: int| 0 <= j < c.len() implies orbs[#[trigger] c[j] as int].rarity
            == OrbRarity::Common && c[j] < orbs.len() && orbs[c[j] as int].buyable is Yes by {
            assert(pc.contains(c[j]));
        }
        assert forall|j: int| 0 <= j < rr.len() implies orbs[#[trigger] rr[j] as int].rarity
            == OrbRarity::Rare && rr[j] < orbs.len() && orbs[rr[j] as int].buyable is Yes by {
            assert(pr.contains(rr[j]));
        }
        assert forall|j: int| 0 <= j < k.len() implies orbs[#[trigger] k[j] as int].rarity
            == OrbRarity::Cosmic && k[j] < orbs.len() && orbs[k[j] as int].buyable is Yes by {
            assert(pk.contains(k[j]));
        }
        assert forall|j: int| 0 <= j < sale.len() implies #[trigger] sale[j] < orbs.len()
            && orbs[sale[j] as int].buyable is Yes by {
            if j < c.len() {
                assert(sale[j] == c[j]);
            } else if j < c.len() + rr.len() {
                assert(sale[j] == rr[j - c.len()]);
            } else {
                assert(sale[j] == k[j - c.len() - rr.len()]);
            }
        }
        lemma_count_concat(orbs, c + rr, k, OrbRarity::Common);
        lemma_count_concat(orbs, c, rr, OrbRarity::Common);
        lemma_count_concat(orbs, c + rr, k, OrbRarity::Rare);
        lemma_count_concat(orbs, c, rr, OrbRarity::Rare);
        lemma_count_concat(orbs, c + rr, k, OrbRarity::Cosmic);
        lemma_count_concat(orbs, c, rr, OrbRarity::Cosmic);
        lemma_count_uniform(orbs, c, OrbRarity::Common, OrbRarity::Common);
        lemma_count_uniform(orbs, c, OrbRarity::Common, OrbRarity::Rare);
        lemma_count_uniform(orbs, c, OrbRarity::Common, OrbRarity::Cosmic);
        lemma_count_uniform(orbs, rr, OrbRarity::Rare, OrbRarity::Common);
        lemma_count_uniform(orbs, rr, OrbRarity::Rare, OrbRarity::Rare);
        lemma_count_uniform(orbs, rr, OrbRarity::Rare, OrbRarity::Cosmic);
        lemma_count_uniform(orbs, k, OrbRarity::Cosmic, OrbRarity::Common);
        lemma_count_uniform(orbs, k, OrbRarity::Cosmic, OrbRarity::Rare);
        lemma_count_uniform(orbs, k, OrbRarity::Cosmic, OrbRarity::Cosmic);
    }
}

/// Going to the next level keeps the glitch chips, both moonrock counters
/// and the orbs, and starts the level afresh: no points, full health, a
/// multiplier of 1.0, and the level number one higher.
pub proof fn lemma_next_level(g: Game, r: Result<(), ActionError>, new: Game)
    requires
        g is Shop,
        g->Shop_game_data.level < u32::MAX,
        outcome(g, Action::GoToNextLevel, r, new),
    ensures
        r is Ok,
        new is Level,
        new->Level_game_data.glitch_chips == g->Shop_game_data.glitch_chips,
        new->Level_game_data.moonrocks_spent == g->Shop_game_data.moonrocks_spent,
        new->Level_game_data.moonrocks_earned == g->Shop_game_data.moonrocks_earned,
        new->Level_game_data.all_orbs@ == g->Shop_game_data.all_orbs@,
        new->Level_game_data.points == 0,
        new->Level_game_data.hp == new->Level_game_data.max_hp,
        new->Level_game_data.max_hp == STARTING_HP,
        new->Level_game_data.multiplier == BASE_MULTIPLIER,
        new->Level_game_data.level == g->Shop_game_data.level + 1,
{
}

/// Each pull takes one effect out of the pool and puts it among the pulled
/// effects: the pool shrinks by one, and pool and pulled effects together
/// keep the same effects, so no drawn effect can be drawn again. A pull
/// fails only once the pool is empty.
pub proof fn lemma_pull_shrinks_pool(g: Game, r: Result<(), ActionError>, new: Game)
    requires
        g is Level,
        outcome(g, Action::PullOrb, r, new),
    ensures
        (r == Err::<(), ActionError>(ActionError::EmptyPullPool)) <==> g->Level_game_data.pullable_orb_effects@.len() == 0,
        r is Ok ==> {
            let old_data = g->Level_game_data;
            let new_data = new->Level_game_data;
            &&& new is Level
            &&& new_data.pullable_orb_effects@.len() == old_data.pullable_orb_effects@.len() - 1
            &&& new_data.pulled_orbs_effects@.len() == old_data.pulled_orbs_effects@.len() + 1
            &&& new_data.pullable_orb_effects@.to_multiset().add(
                new_data.pulled_orbs_effects@.to_multiset(),
            ) == old_data.pullable_orb_effects@.to_multiset().add(
                old_data.pulled_orbs_effects@.to_multiset(),
            )
        },
{
    if r is Ok {
        let old_data = g->Level_game_data;
        let new_data = new->Level_game_data;
        assert(pulled_some(old_data, new_data));
        let i = choose|i: int|
            0 <= i < old_data.pullable_orb_effects@.len() && #[trigger] pulled_at(
                old_data,
                i,
                new_data,
            );
        let pool = old_data.pullable_orb_effects@;
        let pulled = old_data.pulled_orbs_effects@;
        pool.to_multiset_ensures();
        pulled.to_multiset_ensures();
        assert(new_data.pullable_orb_effects@.to_multiset().add(
            new_data.pulled_orbs_effects@.to_multiset(),
        ) =~= pool.to_multiset().add(pulled.to_multiset()));
    }
}

/// Once the game is over, every action fails with `GameOver` and changes nothing.
pub proof fn lemma_complete_is_final(
    g: Game,
    a: Action,
    r: Result<(), ActionError>,
    new: Game,
)
    requires
        g is Complete,
        outcome(g, a, r, new),
    ensures
        r == Err::<(), ActionError>(ActionError::GameOver),
        new == g,
{
}

} // verus!
