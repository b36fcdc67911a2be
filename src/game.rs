use vstd::prelude::*;

use crate::chance::{choose_distinct, random_below};
use crate::orb::{Orb, OrbRarity};
use crate::run::{
    buyable_positions, bought_at, is_fresh_run, is_next_level, pulled_at, purchase_error,
    with_sale_spec, GameData,
};

verus! {

/// Why an action was rejected; the game is left as it was.
#[derive(Clone, Copy, PartialEq, Eq, Structural, Debug)]
pub enum ActionError {
    InvalidActionInNewGame,
    InvalidActionInLevel,
    InvalidActionInShop,
    NoPointsToCashOut,
    MilestoneNotMetYet,
    GameOver,
    EmptyPullPool,
    InsufficientFunds,
}


/// The state of one game: not started, playing a level, in the shop, or over
/// with its net change of moonrocks fixed.
pub enum Game {
    New,
    Level { game_data: GameData },
    Shop { game_data: GameData },
    Complete { moonrocks_diff: i64 },
}

/// What a player can do. `BuyOrb` names the slot of the shop's offer to buy.
#[derive(Clone, Copy, PartialEq, Eq, Structural, Debug)]
pub enum Action {
    StartGame,
    PullOrb,
    CashOut,
    EnterShop,
    BuyOrb(usize),
    GoToNextLevel,
}

/// The state-action pairs of the transition table.
pub open spec fn in_table(g: Game, a: Action) -> bool {
    match g {
        Game::New => a is StartGame,
        Game::Level { .. } => a is PullOrb || a is EnterShop || a is CashOut,
        Game::Shop { .. } => a is BuyOrb || a is GoToNextLevel,
        Game::Complete { .. } => false,
    }
}

/// The error that action `a` meets in state `g`, if any.
pub open spec fn action_error(g: Game, a: Action) -> Option<ActionError> {
    match g {
        Game::New => if a is StartGame {
            None
        } else {
            Some(ActionError::InvalidActionInNewGame)
        },
        Game::Level { game_data: d } => match a {
            Action::PullOrb => if d.pullable_orb_effects@.len() == 0 {
                Some(ActionError::EmptyPullPool)
            } else {
                None
            },
            Action::CashOut => if d.points == 0 {
                Some(ActionError::NoPointsToCashOut)
            } else {
                None
            },
            Action::EnterShop => if d.points < d.milestone {
                Some(ActionError::MilestoneNotMetYet)
            } else {
                None
            },
            _ => Some(ActionError::InvalidActionInLevel),
        },
        Game::Shop { game_data: d } => match a {
            Action::BuyOrb(slot) => purchase_error(d, slot as int),
            Action::GoToNextLevel => if d.level == u32::MAX {
                Some(ActionError::InvalidActionInShop)
            } else {
                None
            },
            _ => Some(ActionError::InvalidActionInShop),
        },
        Game::Complete { .. } => Some(ActionError::GameOver),
    }
}

/// The net change of moonrocks when a run is cashed out.
pub open spec fn cash_out_value(d: GameData) -> int {
    d.points + d.moonrocks_earned - d.moonrocks_spent
}

/// `pick` holds `min(quota, pool.len())` distinct elements of `pool`.
pub open spec fn drawn_from(pick: Seq<usize>, pool: Seq<usize>, quota: nat) -> bool {
    &&& pick.len() == if quota < pool.len() {
        quota
    } else {
        pool.len()
    }
    &&& pick.no_duplicates()
    &&& forall|j: int| 0 <= j < pick.len() ==> pool.contains(#[trigger] pick[j])
}

/// `sale` is made of `c`, `r` and `k`, drawn from the buyable common, rare
/// and cosmic orbs with quotas 3, 2 and 1.
pub open spec fn offer_parts(
    orbs: Seq<Orb>,
    sale: Seq<usize>,
    c: Seq<usize>,
    r: Seq<usize>,
    k: Seq<usize>,
) -> bool {
    &&& sale == c + r + k
    &&& drawn_from(c, buyable_positions(orbs, OrbRarity::Common), 3)
    &&& drawn_from(r, buyable_positions(orbs, OrbRarity::Rare), 2)
    &&& drawn_from(k, buyable_positions(orbs, OrbRarity::Cosmic), 1)
}

/// A shop offer that a draw can give for the orbs `orbs`.
pub open spec fn is_offer(orbs: Seq<Orb>, sale: Seq<usize>) -> bool {
    exists|c: Seq<usize>, r: Seq<usize>, k: Seq<usize>| offer_parts(orbs, sale, c, r, k)
}

/// `new` is `old` after the pull of one of the effects in its pool.
pub open spec fn pulled_some(old: GameData, new: GameData) -> bool {
    exists|i: int| 0 <= i < old.pullable_orb_effects@.len() && #[trigger] pulled_at(old, i, new)
}

/// `new` is what action `a` makes of `old` when it succeeds. Where a draw
/// decides, every outcome of the draw is allowed.
pub open spec fn performed(old: Game, a: Action, new: Game) -> bool {
    match old {
        Game::New => match new {
            Game::Level { game_data } => a is StartGame && is_fresh_run(game_data),
            _ => false,
        },
        Game::Level { game_data: d } => match a {
            Action::PullOrb => match new {
                Game::Level { game_data: n } => pulled_some(d, n),
                _ => false,
            },
            Action::CashOut => match new {
                Game::Complete { moonrocks_diff } => moonrocks_diff == cash_out_value(d),
                _ => false,
            },
            Action::EnterShop => match new {
                Game::Shop { game_data: n } => with_sale_spec(d, n.sale_orbs_indices@, n)
                    && is_offer(d.all_orbs@, n.sale_orbs_indices@),
                _ => false,
            },
            _ => false,
        },
        Game::Shop { game_data: d } => match a {
            Action::BuyOrb(slot) => match new {
                Game::Shop { game_data: n } => bought_at(d, slot as int, n),
                _ => false,
            },
            Action::GoToNextLevel => match new {
                Game::Level { game_data: n } => is_next_level(d, n),
                _ => false,
            },
            _ => false,
        },
        Game::Complete { .. } => false,
    }
}

/// The positions of one rarity's buyable orbs are distinct, in range, and
/// name buyable orbs of that rarity.
pub proof fn lemma_buyable_positions(orbs: Seq<Orb>, rarity: OrbRarity)
    requires
        orbs.len() <= usize::MAX,
    ensures
        buyable_positions(orbs, rarity).no_duplicates(),
        forall|j: int|
            0 <= j < buyable_positions(orbs, rarity).len() ==> {
                let p = #[trigger] buyable_positions(orbs, rarity)[j];
                &&& p < orbs.len()
                &&& orbs[p as int].rarity == rarity
                &&& orbs[p as int].buyable is Yes
            },
    decreases orbs.len(),
{
    if orbs.len() > 0 {
        let prev = orbs.drop_last();
        lemma_buyable_positions(prev, rarity);
        let bp = buyable_positions(prev, rarity);
        let all = buyable_positions(orbs, rarity);
        assert(prev.len() == orbs.len() - 1);
        assert forall|j: int| 0 <= j < bp.len() implies #[trigger] orbs[bp[j] as int]
            == prev[bp[j] as int] && bp[j] < orbs.len() - 1 by {}
        if orbs.last().rarity == rarity && orbs.last().buyable is Yes {
            assert(all == bp.push((orbs.len() - 1) as usize));
            assert forall|i: int, j: int| 0 <= i < all.len() && 0 <= j < all.len() && i != j implies all[i]
                != all[j] by {
                if i < bp.len() && j < bp.len() {
                    assert(bp[i] != bp[j]);
                }
            }
            assert forall|j: int| 0 <= j < all.len() implies {
                let p = #[trigger] all[j];
                &&& p < orbs.len()
                &&& orbs[p as int].rarity == rarity
                &&& orbs[p as int].buyable is Yes
            } by {
                if j < bp.len() {
                    assert(all[j] == bp[j]);
                }
            }
        } else {
            assert(all == bp);
        }
    }
}

/// Draws the shop's offer: three common, two rare and one cosmic buyable
/// orb, each rarity as far as it has them, in that order.
fn draw_offer(d: &GameData) -> (r: Vec<usize>)
    ensures
        is_offer(d.all_orbs@, r@),
{
    let common = d.buyable_indices(OrbRarity::Common);
    let rare = d.buyable_indices(OrbRarity::Rare);
    let cosmic = d.buyable_indices(OrbRarity::Cosmic);
    proof {
        lemma_buyable_positions(d.all_orbs@, OrbRarity::Common);
        lemma_buyable_positions(d.all_orbs@, OrbRarity::Rare);
        lemma_buyable_positions(d.all_orbs@, OrbRarity::Cosmic);
    }
    let mut sale = choose_distinct(&common, 3);
    let mut picked_rare = choose_distinct(&rare, 2);
    let mut picked_cosmic = choose_distinct(&cosmic, 1);
    let ghost c = sale@;
    let ghost r = picked_rare@;
    let ghost k = picked_cosmic@;
    sale.append(&mut picked_rare);
    sale.append(&mut picked_cosmic);
    assert(offer_parts(d.all_orbs@, sale@, c, r, k));
    sale
}

/// The game that action `action` makes of `game`, or the error it meets.
fn next_game(game: &Game, action: Action) -> (r: Result<Game, ActionError>)
    ensures
        match r {
            Ok(n) => action_error(*game, action) is None && performed(*game, action, n),
            Err(e) => action_error(*game, action) == Some(e),
        },
{
    match game {
        Game::New => match action {
            Action::StartGame => Ok(Game::Level { game_data: GameData::new() }),
            _ => Err(ActionError::InvalidActionInNewGame),
        },
        Game::Level { game_data } => match action {
            Action::PullOrb => {
                if game_data.pullable_orb_effects.len() == 0 {
                    return Err(ActionError::EmptyPullPool);
                }
                let idx = random_below(game_data.pullable_orb_effects.len());
                let n = game_data.pull_orb_at(idx);
                assert(pulled_at(*game_data, idx as int, n));
                assert(pulled_some(*game_data, n));
                Ok(Game::Level { game_data: n })
            },
            Action::CashOut => {
                if game_data.points == 0 {
                    return Err(ActionError::NoPointsToCashOut);
                }
                let moonrocks_diff: i64 = game_data.points as i64 + game_data.moonrocks_earned as i64
                    - game_data.moonrocks_spent as i64;
                Ok(Game::Complete { moonrocks_diff })
            },
            Action::EnterShop => {
                if game_data.points < game_data.milestone {
                    return Err(ActionError::MilestoneNotMetYet);
                }
                let sale = draw_offer(game_data);
                Ok(Game::Shop { game_data: game_data.with_sale(sale) })
            },
            _ => Err(ActionError::InvalidActionInLevel),
        },
        Game::Shop { game_data } => match action {
            Action::BuyOrb(slot) => match game_data.buy_orb(slot) {
                Ok(n) => Ok(Game::Shop { game_data: n }),
                Err(e) => Err(e),
            },
            Action::GoToNextLevel => {
                if game_data.level == u32::MAX {
                    return Err(ActionError::InvalidActionInShop);
                }
                Ok(Game::Level { game_data: game_data.next_level_game_data() })
            },
            _ => Err(ActionError::InvalidActionInShop),
        },
        Game::Complete { .. } => Err(ActionError::GameOver),
    }
}

/// What `perform_action` guarantees: it succeeds exactly when no error is
/// owed, moves to a state that the action allows, and otherwise returns that
/// error and leaves the game as it was.
pub open spec fn outcome(old: Game, a: Action, r: Result<(), ActionError>, new: Game) -> bool {
    match r {
        Ok(()) => action_error(old, a) is None && performed(old, a, new),
        Err(e) => action_error(old, a) == Some(e) && new == old,
    }
}

/// Applies `action` to `game`. On success the whole game is replaced by the
/// next state; on an error the game is left as it was.
pub fn perform_action(game: &mut Game, action: Action) -> (r: Result<(), ActionError>)
    ensures
        outcome(*old(game), action, r, *final(game)),
{
    match next_game(game, action) {
        Ok(n) => {
            *game = n;
            Ok(())
        },
        Err(e) => Err(e),
    }
}

} // verus!
