use orb_game::{perform_action, Action, ActionError, Buyable, Game, GameData, OrbEffect, OrbRarity};

fn level_with(d: GameData) -> Game {
    Game::Level { game_data: d }
}

fn data_of(g: &Game) -> &GameData {
    match g {
        Game::Level { game_data } | Game::Shop { game_data } => game_data,
        _ => panic!("no run state"),
    }
}

fn with_pool(effects: Vec<OrbEffect>, pulled: Vec<OrbEffect>) -> GameData {
    let mut d = GameData::new();
    d.pullable_orb_effects = effects;
    d.pulled_orbs_effects = pulled;
    d
}

#[test]
fn start_game_enters_level_one() {
    let mut g = Game::New;
    assert_eq!(perform_action(&mut g, Action::StartGame), Ok(()));
    let d = data_of(&g);
    assert!(matches!(g, Game::Level { .. }));
    assert_eq!(d.level, 1);
    assert_eq!(d.points, 0);
    assert_eq!((d.hp, d.max_hp), (5, 5));
    assert_eq!(d.moonrocks_spent, 10);
    assert_eq!(d.pullable_orb_effects.len(), 11);
}

#[test]
fn actions_outside_the_table_are_rejected() {
    for a in [Action::PullOrb, Action::CashOut, Action::EnterShop, Action::BuyOrb(0), Action::GoToNextLevel] {
        let mut g = Game::New;
        assert_eq!(perform_action(&mut g, a), Err(ActionError::InvalidActionInNewGame));
        assert!(matches!(g, Game::New));
    }
    for a in [Action::StartGame, Action::BuyOrb(0), Action::GoToNextLevel] {
        let mut g = level_with(GameData::new());
        assert_eq!(perform_action(&mut g, a), Err(ActionError::InvalidActionInLevel));
        assert!(matches!(g, Game::Level { .. }));
        assert_eq!(data_of(&g).pullable_orb_effects.len(), 11);
    }
    for a in [Action::StartGame, Action::PullOrb, Action::CashOut, Action::EnterShop] {
        let mut g = Game::Shop { game_data: GameData::new() };
        assert_eq!(perform_action(&mut g, a), Err(ActionError::InvalidActionInShop));
        assert!(matches!(g, Game::Shop { .. }));
    }
}

#[test]
fn cash_out_without_points_fails() {
    let mut g = level_with(GameData::new());
    assert_eq!(perform_action(&mut g, Action::CashOut), Err(ActionError::NoPointsToCashOut));
    assert!(matches!(g, Game::Level { .. }));
}

#[test]
fn cash_out_nets_points_and_moonrocks() {
    let mut d = GameData::new();
    d.points = 3;
    let mut g = level_with(d);
    assert_eq!(perform_action(&mut g, Action::CashOut), Ok(()));
    assert!(matches!(g, Game::Complete { moonrocks_diff: -7 }));

    let mut d = GameData::new();
    d.points = 20;
    d.moonrocks_earned = 15;
    d.moonrocks_spent = 10;
    let mut g = level_with(d);
    assert_eq!(perform_action(&mut g, Action::CashOut), Ok(()));
    assert!(matches!(g, Game::Complete { moonrocks_diff: 25 }));

    let mut d = GameData::new();
    d.points = u32::MAX;
    d.moonrocks_earned = u32::MAX;
    d.moonrocks_spent = 0;
    let mut g = level_with(d);
    assert_eq!(perform_action(&mut g, Action::CashOut), Ok(()));
    match g {
        Game::Complete { moonrocks_diff } => assert_eq!(moonrocks_diff, 2 * u32::MAX as i64),
        _ => panic!("expected a finished game"),
    }
}

#[test]
fn complete_rejects_every_action() {
    for a in [
        Action::StartGame,
        Action::PullOrb,
        Action::CashOut,
        Action::EnterShop,
        Action::BuyOrb(3),
        Action::GoToNextLevel,
    ] {
        let mut g = Game::Complete { moonrocks_diff: 4 };
        assert_eq!(perform_action(&mut g, a), Err(ActionError::GameOver));
        assert!(matches!(g, Game::Complete { moonrocks_diff: 4 }));
    }
}

#[test]
fn enter_shop_needs_the_milestone() {
    let mut d = GameData::new();
    d.points = 11;
    let mut g = level_with(d);
    assert_eq!(perform_action(&mut g, Action::EnterShop), Err(ActionError::MilestoneNotMetYet));
    assert!(matches!(g, Game::Level { .. }));
}

#[test]
fn shop_offer_fills_rarity_quotas() {
    for _ in 0..50 {
        let mut d = GameData::new();
        d.points = 12;
        let mut g = level_with(d);
        assert_eq!(perform_action(&mut g, Action::EnterShop), Ok(()));
        assert!(matches!(g, Game::Shop { .. }));
        let d = data_of(&g);
        let sale = &d.sale_orbs_indices;
        assert_eq!(sale.len(), 6);
        let rarities: Vec<OrbRarity> = sale.iter().map(|&i| d.all_orbs[i].rarity).collect();
        assert_eq!(
            rarities,
            vec![
                OrbRarity::Common,
                OrbRarity::Common,
                OrbRarity::Common,
                OrbRarity::Rare,
                OrbRarity::Rare,
                OrbRarity::Cosmic
            ]
        );
        assert!(sale.iter().all(|&i| d.all_orbs[i].is_buyable()));
        for i in 0..sale.len() {
            for j in 0..i {
                assert_ne!(sale[i], sale[j]);
            }
        }
        assert_eq!(d.points, 12);
        assert_eq!(d.pullable_orb_effects.len(), 11);
    }
}

#[test]
fn shop_offer_takes_what_a_small_rarity_has() {
    let mut d = GameData::new();
    d.points = 12;
    for orb in d.all_orbs.iter_mut() {
        if orb.rarity == OrbRarity::Rare && orb.effect != OrbEffect::Point(8) {
            orb.buyable = Buyable::No;
        }
    }
    let mut g = level_with(d);
    assert_eq!(perform_action(&mut g, Action::EnterShop), Ok(()));
    let d = data_of(&g);
    assert_eq!(d.sale_orbs_indices.len(), 5);
    assert_eq!(d.sale_orbs_indices[3], 13);
}

#[test]
fn next_level_keeps_persistent_fields() {
    let mut d = GameData::new();
    d.points = 30;
    d.hp = 2;
    d.multiplier = 25;
    d.glitch_chips = 15;
    d.moonrocks_earned = 40;
    d.moonrocks_spent = 19;
    d.all_orbs[4].count = 5;
    d.sale_orbs_indices = vec![4, 5, 6, 13, 14, 18];
    d.pulled_orbs_effects = vec![OrbEffect::Bomb(1)];
    let orbs = d.all_orbs;
    let mut g = Game::Shop { game_data: d };
    assert_eq!(perform_action(&mut g, Action::GoToNextLevel), Ok(()));
    assert!(matches!(g, Game::Level { .. }));
    let n = data_of(&g);
    assert_eq!(n.level, 2);
    assert_eq!(n.milestone, 18);
    assert_eq!(n.points, 0);
    assert_eq!((n.hp, n.max_hp), (5, 5));
    assert_eq!(n.multiplier, 10);
    assert_eq!((n.glitch_chips, n.moonrocks_earned, n.moonrocks_spent), (15, 40, 19));
    assert_eq!(n.all_orbs, orbs);
    assert!(n.sale_orbs_indices.is_empty());
    assert!(n.pulled_orbs_effects.is_empty());
    assert_eq!(n.pullable_orb_effects.len(), 13);
}

#[test]
fn next_level_is_refused_at_the_last_level_number() {
    let mut d = GameData::new();
    d.level = u32::MAX;
    let mut g = Game::Shop { game_data: d };
    assert_eq!(perform_action(&mut g, Action::GoToNextLevel), Err(ActionError::InvalidActionInShop));
    assert_eq!(data_of(&g).level, u32::MAX);
}

#[test]
fn pulls_empty_the_pool_without_repeats() {
    let mut g = level_with(GameData::new());
    let mut before: Vec<OrbEffect> = data_of(&g).pullable_orb_effects.clone();
    for k in 0..11 {
        assert_eq!(perform_action(&mut g, Action::PullOrb), Ok(()));
        let d = data_of(&g);
        assert_eq!(d.pullable_orb_effects.len(), 10 - k);
        assert_eq!(d.pulled_orbs_effects.len(), k + 1);
    }
    assert_eq!(perform_action(&mut g, Action::PullOrb), Err(ActionError::EmptyPullPool));
    let d = data_of(&g);
    assert!(d.pullable_orb_effects.is_empty());
    let mut after = d.pulled_orbs_effects.clone();
    let key = |e: &OrbEffect| format!("{:?}", e);
    before.sort_by_key(key);
    after.sort_by_key(key);
    assert_eq!(before, after);
}

#[test]
fn point_gain_is_scaled_and_rounded_down() {
    let mut d = with_pool(vec![OrbEffect::Point(5), OrbEffect::Bomb(1)], vec![]);
    d.multiplier = 15;
    let n = d.pull_orb_at(0);
    assert_eq!(n.points, 7);
    assert_eq!(n.pullable_orb_effects, vec![OrbEffect::Bomb(1)]);
    assert_eq!(n.pulled_orbs_effects, vec![OrbEffect::Point(5)]);
}

#[test]
fn points_saturate_at_the_largest_value() {
    let mut d = with_pool(vec![OrbEffect::Point(9)], vec![]);
    d.points = u32::MAX - 3;
    assert_eq!(d.pull_orb_at(0).points, u32::MAX);
}

#[test]
fn points_per_orb_remaining_count_the_rest_of_the_pool() {
    let pool = vec![OrbEffect::Point(1), OrbEffect::PointPerOrbRemaining(2), OrbEffect::Bomb(1), OrbEffect::Bomb(2)];
    let d = with_pool(pool, vec![]);
    assert_eq!(d.pull_orb_at(1).points, 6);
}

#[test]
fn points_per_bomb_count_pulled_bombs() {
    let d = with_pool(
        vec![OrbEffect::PointPerBombPulled(4)],
        vec![OrbEffect::Bomb(1), OrbEffect::Point(5), OrbEffect::Bomb(3)],
    );
    assert_eq!(d.pull_orb_at(0).points, 8);
}

#[test]
fn bombs_hurt_unless_immune() {
    let d = with_pool(vec![OrbEffect::Bomb(3)], vec![]);
    assert_eq!(d.pull_orb_at(0).hp, 2);
    let d = with_pool(vec![OrbEffect::Bomb(9)], vec![]);
    assert_eq!(d.pull_orb_at(0).hp, 0);
    let d = with_pool(vec![OrbEffect::Bomb(3)], vec![OrbEffect::BombImmunity]);
    assert_eq!(d.pull_orb_at(0).hp, 5);
}

#[test]
fn health_is_capped_at_max() {
    let mut d = with_pool(vec![OrbEffect::Health(3)], vec![]);
    d.hp = 1;
    assert_eq!(d.pull_orb_at(0).hp, 4);
    d.hp = 4;
    assert_eq!(d.pull_orb_at(0).hp, 5);
}

#[test]
fn currency_and_multiplier_effects() {
    let d = with_pool(vec![OrbEffect::GlitchChips(15), OrbEffect::Moonrocks(40), OrbEffect::Multiplier(5)], vec![]);
    assert_eq!(d.pull_orb_at(0).glitch_chips, 15);
    assert_eq!(d.pull_orb_at(1).moonrocks_earned, 40);
    assert_eq!(d.pull_orb_at(2).multiplier, 15);
    let other = d.pull_orb_at(2);
    assert_eq!((other.points, other.hp, other.glitch_chips), (0, 5, 0));
}

#[test]
fn special_effects_only_move_to_pulled() {
    let d = with_pool(vec![OrbEffect::PointRewind, OrbEffect::FiveOrDie], vec![]);
    let n = d.pull_orb_at(1);
    assert_eq!((n.points, n.hp, n.multiplier), (0, 5, 10));
    assert_eq!(n.pulled_orbs_effects, vec![OrbEffect::FiveOrDie]);
}

#[test]
fn buying_requires_funds() {
    let mut d = GameData::new();
    d.sale_orbs_indices = vec![4, 13];
    d.moonrocks_earned = 15;
    let mut g = Game::Shop { game_data: d };
    assert_eq!(perform_action(&mut g, Action::BuyOrb(1)), Err(ActionError::InsufficientFunds));
    assert_eq!(data_of(&g).moonrocks_spent, 10);
    assert_eq!(perform_action(&mut g, Action::BuyOrb(0)), Ok(()));
    let d = data_of(&g);
    assert_eq!(d.moonrocks_spent, 15);
    assert_eq!(d.all_orbs[4].count, 4);
    assert_eq!(d.all_orbs[4].buyable, Buyable::Yes { base_price: 5, current_price: 10 });
    assert_eq!(perform_action(&mut g, Action::BuyOrb(0)), Err(ActionError::InsufficientFunds));
}

#[test]
fn buying_an_unknown_slot_is_invalid() {
    let mut d = GameData::new();
    d.moonrocks_earned = 100;
    d.sale_orbs_indices = vec![0, 30];
    let mut g = Game::Shop { game_data: d };
    assert_eq!(perform_action(&mut g, Action::BuyOrb(5)), Err(ActionError::InvalidActionInShop));
    assert_eq!(perform_action(&mut g, Action::BuyOrb(0)), Err(ActionError::InvalidActionInShop));
    assert_eq!(perform_action(&mut g, Action::BuyOrb(1)), Err(ActionError::InvalidActionInShop));
    assert_eq!(data_of(&g).moonrocks_spent, 10);
}
