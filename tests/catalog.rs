use orb_game::run::milestone_for;
use orb_game::{Buyable, GameData, Orb, OrbEffect, OrbRarity};

#[test]
fn test_pullable_orb_effects_count() {
    let game_data = GameData::new();
    assert_eq!(game_data.pullable_orb_effects.len(), 11);
}

#[test]
fn buyable_starts_at_base_price() {
    assert_eq!(
        Buyable::buyable(7),
        Buyable::Yes { base_price: 7, current_price: 7 }
    );
    assert_eq!(Buyable::not_buyable(), Buyable::No);
}

#[test]
fn catalog_has_four_fixed_and_seventeen_buyable_orbs() {
    let orbs = Orb::all_orbs();
    assert_eq!(orbs.len(), 21);
    assert_eq!(orbs.iter().filter(|o| !o.is_buyable()).count(), 4);
    assert_eq!(orbs.iter().filter(|o| o.is_buyable()).count(), 17);
    assert_eq!(orbs.iter().filter(|o| o.is_common() && o.is_buyable()).count(), 9);
    assert_eq!(orbs.iter().filter(|o| o.is_rare()).count(), 5);
    assert_eq!(orbs.iter().filter(|o| o.is_cosmic()).count(), 3);
    assert_eq!(orbs[0].effect, OrbEffect::Bomb(1));
    assert_eq!(orbs[0].count, 2);
    assert_eq!(orbs[11].effect, OrbEffect::Multiplier(5));
    assert_eq!(
        orbs[20].buyable,
        Buyable::Yes { base_price: 24, current_price: 24 }
    );
    assert_eq!(Orb::all_orbs(), orbs);
}

#[test]
fn orb_contributes_count_copies() {
    let orb = Orb::point(5, 3, OrbRarity::Common, Buyable::buyable(5));
    assert_eq!(orb.to_orb_effects(), vec![OrbEffect::Point(5); 3]);
    let none = Orb::five_or_die(0, OrbRarity::Common, Buyable::buyable(5));
    assert!(none.to_orb_effects().is_empty());
}

#[test]
fn orb_constructors_set_effect_and_rarity() {
    let b = Orb::bomb(2, 1, Buyable::not_buyable());
    assert_eq!(b.effect, OrbEffect::Bomb(2));
    assert_eq!(b.rarity, OrbRarity::Common);
    assert!(!b.is_buyable());
    let m = Orb::multiplier(15, 0, OrbRarity::Rare, Buyable::buyable(16));
    assert_eq!(m.effect, OrbEffect::Multiplier(15));
    assert!(m.is_rare() && !m.is_common() && !m.is_cosmic());
    assert_eq!(
        Orb::bomb_immunity(0, OrbRarity::Cosmic, Buyable::buyable(24)).effect,
        OrbEffect::BombImmunity
    );
}

#[test]
fn milestones_follow_the_table_then_clamp() {
    let expected = [12, 18, 28, 44, 70, 100, 150];
    for (i, m) in expected.iter().enumerate() {
        assert_eq!(milestone_for(i as u32 + 1), *m);
    }
    assert_eq!(milestone_for(8), 150);
    assert_eq!(milestone_for(u32::MAX), 150);
}

#[test]
fn fresh_run_state() {
    let d = GameData::new();
    assert_eq!(d.level, 1);
    assert_eq!(d.points, 0);
    assert_eq!(d.milestone, 12);
    assert_eq!((d.hp, d.max_hp), (5, 5));
    assert_eq!(d.multiplier, 10);
    assert_eq!(d.moonrocks_spent, 10);
    assert_eq!(d.moonrocks_earned, 0);
    assert!(d.sale_orbs_indices.is_empty());
    assert!(d.pulled_orbs_effects.is_empty());
    let bombs = d
        .pullable_orb_effects
        .iter()
        .filter(|e| matches!(e, OrbEffect::Bomb(_)))
        .count();
    assert_eq!(bombs, 4);
}
