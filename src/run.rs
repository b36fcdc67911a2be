use vstd::prelude::*;

use crate::game::ActionError;
use crate::orb::{catalog, pool_of, Buyable, Orb, OrbEffect, OrbRarity};

verus! {

/// The progress of one run: the level being played, its resources, the
/// persistent currencies and catalog, and the level's pull pool.
///
/// `multiplier` is kept in tenths: 10 stands for a factor of 1.0.
#[derive(Clone)]
pub struct GameData {
    pub level: u32,
    pub points: u32,
    pub milestone: u32,
    pub hp: u32,
    pub max_hp: u32,
    pub multiplier: u32,
    pub glitch_chips: u32,
    pub moonrocks_spent: u32,
    pub moonrocks_earned: u32,
    pub all_orbs: [Orb; 21],
    pub sale_orbs_indices: Vec<usize>,
    pub pullable_orb_effects: Vec<OrbEffect>,
    pub pulled_orbs_effects: Vec<OrbEffect>,
}

pub const STARTING_HP: u32 = 5;

pub const STARTING_MOONROCKS_SPENT: u32 = 10;

/// A multiplier of 1.0, in tenths.
pub const BASE_MULTIPLIER: u32 = 10;

/// The point threshold that opens the shop on a level. Levels past the
/// table's last entry keep its last threshold.
pub open spec fn milestone_of(level: u32) -> u32 {
    if level <= 1 {
        12
    } else if level == 2 {
        18
    } else if level == 3 {
        28
    } else if level == 4 {
        44
    } else if level == 5 {
        70
    } else if level == 6 {
        100
    } else {
        150
    }
}

/// `x` clamped to what a `u32` holds.
pub open spec fn capped(x: int) -> u32 {
    if x > u32::MAX {
        u32::MAX
    } else {
        x as u32
    }
}

/// A point gain `base` scaled by a multiplier in tenths, rounded down.
pub open spec fn scaled(base: int, multiplier: u32) -> int {
    base * multiplier / 10
}

/// How many bombs a sequence of pulled effects holds.
pub open spec fn bombs_in(s: Seq<OrbEffect>) -> nat
    decreases s.len(),
{
    if s.len() == 0 {
        0
    } else {
        bombs_in(s.drop_last()) + if s.last() is Bomb {
            1nat
        } else {
            0nat
        }
    }
}

/// Whether a bomb immunity is among the pulled effects.
pub open spec fn immune_in(s: Seq<OrbEffect>) -> bool
    decreases s.len(),
{
    s.len() > 0 && (immune_in(s.drop_last()) || s.last() == OrbEffect::BombImmunity)
}

/// The points after effect `e` is pulled, with `remaining` effects left in the pool.
pub open spec fn points_after(d: GameData, e: OrbEffect, remaining: nat) -> u32 {
    match e {
        OrbEffect::Point(n) => capped(d.points + scaled(n as int, d.multiplier)),
        OrbEffect::PointPerOrbRemaining(n) => capped(
            d.points + scaled(n * remaining, d.multiplier),
        ),
        OrbEffect::PointPerBombPulled(n) => capped(
            d.points + scaled(n * bombs_in(d.pulled_orbs_effects@), d.multiplier),
        ),
        _ => d.points,
    }
}

/// The health after effect `e` is pulled.
pub open spec fn hp_after(d: GameData, e: OrbEffect) -> u32 {
    match e {
        OrbEffect::Bomb(n) => if immune_in(d.pulled_orbs_effects@) {
            d.hp
        } else if d.hp >= n {
            (d.hp - n) as u32
        } else {
            0
        },
        OrbEffect::Health(n) => if d.hp + n > d.max_hp {
            d.max_hp
        } else {
            (d.hp + n) as u32
        },
        _ => d.hp,
    }
}

pub open spec fn glitch_chips_after(d: GameData, e: OrbEffect) -> u32 {
    match e {
        OrbEffect::GlitchChips(n) => capped(d.glitch_chips + n),
        _ => d.glitch_chips,
    }
}

pub open spec fn moonrocks_earned_after(d: GameData, e: OrbEffect) -> u32 {
    match e {
        OrbEffect::Moonrocks(n) => capped(d.moonrocks_earned + n),
        _ => d.moonrocks_earned,
    }
}

pub open spec fn multiplier_after(d: GameData, e: OrbEffect) -> u32 {
    match e {
        OrbEffect::Multiplier(x) => capped(d.multiplier + x),
        _ => d.multiplier,
    }
}

/// `new` is `old` after the effect at position `idx` of the pool was pulled:
/// it leaves the pool, joins the pulled effects, and is resolved.
pub open spec fn pulled_at(old: GameData, idx: int, new: GameData) -> bool {
    let e = old.pullable_orb_effects@[idx];
    let rest = old.pullable_orb_effects@.remove(idx);
    &&& new.pullable_orb_effects@ == rest
    &&& new.pulled_orbs_effects@ == old.pulled_orbs_effects@.push(e)
    &&& new.points == points_after(old, e, rest.len())
    &&& new.hp == hp_after(old, e)
    &&& new.glitch_chips == glitch_chips_after(old, e)
    &&& new.moonrocks_earned == moonrocks_earned_after(old, e)
    &&& new.multiplier == multiplier_after(old, e)
    &&& new.level == old.level
    &&& new.milestone == old.milestone
    &&& new.max_hp == old.max_hp
    &&& new.moonrocks_spent == old.moonrocks_spent
    &&& new.all_orbs@ == old.all_orbs@
    &&& new.sale_orbs_indices@ == old.sale_orbs_indices@
}

/// The positions of the catalog entries of one rarity that can be bought, in order.
pub open spec fn buyable_positions(orbs: Seq<Orb>, rarity: OrbRarity) -> Seq<usize>
    decreases orbs.len(),
{
    if orbs.len() == 0 {
        Seq::empty()
    } else {
        let prev = buyable_positions(orbs.drop_last(), rarity);
        let o = orbs.last();
        if o.rarity == rarity && o.buyable is Yes {
            prev.push((orbs.len() - 1) as usize)
        } else {
            prev
        }
    }
}

/// `new` is `old` with `sale` as its shop offer and nothing else changed.
pub open spec fn with_sale_spec(old: GameData, sale: Seq<usize>, new: GameData) -> bool {
    &&& new.sale_orbs_indices@ == sale
    &&& new.level == old.level
    &&& new.points == old.points
    &&& new.milestone == old.milestone
    &&& new.hp == old.hp
    &&& new.max_hp == old.max_hp
    &&& new.multiplier == old.multiplier
    &&& new.glitch_chips == old.glitch_chips
    &&& new.moonrocks_spent == old.moonrocks_spent
    &&& new.moonrocks_earned == old.moonrocks_earned
    &&& new.all_orbs@ == old.all_orbs@
    &&& new.pullable_orb_effects@ == old.pullable_orb_effects@
    &&& new.pulled_orbs_effects@ == old.pulled_orbs_effects@
}

/// The moonrocks a player can spend in the shop: those earned minus those
/// spent, counting the run's entry cost as spent.
pub open spec fn spendable(d: GameData) -> int {
    d.moonrocks_earned - d.moonrocks_spent
}

/// Why buying the orb in slot `slot` of the offer fails, if it does.
pub open spec fn purchase_error(d: GameData, slot: int) -> Option<ActionError> {
    if slot < 0 || slot >= d.sale_orbs_indices@.len() || d.sale_orbs_indices@[slot] >= 21 {
        Some(ActionError::InvalidActionInShop)
    } else {
        let orb = d.all_orbs@[d.sale_orbs_indices@[slot] as int];
        match orb.buyable {
            Buyable::No => Some(ActionError::InvalidActionInShop),
            Buyable::Yes { current_price, .. } => if spendable(d) < current_price {
                Some(ActionError::InsufficientFunds)
            } else {
                None
            },
        }
    }
}

/// An orb after one copy was bought: one more copy in the pool, and a
/// price raised by its base price.
pub open spec fn bought_orb(orb: Orb) -> Orb {
    match orb.buyable {
        Buyable::Yes { base_price, current_price } => Orb {
            count: capped(orb.count + 1),
            buyable: Buyable::Yes {
                base_price,
                current_price: capped(current_price + base_price),
            },
            ..orb
        },
        Buyable::No => orb,
    }
}

/// `new` is `old` after buying the orb in slot `slot` of the offer.
pub open spec fn bought_at(old: GameData, slot: int, new: GameData) -> bool {
    let i = old.sale_orbs_indices@[slot] as int;
    let orb = old.all_orbs@[i];
    &&& new.all_orbs@ == old.all_orbs@.update(i, bought_orb(orb))
    &&& new.moonrocks_spent == old.moonrocks_spent + orb.buyable->current_price
    &&& new.level == old.level
    &&& new.points == old.points
    &&& new.milestone == old.milestone
    &&& new.hp == old.hp
    &&& new.max_hp == old.max_hp
    &&& new.multiplier == old.multiplier
    &&& new.glitch_chips == old.glitch_chips
    &&& new.moonrocks_earned == old.moonrocks_earned
    &&& new.sale_orbs_indices@ == old.sale_orbs_indices@
    &&& new.pullable_orb_effects@ == old.pullable_orb_effects@
    &&& new.pulled_orbs_effects@ == old.pulled_orbs_effects@
}

/// The run state of a fresh run.
pub open spec fn is_fresh_run(d: GameData) -> bool {
    &&& d.level == 1
    &&& d.points == 0
    &&& d.milestone == milestone_of(1)
    &&& d.hp == STARTING_HP
    &&& d.max_hp == STARTING_HP
    &&& d.multiplier == BASE_MULTIPLIER
    &&& d.glitch_chips == 0
    &&& d.moonrocks_spent == STARTING_MOONROCKS_SPENT
    &&& d.moonrocks_earned == 0
    &&& d.all_orbs@ == catalog()
    &&& d.sale_orbs_indices@.len() == 0
    &&& d.pullable_orb_effects@ == pool_of(catalog())
    &&& d.pulled_orbs_effects@.len() == 0
}

/// `new` is the run state of the level after `old`'s.
pub open spec fn is_next_level(old: GameData, new: GameData) -> bool {
    &&& new.level == old.level + 1
    &&& new.points == 0
    &&& new.milestone == milestone_of((old.level + 1) as u32)
    &&& new.hp == STARTING_HP
    &&& new.max_hp == STARTING_HP
    &&& new.multiplier == BASE_MULTIPLIER
    &&& new.glitch_chips == old.glitch_chips
    &&& new.moonrocks_spent == old.moonrocks_spent
    &&& new.moonrocks_earned == old.moonrocks_earned
    &&& new.all_orbs@ == old.all_orbs@
    &&& new.sale_orbs_indices@.len() == 0
    &&& new.pullable_orb_effects@ == pool_of(old.all_orbs@)
    &&& new.pulled_orbs_effects@.len() == 0
}

/// The milestone of a level, clamped to the table's last entry.
pub fn milestone_for(level: u32) -> (r: u32)
    ensures
        r == milestone_of(level),
{
    if level <= 1 {
        12
    } else if level == 2 {
        18
    } else if level == 3 {
        28
    } else if level == 4 {
        44
    } else if level == 5 {
        70
    } else if level == 6 {
        100
    } else {
        150
    }
}

/// The pull pool of a level: each orb's copies, in catalog order.
fn pool_from(orbs: &[Orb; 21]) -> (r: Vec<OrbEffect>)
    ensures
        r@ == pool_of(orbs@),
{
    let mut r: Vec<OrbEffect> = Vec::new();
    let mut i: usize = 0;
    while i < 21
        invariant
            i <= 21,
            orbs@.len() == 21,
            r@ == pool_of(orbs@.subrange(0, i as int)),
        decreases 21 - i,
    {
        let orb = orbs[i];
        let mut part = orb.to_orb_effects();
        r.append(&mut part);
        assert(orbs@.subrange(0, i + 1).drop_last() =~= orbs@.subrange(0, i as int));
        i = i + 1;
    }
    assert(orbs@.subrange(0, 21) =~= orbs@);
    r
}

/// A copy of a vector, element for element.
fn copy_vec<T: Copy>(v: &Vec<T>) -> (r: Vec<T>)
    ensures
        r@ == v@,
{
    let mut r: Vec<T> = Vec::new();
    let mut i: usize = 0;
    while i < v.len()
        invariant
            i <= v.len(),
            r@ == v@.subrange(0, i as int),
        decreases v.len() - i,
    {
        r.push(v[i]);
        i = i + 1;
        assert(r@ =~= v@.subrange(0, i as int));
    }
    assert(r@ =~= v@);
    r
}

/// The number of bombs among `s`.
fn count_bombs(s: &Vec<OrbEffect>) -> (r: usize)
    ensures
        r == bombs_in(s@),
{
    let mut n: usize = 0;
    let mut i: usize = 0;
    while i < s.len()
        invariant
            i <= s.len(),
            n == bombs_in(s@.subrange(0, i as int)),
            n <= i,
        decreases s.len() - i,
    {
        assert(s@.subrange(0, i + 1).drop_last() =~= s@.subrange(0, i as int));
        match s[i] {
            OrbEffect::Bomb(_) => {
                n = n + 1;
            },
            _ => {},
        }
        i = i + 1;
    }
    assert(s@.subrange(0, s.len() as int) =~= s@);
    n
}

/// Whether a bomb immunity is among `s`.
fn has_bomb_immunity(s: &Vec<OrbEffect>) -> (r: bool)
    ensures
        r == immune_in(s@),
{
    let mut found = false;
    let mut i: usize = 0;
    while i < s.len()
        invariant
            i <= s.len(),
            found == immune_in(s@.subrange(0, i as int)),
        decreases s.len() - i,
    {
        assert(s@.subrange(0, i + 1).drop_last() =~= s@.subrange(0, i as int));
        if s[i] == OrbEffect::BombImmunity {
            found = true;
        }
        i = i + 1;
    }
    assert(s@.subrange(0, s.len() as int) =~= s@);
    found
}

/// `points` plus `base` scaled by `multiplier` (in tenths), clamped to `u32`.
fn add_scaled(points: u32, base: u128, multiplier: u32) -> (r: u32)
    requires
        base <= (u32::MAX as int) * (u64::MAX as int),
    ensures
        r == capped(points + scaled(base as int, multiplier)),
{
    assert((base as int) * (multiplier as int) <= (u32::MAX as int) * (u64::MAX as int) * (
    u32::MAX as int)) by (nonlinear_arith)
        requires
            base <= (u32::MAX as int) * (u64::MAX as int),
            multiplier <= u32::MAX,
            0 <= base,
    ;
    let gain: u128 = base * (multiplier as u128) / 10;
    let total: u128 = points as u128 + gain;
    if total > u32::MAX as u128 {
        u32::MAX
    } else {
        total as u32
    }
}

/// `a + b`, clamped to `u32`.
fn add_capped(a: u32, b: u32) -> (r: u32)
    ensures
        r == capped(a + b),
{
    let total: u64 = a as u64 + b as u64;
    if total > u32::MAX as u64 {
        u32::MAX
    } else {
        total as u32
    }
}

impl GameData {
    /// The run state of a fresh run: level 1, full health, the starting
    /// debt of moonrocks, the catalog, and its pull pool.
    pub fn new() -> (r: Self)
        ensures
            is_fresh_run(r),
    {
        let all_orbs = Orb::all_orbs();
        let pullable_orb_effects = pool_from(&all_orbs);
        GameData {
            level: 1,
            points: 0,
            milestone: milestone_for(1),
            hp: STARTING_HP,
            max_hp: STARTING_HP,
            multiplier: BASE_MULTIPLIER,
            glitch_chips: 0,
            moonrocks_spent: STARTING_MOONROCKS_SPENT,
            moonrocks_earned: 0,
            all_orbs,
            sale_orbs_indices: Vec::new(),
            pullable_orb_effects,
            pulled_orbs_effects: Vec::new(),
        }
    }

    /// The run state of the next level: the persistent fields carry over,
    /// the level's fields start afresh, and the pool is rebuilt from the orbs.
    pub fn next_level_game_data(&self) -> (r: Self)
        requires
            self.level < u32::MAX,
        ensures
            is_next_level(*self, r),
    {
        let fresh = GameData::new();
        let pullable_orb_effects = pool_from(&self.all_orbs);
        GameData {
            level: self.level + 1,
            milestone: milestone_for(self.level + 1),
            glitch_chips: self.glitch_chips,
            moonrocks_spent: self.moonrocks_spent,
            moonrocks_earned: self.moonrocks_earned,
            all_orbs: self.all_orbs,
            pullable_orb_effects,
            ..fresh
        }
    }

    /// Pulls the effect at position `idx` of the pool and resolves it.
    pub fn pull_orb_at(&self, idx: usize) -> (r: Self)
        requires
            idx < self.pullable_orb_effects@.len(),
        ensures
            pulled_at(*self, idx as int, r),
    {
        let mut pullable_orb_effects = copy_vec(&self.pullable_orb_effects);
        let e = pullable_orb_effects.remove(idx);
        let remaining = pullable_orb_effects.len();
        let bombs = count_bombs(&self.pulled_orbs_effects);
        let immune = has_bomb_immunity(&self.pulled_orbs_effects);
        let mut pulled_orbs_effects = copy_vec(&self.pulled_orbs_effects);
        pulled_orbs_effects.push(e);
        let mut points = self.points;
        let mut hp = self.hp;
        let mut glitch_chips = self.glitch_chips;
        let mut moonrocks_earned = self.moonrocks_earned;
        let mut multiplier = self.multiplier;
        match e {
            OrbEffect::Point(n) => {
                points = add_scaled(self.points, n as u128, self.multiplier);
            },
            OrbEffect::PointPerOrbRemaining(n) => {
                assert((n as int) * (remaining as int) <= (u32::MAX as int) * (u64::MAX as int))
                    by (nonlinear_arith)
                    requires
                        n <= u32::MAX,
                        remaining <= u64::MAX,
                ;
                points = add_scaled(self.points, (n as u128) * (remaining as u128), self.multiplier);
            },
            OrbEffect::PointPerBombPulled(n) => {
                assert((n as int) * (bombs as int) <= (u32::MAX as int) * (u64::MAX as int))
                    by (nonlinear_arith)
                    requires
                        n <= u32::MAX,
                        bombs <= u64::MAX,
                ;
                points = add_scaled(self.points, (n as u128) * (bombs as u128), self.multiplier);
            },
            OrbEffect::GlitchChips(n) => {
                glitch_chips = add_capped(self.glitch_chips, n);
            },
            OrbEffect::Moonrocks(n) => {
                moonrocks_earned = add_capped(self.moonrocks_earned, n);
            },
            OrbEffect::Health(n) => {
                let total: u64 = self.hp as u64 + n as u64;
                hp = if total > self.max_hp as u64 {
                    self.max_hp
                } else {
                    total as u32
                };
            },
            OrbEffect::Bomb(n) => {
                if !immune {
                    hp = if self.hp >= n {
                        self.hp - n
                    } else {
                        0
                    };
                }
            },
            OrbEffect::Multiplier(x) => {
                multiplier = add_capped(self.multiplier, x);
            },
            _ => {},
        }
        GameData {
            level: self.level,
            points,
            milestone: self.milestone,
            hp,
            max_hp: self.max_hp,
            multiplier,
            glitch_chips,
            moonrocks_spent: self.moonrocks_spent,
            moonrocks_earned,
            all_orbs: self.all_orbs,
            sale_orbs_indices: copy_vec(&self.sale_orbs_indices),
            pullable_orb_effects,
            pulled_orbs_effects,
        }
    }
    /// The positions in `all_orbs` of the buyable orbs of one rarity, in order.
    pub fn buyable_indices(&self, rarity: OrbRarity) -> (r: Vec<usize>)
        ensures
            r@ == buyable_positions(self.all_orbs@, rarity),
    {
        let mut r: Vec<usize> = Vec::new();
        let mut i: usize = 0;
        while i < 21
            invariant
                i <= 21,
                self.all_orbs@.len() == 21,
                r@ == buyable_positions(self.all_orbs@.subrange(0, i as int), rarity),
            decreases 21 - i,
        {
            let ghost prefix = self.all_orbs@.subrange(0, i + 1);
            assert(prefix.drop_last() =~= self.all_orbs@.subrange(0, i as int));
            assert(prefix.last() == self.all_orbs@[i as int]);
            let orb = self.all_orbs[i];
            if orb.rarity == rarity && orb.is_buyable() {
                r.push(i);
            }
            i = i + 1;
        }
        assert(self.all_orbs@.subrange(0, 21) =~= self.all_orbs@);
        r
    }

    /// This run state with `sale` as the shop's offer.
    pub fn with_sale(&self, sale: Vec<usize>) -> (r: Self)
        ensures
            with_sale_spec(*self, sale@, r),
    {
        GameData {
            level: self.level,
            points: self.points,
            milestone: self.milestone,
            hp: self.hp,
            max_hp: self.max_hp,
            multiplier: self.multiplier,
            glitch_chips: self.glitch_chips,
            moonrocks_spent: self.moonrocks_spent,
            moonrocks_earned: self.moonrocks_earned,
            all_orbs: self.all_orbs,
            sale_orbs_indices: sale,
            pullable_orb_effects: copy_vec(&self.pullable_orb_effects),
            pulled_orbs_effects: copy_vec(&self.pulled_orbs_effects),
        }
    }

    /// Buys the orb offered in slot `slot`: its price moves into
    /// `moonrocks_spent`, it gains a copy, and its price rises by its base
    /// price. Fails when the slot holds no buyable orb, or when the
    /// spendable moonrocks do not cover the price.
    pub fn buy_orb(&self, slot: usize) -> (r: Result<Self, ActionError>)
        ensures
            match r {
                Ok(d) => purchase_error(*self, slot as int) is None && bought_at(*self, slot as int, d),
                Err(e) => purchase_error(*self, slot as int) == Some(e),
            },
    {
        if slot >= self.sale_orbs_indices.len() || self.sale_orbs_indices[slot] >= 21 {
            return Err(ActionError::InvalidActionInShop);
        }
        let i = self.sale_orbs_indices[slot];
        let orb = self.all_orbs[i];
        match orb.buyable {
            Buyable::No => Err(ActionError::InvalidActionInShop),
            Buyable::Yes { base_price, current_price } => {
                if (self.moonrocks_earned as u64) < self.moonrocks_spent as u64 + current_price as u64 {
                    return Err(ActionError::InsufficientFunds);
                }
                let updated = Orb {
                    count: add_capped(orb.count, 1),
                    buyable: Buyable::Yes {
                        base_price,
                        current_price: add_capped(current_price, base_price),
                    },
                    ..orb
                };
                let mut all_orbs = self.all_orbs;
                all_orbs[i] = updated;
                assert(all_orbs@ =~= self.all_orbs@.update(i as int, bought_orb(orb)));
                Ok(GameData {
                    level: self.level,
                    points: self.points,
                    milestone: self.milestone,
                    hp: self.hp,
                    max_hp: self.max_hp,
                    multiplier: self.multiplier,
                    glitch_chips: self.glitch_chips,
                    moonrocks_spent: self.moonrocks_spent + current_price,
                    moonrocks_earned: self.moonrocks_earned,
                    all_orbs,
                    sale_orbs_indices: copy_vec(&self.sale_orbs_indices),
                    pullable_orb_effects: copy_vec(&self.pullable_orb_effects),
                    pulled_orbs_effects: copy_vec(&self.pulled_orbs_effects),
                })
            },
        }
    }
}

} // verus!
