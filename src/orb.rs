use vstd::prelude::*;

verus! {

/// How rare an orb is; used to fill the shop's quota per rarity.
#[derive(Clone, Copy, PartialEq, Eq, Structural, Debug)]
pub enum OrbRarity {
    Common,
    Rare,
    Cosmic,
}

/// What an orb does when it is pulled.
///
/// `Multiplier` carries its delta in tenths: `Multiplier(5)` adds 0.5.
/// `BombImmunity` shields from every bomb pulled later in the level;
/// `PointRewind` and `FiveOrDie` change nothing beyond joining the pulled
/// effects.
#[derive(Clone, Copy, PartialEq, Eq, Structural, Debug)]
pub enum OrbEffect {
    Point(u32),
    PointPerOrbRemaining(u32),
    PointPerBombPulled(u32),
    GlitchChips(u32),
    Moonrocks(u32),
    Health(u32),
    Bomb(u32),
    Multiplier(u32),
    PointRewind,
    FiveOrDie,
    BombImmunity,
}

/// Whether an orb can be bought in the shop, and at what price.
#[derive(Clone, Copy, PartialEq, Eq, Structural, Debug)]
pub enum Buyable {
    No,
    Yes { base_price: u32, current_price: u32 },
}

impl Buyable {
    pub fn not_buyable() -> (r: Self)
        ensures
            r == Buyable::No,
    {
        Buyable::No
    }

    /// A buyable entry whose current price starts at its base price.
    pub fn buyable(base_price: u32) -> (r: Self)
        ensures
            r == (Buyable::Yes { base_price, current_price: base_price }),
    {
        Buyable::Yes { base_price, current_price: base_price }
    }
}

/// One catalog entry: its effect, rarity, how many copies enter the pull
/// pool each level, and its shop price.
#[derive(Clone, Copy, PartialEq, Eq, Structural, Debug)]
pub struct Orb {
    pub effect: OrbEffect,
    pub rarity: OrbRarity,
    pub count: u32,
    pub buyable: Buyable,
}

/// The copies of its effect that one orb puts into a level's pull pool.
pub open spec fn effects_of(orb: Orb) -> Seq<OrbEffect> {
    Seq::new(orb.count as nat, |_i: int| orb.effect)
}

/// The pull pool built from a sequence of orbs: each orb's copies, in order.
pub open spec fn pool_of(orbs: Seq<Orb>) -> Seq<OrbEffect>
    decreases orbs.len(),
{
    if orbs.len() == 0 {
        Seq::empty()
    } else {
        pool_of(orbs.drop_last()) + effects_of(orbs.last())
    }
}

/// The sum of the copy counts of a sequence of orbs.
pub open spec fn total_count(orbs: Seq<Orb>) -> nat
    decreases orbs.len(),
{
    if orbs.len() == 0 {
        0
    } else {
        total_count(orbs.drop_last()) + orbs.last().count as nat
    }
}

pub proof fn lemma_pool_len(orbs: Seq<Orb>)
    ensures
        pool_of(orbs).len() == total_count(orbs),
    decreases orbs.len(),
{
    if orbs.len() > 0 {
        lemma_pool_len(orbs.drop_last());
    }
}

pub open spec fn is_buyable_spec(b: Buyable) -> bool {
    b is Yes
}

/// The fixed catalog of orbs, in its canonical order.
pub open spec fn catalog() -> Seq<Orb> {
    seq![
        orb_spec(OrbEffect::Bomb(1), OrbRarity::Common, 2, Buyable::No),
        orb_spec(OrbEffect::Bomb(2), OrbRarity::Common, 1, Buyable::No),
        orb_spec(OrbEffect::Bomb(3), OrbRarity::Common, 1, Buyable::No),
        orb_spec(OrbEffect::PointPerOrbRemaining(1), OrbRarity::Common, 1, Buyable::No),
        orb_spec(OrbEffect::Point(5), OrbRarity::Common, 3, price(5)),
        orb_spec(OrbEffect::GlitchChips(15), OrbRarity::Common, 0, price(5)),
        orb_spec(OrbEffect::FiveOrDie, OrbRarity::Common, 0, price(5)),
        orb_spec(OrbEffect::PointPerBombPulled(4), OrbRarity::Common, 1, price(6)),
        orb_spec(OrbEffect::Point(7), OrbRarity::Common, 0, price(8)),
        orb_spec(OrbEffect::Moonrocks(15), OrbRarity::Common, 0, price(8)),
        orb_spec(OrbEffect::PointRewind, OrbRarity::Common, 0, price(8)),
        orb_spec(OrbEffect::Multiplier(5), OrbRarity::Common, 0, price(9)),
        orb_spec(OrbEffect::Health(1), OrbRarity::Common, 1, price(9)),
        orb_spec(OrbEffect::Point(8), OrbRarity::Rare, 0, price(11)),
        orb_spec(OrbEffect::Point(9), OrbRarity::Rare, 0, price(13)),
        orb_spec(OrbEffect::Multiplier(10), OrbRarity::Rare, 1, price(14)),
        orb_spec(OrbEffect::PointPerOrbRemaining(2), OrbRarity::Rare, 0, price(15)),
        orb_spec(OrbEffect::Multiplier(15), OrbRarity::Rare, 0, price(16)),
        orb_spec(OrbEffect::Health(3), OrbRarity::Cosmic, 0, price(21)),
        orb_spec(OrbEffect::Moonrocks(40), OrbRarity::Cosmic, 0, price(23)),
        orb_spec(OrbEffect::BombImmunity, OrbRarity::Cosmic, 0, price(24)),
    ]
}

pub open spec fn orb_spec(effect: OrbEffect, rarity: OrbRarity, count: u32, buyable: Buyable) -> Orb {
    Orb { effect, rarity, count, buyable }
}

pub open spec fn price(base_price: u32) -> Buyable {
    Buyable::Yes { base_price, current_price: base_price }
}

/// The catalog puts eleven effects into the first level's pull pool.
pub proof fn lemma_catalog_pool_len()
    ensures
        catalog().len() == 21,
        pool_of(catalog()).len() == 11,
{
    lemma_pool_len(catalog());
    reveal_with_fuel(total_count, 22);
}

impl Orb {
    pub fn new(effect: OrbEffect, rarity: OrbRarity, count: u32, buyable: Buyable) -> (r: Self)
        ensures
            r == orb_spec(effect, rarity, count, buyable),
    {
        Orb { effect, rarity, count, buyable }
    }

    /// A common bomb that deals `damage`.
    pub fn bomb(damage: u32, count: u32, buyable: Buyable) -> (r: Self)
        ensures
            r == orb_spec(OrbEffect::Bomb(damage), OrbRarity::Common, count, buyable),
    {
        Self::new(OrbEffect::Bomb(damage), OrbRarity::Common, count, buyable)
    }

    pub fn point(points: u32, count: u32, rarity: OrbRarity, buyable: Buyable) -> (r: Self)
        ensures
            r == orb_spec(OrbEffect::Point(points), rarity, count, buyable),
    {
        Self::new(OrbEffect::Point(points), rarity, count, buyable)
    }

    pub fn point_per_orb_remaining(
        points_per_orb: u32,
        count: u32,
        rarity: OrbRarity,
        buyable: Buyable,
    ) -> (r: Self)
        ensures
            r == orb_spec(OrbEffect::PointPerOrbRemaining(points_per_orb), rarity, count, buyable),
    {
        Self::new(OrbEffect::PointPerOrbRemaining(points_per_orb), rarity, count, buyable)
    }

    pub fn point_per_bomb_pulled(
        points_per_bomb: u32,
        count: u32,
        rarity: OrbRarity,
        buyable: Buyable,
    ) -> (r: Self)
        ensures
            r == orb_spec(OrbEffect::PointPerBombPulled(points_per_bomb), rarity, count, buyable),
    {
        Self::new(OrbEffect::PointPerBombPulled(points_per_bomb), rarity, count, buyable)
    }

    pub fn glitch_chips(chips: u32, count: u32, rarity: OrbRarity, buyable: Buyable) -> (r: Self)
        ensures
            r == orb_spec(OrbEffect::GlitchChips(chips), rarity, count, buyable),
    {
        Self::new(OrbEffect::GlitchChips(chips), rarity, count, buyable)
    }

    pub fn moonrocks(amount: u32, count: u32, rarity: OrbRarity, buyable: Buyable) -> (r: Self)
        ensures
            r == orb_spec(OrbEffect::Moonrocks(amount), rarity, count, buyable),
    {
        Self::new(OrbEffect::Moonrocks(amount), rarity, count, buyable)
    }

    pub fn health(hp: u32, count: u32, rarity: OrbRarity, buyable: Buyable) -> (r: Self)
        ensures
            r == orb_spec(OrbEffect::Health(hp), rarity, count, buyable),
    {
        Self::new(OrbEffect::Health(hp), rarity, count, buyable)
    }

    /// A multiplier orb; `tenths` is the delta in tenths (5 adds 0.5).
    pub fn multiplier(tenths: u32, count: u32, rarity: OrbRarity, buyable: Buyable) -> (r: Self)
        ensures
            r == orb_spec(OrbEffect::Multiplier(tenths), rarity, count, buyable),
    {
        Self::new(OrbEffect::Multiplier(tenths), rarity, count, buyable)
    }

    pub fn point_rewind(count: u32, rarity: OrbRarity, buyable: Buyable) -> (r: Self)
        ensures
            r == orb_spec(OrbEffect::PointRewind, rarity, count, buyable),
    {
        Self::new(OrbEffect::PointRewind, rarity, count, buyable)
    }

    pub fn five_or_die(count: u32, rarity: OrbRarity, buyable: Buyable) -> (r: Self)
        ensures
            r == orb_spec(OrbEffect::FiveOrDie, rarity, count, buyable),
    {
        Self::new(OrbEffect::FiveOrDie, rarity, count, buyable)
    }

    pub fn bomb_immunity(count: u32, rarity: OrbRarity, buyable: Buyable) -> (r: Self)
        ensures
            r == orb_spec(OrbEffect::BombImmunity, rarity, count, buyable),
    {
        Self::new(OrbEffect::BombImmunity, rarity, count, buyable)
    }

    /// The full catalog, the same entries in the same order on every call.
    pub fn all_orbs() -> (r: [Orb; 21])
        ensures
            r@ == catalog(),
    {
        let r = [
            Self::bomb(1, 2, Buyable::not_buyable()),
            Self::bomb(2, 1, Buyable::not_buyable()),
            Self::bomb(3, 1, Buyable::not_buyable()),
            Self::point_per_orb_remaining(1, 1, OrbRarity::Common, Buyable::not_buyable()),
            Self::point(5, 3, OrbRarity::Common, Buyable::buyable(5)),
            Self::glitch_chips(15, 0, OrbRarity::Common, Buyable::buyable(5)),
            Self::five_or_die(0, OrbRarity::Common, Buyable::buyable(5)),
            Self::point_per_bomb_pulled(4, 1, OrbRarity::Common, Buyable::buyable(6)),
            Self::point(7, 0, OrbRarity::Common, Buyable::buyable(8)),
            Self::moonrocks(15, 0, OrbRarity::Common, Buyable::buyable(8)),
            Self::point_rewind(0, OrbRarity::Common, Buyable::buyable(8)),
            Self::multiplier(5, 0, OrbRarity::Common, Buyable::buyable(9)),
            Self::health(1, 1, OrbRarity::Common, Buyable::buyable(9)),
            Self::point(8, 0, OrbRarity::Rare, Buyable::buyable(11)),
            Self::point(9, 0, OrbRarity::Rare, Buyable::buyable(13)),
            Self::multiplier(10, 1, OrbRarity::Rare, Buyable::buyable(14)),
            Self::point_per_orb_remaining(2, 0, OrbRarity::Rare, Buyable::buyable(15)),
            Self::multiplier(15, 0, OrbRarity::Rare, Buyable::buyable(16)),
            Self::health(3, 0, OrbRarity::Cosmic, Buyable::buyable(21)),
            Self::moonrocks(40, 0, OrbRarity::Cosmic, Buyable::buyable(23)),
            Self::bomb_immunity(0, OrbRarity::Cosmic, Buyable::buyable(24)),
        ];
        assert(r@ =~= catalog());
        r
    }

    /// The copies of this orb's effect that enter a level's pull pool.
    pub fn to_orb_effects(&self) -> (r: Vec<OrbEffect>)
        ensures
            r@ == effects_of(*self),
    {
        let mut r: Vec<OrbEffect> = Vec::new();
        let mut i: u32 = 0;
        while i < self.count
            invariant
                i <= self.count,
                r@ == Seq::new(i as nat, |_j: int| self.effect),
            decreases self.count - i,
        {
            r.push(self.effect);
            i = i + 1;
            assert(r@ =~= Seq::new(i as nat, |_j: int| self.effect));
        }
        assert(r@ =~= effects_of(*self));
        r
    }

    pub fn is_common(&self) -> (r: bool)
        ensures
            r == (self.rarity == OrbRarity::Common),
    {
        self.rarity == OrbRarity::Common
    }

    pub fn is_rare(&self) -> (r: bool)
        ensures
            r == (self.rarity == OrbRarity::Rare),
    {
        self.rarity == OrbRarity::Rare
    }

    pub fn is_cosmic(&self) -> (r: bool)
        ensures
            r == (self.rarity == OrbRarity::Cosmic),
    {
        self.rarity == OrbRarity::Cosmic
    }

    pub fn is_buyable(&self) -> (r: bool)
        ensures
            r == is_buyable_spec(self.buyable),
    {
        match self.buyable {
            Buyable::Yes { .. } => true,
            _ => false,
        }
    }
}

} // verus!
