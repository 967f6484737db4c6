//! The inventory ledger: a currency scalar plus per-stock-item quantities.
//!
//! A stock item distinguishes seed stock from harvested-crop stock of the
//! same crop kind. Quantities are non-negative and an absent entry means
//! zero, so the ledger is a total map over the four stock items, stored as a
//! fixed-size table. Buying and selling move currency and quantity in one
//! step; an unmet precondition (not enough currency, nothing to sell) is a
//! silent no-op, never an error.

use vstd::prelude::*;

use crate::crops::CropType;
use crate::geom::{Vec2, POS_LIMIT};
use crate::hierarchy::{lemma_resolved_agrees, resolve_position};
use crate::world::{Entity, World, MAX_DEPTH, TWEEN_LIMIT};

verus! {

/// A ledger key: seed stock or harvested-crop stock of a crop kind.
#[derive(Clone, Copy, PartialEq, Eq, Structural, Debug)]
pub enum Item {
    Seed(CropType),
    Crop(CropType),
}

/// Number of distinct stock items.
pub const ITEM_COUNT: usize = 4;

/// Most units a single buy action may purchase.
pub const BUY_CAP: i64 = 10;

impl Item {
    /// The ledger table slot of this stock item.
    pub open spec fn spec_slot(self) -> int {
        match self {
            Item::Seed(CropType::Potato) => 0,
            Item::Seed(CropType::Onion) => 1,
            Item::Crop(CropType::Potato) => 2,
            Item::Crop(CropType::Onion) => 3,
        }
    }

    pub fn slot(self) -> (i: usize)
        ensures
            i == self.spec_slot(),
            i < ITEM_COUNT,
    {
        match self {
            Item::Seed(CropType::Potato) => 0,
            Item::Seed(CropType::Onion) => 1,
            Item::Crop(CropType::Potato) => 2,
            Item::Crop(CropType::Onion) => 3,
        }
    }

    pub open spec fn spec_cost(self) -> int {
        match self {
            Item::Seed(CropType::Potato) => 1,
            Item::Seed(CropType::Onion) => 8,
            Item::Crop(CropType::Potato) => 2,
            Item::Crop(CropType::Onion) => 16,
        }
    }

    /// Fixed unit cost of this stock item, used by both buying and selling.
    pub fn cost(self) -> (c: i64)
        ensures
            c == self.spec_cost(),
            1 <= c <= 16,
    {
        match self {
            Item::Seed(CropType::Potato) => 1,
            Item::Seed(CropType::Onion) => 8,
            Item::Crop(CropType::Potato) => 2,
            Item::Crop(CropType::Onion) => 16,
        }
    }

    /// The display name of this stock item.
    pub fn name(self) -> (n: &'static str)
        ensures
            n@ == self.spec_name(),
    {
        match self {
            Item::Seed(CropType::Potato) => "Potato seed",
            Item::Seed(CropType::Onion) => "Onion seed",
            Item::Crop(CropType::Potato) => "Potato",
            Item::Crop(CropType::Onion) => "Onion",
        }
    }

    pub open spec fn spec_name(self) -> Seq<char> {
        match self {
            Item::Seed(CropType::Potato) => "Potato seed"@,
            Item::Seed(CropType::Onion) => "Onion seed"@,
            Item::Crop(CropType::Potato) => "Potato"@,
            Item::Crop(CropType::Onion) => "Onion"@,
        }
    }

    /// The crop kind this stock item tracks.
    pub fn crop(self) -> (c: CropType)
        ensures
            c == self.spec_crop(),
    {
        match self {
            Item::Seed(c) => c,
            Item::Crop(c) => c,
        }
    }

    pub open spec fn spec_crop(self) -> CropType {
        match self {
            Item::Seed(c) => c,
            Item::Crop(c) => c,
        }
    }
}

/// The center of the first storage-indicator entity (in creation order)
/// bound to `it` and carrying an extent, scanning from slot `i`; the origin
/// when there is none.
pub open spec fn indicator_pos_from(w: World, it: Item, i: int) -> (int, int)
    decreases w.n() - i,
{
    if !(0 <= i < w.n()) {
        (0int, 0int)
    } else if w.indicator@[i] == Some(it) && w.size@[i] is Some {
        let r = w.resolved_spec(Entity { idx: i as usize }, MAX_DEPTH as nat);
        let s = w.size@[i]->Some_0;
        (r.0 + s.x as int / 2, r.1 + s.y as int / 2)
    } else {
        indicator_pos_from(w, it, i + 1)
    }
}

/// The ledger-credit target position for `it`: the center of its first
/// storage indicator, or the origin if none is on display.
pub open spec fn spec_indicator_pos(w: World, it: Item) -> (int, int) {
    indicator_pos_from(w, it, 0)
}

/// Locates the display position for a stock item: the center of the first
/// storage-indicator entity bound to it, or the origin if there is none.
pub fn find_storage_indicator_position(w: &World, item: Item) -> (p: Vec2)
    requires
        w.wf(),
    ensures
        p.x == spec_indicator_pos(*w, item).0,
        p.y == spec_indicator_pos(*w, item).1,
        p.in_range(TWEEN_LIMIT),
{
    let n = w.alive.len();
    let mut i: usize = 0;
    while i < n
        invariant
            w.wf(),
            n == w.n(),
            i <= n,
            spec_indicator_pos(*w, item) == indicator_pos_from(*w, item, i as int),
        decreases n - i,
    {
        if let Some(ind) = w.indicator[i] {
            if let Some(s) = w.size[i] {
                if ind == item {
                    let rp = resolve_position(w, Entity { idx: i });
                    proof {
                        assert(w.slot_ok(i as int));
                    }
                    return Vec2 { x: rp.x + s.x / 2, y: rp.y + s.y / 2 };
                }
            }
        }
        i += 1;
    }
    Vec2 { x: 0, y: 0 }
}

/// The indicator scan reads only the offset, link, extent and indicator
/// tables: two stores that agree on them locate every stock item alike.
pub proof fn lemma_indicator_pos_agrees(a: World, b: World, it: Item, i: int)
    requires
        a.position@ == b.position@,
        a.parent@ == b.parent@,
        a.size@ == b.size@,
        a.indicator@ == b.indicator@,
        a.alive@.len() == b.alive@.len(),
    ensures
        indicator_pos_from(a, it, i) == indicator_pos_from(b, it, i),
    decreases a.n() - i,
{
    if 0 <= i < a.n() {
        if a.indicator@[i] == Some(it) && a.size@[i] is Some {
            lemma_resolved_agrees(a, b, Entity { idx: i as usize }, MAX_DEPTH as nat);
        } else {
            lemma_indicator_pos_agrees(a, b, it, i + 1);
        }
    }
}

/// The pointer, in entity-local coordinates, sits in the buy zone of a
/// storage indicator: the left half of the indicator's lower half.
pub open spec fn spec_buy_zone(rel: Vec2, size: Vec2) -> bool {
    &&& rel.y > size.y as int / 2
    &&& rel.x > 0
    &&& rel.x < size.x as int / 2
}

/// The pointer, in entity-local coordinates, sits in the sell zone of a
/// storage indicator: the right half of the indicator's lower half.
pub open spec fn spec_sell_zone(rel: Vec2, size: Vec2) -> bool {
    &&& rel.y > size.y as int / 2
    &&& rel.x - size.x as int / 2 > 0
    &&& rel.x - size.x as int / 2 < size.x as int / 2
}

/// Hit-tests the buy button zone of an indicator of extent `size` against
/// a pointer in entity-local coordinates.
pub fn buy_zone_hit(rel: Vec2, size: Vec2) -> (b: bool)
    requires
        rel.in_range(POS_LIMIT),
        0 <= size.x <= POS_LIMIT,
        0 <= size.y <= POS_LIMIT,
    ensures
        b == spec_buy_zone(rel, size),
{
    rel.y > size.y / 2 && rel.x > 0 && rel.x < size.x / 2
}

/// Hit-tests the sell button zone of an indicator of extent `size` against
/// a pointer in entity-local coordinates.
pub fn sell_zone_hit(rel: Vec2, size: Vec2) -> (b: bool)
    requires
        rel.in_range(POS_LIMIT),
        0 <= size.x <= POS_LIMIT,
        0 <= size.y <= POS_LIMIT,
    ensures
        b == spec_sell_zone(rel, size),
{
    let half = size.x / 2;
    rel.y > size.y / 2 && rel.x - half > 0 && rel.x - half < half
}

/// The inventory ledger: currency plus one quantity per stock item.
pub struct Storage {
    pub money: i64,
    pub items: Vec<i64>,
}

/// The smaller of two mathematical integers.
pub open spec fn min_int(a: int, b: int) -> int {
    if a <= b {
        a
    } else {
        b
    }
}

impl Storage {
    /// One table entry per stock item; currency and quantities never negative.
    pub open spec fn wf(self) -> bool {
        &&& self.items@.len() == ITEM_COUNT
        &&& self.money >= 0
        &&& forall|i: int| 0 <= i < ITEM_COUNT ==> self.items@[i] >= 0
    }

    /// The quantity on hand of a stock item.
    pub open spec fn qty(self, it: Item) -> int {
        self.items@[it.spec_slot()] as int
    }

    /// A fresh ledger holding the given currency and no stock at all.
    pub fn new(money: i64) -> (s: Storage)
        requires
            money >= 0,
        ensures
            s.wf(),
            s.money == money,
            forall|it: Item| s.qty(it) == 0,
    {
        let mut items: Vec<i64> = Vec::new();
        items.push(0);
        items.push(0);
        items.push(0);
        items.push(0);
        Storage { money, items }
    }

    /// Reads the quantity on hand of a stock item.
    pub fn amount(&self, it: Item) -> (q: i64)
        requires
            self.wf(),
        ensures
            q == self.qty(it),
            q >= 0,
    {
        let i = it.slot();
        self.items[i]
    }

    /// Adds one unit of a stock item; everything else is untouched.
    pub fn credit_one(&mut self, it: Item)
        requires
            old(self).wf(),
            old(self).qty(it) < i64::MAX,
        ensures
            final(self).wf(),
            final(self).money == old(self).money,
            final(self).qty(it) == old(self).qty(it) + 1,
            forall|o: Item| o.spec_slot() != it.spec_slot() ==> final(self).qty(o) == old(self).qty(o),
    {
        let i = it.slot();
        let q = self.items[i];
        self.items[i] = q + 1;
    }

    /// Removes one unit of a stock item; everything else is untouched.
    pub fn consume_one(&mut self, it: Item)
        requires
            old(self).wf(),
            old(self).qty(it) > 0,
        ensures
            final(self).wf(),
            final(self).money == old(self).money,
            final(self).qty(it) == old(self).qty(it) - 1,
            forall|o: Item| o.spec_slot() != it.spec_slot() ==> final(self).qty(o) == old(self).qty(o),
    {
        let i = it.slot();
        let q = self.items[i];
        self.items[i] = q - 1;
    }

    /// A buy action: with currency `c` and unit cost `u`, when `c >= u` it
    /// purchases `min(c div u, 10)` units atomically, debiting the currency
    /// and crediting the quantity in one step; with `c < u` it is a no-op.
    pub fn buy(&mut self, it: Item)
        requires
            old(self).wf(),
            old(self).qty(it) + BUY_CAP <= i64::MAX,
        ensures
            final(self).wf(),
            old(self).money >= it.spec_cost() ==> {
                let units = min_int(old(self).money as int / it.spec_cost(), BUY_CAP as int);
                &&& final(self).money == old(self).money - it.spec_cost() * units
                &&& final(self).qty(it) == old(self).qty(it) + units
                &&& forall|o: Item|
                    o.spec_slot() != it.spec_slot() ==> final(self).qty(o) == old(self).qty(o)
            },
            old(self).money < it.spec_cost() ==> *final(self) == *old(self),
    {
        let cost = it.cost();
        if cost <= self.money {
            let per_money = self.money / cost;
            let units: i64 = if per_money <= BUY_CAP {
                per_money
            } else {
                BUY_CAP
            };
            proof {
                vstd::arithmetic::div_mod::lemma_fundamental_div_mod(
                    self.money as int,
                    cost as int,
                );
                vstd::arithmetic::div_mod::lemma_mod_bound(self.money as int, cost as int);
                vstd::arithmetic::mul::lemma_mul_inequality(
                    units as int,
                    per_money as int,
                    cost as int,
                );
            }
            let i = it.slot();
            let q = self.items[i];
            self.items[i] = q + units;
            self.money = self.money - cost * units;
        }
    }

    /// A sell action: with quantity `q > 0` it zeroes the quantity and
    /// credits `q` times the unit cost in one step; with `q = 0` it is a
    /// no-op.
    pub fn sell(&mut self, it: Item)
        requires
            old(self).wf(),
            old(self).money + it.spec_cost() * old(self).qty(it) <= i64::MAX,
        ensures
            final(self).wf(),
            old(self).qty(it) > 0 ==> {
                &&& final(self).money == old(self).money + it.spec_cost() * old(self).qty(it)
                &&& final(self).qty(it) == 0
                &&& forall|o: Item|
                    o.spec_slot() != it.spec_slot() ==> final(self).qty(o) == old(self).qty(o)
            },
            old(self).qty(it) == 0 ==> *final(self) == *old(self),
    {
        let cost = it.cost();
        let i = it.slot();
        let q = self.items[i];
        if q > 0 {
            proof {
                vstd::arithmetic::mul::lemma_mul_is_commutative(cost as int, q as int);
            }
            self.items[i] = 0;
            self.money = self.money + cost * q;
        }
    }
}

} // verus!
