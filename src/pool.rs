//! Random draws of skills, enemies and items of a given tier from a pool.
use vstd::prelude::*;
use rand::seq::SliceRandom;
use crate::model::{Characters, Combatant, Item, Items, Level, Rarity, Skill, Skills};

verus! {

/// Relies on rand's `SliceRandom::choose_multiple` with `thread_rng`: it
/// yields `min(amount, len)` elements of the slice taken at distinct
/// positions (via `index::sample`), so distinct elements when the slice has
/// no duplicates.
#[verifier::external_body]
fn choose_positions(positions: &Vec<usize>, amount: usize) -> (r: Vec<usize>)
    ensures
        r@.len() == if amount < positions@.len() { amount as int } else { positions@.len() as int },
        forall|k: int| 0 <= k < r@.len() ==> positions@.contains(#[trigger] r@[k]),
        positions@.no_duplicates() ==> r@.no_duplicates(),
{
    positions.choose_multiple(&mut rand::thread_rng(), amount).cloned().collect()
}

/// How many entries of `keys` equal `key`.
pub open spec fn count_key(keys: Seq<u8>, key: u8) -> nat
    decreases keys.len(),
{
    if keys.len() == 0 {
        0
    } else {
        count_key(keys.drop_last(), key) + if keys.last() == key { 1nat } else { 0nat }
    }
}

/// `min(count, n)`.
pub open spec fn capped_count(count: usize, n: nat) -> nat {
    if (count as nat) < n { count as nat } else { n }
}

/// Positions of `keys` that hold `key`, in increasing order.
fn positions_of(keys: &Vec<u8>, key: u8) -> (r: Vec<usize>)
    ensures
        r@.len() == count_key(keys@, key),
        r@.no_duplicates(),
        forall|k: int| 0 <= k < r@.len() ==> #[trigger] r@[k] < keys@.len() && keys@[r@[k] as int] == key,
{
    let mut r: Vec<usize> = Vec::new();
    let mut i: usize = 0;
    while i < keys.len()
        invariant
            0 <= i <= keys@.len(),
            r@.len() == count_key(keys@.take(i as int), key),
            forall|k: int| 0 <= k < r@.len() ==> #[trigger] r@[k] < i && keys@[r@[k] as int] == key,
            forall|k: int, l: int| 0 <= k < l < r@.len() ==> r@[k] < r@[l],
        decreases keys@.len() - i,
    {
        assert(keys@.take(i + 1).drop_last() =~= keys@.take(i as int));
        if keys[i] == key {
            r.push(i);
        }
        i = i + 1;
    }
    assert(keys@.take(keys@.len() as int) =~= keys@);
    r
}

/// Up to `count` distinct positions of `keys` holding `key`, drawn at
/// random: exactly `min(count, number of such positions)` of them.
pub fn pick_positions(keys: &Vec<u8>, key: u8, count: usize) -> (r: Vec<usize>)
    ensures
        r@.len() == capped_count(count, count_key(keys@, key)),
        r@.no_duplicates(),
        forall|k: int| 0 <= k < r@.len() ==> #[trigger] r@[k] < keys@.len() && keys@[r@[k] as int] == key,
{
    let positions = positions_of(keys, key);
    let r = choose_positions(&positions, count);
    assert forall|k: int| 0 <= k < r@.len() implies #[trigger] r@[k] < keys@.len() && keys@[r@[k] as int] == key by {
        assert(positions@.contains(r@[k]));
    }
    r
}

/// The rarities of a pool of skills.
pub open spec fn skill_keys(s: Seq<Skill>) -> Seq<u8> {
    s.map_values(|x: Skill| x.rarity.value)
}

/// The levels of a pool of combatants.
pub open spec fn combatant_keys(s: Seq<Combatant>) -> Seq<u8> {
    s.map_values(|x: Combatant| x.level.value)
}

/// The rarities of a pool of items.
pub open spec fn item_keys(s: Seq<Item>) -> Seq<u8> {
    s.map_values(|x: Item| x.rarity.value)
}

/// `r` holds the pool's entries at the distinct positions `ix`.
pub open spec fn drawn_from<T>(r: Seq<T>, pool: Seq<T>, ix: Seq<usize>) -> bool {
    &&& ix.len() == r.len()
    &&& ix.no_duplicates()
    &&& forall|k: int| 0 <= k < ix.len() ==> #[trigger] ix[k] < pool.len() && r[k] == pool[ix[k] as int]
}

impl Skills {
    /// Up to `count` skills of `rarity`, drawn at random without repetition:
    /// `min(count, number of such skills)` of them.
    pub fn random_pick(&self, rarity: Rarity, count: usize) -> (r: Vec<Skill>)
        ensures
            r@.len() == capped_count(count, count_key(skill_keys(self.skills@), rarity.value)),
            forall|k: int| 0 <= k < r@.len() ==> (#[trigger] r@[k]).rarity == rarity,
            exists|ix: Seq<usize>| drawn_from(r@, self.skills@, ix),
    {
        let mut keys: Vec<u8> = Vec::new();
        let mut i: usize = 0;
        while i < self.skills.len()
            invariant
                0 <= i <= self.skills@.len(),
                keys@ == skill_keys(self.skills@.take(i as int)),
            decreases self.skills@.len() - i,
        {
            keys.push(self.skills[i].rarity.value);
            i = i + 1;
            assert(keys@ =~= skill_keys(self.skills@.take(i as int)));
        }
        assert(self.skills@.take(i as int) =~= self.skills@);
        let ix = pick_positions(&keys, rarity.value, count);
        let mut r: Vec<Skill> = Vec::new();
        let mut k: usize = 0;
        while k < ix.len()
            invariant
                0 <= k <= ix@.len(),
                keys@ == skill_keys(self.skills@),
                r@.len() == k,
                forall|j: int| 0 <= j < ix@.len() ==> #[trigger] ix@[j] < keys@.len() && keys@[ix@[j] as int] == rarity.value,
                forall|j: int| 0 <= j < k ==> #[trigger] r@[j] == self.skills@[ix@[j] as int],
            decreases ix@.len() - k,
        {
            r.push(self.skills[ix[k]].duplicate());
            k = k + 1;
        }
        assert(drawn_from(r@, self.skills@, ix@));
        r
    }
}

/// `r` holds copies of the pool's combatants at the distinct positions `ix`.
pub open spec fn copies_drawn_from(r: Seq<Combatant>, pool: Seq<Combatant>, ix: Seq<usize>) -> bool {
    &&& ix.len() == r.len()
    &&& ix.no_duplicates()
    &&& forall|k: int| 0 <= k < ix.len() ==> #[trigger] ix[k] < pool.len() && r[k].copy_of(pool[ix[k] as int])
}

impl Characters {
    /// Up to `count` combatants of `level`, drawn at random without
    /// repetition: `min(count, number of such combatants)` copies.
    pub fn random_pick(&self, level: Level, count: usize) -> (r: Vec<Combatant>)
        ensures
            r@.len() == capped_count(count, count_key(combatant_keys(self.characters@), level.value)),
            forall|k: int| 0 <= k < r@.len() ==> (#[trigger] r@[k]).level == level,
            exists|ix: Seq<usize>| copies_drawn_from(r@, self.characters@, ix),
    {
        let mut keys: Vec<u8> = Vec::new();
        let mut i: usize = 0;
        while i < self.characters.len()
            invariant
                0 <= i <= self.characters@.len(),
                keys@ == combatant_keys(self.characters@.take(i as int)),
            decreases self.characters@.len() - i,
        {
            keys.push(self.characters[i].level.value);
            i = i + 1;
            assert(keys@ =~= combatant_keys(self.characters@.take(i as int)));
        }
        assert(self.characters@.take(i as int) =~= self.characters@);
        let ix = pick_positions(&keys, level.value, count);
        let mut r: Vec<Combatant> = Vec::new();
        let mut k: usize = 0;
        while k < ix.len()
            invariant
                0 <= k <= ix@.len(),
                keys@ == combatant_keys(self.characters@),
                r@.len() == k,
                forall|j: int| 0 <= j < ix@.len() ==> #[trigger] ix@[j] < keys@.len() && keys@[ix@[j] as int] == level.value,
                forall|j: int| 0 <= j < k ==> (#[trigger] r@[j]).copy_of(self.characters@[ix@[j] as int]),
            decreases ix@.len() - k,
        {
            r.push(self.characters[ix[k]].duplicate());
            k = k + 1;
        }
        assert(copies_drawn_from(r@, self.characters@, ix@));
        r
    }
}

impl Items {
    /// Up to `count` items of `rarity`, drawn at random without repetition:
    /// `min(count, number of such items)` of them.
    pub fn random_pick(&self, rarity: Rarity, count: usize) -> (r: Vec<Item>)
        ensures
            r@.len() == capped_count(count, count_key(item_keys(self.items@), rarity.value)),
            forall|k: int| 0 <= k < r@.len() ==> (#[trigger] r@[k]).rarity == rarity,
            exists|ix: Seq<usize>| drawn_from(r@, self.items@, ix),
    {
        let mut keys: Vec<u8> = Vec::new();
        let mut i: usize = 0;
        while i < self.items.len()
            invariant
                0 <= i <= self.items@.len(),
                keys@ == item_keys(self.items@.take(i as int)),
            decreases self.items@.len() - i,
        {
            keys.push(self.items[i].rarity.value);
            i = i + 1;
            assert(keys@ =~= item_keys(self.items@.take(i as int)));
        }
        assert(self.items@.take(i as int) =~= self.items@);
        let ix = pick_positions(&keys, rarity.value, count);
        let mut r: Vec<Item> = Vec::new();
        let mut k: usize = 0;
        while k < ix.len()
            invariant
                0 <= k <= ix@.len(),
                keys@ == item_keys(self.items@),
                r@.len() == k,
                forall|j: int| 0 <= j < ix@.len() ==> #[trigger] ix@[j] < keys@.len() && keys@[ix@[j] as int] == rarity.value,
                forall|j: int| 0 <= j < k ==> #[trigger] r@[j] == self.items@[ix@[j] as int],
            decreases ix@.len() - k,
        {
            r.push(self.items[ix[k]].duplicate());
            k = k + 1;
        }
        assert(drawn_from(r@, self.items@, ix@));
        r
    }
}

impl Combatant {
    /// `self` is a copy of `other`: same name, level, state and skills.
    pub open spec fn copy_of(self, other: Combatant) -> bool {
        &&& self.name == other.name
        &&& self.level == other.level
        &&& self.vitals == other.vitals
        &&& self.skills.skills@ == other.skills.skills@
    }

    /// A copy of the combatant.
    pub fn duplicate(&self) -> (r: Combatant)
        ensures
            r.copy_of(*self),
    {
        let mut skills: Vec<Skill> = Vec::new();
        let mut i: usize = 0;
        while i < self.skills.skills.len()
            invariant
                0 <= i <= self.skills.skills@.len(),
                skills@ == self.skills.skills@.take(i as int),
            decreases self.skills.skills@.len() - i,
        {
            skills.push(self.skills.skills[i].duplicate());
            i = i + 1;
            assert(skills@ =~= self.skills.skills@.take(i as int));
        }
        assert(skills@ =~= self.skills.skills@);
        Combatant {
            name: self.name.clone(),
            level: self.level,
            vitals: self.vitals,
            skills: Skills { skills },
        }
    }
}

} // verus!
