use vstd::prelude::*;

verus! {

/// Relies on `rand::Rng::random_range` on the thread generator of `rand::rng()`:
/// the value lies in the inclusive range, which must not be empty.
#[verifier::external_body]
pub(crate) fn random_between(lo: usize, hi: usize) -> (r: usize)
    requires
        lo <= hi,
    ensures
        lo <= r <= hi,
{
    rand::Rng::random_range(&mut rand::rng(), lo..=hi)
}

/// Largest value of the roll that decides whether an item is picked.
pub const ROLL_MAX: u32 = 100;

/// A roll in `[0, ROLL_MAX]` hits when it does not exceed `chance`.
pub open spec fn chance_hits(chance: nat, roll: nat) -> bool {
    roll <= chance
}

/// An item is handed out when the list has one and the roll hits.
pub open spec fn picks(len: nat, chance: nat, roll: nat) -> bool {
    len > 0 && chance_hits(chance, roll)
}

/// Whether `roll` falls within `chance` percent.
pub fn item_chance(chance: u32, roll: u32) -> (r: bool)
    ensures
        r == chance_hits(chance as nat, roll as nat),
{
    roll <= chance
}

/// Draws a roll in `[0, ROLL_MAX]` and tells whether it falls within `chance` percent.
pub fn get_item_chance(chance: u32) -> (r: bool)
    requires
        chance <= ROLL_MAX,
    ensures
        exists|roll: nat| roll <= ROLL_MAX && r == chance_hits(chance as nat, roll),
{
    let roll = random_between(0, ROLL_MAX as usize) as u32;
    item_chance(chance, roll)
}

/// What the picker hands out once its draws are known: the element at `key`
/// when the list has one and the roll hits, else nothing.
pub open spec fn picked<T>(items: Seq<T>, chance: nat, roll: nat, key: int) -> Option<T> {
    if picks(items.len(), chance, roll) {
        Some(items[key])
    } else {
        None
    }
}

/// The picker with both draws given: the element at `key` of a non-empty
/// `items` when `roll` falls within `chance` percent, else nothing.
pub fn pick_with<T>(items: &Vec<T>, chance: u32, roll: u32, key: usize) -> (r: Option<&T>)
    requires
        items@.len() > 0 ==> key < items@.len(),
    ensures
        r is Some <==> picks(items@.len(), chance as nat, roll as nat),
        r matches Some(x) ==> *x == items@[key as int],
{
    if items.len() > 0 && item_chance(chance, roll) {
        Some(&items[key])
    } else {
        None
    }
}

/// Draws a roll in `[0, ROLL_MAX]` and, for a non-empty list of `len`
/// elements, an index into it.
pub fn draw_pick(len: usize) -> (r: (u32, usize))
    ensures
        r.0 <= ROLL_MAX,
        len > 0 ==> r.1 < len,
{
    let roll = random_between(0, ROLL_MAX as usize) as u32;
    let key = if len > 0 {
        random_between(0, len - 1)
    } else {
        0
    };
    (roll, key)
}

/// With `chance` percent (and a roll in `[0, ROLL_MAX]`), one element of `items`.
pub fn get_random_item<T>(items: &Vec<T>, chance: u32) -> (r: Option<&T>)
    requires
        chance <= ROLL_MAX,
    ensures
        exists|roll: nat|
            roll <= ROLL_MAX && (r is Some <==> picks(items@.len(), chance as nat, roll)),
        r matches Some(x) ==> exists|i: int| 0 <= i < items@.len() && *x == items@[i],
{
    let length = items.len();
    let roll = random_between(0, ROLL_MAX as usize) as u32;
    let key = if length > 0 && item_chance(chance, roll) {
        random_between(0, length - 1)
    } else {
        0
    };
    let r = pick_with(items, chance, roll, key);
    assert(roll as nat <= ROLL_MAX);
    r
}

/// The picker's extremes: a chance of 0 hands out nothing unless the roll is 0,
/// a chance of 100 always hands out an element of a non-empty list, and an empty
/// list yields nothing whatever the chance.
pub proof fn lemma_picker_extremes(len: nat, chance: nat, roll: nat)
    requires
        roll <= ROLL_MAX,
    ensures
        roll > 0 ==> !picks(len, 0, roll),
        len > 0 ==> picks(len, 100, roll),
        len == 0 ==> !picks(len, chance, roll),
{
}

} // verus!
