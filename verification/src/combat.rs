//! The rules of one exchange: the opponent's answer to a byte of entropy, the
//! time that a move may take, and the damage of an attack.

use vstd::prelude::*;
use crate::moves::Part;

verus! {

/// A point in time, in nanoseconds.
pub type Timestamp = u64;

/// Time that a side has for its move: 60 seconds, in nanoseconds.
pub const MAX_MS_FOR_ACTION: u64 = 60_000_000_000;

/// Position of the part that a byte of entropy selects: the byte divided by
/// 50, less 4 where the quotient is over 4.
pub open spec fn response_ordinal(seed: u8) -> int {
    if seed / 50 > 4 {
        seed / 50 - 4
    } else {
        seed as int / 50
    }
}

/// The part that a byte of entropy selects for the opponent.
pub open spec fn response(seed: u8) -> Part {
    Part::at(response_ordinal(seed))
}

/// Derives one of the opponent's parts from a byte of entropy.
pub fn response_part(seed: u8) -> (part: Part)
    ensures
        part == response(seed),
        part.ordinal() == response_ordinal(seed),
        0 <= part.ordinal() <= 4,
{
    let mut index: u8 = seed / 50;
    if index > 4 {
        index = index - 4;
    }
    Part::from_index(index)
}

/// Whether a move at `now` comes too late after the last one at `last`.
pub open spec fn too_late(last: Timestamp, now: Timestamp) -> bool {
    now > last + MAX_MS_FOR_ACTION
}

/// Tells whether a move at `now` comes too late after the last one at `last`.
pub fn is_too_late(last: Timestamp, now: Timestamp) -> (late: bool)
    ensures
        late == too_late(last, now),
{
    now > last && now - last > MAX_MS_FOR_ACTION
}

/// Damage of one attack. A side that missed its move deals none. An attack on
/// a part that the defender does not protect, or on a defender that missed its
/// move, deals twice the attacker's strength. An attack on the protected part
/// deals that less the defender's defense, and never less than nothing.
pub open spec fn damage(
    strength: u16,
    defense: u16,
    attack: Part,
    protect: Part,
    attacker_missed: bool,
    defender_missed: bool,
) -> int {
    if attacker_missed {
        0
    } else if attack != protect || defender_missed {
        2 * strength
    } else if 2 * strength >= defense {
        2 * strength - defense
    } else {
        0
    }
}

/// Computes the damage of one attack.
pub fn damage_dealt(
    strength: u16,
    defense: u16,
    attack: Part,
    protect: Part,
    attacker_missed: bool,
    defender_missed: bool,
) -> (d: u32)
    ensures
        d == damage(strength, defense, attack, protect, attacker_missed, defender_missed),
{
    let double: u32 = 2 * (strength as u32);
    if attacker_missed {
        0
    } else if attack != protect || defender_missed {
        double
    } else if double >= defense as u32 {
        double - defense as u32
    } else {
        0
    }
}

/// Every byte selects a part. The bytes up to 49 select the head, up to 99
/// the neck, up to 149 the chest, up to 199 the groin, up to 249 the legs, and
/// the six bytes from 250 on select the neck again.
pub proof fn lemma_response_of_every_byte(seed: u8)
    ensures
        0 <= response_ordinal(seed) <= 4,
        response(seed).ordinal() == response_ordinal(seed),
        response(seed) == if seed < 50 {
            Part::Head
        } else if seed < 100 {
            Part::Neck
        } else if seed < 150 {
            Part::Chest
        } else if seed < 200 {
            Part::Groin
        } else if seed < 250 {
            Part::Legs
        } else {
            Part::Neck
        },
{
}

/// The damage formula, for an attacker of strength `strength` that did not
/// miss its move, against a defender of defense `defense`. If the attacked
/// part is not the protected one, or the defender missed its move, the damage
/// is twice the strength. Otherwise it is twice the strength less the defense,
/// and 0 where the defense is greater.
pub proof fn lemma_damage_formula(
    strength: u16,
    defense: u16,
    attack: Part,
    protect: Part,
    defender_missed: bool,
)
    ensures
        attack != protect || defender_missed ==> damage(
            strength,
            defense,
            attack,
            protect,
            false,
            defender_missed,
        ) == 2 * strength,
        attack == protect && !defender_missed ==> damage(
            strength,
            defense,
            attack,
            protect,
            false,
            defender_missed,
        ) == if 2 * strength - defense > 0 {
            2 * strength - defense
        } else {
            0
        },
        forall|attacker_missed: bool|
            0 <= #[trigger] damage(
                strength,
                defense,
                attack,
                protect,
                attacker_missed,
                defender_missed,
            ) <= 2 * strength,
        damage(strength, defense, attack, protect, true, defender_missed) == 0,
{
}

} // verus!
