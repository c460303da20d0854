//! Equipment: the places where a warrior wears it, the tokens that it wears,
//! and the strength that a worn token adds.

use vstd::prelude::*;
use crate::text::{
    after_first, before_first, contains_text, fields, has_text, holds, lemma_first_pos, number,
    parse_u16, same_text, split_at_first, split_fields, texts,
};

verus! {

/// Name of a token.
pub type TokenId = String;

/// A place where a warrior wears a piece of equipment.
#[derive(PartialEq, Eq, Structural, Debug, Copy, Clone)]
pub enum Place {
    Helmet,
    Armor,
    Gloves,
    Bracers,
    ShoulderPads,
    Leggings,
    Boots,
    Amulet,
    Weapon1,
    Weapon2,
}

/// The tokens that a warrior wears, place by place.
#[derive(Debug, Clone, PartialEq, Eq)]
pub struct EquipmentConfig {
    pub helmet: Option<TokenId>,
    pub armor: Option<TokenId>,
    pub gloves: Option<TokenId>,
    pub bracers: Option<TokenId>,
    pub shoulder_pads: Option<TokenId>,
    pub leggings: Option<TokenId>,
    pub boots: Option<TokenId>,
    pub amulet: Option<TokenId>,
    pub weapon_1: Option<TokenId>,
    pub weapon_2: Option<TokenId>,
}

impl Place {
    /// The place's name.
    pub open spec fn name(self) -> Seq<char> {
        match self {
            Place::Helmet => "Helmet"@,
            Place::Armor => "Armor"@,
            Place::Gloves => "Gloves"@,
            Place::Bracers => "Bracers"@,
            Place::ShoulderPads => "ShoulderPads"@,
            Place::Leggings => "Leggings"@,
            Place::Boots => "Boots"@,
            Place::Amulet => "Amulet"@,
            Place::Weapon1 => "Weapon1"@,
            Place::Weapon2 => "Weapon2"@,
        }
    }

    /// The place that `text` names, if it is exactly a place's name.
    pub open spec fn named(text: Seq<char>) -> Option<Place> {
        if text == Place::Helmet.name() {
            Some(Place::Helmet)
        } else if text == Place::Armor.name() {
            Some(Place::Armor)
        } else if text == Place::Gloves.name() {
            Some(Place::Gloves)
        } else if text == Place::Bracers.name() {
            Some(Place::Bracers)
        } else if text == Place::ShoulderPads.name() {
            Some(Place::ShoulderPads)
        } else if text == Place::Leggings.name() {
            Some(Place::Leggings)
        } else if text == Place::Boots.name() {
            Some(Place::Boots)
        } else if text == Place::Amulet.name() {
            Some(Place::Amulet)
        } else if text == Place::Weapon1.name() {
            Some(Place::Weapon1)
        } else if text == Place::Weapon2.name() {
            Some(Place::Weapon2)
        } else {
            None
        }
    }

    /// The name under which an `EquipmentConfig` holds the place.
    pub open spec fn key(self) -> Seq<char> {
        match self {
            Place::Helmet => "helmet"@,
            Place::Armor => "armor"@,
            Place::Gloves => "gloves"@,
            Place::Bracers => "bracers"@,
            Place::ShoulderPads => "shoulder_pads"@,
            Place::Leggings => "leggings"@,
            Place::Boots => "boots"@,
            Place::Amulet => "amulet"@,
            Place::Weapon1 => "weapon_1"@,
            Place::Weapon2 => "weapon_2"@,
        }
    }

    /// The place that is held under the name `text`, if there is one.
    pub open spec fn keyed(text: Seq<char>) -> Option<Place> {
        if text == Place::Helmet.key() {
            Some(Place::Helmet)
        } else if text == Place::Armor.key() {
            Some(Place::Armor)
        } else if text == Place::Gloves.key() {
            Some(Place::Gloves)
        } else if text == Place::Bracers.key() {
            Some(Place::Bracers)
        } else if text == Place::ShoulderPads.key() {
            Some(Place::ShoulderPads)
        } else if text == Place::Leggings.key() {
            Some(Place::Leggings)
        } else if text == Place::Boots.key() {
            Some(Place::Boots)
        } else if text == Place::Amulet.key() {
            Some(Place::Amulet)
        } else if text == Place::Weapon1.key() {
            Some(Place::Weapon1)
        } else if text == Place::Weapon2.key() {
            Some(Place::Weapon2)
        } else {
            None
        }
    }

    /// Reads a place's name. The match is exact and case-sensitive.
    pub fn from_str(input: &str) -> (r: Result<Place, ()>)
        ensures
            r == match Place::named(input@) {
                Some(place) => Ok::<Place, ()>(place),
                None => Err(()),
            },
    {
        if same_text(input, "Helmet") {
            Ok(Place::Helmet)
        } else if same_text(input, "Armor") {
            Ok(Place::Armor)
        } else if same_text(input, "Gloves") {
            Ok(Place::Gloves)
        } else if same_text(input, "Bracers") {
            Ok(Place::Bracers)
        } else if same_text(input, "ShoulderPads") {
            Ok(Place::ShoulderPads)
        } else if same_text(input, "Leggings") {
            Ok(Place::Leggings)
        } else if same_text(input, "Boots") {
            Ok(Place::Boots)
        } else if same_text(input, "Amulet") {
            Ok(Place::Amulet)
        } else if same_text(input, "Weapon1") {
            Ok(Place::Weapon1)
        } else if same_text(input, "Weapon2") {
            Ok(Place::Weapon2)
        } else {
            Err(())
        }
    }

    /// Reads the name under which an `EquipmentConfig` holds a place.
    pub fn from_key(input: &str) -> (r: Option<Place>)
        ensures
            r == Place::keyed(input@),
    {
        if same_text(input, "helmet") {
            Some(Place::Helmet)
        } else if same_text(input, "armor") {
            Some(Place::Armor)
        } else if same_text(input, "gloves") {
            Some(Place::Gloves)
        } else if same_text(input, "bracers") {
            Some(Place::Bracers)
        } else if same_text(input, "shoulder_pads") {
            Some(Place::ShoulderPads)
        } else if same_text(input, "leggings") {
            Some(Place::Leggings)
        } else if same_text(input, "boots") {
            Some(Place::Boots)
        } else if same_text(input, "amulet") {
            Some(Place::Amulet)
        } else if same_text(input, "weapon_1") {
            Some(Place::Weapon1)
        } else if same_text(input, "weapon_2") {
            Some(Place::Weapon2)
        } else {
            None
        }
    }
}

/// Every place is the one that its own name names, and the one that is held
/// under its own key: no two places share a name or a key.
pub proof fn lemma_places_are_distinct(place: Place)
    ensures
        Place::named(place.name()) == Some(place),
        Place::keyed(place.key()) == Some(place),
{
    reveal_strlit("Helmet");
    reveal_strlit("Armor");
    reveal_strlit("Gloves");
    reveal_strlit("Bracers");
    reveal_strlit("ShoulderPads");
    reveal_strlit("Leggings");
    reveal_strlit("Boots");
    reveal_strlit("Amulet");
    reveal_strlit("Weapon1");
    reveal_strlit("Weapon2");
    assert("Helmet"@[0] == 'H' && "Armor"@[0] == 'A' && "Gloves"@[0] == 'G');
    assert("Bracers"@[0] == 'B' && "ShoulderPads"@[0] == 'S' && "Leggings"@[0] == 'L');
    assert("Boots"@[0] == 'B' && "Amulet"@[0] == 'A');
    assert("Weapon1"@[0] == 'W' && "Weapon2"@[0] == 'W');
    assert("Armor"@.len() == 5 && "Amulet"@.len() == 6);
    assert("Bracers"@.len() == 7 && "Boots"@.len() == 5);
    assert("Weapon1"@[6] == '1' && "Weapon2"@[6] == '2');
    reveal_strlit("helmet");
    reveal_strlit("armor");
    reveal_strlit("gloves");
    reveal_strlit("bracers");
    reveal_strlit("shoulder_pads");
    reveal_strlit("leggings");
    reveal_strlit("boots");
    reveal_strlit("amulet");
    reveal_strlit("weapon_1");
    reveal_strlit("weapon_2");
    assert("helmet"@[0] == 'h' && "armor"@[0] == 'a' && "gloves"@[0] == 'g');
    assert("bracers"@[0] == 'b' && "shoulder_pads"@[0] == 's' && "leggings"@[0] == 'l');
    assert("boots"@[0] == 'b' && "amulet"@[0] == 'a');
    assert("weapon_1"@[0] == 'w' && "weapon_2"@[0] == 'w');
    assert("armor"@.len() == 5 && "amulet"@.len() == 6);
    assert("bracers"@.len() == 7 && "boots"@.len() == 5);
    assert("weapon_1"@[7] == '1' && "weapon_2"@[7] == '2');
}

/// Whether `slot` holds the token named `token_id`.
pub open spec fn holds_token(slot: Option<TokenId>, token_id: Seq<char>) -> bool {
    slot matches Some(worn) && worn@ == token_id
}

/// Tells whether `slot` holds the token named `token_id`.
fn slot_holds(slot: &Option<TokenId>, token_id: &str) -> (r: bool)
    ensures
        r == holds_token(*slot, token_id@),
{
    match slot {
        Some(worn) => same_text(worn.as_str(), token_id),
        None => false,
    }
}

impl EquipmentConfig {
    /// What is worn at `place`.
    pub open spec fn at(self, place: Place) -> Option<TokenId> {
        match place {
            Place::Helmet => self.helmet,
            Place::Armor => self.armor,
            Place::Gloves => self.gloves,
            Place::Bracers => self.bracers,
            Place::ShoulderPads => self.shoulder_pads,
            Place::Leggings => self.leggings,
            Place::Boots => self.boots,
            Place::Amulet => self.amulet,
            Place::Weapon1 => self.weapon_1,
            Place::Weapon2 => self.weapon_2,
        }
    }

    /// Whether the token named `token_id` is worn at the place that is held
    /// under the name `place`. Under a name that is no place's nothing is worn.
    pub open spec fn wears(self, place: Seq<char>, token_id: Seq<char>) -> bool {
        Place::keyed(place) matches Some(p) && holds_token(self.at(p), token_id)
    }

    /// The equipment of a warrior that wears nothing.
    pub fn empty() -> (equipment: EquipmentConfig)
        ensures
            forall|place: Place| equipment.at(place) is None,
    {
        EquipmentConfig {
            helmet: None,
            armor: None,
            gloves: None,
            bracers: None,
            shoulder_pads: None,
            leggings: None,
            boots: None,
            amulet: None,
            weapon_1: None,
            weapon_2: None,
        }
    }

    /// Tells whether the token `token_id` is worn at `place`, which is given
    /// by the name under which the equipment holds it.
    pub fn is_token_equipped(&self, place: &str, token_id: &TokenId) -> (r: bool)
        ensures
            r == self.wears(place@, token_id@),
    {
        let id = token_id.as_str();
        match Place::from_key(place) {
            None => false,
            Some(Place::Helmet) => slot_holds(&self.helmet, id),
            Some(Place::Armor) => slot_holds(&self.armor, id),
            Some(Place::Gloves) => slot_holds(&self.gloves, id),
            Some(Place::Bracers) => slot_holds(&self.bracers, id),
            Some(Place::ShoulderPads) => slot_holds(&self.shoulder_pads, id),
            Some(Place::Leggings) => slot_holds(&self.leggings, id),
            Some(Place::Boots) => slot_holds(&self.boots, id),
            Some(Place::Amulet) => slot_holds(&self.amulet, id),
            Some(Place::Weapon1) => slot_holds(&self.weapon_1, id),
            Some(Place::Weapon2) => slot_holds(&self.weapon_2, id),
        }
    }
}

/// The series of a token: what stands before the first colon of its name.
pub fn token_series_id(token_id: &str) -> (series: &str)
    ensures
        series@ == before_first(token_id@, ':'),
{
    split_at_first(token_id, ':').0
}

/// Where a page of a list of `len` items ends that begins at `from_index` and
/// holds at most `limit` items: at `from_index + limit`, and at `len` if that
/// is less.
pub fn page_end(from_index: u64, limit: u64, len: u64) -> (end: u64)
    ensures
        end == if from_index + limit < len {
            from_index + limit
        } else {
            len as int
        },
{
    if limit < len && from_index < len - limit {
        from_index + limit
    } else {
        len
    }
}

/// The second of the fields that colons separate in `entry`, if it has two.
pub open spec fn second_field(entry: Seq<char>) -> Option<Seq<char>> {
    if holds(entry, ':') {
        Some(before_first(after_first(entry, ':'), ':'))
    } else {
        None
    }
}

/// Reads the second of the fields that colons separate in `entry`.
pub fn entry_value(entry: &str) -> (value: Option<&str>)
    ensures
        match value {
            Some(text) => second_field(entry@) == Some(text@),
            None => second_field(entry@) is None,
        },
{
    let (left, right) = split_at_first(entry, ':');
    proof {
        lemma_first_pos(entry@, ':');
    }
    if left.unicode_len() < entry.unicode_len() {
        Some(split_at_first(right, ':').0)
    } else {
        None
    }
}

/// The damage that one entry of a description adds. An entry without the word
/// `damage` adds none. One with it gives the damage as its second field, a
/// number of 16 bits; where that is missing or no such number, the entry is
/// malformed.
pub open spec fn entry_damage(entry: Seq<char>) -> Option<u16> {
    if !has_text(entry, "damage"@) {
        Some(0u16)
    } else {
        match second_field(entry) {
            None => None,
            Some(value) => number(value),
        }
    }
}

/// The damage that the entries add together, if none of them is malformed.
pub open spec fn entries_damage(entries: Seq<Seq<char>>) -> Option<nat>
    decreases entries.len(),
{
    if entries.len() == 0 {
        Some(0nat)
    } else {
        match (entries_damage(entries.drop_last()), entry_damage(entries.last())) {
            (Some(sum), Some(damage)) => Some(sum + damage as nat),
            _ => None,
        }
    }
}

/// The strength of a warrior of strength `strength` once the token `token_id`
/// is taken into account. `extra` describes the token's series: entries
/// separated by commas, each made of fields separated by colons. The second
/// field of the first entry names the place where the token belongs. If the
/// warrior wears the token there, the damage of all the entries is added to
/// its strength; otherwise its strength stays. There is no result where the
/// first entry names no place; nor, for a worn token, where an entry is
/// malformed or the strength would go beyond 16 bits.
pub open spec fn strength_with(
    strength: u16,
    equipment: EquipmentConfig,
    token_id: Seq<char>,
    extra: Seq<char>,
) -> Option<u16> {
    match second_field(fields(extra, ',')[0]) {
        None => None,
        Some(place) => if !equipment.wears(place, token_id) {
            Some(strength)
        } else {
            match entries_damage(fields(extra, ',')) {
                None => None,
                Some(damage) => if strength + damage <= u16::MAX {
                    Some((strength + damage) as u16)
                } else {
                    None
                },
            }
        },
    }
}

/// Computes the strength of a warrior once the token `token_id`, whose series
/// `extra` describes, is taken into account.
pub fn equipped_strength(
    strength: u16,
    equipment: &EquipmentConfig,
    token_id: &TokenId,
    extra: &str,
) -> (r: Option<u16>)
    ensures
        r == strength_with(strength, *equipment, token_id@, extra@),
{
    let params = split_fields(extra, ',');
    let ghost entries = fields(extra@, ',');
    assert(entries[0] == params[0]@);
    let place = match entry_value(params[0]) {
        None => {
            return None;
        },
        Some(place) => place,
    };
    if !equipment.is_token_equipped(place, token_id) {
        return Some(strength);
    }
    let mut total: u32 = strength as u32;
    let ghost mut sum: nat = 0;
    assert(entries.take(0) == Seq::<Seq<char>>::empty());
    for i in 0..params.len()
        invariant
            entries == texts(params@),
            entries == fields(extra@, ','),
            second_field(entries[0]) == Some(place@),
            equipment.wears(place@, token_id@),
            entries_damage(entries.take(i as int)) == Some(sum),
            total == strength + sum,
            total <= u16::MAX,
    {
        let ghost seen = entries.take(i + 1);
        let ghost entry = entries[i as int];
        proof {
            assert(seen.drop_last() == entries.take(i as int));
            assert(seen.last() == entry);
            assert(entry == params[i as int]@);
        }
        if contains_text(params[i], "damage") {
            let damage = match entry_value(params[i]) {
                None => None,
                Some(value) => parse_u16(value),
            };
            assert(damage == entry_damage(entry));
            match damage {
                None => {
                    proof {
                        lemma_malformed_entry(entries, i as int);
                    }
                    return None;
                },
                Some(d) => {
                    if total + d as u32 > 65535 {
                        proof {
                            lemma_damage_grows(entries, i + 1);
                        }
                        return None;
                    }
                    total = total + d as u32;
                    proof {
                        sum = sum + d as nat;
                    }
                },
            }
        } else {
            assert(entry_damage(entry) == Some(0u16));
        }
    }
    assert(entries.take(params.len() as int) == entries);
    Some(total as u16)
}

/// One malformed entry makes the whole description malformed.
proof fn lemma_malformed_entry(entries: Seq<Seq<char>>, i: int)
    requires
        0 <= i < entries.len(),
        entry_damage(entries[i]) is None,
    ensures
        entries_damage(entries) is None,
    decreases entries.len(),
{
    if i < entries.len() - 1 {
        lemma_malformed_entry(entries.drop_last(), i);
    }
}

/// The damage of the first `k` entries is no more than the damage of all.
proof fn lemma_damage_grows(entries: Seq<Seq<char>>, k: int)
    requires
        0 <= k <= entries.len(),
    ensures
        entries_damage(entries) matches Some(all) ==> entries_damage(entries.take(k)) matches Some(
            part,
        ) && part <= all,
    decreases entries.len() - k,
{
    if k < entries.len() {
        lemma_damage_grows(entries, k + 1);
        assert(entries.take(k + 1).drop_last() == entries.take(k));
    } else {
        assert(entries.take(k) == entries);
    }
}

} // verus!
