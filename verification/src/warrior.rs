//! A warrior: one of the two sides of a duel.

use vstd::prelude::*;

verus! {

/// Name of the account that owns a warrior.
pub type AccountId = String;

pub const BASE_STRENGTH: u16 = 1;

pub const BASE_STAMINA: u16 = 1;

pub const BASE_AGILITY: u16 = 1;

pub const BASE_INTUITION: u16 = 1;

pub const BASE_HEALTH: u16 = 10;

pub const BASE_DEFENSE: u16 = 1;

/// A combatant with its statistics. `id` is 1 or 2 within a duel.
#[derive(Debug, PartialEq, Eq)]
pub struct Warrior {
    pub id: u32,
    pub account_id: Option<AccountId>,
    pub strength: u16,
    pub stamina: u16,
    pub agility: u16,
    pub intuition: u16,
    pub health: u16,
    pub defense: u16,
}

impl Warrior {
    /// A warrior with the base statistics.
    pub open spec fn base(id: u32, account_id: Option<AccountId>) -> Warrior {
        Warrior {
            id,
            account_id,
            strength: BASE_STRENGTH,
            stamina: BASE_STAMINA,
            agility: BASE_AGILITY,
            intuition: BASE_INTUITION,
            health: BASE_HEALTH,
            defense: BASE_DEFENSE,
        }
    }

    /// This warrior with its health set to `health`.
    pub open spec fn with_health(self, health: u16) -> Warrior {
        Warrior { health, ..self }
    }
}

impl Clone for Warrior {
    fn clone(&self) -> (w: Warrior)
        ensures
            w == *self,
    {
        let account_id = match &self.account_id {
            Some(name) => Some(name.clone()),
            None => None,
        };
        Warrior {
            id: self.id,
            account_id,
            strength: self.strength,
            stamina: self.stamina,
            agility: self.agility,
            intuition: self.intuition,
            health: self.health,
            defense: self.defense,
        }
    }
}

} // verus!
