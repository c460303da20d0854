//! Turn-based combat engine for a duel between two warriors.
//!
//! A round takes the submitter's moves as text, two bytes of entropy for the
//! opponent's answer, and the current time. The moves are parsed, the
//! opponent's parts are derived from the bytes, both sides' damage is applied,
//! and the duel either goes on or is decided by a win or a draw. The engine
//! reads no clock, no entropy and no storage of its own: what it needs is
//! handed to it, and what it returns is for the caller to store.
//!
//! - [`text`]: white space, words, fields and numbers in a text.
//! - [`moves`]: actions and body parts, and the parser of a submission.
//! - [`combat`]: the opponent's answer, the time for a move, the damage.
//! - [`warrior`]: a warrior and its statistics.
//! - [`battle`]: the duel, the resolution of a round, the life of a duel.
//! - [`equipment`]: what a warrior wears and the strength that it adds.
//! - [`stats`]: what is counted for each account.

pub mod battle;
pub mod combat;
pub mod equipment;
pub mod moves;
pub mod stats;
pub mod text;
pub mod warrior;

pub use battle::{
    ActionError, Balance, Battle, BattleConfig, BattleState, BattleToSave, EBattleConfig,
};
pub use combat::{Timestamp, MAX_MS_FOR_ACTION};
pub use equipment::{EquipmentConfig, Place, TokenId};
pub use moves::{parse_move, part_validator, ActionType, InputError, MoveData, ParseError, Part};
pub use stats::{EStats, Stats, UpdateStatsAction};
pub use warrior::{
    AccountId, Warrior, BASE_AGILITY, BASE_DEFENSE, BASE_HEALTH, BASE_INTUITION, BASE_STAMINA,
    BASE_STRENGTH,
};
