//! The duel: its state, the resolution of one round, and the life of a duel
//! from its start to its decision.

use vstd::prelude::*;
use vstd::std_specs::convert::FromSpecImpl;
use vstd::string::StringExecFns;
use crate::combat::{
    damage, damage_dealt, is_too_late, response, response_part, too_late, Timestamp,
};
use crate::moves::{parse_move, parsed, InputError, InputErrorView, MoveData, Part};
use crate::text::same_text;
use crate::warrior::{
    AccountId, Warrior, BASE_AGILITY, BASE_DEFENSE, BASE_HEALTH, BASE_INTUITION, BASE_STAMINA,
    BASE_STRENGTH,
};

verus! {

/// An amount of tokens.
pub type Balance = u128;

/// A duel between two warriors. `winner` is `None` while the duel goes on,
/// `Some(0)` after a draw, and the winner's id after a win.
#[derive(Debug, Clone, PartialEq, Eq)]
pub struct Battle {
    pub warrior_1: Warrior,
    pub warrior_2: Warrior,
    pub winner: Option<u32>,
    pub reward: Balance,
    pub last_action_timestamp: Timestamp,
    pub warrior_1_missed_action: bool,
    pub warrior_2_missed_action: bool,
}

/// A duel as it is stored after a round.
#[derive(Debug, Clone, PartialEq, Eq)]
pub struct BattleToSave {
    pub warrior_1: Warrior,
    pub warrior_2: Warrior,
    pub winner: Option<u32>,
    pub reward: Balance,
    pub last_action_timestamp: Timestamp,
    pub warrior_1_missed_action: bool,
    pub warrior_2_missed_action: bool,
}

/// An open challenge: the stake and the opponent asked for.
#[derive(Debug, Clone, PartialEq, Eq)]
pub struct BattleConfig {
    pub deposit: Option<Balance>,
    pub opponent_id: Option<AccountId>,
}

/// A `BattleConfig` under its format's version.
#[derive(Debug, Clone, PartialEq, Eq)]
pub enum EBattleConfig {
    Current(BattleConfig),
}

/// The end of a duel. `winner` is 0 for a draw.
#[derive(Debug, PartialEq, Eq, Structural)]
pub enum BattleState {
    BattleOver { winner: u32 },
}

/// Why a round was not played.
#[derive(PartialEq, Debug)]
pub enum ActionError {
    /// The duel is decided already.
    BattleFinished,
    /// The submission was rejected.
    WrongInput(InputError),
}

/// An `ActionError` over `InputErrorView`.
pub ghost enum ActionErrorView {
    BattleFinished,
    WrongInput(InputErrorView),
}

impl View for ActionError {
    type V = ActionErrorView;

    open spec fn view(&self) -> ActionErrorView {
        match self {
            ActionError::BattleFinished => ActionErrorView::BattleFinished,
            ActionError::WrongInput(e) => ActionErrorView::WrongInput(e@),
        }
    }
}

impl Battle {
    /// Whether the duel still goes on.
    pub open spec fn is_active(self) -> bool {
        self.winner is None
    }

    /// What holds of every duel that was started by `new` and played by
    /// rounds: the warriors are numbered 1 and 2; while the duel goes on both
    /// are alive; after a win the loser's health is 0, and after a draw both
    /// are at 0.
    pub open spec fn well_formed(self) -> bool {
        &&& self.warrior_1.id == 1
        &&& self.warrior_2.id == 2
        &&& match self.winner {
            None => self.warrior_1.health > 0 && self.warrior_2.health > 0,
            Some(w) => {
                &&& w <= 2
                &&& w != 1 ==> self.warrior_1.health == 0
                &&& w != 2 ==> self.warrior_2.health == 0
            },
        }
    }

    /// A duel at its start, at time `now`.
    pub open spec fn started(
        account_id_1: AccountId,
        account_id_2: AccountId,
        reward: Option<Balance>,
        now: Timestamp,
    ) -> Battle {
        Battle {
            warrior_1: Warrior::base(1, Some(account_id_1)),
            warrior_2: Warrior::base(2, Some(account_id_2)),
            winner: None,
            reward: match reward {
                Some(amount) => amount,
                None => 0,
            },
            last_action_timestamp: now,
            warrior_1_missed_action: false,
            warrior_2_missed_action: false,
        }
    }

    /// The duel after one round, played at time `now`. Warrior 1 attacks
    /// `attack` and protects `protect`; warrior 2 attacks `foe_attack` and
    /// protects `foe_protect`.
    ///
    /// Warrior 1 misses its move if it comes too late; whether warrior 2 missed
    /// is carried over from the round before. A warrior is defeated if the
    /// damage it takes is at least its health. If none is defeated, both lose
    /// the damage they take and the duel goes on. If one is defeated, its
    /// health becomes 0, the other keeps its health and wins. If both are
    /// defeated, the duel is a draw and both are at 0: the two sides are
    /// treated alike. The time of the last move becomes `now` in any case.
    pub open spec fn after_round(
        self,
        attack: Part,
        protect: Part,
        foe_attack: Part,
        foe_protect: Part,
        now: Timestamp,
    ) -> Battle {
        let missed_1 = too_late(self.last_action_timestamp, now);
        let missed_2 = self.warrior_2_missed_action;
        let to_1 = damage(
            self.warrior_2.strength,
            self.warrior_1.defense,
            foe_attack,
            protect,
            missed_2,
            missed_1,
        );
        let to_2 = damage(
            self.warrior_1.strength,
            self.warrior_2.defense,
            attack,
            foe_protect,
            missed_1,
            missed_2,
        );
        let down_1 = self.warrior_1.health <= to_1;
        let down_2 = self.warrior_2.health <= to_2;
        Battle {
            warrior_1: if down_1 {
                self.warrior_1.with_health(0)
            } else if down_2 {
                self.warrior_1
            } else {
                self.warrior_1.with_health((self.warrior_1.health - to_1) as u16)
            },
            warrior_2: if down_2 {
                self.warrior_2.with_health(0)
            } else if down_1 {
                self.warrior_2
            } else {
                self.warrior_2.with_health((self.warrior_2.health - to_2) as u16)
            },
            winner: if down_1 && down_2 {
                Some(0)
            } else if down_1 {
                Some(self.warrior_2.id)
            } else if down_2 {
                Some(self.warrior_1.id)
            } else {
                None
            },
            reward: self.reward,
            last_action_timestamp: now,
            warrior_1_missed_action: missed_1,
            warrior_2_missed_action: missed_2,
        }
    }

    /// What a submission at time `now` does to the duel. A decided duel takes
    /// no more moves. On a duel that goes on, the submission has to parse;
    /// then its first move gives the part that warrior 1 attacks, its second
    /// the part that it protects, and the two seeds give warrior 2's parts.
    pub open spec fn played(
        self,
        submission: Seq<char>,
        attack_seed: u8,
        protect_seed: u8,
        now: Timestamp,
    ) -> Result<Battle, ActionErrorView> {
        if !self.is_active() {
            Err(ActionErrorView::BattleFinished)
        } else {
            match parsed(submission) {
                Err(e) => Err(ActionErrorView::WrongInput(e)),
                Ok(moves) => Ok(
                    self.after_round(
                        moves[0].part,
                        moves[1].part,
                        response(attack_seed),
                        response(protect_seed),
                        now,
                    ),
                ),
            }
        }
    }

    /// The two warriors of a new duel, with the base statistics.
    pub fn create_two_warriors(account_id_1: AccountId, account_id_2: AccountId) -> (pair: (
        Warrior,
        Warrior,
    ))
        ensures
            pair.0 == Warrior::base(1, Some(account_id_1)),
            pair.1 == Warrior::base(2, Some(account_id_2)),
    {
        (
            Warrior {
                id: 1,
                account_id: Some(account_id_1),
                strength: BASE_STRENGTH,
                stamina: BASE_STAMINA,
                agility: BASE_AGILITY,
                intuition: BASE_INTUITION,
                health: BASE_HEALTH,
                defense: BASE_DEFENSE,
            },
            Warrior {
                id: 2,
                account_id: Some(account_id_2),
                strength: BASE_STRENGTH,
                stamina: BASE_STAMINA,
                agility: BASE_AGILITY,
                intuition: BASE_INTUITION,
                health: BASE_HEALTH,
                defense: BASE_DEFENSE,
            },
        )
    }

    /// Starts a duel at time `now`.
    pub fn new(
        account_id_1: AccountId,
        account_id_2: AccountId,
        reward: Option<Balance>,
        now: Timestamp,
    ) -> (battle: Battle)
        ensures
            battle == Battle::started(account_id_1, account_id_2, reward, now),
            battle.well_formed(),
            battle.is_active(),
    {
        let (warrior_1, warrior_2) = Battle::create_two_warriors(account_id_1, account_id_2);
        Battle {
            warrior_1,
            warrior_2,
            winner: None,
            reward: reward.unwrap_or(0),
            last_action_timestamp: now,
            warrior_1_missed_action: false,
            warrior_2_missed_action: false,
        }
    }

    /// Resolves one round at time `now`: warrior 1 attacks `attack` and
    /// protects `protect`, warrior 2 attacks `foe_attack` and protects
    /// `foe_protect`. Returns the duel as it is to be stored.
    pub fn resolve_round(
        &mut self,
        attack: Part,
        protect: Part,
        foe_attack: Part,
        foe_protect: Part,
        now: Timestamp,
    ) -> (record: BattleToSave)
        requires
            old(self).is_active(),
        ensures
            *final(self) == old(self).after_round(attack, protect, foe_attack, foe_protect, now),
            record == BattleToSave::record_of(*final(self)),
            final(self).warrior_1.health <= old(self).warrior_1.health,
            final(self).warrior_2.health <= old(self).warrior_2.health,
            old(self).well_formed() ==> final(self).well_formed(),
    {
        self.warrior_1_missed_action = is_too_late(self.last_action_timestamp, now);
        self.last_action_timestamp = now;

        let damage_to_2 = damage_dealt(
            self.warrior_1.strength,
            self.warrior_2.defense,
            attack,
            foe_protect,
            self.warrior_1_missed_action,
            self.warrior_2_missed_action,
        );
        let damage_to_1 = damage_dealt(
            self.warrior_2.strength,
            self.warrior_1.defense,
            foe_attack,
            protect,
            self.warrior_2_missed_action,
            self.warrior_1_missed_action,
        );

        let health_1: u32 = self.warrior_1.health as u32;
        let health_2: u32 = self.warrior_2.health as u32;
        let is_warrior_1_dead = health_1 <= damage_to_1;
        let is_warrior_2_dead = health_2 <= damage_to_2;
        if is_warrior_1_dead && is_warrior_2_dead {
            self.warrior_1.health = 0;
            self.warrior_2.health = 0;
            self.winner = Some(0);
        } else if is_warrior_1_dead {
            self.warrior_1.health = 0;
            self.winner = Some(self.warrior_2.id);
        } else if is_warrior_2_dead {
            self.warrior_2.health = 0;
            self.winner = Some(self.warrior_1.id);
        } else {
            self.warrior_1.health = (health_1 - damage_to_1) as u16;
            self.warrior_2.health = (health_2 - damage_to_2) as u16;
            self.winner = None;
        }
        BattleToSave {
            warrior_1: self.warrior_1.clone(),
            warrior_2: self.warrior_2.clone(),
            winner: self.winner,
            reward: 0,
            last_action_timestamp: self.last_action_timestamp,
            warrior_1_missed_action: self.warrior_1_missed_action,
            warrior_2_missed_action: self.warrior_2_missed_action,
        }
    }

    /// Plays one round at time `now`. The first of `actions` gives the part
    /// that warrior 1 attacks, the second the part that it protects; further
    /// ones are ignored. The two seeds are bytes of entropy, from which the
    /// parts that warrior 2 attacks and protects are derived. Returns the duel
    /// as it is to be stored.
    pub fn apply_actions(
        &mut self,
        actions: Vec<MoveData>,
        attack_seed: u8,
        protect_seed: u8,
        now: Timestamp,
    ) -> (record: BattleToSave)
        requires
            old(self).is_active(),
            actions.len() >= 2,
        ensures
            *final(self) == old(self).after_round(
                actions[0].part,
                actions[1].part,
                response(attack_seed),
                response(protect_seed),
                now,
            ),
            record == BattleToSave::record_of(*final(self)),
            final(self).warrior_1.health <= old(self).warrior_1.health,
            final(self).warrior_2.health <= old(self).warrior_2.health,
            old(self).well_formed() ==> final(self).well_formed(),
    {
        let warrior_1_attack = actions[0].part;
        let warrior_1_protect = actions[1].part;
        let warrior_2_attack = response_part(attack_seed);
        let warrior_2_protect = response_part(protect_seed);
        self.resolve_round(
            warrior_1_attack,
            warrior_1_protect,
            warrior_2_attack,
            warrior_2_protect,
            now,
        )
    }

    /// Takes a submission for this duel at time `now` and plays the round. A
    /// decided duel takes no more moves, and a submission that does not parse
    /// plays no round: either way the duel is left as it was.
    pub fn make_action(
        &mut self,
        params: &str,
        attack_seed: u8,
        protect_seed: u8,
        now: Timestamp,
    ) -> (r: Result<BattleToSave, ActionError>)
        ensures
            match r {
                Ok(record) => {
                    &&& old(self).played(params@, attack_seed, protect_seed, now) == Ok::<
                        Battle,
                        ActionErrorView,
                    >(*final(self))
                    &&& record == BattleToSave::record_of(*final(self))
                },
                Err(e) => {
                    &&& old(self).played(params@, attack_seed, protect_seed, now) == Err::<
                        Battle,
                        ActionErrorView,
                    >(e@)
                    &&& *final(self) == *old(self)
                },
            },
            final(self).warrior_1.health <= old(self).warrior_1.health,
            final(self).warrior_2.health <= old(self).warrior_2.health,
            old(self).well_formed() ==> final(self).well_formed(),
    {
        if self.winner.is_some() {
            return Err(ActionError::BattleFinished);
        }
        match parse_move(params) {
            Ok(actions) => Ok(self.apply_actions(actions, attack_seed, protect_seed, now)),
            Err(e) => Err(ActionError::WrongInput(e)),
        }
    }
}

impl BattleToSave {
    /// The stored form of `battle`: the same duel, with no reward.
    pub open spec fn record_of(battle: Battle) -> BattleToSave {
        BattleToSave {
            warrior_1: battle.warrior_1,
            warrior_2: battle.warrior_2,
            winner: battle.winner,
            reward: 0,
            last_action_timestamp: battle.last_action_timestamp,
            warrior_1_missed_action: battle.warrior_1_missed_action,
            warrior_2_missed_action: battle.warrior_2_missed_action,
        }
    }

    /// The two warriors of a new duel against the house, with the base
    /// statistics. The second warrior's name is marked as a bot's.
    pub fn create_two_warriors(account_id_1: AccountId, account_id_2: AccountId) -> (pair: (
        Warrior,
        Warrior,
    ))
        ensures
            pair.0 == Warrior::base(1, Some(account_id_1)),
            pair.1.account_id matches Some(name) && name@ == account_id_2@ + " (bot)"@,
            pair.1 == Warrior::base(2, pair.1.account_id),
    {
        (
            Warrior {
                id: 1,
                account_id: Some(account_id_1),
                strength: BASE_STRENGTH,
                stamina: BASE_STAMINA,
                agility: BASE_AGILITY,
                intuition: BASE_INTUITION,
                health: BASE_HEALTH,
                defense: BASE_DEFENSE,
            },
            Warrior {
                id: 2,
                account_id: Some(account_id_2.concat(" (bot)")),
                strength: BASE_STRENGTH,
                stamina: BASE_STAMINA,
                agility: BASE_AGILITY,
                intuition: BASE_INTUITION,
                health: BASE_HEALTH,
                defense: BASE_DEFENSE,
            },
        )
    }

    /// The stored form of a duel against the house that starts at time `now`.
    pub fn new(
        account_id_1: AccountId,
        account_id_2: AccountId,
        reward: Option<Balance>,
        now: Timestamp,
    ) -> (record: BattleToSave)
        ensures
            record.warrior_1 == Warrior::base(1, Some(account_id_1)),
            record.warrior_2.account_id matches Some(name) && name@ == account_id_2@ + " (bot)"@,
            record.warrior_2 == Warrior::base(2, record.warrior_2.account_id),
            record.winner is None,
            record.reward == match reward {
                Some(amount) => amount,
                None => 0,
            },
            record.last_action_timestamp == now,
            !record.warrior_1_missed_action,
            !record.warrior_2_missed_action,
            record.battle_of().well_formed(),
    {
        let (warrior_1, warrior_2) = BattleToSave::create_two_warriors(account_id_1, account_id_2);
        BattleToSave {
            warrior_1,
            warrior_2,
            winner: None,
            reward: reward.unwrap_or(0),
            last_action_timestamp: now,
            warrior_1_missed_action: false,
            warrior_2_missed_action: false,
        }
    }

    /// The duel that a stored form stands for.
    pub open spec fn battle_of(self) -> Battle {
        Battle {
            warrior_1: self.warrior_1,
            warrior_2: self.warrior_2,
            winner: self.winner,
            reward: self.reward,
            last_action_timestamp: self.last_action_timestamp,
            warrior_1_missed_action: self.warrior_1_missed_action,
            warrior_2_missed_action: self.warrior_2_missed_action,
        }
    }
}

impl From<Battle> for BattleToSave {
    fn from(battle: Battle) -> (record: BattleToSave) {
        BattleToSave {
            warrior_1: battle.warrior_1,
            warrior_2: battle.warrior_2,
            winner: battle.winner,
            reward: 0,
            last_action_timestamp: battle.last_action_timestamp,
            warrior_1_missed_action: battle.warrior_1_missed_action,
            warrior_2_missed_action: battle.warrior_2_missed_action,
        }
    }
}

impl FromSpecImpl<Battle> for BattleToSave {
    open spec fn obeys_from_spec() -> bool {
        true
    }

    open spec fn from_spec(battle: Battle) -> BattleToSave {
        BattleToSave::record_of(battle)
    }
}

impl From<BattleToSave> for Battle {
    fn from(battle_to_save: BattleToSave) -> (battle: Battle) {
        Battle {
            warrior_1: battle_to_save.warrior_1,
            warrior_2: battle_to_save.warrior_2,
            winner: battle_to_save.winner,
            reward: battle_to_save.reward,
            last_action_timestamp: battle_to_save.last_action_timestamp,
            warrior_1_missed_action: battle_to_save.warrior_1_missed_action,
            warrior_2_missed_action: battle_to_save.warrior_2_missed_action,
        }
    }
}

impl FromSpecImpl<BattleToSave> for Battle {
    open spec fn obeys_from_spec() -> bool {
        true
    }

    open spec fn from_spec(battle_to_save: BattleToSave) -> Battle {
        battle_to_save.battle_of()
    }
}

impl From<EBattleConfig> for BattleConfig {
    fn from(e_battle_config: EBattleConfig) -> (battle_config: BattleConfig) {
        match e_battle_config {
            EBattleConfig::Current(battle_config) => battle_config,
        }
    }
}

impl FromSpecImpl<EBattleConfig> for BattleConfig {
    open spec fn obeys_from_spec() -> bool {
        true
    }

    open spec fn from_spec(e_battle_config: EBattleConfig) -> BattleConfig {
        e_battle_config->Current_0
    }
}

/// Whether the account named `account_id` fights in one of `battles`, each
/// given by the accounts of its two sides.
pub open spec fn fights_in(battles: Seq<(AccountId, AccountId)>, account_id: Seq<char>) -> bool {
    exists|i: int|
        0 <= i < battles.len() && ((#[trigger] battles[i]).0@ == account_id || battles[i].1@
            == account_id)
}

/// Tells whether the account `account_id` fights in one of `battles`.
pub fn is_battle_started(battles: &Vec<(AccountId, AccountId)>, account_id: &AccountId) -> (r: bool)
    ensures
        r == fights_in(battles@, account_id@),
{
    for i in 0..battles.len()
        invariant
            forall|k: int|
                0 <= k < i ==> (#[trigger] battles@[k]).0@ != account_id@ && battles@[k].1@
                    != account_id@,
    {
        if same_text(battles[i].0.as_str(), account_id.as_str()) || same_text(
            battles[i].1.as_str(),
            account_id.as_str(),
        ) {
            return true;
        }
    }
    false
}

/// A round never raises a warrior's health, it sets the time of the last
/// move, and it leaves the reward, the warriors' other statistics and warrior
/// 2's missed flag as they were.
pub proof fn lemma_round_only_lowers_health(
    battle: Battle,
    attack: Part,
    protect: Part,
    foe_attack: Part,
    foe_protect: Part,
    now: Timestamp,
)
    ensures
        ({
            let next = battle.after_round(attack, protect, foe_attack, foe_protect, now);
            &&& next.warrior_1 == battle.warrior_1.with_health(next.warrior_1.health)
            &&& next.warrior_2 == battle.warrior_2.with_health(next.warrior_2.health)
            &&& next.warrior_1.health <= battle.warrior_1.health
            &&& next.warrior_2.health <= battle.warrior_2.health
            &&& next.reward == battle.reward
            &&& next.last_action_timestamp == now
            &&& next.warrior_2_missed_action == battle.warrior_2_missed_action
            &&& next.warrior_1_missed_action == too_late(battle.last_action_timestamp, now)
        }),
{
}

/// A round keeps a duel well formed: after it the duel goes on with both
/// warriors alive, or it is decided with the loser, or after a draw both
/// warriors, at health 0.
pub proof fn lemma_round_keeps_well_formed(
    battle: Battle,
    attack: Part,
    protect: Part,
    foe_attack: Part,
    foe_protect: Part,
    now: Timestamp,
)
    requires
        battle.well_formed(),
    ensures
        battle.after_round(attack, protect, foe_attack, foe_protect, now).well_formed(),
{
}

/// A decided duel is final: whatever is submitted, at whatever time, it is
/// turned down as finished.
pub proof fn lemma_decided_is_final(
    battle: Battle,
    submission: Seq<char>,
    attack_seed: u8,
    protect_seed: u8,
    now: Timestamp,
)
    requires
        !battle.is_active(),
    ensures
        battle.played(submission, attack_seed, protect_seed, now) == Err::<Battle, ActionErrorView>(
            ActionErrorView::BattleFinished,
        ),
{
}

/// A round is played exactly when the duel goes on and the submission parses;
/// a duel is decided by a round only, and only by the defeat of a warrior.
pub proof fn lemma_played_round(
    battle: Battle,
    submission: Seq<char>,
    attack_seed: u8,
    protect_seed: u8,
    now: Timestamp,
)
    ensures
        battle.played(submission, attack_seed, protect_seed, now) is Ok <==> battle.is_active()
            && parsed(submission) is Ok,
        battle.played(submission, attack_seed, protect_seed, now) matches Ok(next) ==> (
        !next.is_active() <==> next.warrior_1.health == 0 || next.warrior_2.health == 0),
{
}

} // verus!
