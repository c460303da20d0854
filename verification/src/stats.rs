//! The statistics that are kept for each account, and how an event changes
//! them.

use vstd::prelude::*;
use vstd::std_specs::convert::FromSpecImpl;
use crate::battle::Balance;
use crate::text::same_text;
use crate::warrior::AccountId;

verus! {

/// An event that changes an account's statistics.
#[derive(PartialEq, Eq, Structural, Debug, Copy, Clone)]
pub enum UpdateStatsAction {
    AddBattle,
    AddReferral,
    AddAffiliate,
    AddWonBattle,
    AddLostBattle,
    AddTotalReward,
    AddAffiliateReward,
}

/// The statistics of one account. No account is twice among the affiliates.
#[derive(Debug, Clone, PartialEq, Eq)]
pub struct Stats {
    pub referrer_id: Option<AccountId>,
    pub affiliates: Vec<AccountId>,
    pub battles_num: u64,
    pub wins_num: u64,
    pub lost_num: u64,
    pub total_reward: Balance,
    pub total_affiliate_reward: Balance,
}

/// A `Stats` under its format's version.
#[derive(Debug, Clone, PartialEq, Eq)]
pub enum EStats {
    Current(Stats),
}

/// A `Stats` with each account as the sequence of its name's characters.
pub ghost struct StatsView {
    pub referrer_id: Option<Seq<char>>,
    pub affiliates: Seq<Seq<char>>,
    pub battles_num: u64,
    pub wins_num: u64,
    pub lost_num: u64,
    pub total_reward: Balance,
    pub total_affiliate_reward: Balance,
}

/// The name of an account that may be missing.
pub open spec fn name_of(account: Option<AccountId>) -> Option<Seq<char>> {
    match account {
        Some(name) => Some(name@),
        None => None,
    }
}

/// The name of each of `accounts`.
pub open spec fn names_of(accounts: Seq<AccountId>) -> Seq<Seq<char>> {
    accounts.map_values(|account: AccountId| account@)
}

impl View for Stats {
    type V = StatsView;

    open spec fn view(&self) -> StatsView {
        StatsView {
            referrer_id: name_of(self.referrer_id),
            affiliates: names_of(self.affiliates@),
            battles_num: self.battles_num,
            wins_num: self.wins_num,
            lost_num: self.lost_num,
            total_reward: self.total_reward,
            total_affiliate_reward: self.total_affiliate_reward,
        }
    }
}

impl StatsView {
    /// Whether no account is twice among the affiliates.
    pub open spec fn well_formed(self) -> bool {
        self.affiliates.no_duplicates()
    }

    /// Whether the event can be counted: no counter or total would go beyond
    /// its type's range.
    pub open spec fn can_update(self, action: UpdateStatsAction, balance: Option<Balance>) -> bool {
        match action {
            UpdateStatsAction::AddBattle => self.battles_num < u64::MAX,
            UpdateStatsAction::AddWonBattle => self.wins_num < u64::MAX,
            UpdateStatsAction::AddTotalReward => balance matches Some(amount) ==> self.total_reward
                + amount <= u128::MAX,
            UpdateStatsAction::AddAffiliateReward => balance matches Some(amount)
                ==> self.total_affiliate_reward + amount <= u128::MAX,
            _ => true,
        }
    }

    /// The statistics after an event. A battle or a won battle is counted. A
    /// referral sets the referrer, if one is given. An affiliate that is given
    /// and not yet known is added after the known ones. A reward that is given
    /// is added to its total. A lost battle changes nothing.
    pub open spec fn updated(
        self,
        action: UpdateStatsAction,
        additional_account_id: Option<Seq<char>>,
        balance: Option<Balance>,
    ) -> StatsView {
        match action {
            UpdateStatsAction::AddBattle => StatsView {
                battles_num: (self.battles_num + 1) as u64,
                ..self
            },
            UpdateStatsAction::AddReferral => match additional_account_id {
                Some(referrer) => StatsView { referrer_id: Some(referrer), ..self },
                None => self,
            },
            UpdateStatsAction::AddAffiliate => match additional_account_id {
                Some(affiliate) => if self.affiliates.contains(affiliate) {
                    self
                } else {
                    StatsView { affiliates: self.affiliates.push(affiliate), ..self }
                },
                None => self,
            },
            UpdateStatsAction::AddWonBattle => StatsView {
                wins_num: (self.wins_num + 1) as u64,
                ..self
            },
            UpdateStatsAction::AddLostBattle => self,
            UpdateStatsAction::AddTotalReward => match balance {
                Some(amount) => StatsView {
                    total_reward: (self.total_reward + amount) as u128,
                    ..self
                },
                None => self,
            },
            UpdateStatsAction::AddAffiliateReward => match balance {
                Some(amount) => StatsView {
                    total_affiliate_reward: (self.total_affiliate_reward + amount) as u128,
                    ..self
                },
                None => self,
            },
        }
    }
}

/// Tells whether the account named `name` is among `accounts`.
pub fn contains_account(accounts: &Vec<AccountId>, name: &str) -> (r: bool)
    ensures
        r == names_of(accounts@).contains(name@),
{
    for i in 0..accounts.len()
        invariant
            forall|k: int| 0 <= k < i ==> #[trigger] names_of(accounts@)[k] != name@,
    {
        if same_text(accounts[i].as_str(), name) {
            assert(names_of(accounts@)[i as int] == name@);
            return true;
        }
    }
    false
}

impl Stats {
    /// The statistics of an account that is new.
    pub fn new() -> (stats: Stats)
        ensures
            stats@ == (StatsView {
                referrer_id: None,
                affiliates: Seq::empty(),
                battles_num: 0,
                wins_num: 0,
                lost_num: 0,
                total_reward: 0,
                total_affiliate_reward: 0,
            }),
            stats@.well_formed(),
    {
        let stats = Stats {
            referrer_id: None,
            affiliates: Vec::new(),
            battles_num: 0,
            wins_num: 0,
            lost_num: 0,
            total_reward: 0,
            total_affiliate_reward: 0,
        };
        assert(names_of(stats.affiliates@) == Seq::<Seq<char>>::empty());
        stats
    }

    /// Tells whether an event can be counted: whether every counter and total
    /// stays within its type's range.
    pub fn can_update(&self, action: UpdateStatsAction, balance: Option<Balance>) -> (r: bool)
        ensures
            r == self@.can_update(action, balance),
    {
        match action {
            UpdateStatsAction::AddBattle => self.battles_num < u64::MAX,
            UpdateStatsAction::AddWonBattle => self.wins_num < u64::MAX,
            UpdateStatsAction::AddTotalReward => match balance {
                Some(amount) => amount <= u128::MAX - self.total_reward,
                None => true,
            },
            UpdateStatsAction::AddAffiliateReward => match balance {
                Some(amount) => amount <= u128::MAX - self.total_affiliate_reward,
                None => true,
            },
            _ => true,
        }
    }

    /// Counts an event.
    pub fn update_stats(
        &mut self,
        action: UpdateStatsAction,
        additional_account_id: Option<AccountId>,
        balance: Option<Balance>,
    )
        requires
            old(self)@.can_update(action, balance),
        ensures
            final(self)@ == old(self)@.updated(action, name_of(additional_account_id), balance),
            old(self)@.well_formed() ==> final(self)@.well_formed(),
    {
        let ghost before = names_of(self.affiliates@);
        match action {
            UpdateStatsAction::AddBattle => {
                self.battles_num = self.battles_num + 1;
            },
            UpdateStatsAction::AddReferral => {
                if additional_account_id.is_some() {
                    self.referrer_id = additional_account_id;
                }
            },
            UpdateStatsAction::AddAffiliate => {
                if let Some(affiliate) = additional_account_id {
                    if !contains_account(&self.affiliates, affiliate.as_str()) {
                        self.affiliates.push(affiliate);
                        assert(names_of(self.affiliates@) == before.push(affiliate@));
                    }
                }
            },
            UpdateStatsAction::AddWonBattle => {
                self.wins_num = self.wins_num + 1;
            },
            UpdateStatsAction::AddLostBattle => {},
            UpdateStatsAction::AddTotalReward => {
                if let Some(amount) = balance {
                    self.total_reward = self.total_reward + amount;
                }
            },
            UpdateStatsAction::AddAffiliateReward => {
                if let Some(amount) = balance {
                    self.total_affiliate_reward = self.total_affiliate_reward + amount;
                }
            },
        }
    }
}

impl From<EStats> for Stats {
    fn from(e_stats: EStats) -> (stats: Stats) {
        match e_stats {
            EStats::Current(stats) => stats,
        }
    }
}

impl FromSpecImpl<EStats> for Stats {
    open spec fn obeys_from_spec() -> bool {
        true
    }

    open spec fn from_spec(e_stats: EStats) -> Stats {
        e_stats->Current_0
    }
}

} // verus!
