use defight::battle::is_battle_started;
use defight::stats::contains_account;
use defight::{EStats, Stats, UpdateStatsAction};

fn name(text: &str) -> Option<String> {
    Some(text.to_string())
}

#[test]
fn new_stats_are_empty() {
    let stats = Stats::new();
    assert_eq!(
        stats,
        Stats {
            referrer_id: None,
            affiliates: vec![],
            battles_num: 0,
            wins_num: 0,
            lost_num: 0,
            total_reward: 0,
            total_affiliate_reward: 0,
        }
    );
}

#[test]
fn battles_and_wins_are_counted() {
    let mut stats = Stats::new();
    stats.update_stats(UpdateStatsAction::AddBattle, None, None);
    stats.update_stats(UpdateStatsAction::AddBattle, name("x"), Some(5));
    stats.update_stats(UpdateStatsAction::AddWonBattle, None, None);
    assert_eq!(stats, Stats { battles_num: 2, wins_num: 1, ..Stats::new() });
}

#[test]
fn lost_battle_changes_nothing() {
    let mut stats = Stats::new();
    stats.update_stats(UpdateStatsAction::AddLostBattle, name("x"), Some(5));
    assert_eq!(stats, Stats::new());
}

#[test]
fn referral_sets_the_referrer_if_given() {
    let mut stats = Stats::new();
    stats.update_stats(UpdateStatsAction::AddReferral, name("ann.near"), None);
    assert_eq!(stats, Stats { referrer_id: name("ann.near"), ..Stats::new() });
    stats.update_stats(UpdateStatsAction::AddReferral, None, None);
    assert_eq!(stats.referrer_id, name("ann.near"));
    stats.update_stats(UpdateStatsAction::AddReferral, name("bob.near"), None);
    assert_eq!(stats.referrer_id, name("bob.near"));
}

#[test]
fn affiliate_is_added_once() {
    let mut stats = Stats::new();
    stats.update_stats(UpdateStatsAction::AddAffiliate, name("a"), None);
    stats.update_stats(UpdateStatsAction::AddAffiliate, name("b"), None);
    stats.update_stats(UpdateStatsAction::AddAffiliate, name("a"), None);
    stats.update_stats(UpdateStatsAction::AddAffiliate, None, None);
    assert_eq!(
        stats,
        Stats { affiliates: vec!["a".to_string(), "b".to_string()], ..Stats::new() }
    );
}

#[test]
fn rewards_are_added_to_their_totals() {
    let mut stats = Stats::new();
    stats.update_stats(UpdateStatsAction::AddTotalReward, None, Some(10));
    stats.update_stats(UpdateStatsAction::AddTotalReward, None, Some(5));
    stats.update_stats(UpdateStatsAction::AddTotalReward, None, None);
    stats.update_stats(UpdateStatsAction::AddAffiliateReward, None, Some(3));
    stats.update_stats(UpdateStatsAction::AddAffiliateReward, name("x"), None);
    assert_eq!(stats, Stats { total_reward: 15, total_affiliate_reward: 3, ..Stats::new() });
    stats.total_reward = u128::MAX - 1;
    stats.update_stats(UpdateStatsAction::AddTotalReward, None, Some(1));
    assert_eq!(stats.total_reward, u128::MAX);
}

#[test]
fn stats_come_out_of_their_version() {
    let stats = Stats { battles_num: 4, referrer_id: name("r"), ..Stats::new() };
    assert_eq!(Stats::from(EStats::Current(stats.clone())), stats);
}

#[test]
fn account_is_found_by_its_name() {
    let accounts = vec!["a.near".to_string(), "b.near".to_string()];
    assert!(contains_account(&accounts, "a.near"));
    assert!(contains_account(&accounts, "b.near"));
    assert!(!contains_account(&accounts, "c.near"));
    assert!(!contains_account(&accounts, "a.nea"));
    assert!(!contains_account(&vec![], "a.near"));
}

#[test]
fn started_battle_is_found_on_either_side() {
    let battles = vec![
        ("a.near".to_string(), "a.near (bot)".to_string()),
        ("b.near".to_string(), "c.near".to_string()),
    ];
    assert!(is_battle_started(&battles, &"a.near".to_string()));
    assert!(is_battle_started(&battles, &"b.near".to_string()));
    assert!(is_battle_started(&battles, &"c.near".to_string()));
    assert!(is_battle_started(&battles, &"a.near (bot)".to_string()));
    assert!(!is_battle_started(&battles, &"d.near".to_string()));
    assert!(!is_battle_started(&vec![], &"a.near".to_string()));
}

#[test]
fn full_counter_cannot_be_updated() {
    let mut stats = Stats::new();
    assert!(stats.can_update(UpdateStatsAction::AddBattle, None));
    assert!(stats.can_update(UpdateStatsAction::AddTotalReward, Some(u128::MAX)));
    stats.battles_num = u64::MAX;
    stats.wins_num = u64::MAX;
    stats.total_reward = 1;
    stats.total_affiliate_reward = u128::MAX;
    assert!(!stats.can_update(UpdateStatsAction::AddBattle, None));
    assert!(!stats.can_update(UpdateStatsAction::AddWonBattle, None));
    assert!(!stats.can_update(UpdateStatsAction::AddTotalReward, Some(u128::MAX)));
    assert!(stats.can_update(UpdateStatsAction::AddTotalReward, Some(u128::MAX - 1)));
    assert!(stats.can_update(UpdateStatsAction::AddTotalReward, None));
    assert!(!stats.can_update(UpdateStatsAction::AddAffiliateReward, Some(1)));
    assert!(stats.can_update(UpdateStatsAction::AddAffiliateReward, Some(0)));
    assert!(stats.can_update(UpdateStatsAction::AddLostBattle, Some(1)));
    assert!(stats.can_update(UpdateStatsAction::AddReferral, None));
    assert!(stats.can_update(UpdateStatsAction::AddAffiliate, None));
}
