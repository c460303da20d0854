use defight::combat::{damage_dealt, is_too_late, response_part};
use defight::{
    parse_move, ActionError, ActionType, Battle, BattleConfig, BattleToSave, EBattleConfig,
    InputError, MoveData, ParseError, Part, Warrior, MAX_MS_FOR_ACTION,
};

const HEAD: u8 = 0;
const NECK: u8 = 50;
const CHEST: u8 = 100;
const LEGS: u8 = 200;

fn duel(now: u64) -> Battle {
    Battle::new("alice.near".to_string(), "bob.near".to_string(), Some(7), now)
}

fn base_warrior(id: u32, name: &str) -> Warrior {
    Warrior {
        id,
        account_id: Some(name.to_string()),
        strength: 1,
        stamina: 1,
        agility: 1,
        intuition: 1,
        health: 10,
        defense: 1,
    }
}

fn moves(attack: Part, protect: Part) -> Vec<MoveData> {
    vec![MoveData::new(ActionType::Attack, attack), MoveData::new(ActionType::Protect, protect)]
}

#[test]
fn new_duel_has_base_warriors() {
    let battle = duel(1_000);
    assert_eq!(battle.warrior_1, base_warrior(1, "alice.near"));
    assert_eq!(battle.warrior_2, base_warrior(2, "bob.near"));
    assert_eq!(battle.winner, None);
    assert_eq!(battle.reward, 7);
    assert_eq!(battle.last_action_timestamp, 1_000);
    assert!(!battle.warrior_1_missed_action);
    assert!(!battle.warrior_2_missed_action);
    assert_eq!(Battle::new("a".to_string(), "b".to_string(), None, 0).reward, 0);
}

#[test]
fn create_two_warriors_numbers_them() {
    let (one, two) = Battle::create_two_warriors("a".to_string(), "b".to_string());
    assert_eq!(one, base_warrior(1, "a"));
    assert_eq!(two, base_warrior(2, "b"));
}

#[test]
fn stored_duel_marks_the_bot() {
    let record = BattleToSave::new("alice.near".to_string(), "alice.near".to_string(), None, 42);
    assert_eq!(record.warrior_1, base_warrior(1, "alice.near"));
    assert_eq!(record.warrior_2, base_warrior(2, "alice.near (bot)"));
    assert_eq!(record.winner, None);
    assert_eq!(record.reward, 0);
    assert_eq!(record.last_action_timestamp, 42);
    assert!(!record.warrior_1_missed_action);
    assert!(!record.warrior_2_missed_action);
    assert_eq!(BattleToSave::new("a".to_string(), "b".to_string(), Some(5), 0).reward, 5);
    let (one, two) = BattleToSave::create_two_warriors("a".to_string(), "b".to_string());
    assert_eq!(one, base_warrior(1, "a"));
    assert_eq!(two, base_warrior(2, "b (bot)"));
}

#[test]
fn response_of_every_byte() {
    for seed in 0u8..=255 {
        let expected = match seed {
            0..=49 => Part::Head,
            50..=99 => Part::Neck,
            100..=149 => Part::Chest,
            150..=199 => Part::Groin,
            200..=249 => Part::Legs,
            _ => Part::Neck,
        };
        let part = response_part(seed);
        assert_eq!(part, expected, "seed {}", seed);
        assert!(part.index() <= 4);
        assert_eq!(part, response_part(seed));
    }
}

#[test]
fn damage_formula_values() {
    // not the protected part: twice the strength
    assert_eq!(damage_dealt(1, 1, Part::Head, Part::Legs, false, false), 2);
    assert_eq!(damage_dealt(7, 3, Part::Neck, Part::Chest, false, false), 14);
    // the protected part: twice the strength less the defense
    assert_eq!(damage_dealt(1, 1, Part::Head, Part::Head, false, false), 1);
    assert_eq!(damage_dealt(7, 3, Part::Groin, Part::Groin, false, false), 11);
    assert_eq!(damage_dealt(2, 4, Part::Legs, Part::Legs, false, false), 0);
    // more defense than twice the strength: nothing, not a wrapped number
    assert_eq!(damage_dealt(1, 5, Part::Head, Part::Head, false, false), 0);
    assert_eq!(damage_dealt(0, 65535, Part::Head, Part::Head, false, false), 0);
    // a defender that missed its move protects nothing
    assert_eq!(damage_dealt(7, 3, Part::Groin, Part::Groin, false, true), 14);
    // an attacker that missed its move deals nothing
    assert_eq!(damage_dealt(7, 3, Part::Groin, Part::Chest, true, false), 0);
    assert_eq!(damage_dealt(7, 3, Part::Groin, Part::Groin, true, true), 0);
    // twice the greatest strength does not overflow
    assert_eq!(damage_dealt(65535, 0, Part::Head, Part::Neck, false, false), 131070);
    assert_eq!(damage_dealt(65535, 65535, Part::Head, Part::Head, false, false), 65535);
}

#[test]
fn action_window_is_sixty_seconds() {
    assert_eq!(MAX_MS_FOR_ACTION, 60_000_000_000);
    assert!(!is_too_late(1_000, 1_000));
    assert!(!is_too_late(1_000, 1_000 + MAX_MS_FOR_ACTION));
    assert!(is_too_late(1_000, 1_001 + MAX_MS_FOR_ACTION));
    assert!(!is_too_late(5_000, 10));
    assert!(!is_too_late(u64::MAX, u64::MAX));
    assert!(!is_too_late(u64::MAX - 5, u64::MAX));
    assert!(is_too_late(0, u64::MAX));
}

#[test]
fn round_with_unprotected_parts_costs_two_each() {
    let mut battle = duel(1_000);
    let actions = parse_move("Attack:Head Protect:Legs").unwrap();
    let record = battle.apply_actions(actions, NECK, CHEST, 2_000);
    assert_eq!(battle.warrior_1.health, 8);
    assert_eq!(battle.warrior_2.health, 8);
    assert_eq!(battle.winner, None);
    assert_eq!(battle.last_action_timestamp, 2_000);
    assert_eq!(battle.reward, 7);
    assert!(!battle.warrior_1_missed_action);
    assert!(!battle.warrior_2_missed_action);
    assert_eq!(record.warrior_1, battle.warrior_1);
    assert_eq!(record.warrior_2, battle.warrior_2);
    assert_eq!(record.winner, None);
    assert_eq!(record.reward, 0);
    assert_eq!(record.last_action_timestamp, 2_000);
    assert!(!record.warrior_1_missed_action);
    assert!(!record.warrior_2_missed_action);
}

#[test]
fn round_with_protected_parts_subtracts_defense() {
    let mut battle = duel(0);
    battle.warrior_1.strength = 3;
    battle.warrior_2.defense = 2;
    // warrior 1 attacks the head, which warrior 2 protects; warrior 2 attacks
    // the legs, which warrior 1 protects
    battle.apply_actions(moves(Part::Head, Part::Legs), LEGS, HEAD, 10);
    assert_eq!(battle.warrior_2.health, 10 - (2 * 3 - 2));
    assert_eq!(battle.warrior_1.health, 10 - (2 * 1 - 1));
    assert_eq!(battle.winner, None);
}

#[test]
fn round_ignores_moves_beyond_the_second() {
    let mut one = duel(0);
    let mut other = duel(0);
    let long = parse_move("Attack:Head Protect:Legs Attack:Neck Protect:Chest").unwrap();
    assert_eq!(long.len(), 4);
    let a = one.apply_actions(long, NECK, HEAD, 10);
    let b = other.apply_actions(moves(Part::Head, Part::Legs), NECK, HEAD, 10);
    assert_eq!(a, b);
    assert_eq!(one, other);
}

#[test]
fn round_takes_parts_by_position() {
    // the first move gives the attacked part and the second the protected
    // one, whatever their actions say
    let mut battle = duel(0);
    let actions = parse_move("Protect:Head Attack:Legs").unwrap();
    battle.apply_actions(actions, LEGS, HEAD, 10);
    assert_eq!(battle.warrior_1.health, 9);
    assert_eq!(battle.warrior_2.health, 9);
}

#[test]
fn late_move_is_missed() {
    let mut battle = duel(1_000);
    battle.apply_actions(moves(Part::Head, Part::Neck), NECK, CHEST, 1_001 + MAX_MS_FOR_ACTION);
    assert!(battle.warrior_1_missed_action);
    assert!(!battle.warrior_2_missed_action);
    // warrior 1 deals nothing, and its protection of the neck does not count
    assert_eq!(battle.warrior_2.health, 10);
    assert_eq!(battle.warrior_1.health, 8);
    assert_eq!(battle.last_action_timestamp, 1_001 + MAX_MS_FOR_ACTION);
    // the next move is in time again
    battle.apply_actions(moves(Part::Head, Part::Neck), NECK, CHEST, 1_002 + MAX_MS_FOR_ACTION);
    assert!(!battle.warrior_1_missed_action);
    assert_eq!(battle.warrior_2.health, 8);
    assert_eq!(battle.warrior_1.health, 7);
}

#[test]
fn move_at_the_end_of_the_window_is_in_time() {
    let mut battle = duel(1_000);
    battle.apply_actions(moves(Part::Head, Part::Legs), NECK, CHEST, 1_000 + MAX_MS_FOR_ACTION);
    assert!(!battle.warrior_1_missed_action);
    assert_eq!(battle.warrior_2.health, 8);
}

#[test]
fn opponent_missed_flag_is_carried_over() {
    let mut battle = duel(0);
    battle.warrior_2_missed_action = true;
    // warrior 2 protects the head that warrior 1 attacks, but it missed
    let record = battle.apply_actions(moves(Part::Head, Part::Legs), NECK, HEAD, 10);
    assert!(battle.warrior_2_missed_action);
    assert!(record.warrior_2_missed_action);
    assert_eq!(battle.warrior_2.health, 8);
    assert_eq!(battle.warrior_1.health, 10);
}

#[test]
fn five_even_rounds_end_in_a_draw() {
    let mut battle = duel(0);
    for round in 1u64..=4 {
        let record = battle.apply_actions(moves(Part::Head, Part::Legs), NECK, CHEST, round);
        assert_eq!(record.winner, None);
        assert_eq!(battle.warrior_1.health as u64, 10 - 2 * round);
        assert_eq!(battle.warrior_2.health as u64, 10 - 2 * round);
    }
    // both are at 2 and both take 2: both are defeated at once
    let record = battle.apply_actions(moves(Part::Head, Part::Legs), NECK, CHEST, 5);
    assert_eq!(record.winner, Some(0));
    assert_eq!(battle.winner, Some(0));
    assert_eq!(battle.warrior_1.health, 0);
    assert_eq!(battle.warrior_2.health, 0);
    assert_eq!(record.warrior_1.health, 0);
    assert_eq!(record.warrior_2.health, 0);
}

#[test]
fn five_rounds_defeat_the_weaker_warrior() {
    let mut battle = duel(0);
    battle.warrior_1.health = 12;
    for round in 1u64..=4 {
        battle.apply_actions(moves(Part::Head, Part::Legs), NECK, CHEST, round);
        assert_eq!(battle.winner, None);
        assert_eq!(battle.warrior_2.health as u64, 10 - 2 * round);
    }
    let record = battle.apply_actions(moves(Part::Head, Part::Legs), NECK, CHEST, 5);
    assert_eq!(battle.warrior_2.health, 0);
    assert_eq!(battle.winner, Some(1));
    assert_eq!(record.winner, Some(1));
    // the winner keeps the health it had before the last round
    assert_eq!(battle.warrior_1.health, 4);
    assert_eq!(record.reward, 0);
}

#[test]
fn defeat_of_warrior_one_makes_warrior_two_win() {
    let mut battle = duel(0);
    battle.warrior_1.health = 2;
    let record = battle.apply_actions(moves(Part::Head, Part::Legs), NECK, CHEST, 1);
    assert_eq!(record.winner, Some(2));
    assert_eq!(battle.winner, Some(2));
    assert_eq!(battle.warrior_1.health, 0);
    assert_eq!(battle.warrior_2.health, 10);
}

#[test]
fn damage_over_health_clamps_to_zero() {
    let mut battle = duel(0);
    battle.warrior_1.strength = 65535;
    let record = battle.apply_actions(moves(Part::Head, Part::Legs), NECK, CHEST, 1);
    assert_eq!(record.winner, Some(1));
    assert_eq!(battle.warrior_2.health, 0);
    assert_eq!(battle.warrior_1.health, 10);
}

#[test]
fn make_action_plays_a_round() {
    let mut battle = duel(1_000);
    let record = battle.make_action("Attack:Head Protect:Legs", NECK, CHEST, 2_000).unwrap();
    assert_eq!(battle.warrior_1.health, 8);
    assert_eq!(battle.warrior_2.health, 8);
    assert_eq!(battle.winner, None);
    assert_eq!(battle.last_action_timestamp, 2_000);
    assert_eq!(record, BattleToSave::from(battle.clone()));
    assert_eq!(record.reward, 0);
    assert_eq!(battle.reward, 7);
}

#[test]
fn make_action_with_one_token_changes_nothing() {
    let mut battle = duel(1_000);
    let before = battle.clone();
    assert_eq!(
        battle.make_action("Attack:Head", NECK, CHEST, 2_000),
        Err(ActionError::WrongInput(InputError::TooFewActions))
    );
    assert_eq!(battle, before);
}

#[test]
fn make_action_with_wrong_action_changes_nothing() {
    let mut battle = duel(1_000);
    let before = battle.clone();
    assert_eq!(
        battle.make_action("Punch:Head Protect:Legs", NECK, CHEST, 2_000 + MAX_MS_FOR_ACTION),
        Err(ActionError::WrongInput(InputError::WrongActions {
            actions: vec![ParseError::WrongAction { action: "Punch".to_string() }]
        }))
    );
    assert_eq!(battle, before);
}

#[test]
fn decided_duel_takes_no_more_moves() {
    let mut battle = duel(0);
    battle.warrior_2.health = 1;
    let record = battle.make_action("Attack:Head Protect:Legs", NECK, CHEST, 1).unwrap();
    assert_eq!(record.winner, Some(1));
    let before = battle.clone();
    assert_eq!(
        battle.make_action("Attack:Head Protect:Legs", NECK, CHEST, 2),
        Err(ActionError::BattleFinished)
    );
    assert_eq!(battle, before);
    // a draw is final too, and the finished duel is checked before the text
    battle.winner = Some(0);
    let before = battle.clone();
    assert_eq!(battle.make_action("Punch:Head", NECK, CHEST, 3), Err(ActionError::BattleFinished));
    assert_eq!(battle, before);
}

#[test]
fn same_round_twice_gives_the_same_duel() {
    let mut one = duel(5);
    let mut other = duel(5);
    let a = one.make_action("Attack:Groin Protect:Neck", 251, 17, 9);
    let b = other.make_action("Attack:Groin Protect:Neck", 251, 17, 9);
    assert_eq!(a, b);
    assert_eq!(one, other);
}

#[test]
fn stored_form_drops_the_reward() {
    let battle = duel(3);
    let record = BattleToSave::from(battle.clone());
    assert_eq!(record.reward, 0);
    assert_eq!(record.warrior_1, battle.warrior_1);
    assert_eq!(record.warrior_2, battle.warrior_2);
    assert_eq!(record.winner, battle.winner);
    assert_eq!(record.last_action_timestamp, 3);
    let mut stored = record.clone();
    stored.reward = 9;
    stored.winner = Some(2);
    stored.warrior_2_missed_action = true;
    let back = Battle::from(stored.clone());
    assert_eq!(back.reward, 9);
    assert_eq!(back.winner, Some(2));
    assert!(back.warrior_2_missed_action);
    assert_eq!(back.warrior_1, stored.warrior_1);
    assert_eq!(back.last_action_timestamp, 3);
}

#[test]
fn battle_config_comes_out_of_its_version() {
    let config = BattleConfig { deposit: Some(3), opponent_id: Some("bob.near".to_string()) };
    assert_eq!(BattleConfig::from(EBattleConfig::Current(config.clone())), config);
}

#[test]
fn warrior_clone_is_equal() {
    let warrior = base_warrior(2, "carol.near");
    assert_eq!(warrior.clone(), warrior);
    let nameless = Warrior { account_id: None, ..base_warrior(1, "x") };
    assert_eq!(nameless.clone(), nameless);
}

#[test]
fn resolve_round_takes_the_parts_as_given() {
    let mut battle = duel(0);
    battle.warrior_1.strength = 4;
    battle.warrior_2.defense = 3;
    let record = battle.resolve_round(Part::Groin, Part::Head, Part::Head, Part::Groin, 77);
    // 2 * 4 - 3 on warrior 2, 2 * 1 - 1 on warrior 1
    assert_eq!(battle.warrior_2.health, 5);
    assert_eq!(battle.warrior_1.health, 9);
    assert_eq!(battle.last_action_timestamp, 77);
    assert_eq!(record, BattleToSave::from(battle.clone()));
}

#[test]
fn health_never_rises() {
    let parts = [Part::Head, Part::Neck, Part::Chest, Part::Groin, Part::Legs];
    for attack in parts {
        for foe_protect in parts {
            for missed in [false, true] {
                let mut battle = duel(0);
                battle.warrior_1.strength = 0;
                battle.warrior_2.strength = 0;
                battle.warrior_2_missed_action = missed;
                battle.resolve_round(attack, Part::Head, Part::Neck, foe_protect, 1);
                assert!(battle.warrior_1.health <= 10);
                assert!(battle.warrior_2.health <= 10);
                assert_eq!(battle.winner, None);
            }
        }
    }
}
