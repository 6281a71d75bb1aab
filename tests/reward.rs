use johnson::ledger::{DbUser, JohnsonError, Ledger, LevelChange};
use johnson::reward::{
    reward_message, reward_messenger, LevelUp, EXP_PER_MESSAGE, MONEY_MAX, MONEY_MIN,
};
use johnson::text::string_char_isspace;

#[test]
fn first_message_creates_and_rewards_the_account() {
    let mut ledger = Ledger::new();
    let report = reward_message(&mut ledger, 9, String::from("nine"), 12);
    assert_eq!(report.money, 12);
    assert_eq!(report.credit, Ok(12));
    assert_eq!(report.experience, Ok(LevelChange { old_level: 0, new_level: 0 }));
    assert_eq!(report.level_up, None);
    assert_eq!(
        ledger.get(9),
        Some(DbUser { name: String::from("nine"), id: 9, vbucks: 12, exp: EXP_PER_MESSAGE as i64, level: 0 })
    );
}

#[test]
fn sixth_message_levels_up() {
    let mut ledger = Ledger::new();
    for _ in 0..5 {
        let report = reward_message(&mut ledger, 9, String::from("nine"), 5);
        assert_eq!(report.level_up, None);
    }
    let report = reward_message(&mut ledger, 9, String::from("nine"), 5);
    assert_eq!(report.level_up, Some(LevelUp { user: 9, old_level: 0, new_level: 1 }));
    let u = ledger.get(9).unwrap();
    assert_eq!((u.vbucks, u.exp, u.level), (30, 600, 1));
}

#[test]
fn refused_credit_does_not_stop_the_grant() {
    let mut ledger = Ledger::new();
    ledger.restore(DbUser { name: String::from("rich"), id: 3, vbucks: i64::MAX, exp: 550, level: 0 });
    let report = reward_message(&mut ledger, 3, String::from("rich"), 10);
    assert_eq!(report.credit, Err(JohnsonError::BalanceOverflow(3, 10)));
    assert_eq!(report.experience, Ok(LevelChange { old_level: 0, new_level: 1 }));
    assert_eq!(report.level_up, Some(LevelUp { user: 3, old_level: 0, new_level: 1 }));
    let u = ledger.get(3).unwrap();
    assert_eq!((u.vbucks, u.exp, u.level), (i64::MAX, 650, 1));
}

#[test]
fn refused_grant_does_not_undo_the_credit() {
    let mut ledger = Ledger::new();
    ledger.restore(DbUser { name: String::from("sage"), id: 3, vbucks: 1, exp: i64::MAX - 1, level: 820 });
    let report = reward_message(&mut ledger, 3, String::from("sage"), 10);
    assert_eq!(report.credit, Ok(11));
    assert_eq!(report.experience, Err(JohnsonError::ExperienceOverflow(3, EXP_PER_MESSAGE)));
    assert_eq!(report.level_up, None);
    assert_eq!(ledger.get(3).unwrap().vbucks, 11);
}

#[test]
fn drawn_rewards_stay_in_range() {
    let mut ledger = Ledger::new();
    let mut total: i64 = 0;
    let mut drawn = Vec::new();
    for _ in 0..300 {
        let report = reward_messenger(&mut ledger, 4, String::from("four"));
        assert!(MONEY_MIN <= report.money && report.money < MONEY_MAX);
        total += report.money as i64;
        assert_eq!(report.credit, Ok(total));
        drawn.push(report.money);
    }
    assert!(drawn.iter().any(|&m| m != drawn[0]));
    assert_eq!(ledger.get(4).unwrap().exp, 300 * EXP_PER_MESSAGE as i64);
}

#[test]
fn spaces_and_tabs_are_found_by_character_index() {
    assert!(string_char_isspace("a b", 1));
    assert!(string_char_isspace("a\tb", 1));
    assert!(!string_char_isspace("a b", 0));
    assert!(!string_char_isspace("a b", 3));
    assert!(!string_char_isspace("", 0));
    assert!(string_char_isspace("é é", 1));
    assert!(!string_char_isspace("a\nb", 1));
}
