use ledger_core::config::{
    accounts_total, AccountSummary, BalanceTimeOptions, Config, ConfigOptions, DateGrouping,
    ListOptions, DEFAULT_LIMIT,
};
use ledger_core::tags::{Subcategories, Tags};

fn labels(items: &[&str]) -> Vec<String> {
    items.iter().map(|l| l.to_string()).collect()
}

fn sample_config() -> Config {
    let mut food = Subcategories::new();
    food.insert("Groceries".to_string(), labels(&["Supermarket"]));
    let mut tags = Tags::new();
    tags.insert("Food".to_string(), food);
    Config::new(
        50_000,
        labels(&["Current", "Savings"]),
        labels(&["Food", "Home", "Travel"]),
        labels(&["Food", "Home"]),
        tags,
    )
}

#[test]
fn list_options_default_to_the_first_fifty_rows() {
    assert_eq!(DEFAULT_LIMIT, 50);
    assert_eq!(ListOptions { offset: None, limit: None }.window(), (0, 50));
    assert_eq!(ListOptions { offset: Some(100), limit: None }.window(), (100, 50));
    assert_eq!(ListOptions { offset: None, limit: Some(10) }.window(), (0, 10));
    assert_eq!(ListOptions { offset: Some(7), limit: Some(0) }.window(), (7, 0));
}

#[test]
fn balances_are_grouped_by_day_unless_told_otherwise() {
    assert_eq!(BalanceTimeOptions { grouping: None }.grouping_or_day(), DateGrouping::Day);
    assert_eq!(
        BalanceTimeOptions { grouping: Some(DateGrouping::Day) }.grouping_or_day(),
        DateGrouping::Day
    );
    assert_eq!(
        BalanceTimeOptions { grouping: Some(DateGrouping::Month) }.grouping_or_day(),
        DateGrouping::Month
    );
}

#[test]
fn config_hands_out_its_parts() {
    let config = sample_config();
    assert_eq!(config.budget(), 50_000);
    assert_eq!(config.account_list(), &labels(&["Current", "Savings"]));
    assert_eq!(config.period_items(), &labels(&["Food", "Home", "Travel"]));
    assert_eq!(config.budget_items(), &labels(&["Food", "Home"]));
    assert!(config.tags().verify_tags("Food", "Groceries", "Supermarket"));
    assert!(!config.tags().verify_tags("Home", "Groceries", "Supermarket"));
}

#[test]
fn config_option_picks_by_key() {
    assert!(matches!(sample_config().option("budget"), Some(ConfigOptions::Budget(50_000))));
    match sample_config().option("account_list") {
        Some(ConfigOptions::AccountList(list)) => assert_eq!(list, labels(&["Current", "Savings"])),
        _ => panic!("account_list names the accounts"),
    }
    match sample_config().option("period_items") {
        Some(ConfigOptions::PeriodItems(list)) => {
            assert_eq!(list, labels(&["Food", "Home", "Travel"]))
        }
        _ => panic!("period_items names the period categories"),
    }
    match sample_config().option("budget_items") {
        Some(ConfigOptions::BudgetItems(list)) => assert_eq!(list, labels(&["Food", "Home"])),
        _ => panic!("budget_items names the budget categories"),
    }
    match sample_config().option("tags") {
        Some(ConfigOptions::Tags(tags)) => {
            assert!(tags.verify_tags("Food", "Groceries", "Supermarket"))
        }
        _ => panic!("tags names the taxonomy"),
    }
    match sample_config().option("all") {
        Some(ConfigOptions::All(config)) => {
            assert_eq!(config.budget(), 50_000);
            assert_eq!(config.account_list(), &labels(&["Current", "Savings"]));
        }
        _ => panic!("all names the whole configuration"),
    }
}

#[test]
fn config_option_knows_no_other_key() {
    assert!(sample_config().option("").is_none());
    assert!(sample_config().option("Budget").is_none());
    assert!(sample_config().option("budget ").is_none());
    assert!(sample_config().option("accounts").is_none());
}

#[test]
fn accounts_total_adds_every_account() {
    let accounts = vec![
        AccountSummary { name: "Current".to_string(), amount: 120_050 },
        AccountSummary { name: "Savings".to_string(), amount: 1_000_000 },
        AccountSummary { name: "Card".to_string(), amount: -45_025 },
    ];
    assert_eq!(accounts_total(&accounts), 1_075_025);
    assert_eq!(accounts_total(&[]), 0);
    let extremes = vec![
        AccountSummary { name: "a".to_string(), amount: i64::MAX },
        AccountSummary { name: "b".to_string(), amount: i64::MAX },
    ];
    assert_eq!(accounts_total(&extremes), 2 * (i64::MAX as i128));
}

#[test]
fn account_summaries_are_equal_by_name_and_amount() {
    let a = AccountSummary { name: "Current".to_string(), amount: 10 };
    assert!(a == AccountSummary { name: "Current".to_string(), amount: 10 });
    assert!(a != AccountSummary { name: "Current".to_string(), amount: 11 });
    assert!(a != AccountSummary { name: "Savings".to_string(), amount: 10 });
}
