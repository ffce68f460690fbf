//! The household's configuration, and the options of the queries on the
//! ledger.

use crate::labels::same_text;
use crate::tags::Tags;
use vstd::prelude::*;

verus! {

/// The page size of a listing that names none.
pub const DEFAULT_LIMIT: usize = 50;

/// The window of a transaction listing, as the query gave it.
#[derive(Debug)]
pub struct ListOptions {
    pub offset: Option<usize>,
    pub limit: Option<usize>,
}

impl ListOptions {
    /// The window that is listed, as offset and limit: a missing offset
    /// stands for the newest row, a missing limit for the default page size.
    pub fn window(&self) -> (window: (usize, usize))
        ensures
            window.0 == (match self.offset {
                Some(offset) => offset,
                None => 0,
            }),
            window.1 == (match self.limit {
                Some(limit) => limit,
                None => DEFAULT_LIMIT,
            }),
    {
        let offset = match self.offset {
            Some(offset) => offset,
            None => 0,
        };
        let limit = match self.limit {
            Some(limit) => limit,
            None => DEFAULT_LIMIT,
        };
        (offset, limit)
    }
}

/// The periods into which balances are grouped.
#[derive(Debug, Clone, Copy, PartialEq, Eq, Structural)]
pub enum DateGrouping {
    Day,
    Month,
}

/// The options of a balance query.
#[derive(Debug)]
pub struct BalanceTimeOptions {
    pub grouping: Option<DateGrouping>,
}

impl BalanceTimeOptions {
    /// The grouping that the query runs with: by day where none is named.
    pub fn grouping_or_day(&self) -> (grouping: DateGrouping)
        ensures
            grouping == (match self.grouping {
                Some(named) => named,
                None => DateGrouping::Day,
            }),
    {
        match self.grouping {
            Some(named) => named,
            None => DateGrouping::Day,
        }
    }
}

/// An account and what it holds, in minor units.
#[derive(Debug, Clone)]
pub struct AccountSummary {
    pub name: String,
    pub amount: i64,
}

impl PartialEq for AccountSummary {
    fn eq(&self, other: &Self) -> (same: bool) {
        self.name == other.name && self.amount == other.amount
    }
}

impl Eq for AccountSummary {

}

impl vstd::std_specs::cmp::PartialEqSpecImpl for AccountSummary {
    open spec fn obeys_eq_spec() -> bool {
        true
    }

    open spec fn eq_spec(&self, other: &Self) -> bool {
        self.name@ == other.name@ && self.amount == other.amount
    }
}

/// The sum of the amounts of the first `n` accounts.
pub open spec fn amounts_sum(accounts: Seq<AccountSummary>, n: int) -> int
    decreases n,
{
    if n <= 0 {
        0
    } else {
        amounts_sum(accounts, n - 1) + accounts[n - 1].amount
    }
}

/// What all the accounts hold together.
pub fn accounts_total(accounts: &[AccountSummary]) -> (total: i128)
    ensures
        total == amounts_sum(accounts@, accounts@.len() as int),
{
    let mut total: i128 = 0;
    let mut i: usize = 0;
    while i < accounts.len()
        invariant
            0 <= i <= accounts@.len(),
            total == amounts_sum(accounts@, i as int),
            -i * 0x8000_0000_0000_0000 <= total <= i * 0x8000_0000_0000_0000,
        decreases accounts@.len() - i,
    {
        total = total + accounts[i].amount as i128;
        i = i + 1;
    }
    total
}

/// What the household has configured: the monthly budget in minor units, its
/// accounts, the categories of the period view and of the budget view, and
/// the tag taxonomy.
pub struct Config {
    budget: i64,
    account_list: Vec<String>,
    period_items: Vec<String>,
    budget_items: Vec<String>,
    tags: Tags,
}

/// One part of the configuration, or all of it.
pub enum ConfigOptions {
    All(Config),
    Budget(i64),
    AccountList(Vec<String>),
    PeriodItems(Vec<String>),
    BudgetItems(Vec<String>),
    Tags(Tags),
}

impl Config {
    /// The monthly budget, in minor units.
    pub closed spec fn spec_budget(&self) -> i64 {
        self.budget
    }

    /// The names of the accounts.
    pub closed spec fn spec_account_list(&self) -> Vec<String> {
        self.account_list
    }

    /// The categories of the period view.
    pub closed spec fn spec_period_items(&self) -> Vec<String> {
        self.period_items
    }

    /// The categories whose spend counts against the budget.
    pub closed spec fn spec_budget_items(&self) -> Vec<String> {
        self.budget_items
    }

    /// The tag taxonomy.
    pub closed spec fn spec_tags(&self) -> Tags {
        self.tags
    }

    /// The part of the configuration that `key` names, if it names one.
    pub open spec fn option_for(self, key: Seq<char>) -> Option<ConfigOptions> {
        if key == "all"@ {
            Some(ConfigOptions::All(self))
        } else if key == "budget"@ {
            Some(ConfigOptions::Budget(self.spec_budget()))
        } else if key == "account_list"@ {
            Some(ConfigOptions::AccountList(self.spec_account_list()))
        } else if key == "period_items"@ {
            Some(ConfigOptions::PeriodItems(self.spec_period_items()))
        } else if key == "budget_items"@ {
            Some(ConfigOptions::BudgetItems(self.spec_budget_items()))
        } else if key == "tags"@ {
            Some(ConfigOptions::Tags(self.spec_tags()))
        } else {
            None
        }
    }

    /// A configuration of the given parts.
    pub fn new(
        budget: i64,
        account_list: Vec<String>,
        period_items: Vec<String>,
        budget_items: Vec<String>,
        tags: Tags,
    ) -> (config: Config)
        ensures
            config.spec_budget() == budget,
            config.spec_account_list() == account_list,
            config.spec_period_items() == period_items,
            config.spec_budget_items() == budget_items,
            config.spec_tags() == tags,
    {
        Config { budget, account_list, period_items, budget_items, tags }
    }

    /// The monthly budget, in minor units.
    #[verifier::when_used_as_spec(spec_budget)]
    pub fn budget(&self) -> (budget: i64)
        ensures
            budget == self.spec_budget(),
    {
        self.budget
    }

    /// The names of the accounts.
    pub fn account_list(&self) -> (list: &[String])
        ensures
            list@ == self.spec_account_list()@,
    {
        self.account_list.as_slice()
    }

    /// The categories of the period view.
    pub fn period_items(&self) -> (list: &[String])
        ensures
            list@ == self.spec_period_items()@,
    {
        self.period_items.as_slice()
    }

    /// The categories whose spend counts against the budget.
    pub fn budget_items(&self) -> (list: &[String])
        ensures
            list@ == self.spec_budget_items()@,
    {
        self.budget_items.as_slice()
    }

    /// The tag taxonomy.
    pub fn tags(&self) -> (tags: &Tags)
        ensures
            *tags == self.spec_tags(),
    {
        &self.tags
    }

    /// Picks the part of the configuration that `key` names: `all`, `budget`,
    /// `account_list`, `period_items`, `budget_items` or `tags`. Any other
    /// key names nothing.
    pub fn option(self, key: &str) -> (picked: Option<ConfigOptions>)
        ensures
            picked == self.option_for(key@),
    {
        if same_text(key, "all") {
            Some(ConfigOptions::All(self))
        } else if same_text(key, "budget") {
            Some(ConfigOptions::Budget(self.budget))
        } else if same_text(key, "account_list") {
            Some(ConfigOptions::AccountList(self.account_list))
        } else if same_text(key, "period_items") {
            Some(ConfigOptions::PeriodItems(self.period_items))
        } else if same_text(key, "budget_items") {
            Some(ConfigOptions::BudgetItems(self.budget_items))
        } else if same_text(key, "tags") {
            Some(ConfigOptions::Tags(self.tags))
        } else {
            None
        }
    }
}

} // verus!
