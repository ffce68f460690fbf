//! Ledger transactions, and the check that turns what a user typed into one.

use crate::calendar::{parse_date, parsed_date, Date};
use crate::config::Config;
use crate::labels::{contains_label, label_seq};
use crate::tags::is_valid_triple;
use vstd::prelude::*;

verus! {

/// A row of the ledger. The amount is in minor units, signed: money in is
/// positive.
#[derive(Debug, Clone, PartialEq, Eq)]
pub struct Transaction {
    pub id: i64,
    pub account: String,
    pub date: Date,
    pub description: String,
    pub amount: i64,
    pub l1_tag: String,
    pub l2_tag: String,
    pub l3_tag: String,
}

/// A transaction as the user typed it into a form: every field is text.
#[derive(Debug, Clone, PartialEq, Eq, Default)]
pub struct UserTransaction {
    pub id: i64,
    pub account: String,
    pub date: String,
    pub description: String,
    pub amount: String,
    pub l1_tag: String,
    pub l2_tag: String,
    pub l3_tag: String,
}

/// Why what the user typed is no transaction.
#[derive(Debug, Clone, Copy, PartialEq, Eq, Structural)]
pub enum TransactionError {
    /// The account is not one of the configured accounts.
    BadAccount,
    /// The date is no calendar day written as year, month and day.
    BadDate,
    /// The amount is no number.
    BadAmount,
    /// The tags are no triple of the taxonomy.
    BadTags,
}

/// The format in which a form writes a date.
pub open spec fn date_format() -> Seq<char> {
    "%Y-%m-%d"@
}

impl UserTransaction {
    /// The first fault of the typed transaction, given what its date and its
    /// amount were read as. The account is looked at first, then the date,
    /// then the amount, then the tags.
    pub open spec fn fault(
        &self,
        config: &Config,
        date: Option<Date>,
        amount: Option<i64>,
    ) -> Option<TransactionError> {
        if !label_seq(config.spec_account_list()@).contains(self.account@) {
            Some(TransactionError::BadAccount)
        } else if date is None {
            Some(TransactionError::BadDate)
        } else if amount is None {
            Some(TransactionError::BadAmount)
        } else if !is_valid_triple(config.spec_tags()@, self.l1_tag@, self.l2_tag@, self.l3_tag@) {
            Some(TransactionError::BadTags)
        } else {
            None
        }
    }

    /// `transaction` holds what the user typed, with `date` and `amount` in
    /// place of their texts.
    pub open spec fn is_written_as(
        &self,
        transaction: Transaction,
        date: Date,
        amount: i64,
    ) -> bool {
        &&& transaction.id == self.id
        &&& transaction.account@ == self.account@
        &&& transaction.date == date
        &&& transaction.description@ == self.description@
        &&& transaction.amount == amount
        &&& transaction.l1_tag@ == self.l1_tag@
        &&& transaction.l2_tag@ == self.l2_tag@
        &&& transaction.l3_tag@ == self.l3_tag@
    }

    /// `result` is what the check of the typed transaction gives, given what
    /// its date and its amount were read as: the first fault, or without a
    /// fault the transaction.
    pub open spec fn is_checked_as(
        &self,
        config: &Config,
        date: Option<Date>,
        amount: Option<i64>,
        result: Result<Transaction, TransactionError>,
    ) -> bool {
        match self.fault(config, date, amount) {
            Some(error) => result == Err::<Transaction, TransactionError>(error),
            None => result is Ok && self.is_written_as(
                result->Ok_0,
                date->Some_0,
                amount->Some_0,
            ),
        }
    }

    /// Checks the typed transaction against the configuration, with its date
    /// and amount already read: `None` stands for text that could not be
    /// read.
    pub fn check(&self, config: &Config, date: Option<Date>, amount: Option<i64>) -> (result:
        Result<Transaction, TransactionError>)
        ensures
            self.is_checked_as(config, date, amount, result),
    {
        if !contains_label(config.account_list(), self.account.as_str()) {
            return Err(TransactionError::BadAccount);
        }
        let date = match date {
            Some(date) => date,
            None => {
                return Err(TransactionError::BadDate);
            },
        };
        let amount = match amount {
            Some(amount) => amount,
            None => {
                return Err(TransactionError::BadAmount);
            },
        };
        if !config.tags().verify_tags(
            self.l1_tag.as_str(),
            self.l2_tag.as_str(),
            self.l3_tag.as_str(),
        ) {
            return Err(TransactionError::BadTags);
        }
        Ok(
            Transaction {
                id: self.id,
                account: self.account.clone(),
                date,
                description: self.description.clone(),
                amount,
                l1_tag: self.l1_tag.clone(),
                l2_tag: self.l2_tag.clone(),
                l3_tag: self.l3_tag.clone(),
            },
        )
    }

    /// Turns what the user typed into a transaction, or says what is wrong
    /// with it. The date is read as year, month and day with hyphens between;
    /// `amount` is the typed amount in minor units, or `None` if the text is
    /// no number.
    pub fn to_transaction(&self, config: &Config, amount: Option<i64>) -> (result: Result<
        Transaction,
        TransactionError,
    >)
        ensures
            self.is_checked_as(
                config,
                match parsed_date(self.date@, date_format()) {
                    Some(day) => Some(Date { year: day.0, month: day.1, day: day.2 }),
                    None => None,
                },
                amount,
                result,
            ),
    {
        let date = parse_date(self.date.as_str(), "%Y-%m-%d");
        self.check(config, date, amount)
    }
}

} // verus!
