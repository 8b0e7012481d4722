//! Recurring reminder model.

use vstd::prelude::*;

use super::{AccountId, Date, InstrumentId, Interval, MerchantId, ReminderId, TagId, UserId};

verus! {

/// A recurring reminder describing a planned transaction.
#[derive(Debug, Clone, PartialEq)]
pub struct Reminder {
    /// Unique identifier (UUID).
    pub id: ReminderId,
    /// Last modification timestamp (Unix seconds).
    pub changed: i64,
    /// Owner user identifier.
    pub user: UserId,
    /// Income currency instrument.
    pub income_instrument: InstrumentId,
    /// Income destination account.
    pub income_account: AccountId,
    /// Income amount in minor currency units (>= 0).
    pub income: i64,
    /// Outcome currency instrument.
    pub outcome_instrument: InstrumentId,
    /// Outcome source account.
    pub outcome_account: AccountId,
    /// Outcome amount in minor currency units (>= 0).
    pub outcome: i64,
    /// Associated category tags.
    pub tag: Option<Vec<TagId>>,
    /// Associated merchant.
    pub merchant: Option<MerchantId>,
    /// Payee name.
    pub payee: Option<String>,
    /// User comment.
    pub comment: Option<String>,
    /// Recurrence interval unit, or `None` for a one-time reminder.
    pub interval: Option<Interval>,
    /// Number of interval units between occurrences.
    pub step: Option<i32>,
    /// Days within the interval on which the reminder fires.
    pub points: Option<Vec<i32>>,
    /// First occurrence date.
    pub start_date: Date,
    /// Last occurrence date, or `None` for an open-ended reminder.
    pub end_date: Option<Date>,
    /// Whether to notify the user.
    pub notify: bool,
}

} // verus!
