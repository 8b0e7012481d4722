//! Reminder marker model: one concrete occurrence of a reminder.

use vstd::prelude::*;

use super::{AccountId, Date, InstrumentId, MerchantId, ReminderId, ReminderMarkerId,
    ReminderMarkerState, TagId, UserId};

verus! {

/// One planned occurrence of a [`super::Reminder`].
#[derive(Debug, Clone, PartialEq)]
pub struct ReminderMarker {
    /// Unique identifier (UUID).
    pub id: ReminderMarkerId,
    /// Last modification timestamp (Unix seconds).
    pub changed: i64,
    /// Owner user identifier.
    pub user: UserId,
    /// Income currency instrument.
    pub income_instrument: InstrumentId,
    /// Income destination account.
    pub income_account: AccountId,
    /// Income amount in minor currency units (>= 0).
    pub income: i64,
    /// Outcome currency instrument.
    pub outcome_instrument: InstrumentId,
    /// Outcome source account.
    pub outcome_account: AccountId,
    /// Outcome amount in minor currency units (>= 0).
    pub outcome: i64,
    /// Associated category tags.
    pub tag: Option<Vec<TagId>>,
    /// Associated merchant.
    pub merchant: Option<MerchantId>,
    /// Payee name.
    pub payee: Option<String>,
    /// User comment.
    pub comment: Option<String>,
    /// Date of this occurrence.
    pub date: Date,
    /// The reminder this marker belongs to.
    pub reminder: ReminderId,
    /// Processing state of this occurrence.
    pub state: ReminderMarkerState,
    /// Whether to notify the user.
    pub notify: bool,
    /// Whether this marker is a forecast entry.
    pub is_forecast: Option<bool>,
}

} // verus!
