//! Diff synchronization request/response models.

use vstd::prelude::*;

use super::{Account, Budget, Company, Country, Instrument, Merchant, Reminder, ReminderMarker,
    Tag, Transaction, User};

verus! {

/// A deletion notice identifying one removed entity.
#[derive(Debug, Clone, PartialEq)]
pub struct Deletion {
    /// Raw entity identifier (stringified for numeric-keyed kinds).
    pub id: String,
    /// Entity type tag (e.g. "transaction", "account").
    pub object: String,
    /// Timestamp of the deletion (Unix seconds).
    pub stamp: i64,
    /// User who deleted the entity.
    pub user: i64,
}

/// Request body for the diff synchronization exchange.
#[derive(Debug, Clone, PartialEq)]
pub struct DiffRequest {
    /// Client's current Unix timestamp (for server time correction).
    pub current_client_timestamp: i64,
    /// Last known server checkpoint (0 for an initial sync).
    pub server_timestamp: i64,
    /// Entity kinds to force-fetch completely.
    pub force_fetch: Vec<String>,
    /// Accounts to create or update.
    pub account: Vec<Account>,
    /// Tags to create or update.
    pub tag: Vec<Tag>,
    /// Merchants to create or update.
    pub merchant: Vec<Merchant>,
    /// Transactions to create or update.
    pub transaction: Vec<Transaction>,
    /// Reminders to create or update.
    pub reminder: Vec<Reminder>,
    /// Reminder markers to create or update.
    pub reminder_marker: Vec<ReminderMarker>,
    /// Budgets to create or update.
    pub budget: Vec<Budget>,
    /// Entities to delete.
    pub deletion: Vec<Deletion>,
}

impl DiffRequest {
    /// Creates a minimal diff request for syncing (read-only, no changes).
    pub fn sync_only(server_timestamp: i64, current_client_timestamp: i64) -> (r: Self)
        ensures
            r.server_timestamp == server_timestamp,
            r.current_client_timestamp == current_client_timestamp,
            r.force_fetch@.len() == 0,
            r.account@.len() == 0,
            r.tag@.len() == 0,
            r.merchant@.len() == 0,
            r.transaction@.len() == 0,
            r.reminder@.len() == 0,
            r.reminder_marker@.len() == 0,
            r.budget@.len() == 0,
            r.deletion@.len() == 0,
    {
        DiffRequest {
            current_client_timestamp,
            server_timestamp,
            force_fetch: Vec::new(),
            account: Vec::new(),
            tag: Vec::new(),
            merchant: Vec::new(),
            transaction: Vec::new(),
            reminder: Vec::new(),
            reminder_marker: Vec::new(),
            budget: Vec::new(),
            deletion: Vec::new(),
        }
    }
}

/// Response body from the diff synchronization exchange.
#[derive(Debug, Clone, PartialEq)]
pub struct DiffResponse {
    /// New server checkpoint to use for the next sync.
    pub server_timestamp: i64,
    /// Updated instruments.
    pub instrument: Vec<Instrument>,
    /// Updated companies.
    pub company: Vec<Company>,
    /// Updated users.
    pub user: Vec<User>,
    /// Updated accounts.
    pub account: Vec<Account>,
    /// Updated tags.
    pub tag: Vec<Tag>,
    /// Updated merchants.
    pub merchant: Vec<Merchant>,
    /// Updated transactions.
    pub transaction: Vec<Transaction>,
    /// Updated countries.
    pub country: Vec<Country>,
    /// Updated reminders.
    pub reminder: Vec<Reminder>,
    /// Updated reminder markers.
    pub reminder_marker: Vec<ReminderMarker>,
    /// Updated budgets.
    pub budget: Vec<Budget>,
    /// Deleted entities.
    pub deletion: Vec<Deletion>,
}

} // verus!
