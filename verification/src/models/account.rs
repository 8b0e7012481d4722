//! Financial account model.

use vstd::prelude::*;

use super::{AccountId, AccountType, CompanyId, InstrumentId, PayoffInterval, UserId};

verus! {

/// A user's financial account (bank account, credit card, cash, etc.).
///
/// Monetary amounts are carried in minor currency units; timestamps are Unix
/// seconds. All fields except the identity key are opaque payload to the
/// cache engine.
#[derive(Debug, Clone, PartialEq)]
pub struct Account {
    /// Unique identifier (UUID).
    pub id: AccountId,
    /// Last modification timestamp (Unix seconds).
    pub changed: i64,
    /// Owner user identifier.
    pub user: UserId,
    /// Role user identifier (for shared accounts).
    pub role: Option<UserId>,
    /// Currency instrument identifier.
    pub instrument: Option<InstrumentId>,
    /// Associated financial company.
    pub company: Option<CompanyId>,
    /// Type of account.
    pub kind: AccountType,
    /// Display name.
    pub title: String,
    /// Bank account identifiers for SMS recognition.
    pub sync_id: Option<Vec<String>>,
    /// Current balance in minor currency units.
    pub balance: Option<i64>,
    /// Initial balance when the account was created, in minor units.
    pub start_balance: Option<i64>,
    /// Credit limit in minor currency units (>= 0).
    pub credit_limit: Option<i64>,
    /// Whether to include in total balance calculation.
    pub in_balance: bool,
    /// Whether this is a savings account.
    pub savings: Option<bool>,
    /// Enable automatic balance correction from SMS.
    pub enable_correction: bool,
    /// Enable SMS transaction recognition.
    pub enable_sms: bool,
    /// Whether the account is archived.
    pub archive: bool,
    /// Whether interest is capitalized (deposits/loans).
    pub capitalization: Option<bool>,
    /// Interest rate in basis points (hundredths of a percent).
    pub percent: Option<i64>,
    /// Start date of the deposit/loan (yyyy-MM-dd).
    pub start_date: Option<String>,
    /// End date offset from start.
    pub end_date_offset: Option<i32>,
    /// Unit for end date offset.
    pub end_date_offset_interval: Option<PayoffInterval>,
    /// Repayment step count.
    pub payoff_step: Option<i32>,
    /// Repayment interval unit.
    pub payoff_interval: Option<PayoffInterval>,
}

} // verus!
