//! Transaction model.

use vstd::prelude::*;

use super::{AccountId, Date, InstrumentId, MerchantId, ReminderMarkerId, TagId, TransactionId,
    UserId};

verus! {

/// A financial transaction between accounts.
///
/// Monetary amounts are carried in minor currency units; timestamps are Unix
/// seconds. The query filter inspects the date, the two account keys, the
/// tag list, the payee text, the merchant key and the two amounts; every
/// other field is opaque payload.
#[derive(Debug, Clone, PartialEq)]
pub struct Transaction {
    /// Unique identifier (UUID).
    pub id: TransactionId,
    /// Last modification timestamp (Unix seconds).
    pub changed: i64,
    /// Creation timestamp (Unix seconds).
    pub created: i64,
    /// Owner user identifier.
    pub user: UserId,
    /// Whether the transaction has been deleted.
    pub deleted: bool,
    /// Whether the transaction is on hold (pending).
    pub hold: Option<bool>,
    /// Income currency instrument.
    pub income_instrument: InstrumentId,
    /// Income destination account.
    pub income_account: AccountId,
    /// Income amount in minor currency units (>= 0).
    pub income: i64,
    /// Outcome currency instrument.
    pub outcome_instrument: InstrumentId,
    /// Outcome source account.
    pub outcome_account: AccountId,
    /// Outcome amount in minor currency units (>= 0).
    pub outcome: i64,
    /// Associated category tags.
    pub tag: Option<Vec<TagId>>,
    /// Associated merchant.
    pub merchant: Option<MerchantId>,
    /// Payee name.
    pub payee: Option<String>,
    /// Original payee name (before normalization).
    pub original_payee: Option<String>,
    /// User comment.
    pub comment: Option<String>,
    /// Transaction date.
    pub date: Date,
    /// Merchant Category Code.
    pub mcc: Option<i32>,
    /// Associated reminder marker.
    pub reminder_marker: Option<ReminderMarkerId>,
    /// Operational income amount in minor units (in transaction currency).
    pub op_income: Option<i64>,
    /// Operational income instrument.
    pub op_income_instrument: Option<InstrumentId>,
    /// Operational outcome amount in minor units (in transaction currency).
    pub op_outcome: Option<i64>,
    /// Operational outcome instrument.
    pub op_outcome_instrument: Option<InstrumentId>,
    /// Income bank transaction identifier.
    pub income_bank_id: Option<String>,
    /// Outcome bank transaction identifier.
    pub outcome_bank_id: Option<String>,
    /// QR code data.
    pub qr_code: Option<String>,
    /// Transaction source (e.g. "import", "user").
    pub source: Option<String>,
    /// Whether the transaction has been viewed.
    pub viewed: Option<bool>,
}

} // verus!
