//! Merchant/payee model.

use vstd::prelude::*;

use super::{MerchantId, UserId};

verus! {

/// A merchant or payee associated with transactions.
#[derive(Debug, Clone, PartialEq)]
pub struct Merchant {
    /// Unique identifier (UUID).
    pub id: MerchantId,
    /// Last modification timestamp (Unix seconds).
    pub changed: i64,
    /// Owner user identifier.
    pub user: UserId,
    /// Merchant display name.
    pub title: String,
}

} // verus!
