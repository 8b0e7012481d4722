//! Suggestion lookup request/response models.

use vstd::prelude::*;

use super::{MerchantId, TagId};

verus! {

/// Request body for the suggestion lookup: payee and/or comment text to
/// categorize.
#[derive(Debug, Clone, PartialEq)]
pub struct SuggestRequest {
    /// Payee name to get suggestions for.
    pub payee: Option<String>,
    /// Comment text to get suggestions for.
    pub comment: Option<String>,
}

/// Response body from the suggestion lookup.
#[derive(Debug, Clone, PartialEq)]
pub struct SuggestResponse {
    /// Normalized payee name.
    pub payee: Option<String>,
    /// Suggested merchant.
    pub merchant: Option<MerchantId>,
    /// Suggested category tags.
    pub tag: Option<Vec<TagId>>,
}

} // verus!
