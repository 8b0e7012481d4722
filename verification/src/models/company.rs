//! Financial company/institution model.

use vstd::prelude::*;

use super::CompanyId;

verus! {

/// A financial institution (bank, payment provider, etc.).
#[derive(Debug, Clone, PartialEq)]
pub struct Company {
    /// Unique identifier.
    pub id: CompanyId,
    /// Last modification timestamp (Unix seconds).
    pub changed: i64,
    /// Short company name.
    pub title: String,
    /// Full legal name.
    pub full_title: Option<String>,
    /// Company website URL.
    pub www: Option<String>,
    /// Country identifier.
    pub country: Option<i32>,
    /// Two-letter country code.
    pub country_code: Option<String>,
    /// Whether the company has been deleted.
    pub deleted: Option<bool>,
}

} // verus!
