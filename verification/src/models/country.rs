//! Country model.

use vstd::prelude::*;

use super::InstrumentId;

verus! {

/// A country with its associated currency.
#[derive(Debug, Clone, PartialEq)]
pub struct Country {
    /// Unique identifier.
    pub id: i32,
    /// Country name.
    pub title: String,
    /// Default currency instrument identifier.
    pub currency: InstrumentId,
    /// Domain suffix (e.g. "ru", "us").
    pub domain: Option<String>,
}

} // verus!
