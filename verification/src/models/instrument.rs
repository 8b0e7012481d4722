//! Currency/financial instrument model.

use vstd::prelude::*;

use super::InstrumentId;

verus! {

/// A currency or financial instrument with its exchange rate.
#[derive(Debug, Clone, PartialEq)]
pub struct Instrument {
    /// Unique identifier.
    pub id: InstrumentId,
    /// Last modification timestamp (Unix seconds).
    pub changed: i64,
    /// Full name of the instrument (e.g. "US Dollar").
    pub title: String,
    /// Three-letter currency code (e.g. "USD").
    pub short_title: String,
    /// Currency symbol (e.g. "$").
    pub symbol: String,
    /// Exchange rate relative to the base currency, in millionths.
    pub rate: i64,
}

} // verus!
