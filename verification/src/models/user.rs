//! User account model.

use vstd::prelude::*;

use super::{InstrumentId, UserId};

verus! {

/// A service user account.
#[derive(Debug, Clone, PartialEq)]
pub struct User {
    /// Unique identifier.
    pub id: UserId,
    /// Last modification timestamp (Unix seconds).
    pub changed: i64,
    /// User login (email or username).
    pub login: Option<String>,
    /// Preferred currency instrument identifier.
    pub currency: InstrumentId,
    /// Parent user identifier (for family/shared accounts).
    pub parent: Option<UserId>,
    /// Country identifier.
    pub country: Option<i32>,
    /// Two-letter country code.
    pub country_code: Option<String>,
    /// User email address.
    pub email: Option<String>,
    /// Whether forecasting is enabled.
    pub is_forecast_enabled: Option<bool>,
    /// Day of the month when budgets start.
    pub month_start_day: Option<i32>,
    /// Subscription paid-until timestamp (Unix seconds).
    pub paid_till: Option<i64>,
    /// Balance planning mode.
    pub plan_balance_mode: Option<String>,
    /// Plan settings (opaque string, e.g. a JSON array).
    pub plan_settings: Option<String>,
    /// Subscription plan name.
    pub subscription: Option<String>,
    /// Subscription renewal timestamp (Unix seconds).
    pub subscription_renewal_date: Option<i64>,
}

} // verus!
