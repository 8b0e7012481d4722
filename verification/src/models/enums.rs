//! Enumeration types for constrained API values.

use vstd::prelude::*;

verus! {

/// Type of a financial account.
#[derive(Debug, Clone, Copy, PartialEq, Eq, Structural)]
pub enum AccountType {
    /// Physical cash.
    Cash,
    /// Credit card.
    CreditCard,
    /// Checking/current account.
    Checking,
    /// Loan account.
    Loan,
    /// Deposit/savings account.
    Deposit,
    /// Electronic money (e-wallet).
    EMoney,
    /// Debt tracking account.
    Debt,
}

/// Time interval unit used for reminders and account offsets.
#[derive(Debug, Clone, Copy, PartialEq, Eq, Structural)]
pub enum Interval {
    /// Daily interval.
    Day,
    /// Weekly interval.
    Week,
    /// Monthly interval.
    Month,
    /// Yearly interval.
    Year,
}

/// Payoff interval for loan/deposit accounts.
///
/// A subset of [`Interval`] — only month and year are valid for payoff
/// schedules.
#[derive(Debug, Clone, Copy, PartialEq, Eq, Structural)]
pub enum PayoffInterval {
    /// Monthly payoff.
    Month,
    /// Yearly payoff.
    Year,
}

/// State of a reminder marker instance.
#[derive(Debug, Clone, Copy, PartialEq, Eq, Structural)]
pub enum ReminderMarkerState {
    /// Scheduled but not yet executed.
    Planned,
    /// Has been processed/applied.
    Processed,
    /// Marked as deleted/skipped.
    Deleted,
}

} // verus!
