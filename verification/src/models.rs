//! Data models for the ledger service's entities.
//!
//! This module contains plain-data representations of all service entities,
//! newtype identifier wrappers, and enumeration types for constrained values.
//! Monetary amounts are carried in minor currency units and timestamps as
//! Unix seconds, so that every field is a plain scalar the contracts can
//! speak about.

mod account;
mod budget;
mod company;
mod country;
mod date;
mod diff;
mod enums;
mod ids;
mod instrument;
mod merchant;
mod reminder;
mod reminder_marker;
mod suggest;
mod tag;
mod transaction;
mod user;

pub use account::Account;
pub use budget::{Budget, BudgetKey};
pub use company::Company;
pub use country::Country;
pub use date::Date;
pub use diff::{Deletion, DiffRequest, DiffResponse};
pub use enums::{AccountType, Interval, PayoffInterval, ReminderMarkerState};
pub use ids::{
    AccountId, CompanyId, InstrumentId, MerchantId, ReminderId, ReminderMarkerId, TagId,
    TransactionId, UserId,
};
pub use instrument::Instrument;
pub use merchant::Merchant;
pub use reminder::Reminder;
pub use reminder_marker::ReminderMarker;
pub use suggest::{SuggestRequest, SuggestResponse};
pub use tag::Tag;
pub use transaction::Transaction;
pub use user::User;
