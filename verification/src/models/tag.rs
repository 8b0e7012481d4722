//! Transaction category tag model.

use vstd::prelude::*;

use super::{TagId, UserId};

verus! {

/// A transaction category tag with optional hierarchy.
///
/// Tags can be nested one level deep via the `parent` field.
#[derive(Debug, Clone, PartialEq)]
pub struct Tag {
    /// Unique identifier (UUID).
    pub id: TagId,
    /// Last modification timestamp (Unix seconds).
    pub changed: i64,
    /// Owner user identifier.
    pub user: UserId,
    /// Display name.
    pub title: String,
    /// Parent tag identifier (max 1 level nesting).
    pub parent: Option<TagId>,
    /// Icon identifier.
    pub icon: Option<String>,
    /// Picture URL.
    pub picture: Option<String>,
    /// Color in ARGB format.
    pub color: Option<i64>,
    /// Whether to show in income reports.
    pub show_income: bool,
    /// Whether to show in outcome reports.
    pub show_outcome: bool,
    /// Whether to include in income budgets.
    pub budget_income: bool,
    /// Whether to include in outcome budgets.
    pub budget_outcome: bool,
    /// Whether the tag is required for transactions (defaults to true if
    /// absent).
    pub required: Option<bool>,
}

} // verus!
