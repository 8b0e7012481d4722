//! Budget model.

use vstd::prelude::*;

use super::{Date, TagId, UserId};

verus! {

/// A per-month budget for a category tag (or for the total when `tag` is
/// `None`).
///
/// A budget has no server-issued identifier: its identity is the composite
/// key (owning user, optional category tag, calendar month date), captured
/// by [`BudgetKey`].
#[derive(Debug, Clone, PartialEq)]
pub struct Budget {
    /// Last modification timestamp (Unix seconds).
    pub changed: i64,
    /// Owning user identifier.
    pub user: UserId,
    /// Budgeted category tag, or `None` for the aggregate budget.
    pub tag: Option<TagId>,
    /// First day of the budgeted month.
    pub date: Date,
    /// Budgeted income in minor currency units.
    pub income: i64,
    /// Whether the income budget is locked.
    pub income_lock: bool,
    /// Budgeted outcome in minor currency units.
    pub outcome: i64,
    /// Whether the outcome budget is locked.
    pub outcome_lock: bool,
    /// Whether the income figure is a forecast.
    pub is_income_forecast: Option<bool>,
    /// Whether the outcome figure is a forecast.
    pub is_outcome_forecast: Option<bool>,
}

/// The composite identity key of a [`Budget`]: owning user, optional
/// category tag, and calendar month date.
#[derive(Debug)]
pub struct BudgetKey {
    /// Owning user identifier.
    pub user: UserId,
    /// Budgeted category tag, or `None` for the aggregate budget.
    pub tag: Option<TagId>,
    /// First day of the budgeted month.
    pub date: Date,
}

impl View for BudgetKey {
    type V = (i64, Option<Seq<char>>, Date);

    open spec fn view(&self) -> (i64, Option<Seq<char>>, Date) {
        (
            self.user@,
            match self.tag {
                Some(t) => Some(t@),
                None => None,
            },
            self.date,
        )
    }
}

impl Budget {
    /// The composite identity key of this budget.
    pub fn key(&self) -> (k: BudgetKey)
        ensures
            k@ == (
                self.user@,
                match self.tag {
                    Some(t) => Some(t@),
                    None => None,
                },
                self.date,
            ),
    {
        BudgetKey {
            user: self.user,
            tag: match &self.tag {
                Some(t) => Some(t.clone()),
                None => None,
            },
            date: self.date,
        }
    }
}

} // verus!
