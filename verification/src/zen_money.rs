//! Transaction query filter and cache lookups.
//!
//! A [`TransactionFilter`] is a conjunction of independently-optional
//! criteria over one transaction; absent criteria are vacuously true.
//! The lookup helpers evaluate pure queries over collections read from a
//! cache store.

use vstd::prelude::*;

use crate::error::Result;
use crate::models::{Account, AccountId, Date, Instrument, InstrumentId, MerchantId, Tag, TagId,
    Transaction};
use crate::text::{contains_ignore_case, contains_subseq, eq_ignore_case, lower_of};

verus! {

/// Composable filter for querying transactions from storage.
///
/// Use builder-style methods to chain multiple criteria. All conditions are
/// combined — a transaction must satisfy every set criterion to pass.
#[derive(Debug, Clone, PartialEq)]
pub struct TransactionFilter {
    /// Start date (inclusive).
    pub date_from: Option<Date>,
    /// End date (inclusive).
    pub date_to: Option<Date>,
    /// Account key (matches the income or the outcome account).
    pub account: Option<AccountId>,
    /// Tag key (matches if the transaction's tag list contains it).
    pub tag: Option<TagId>,
    /// Payee substring (case-insensitive).
    pub payee: Option<String>,
    /// Merchant key.
    pub merchant: Option<MerchantId>,
    /// Minimum amount (matches if income >= value OR outcome >= value).
    pub min_amount: Option<i64>,
    /// Maximum amount (matches if income <= value AND outcome <= value).
    pub max_amount: Option<i64>,
}

impl TransactionFilter {
    /// The date criterion: the transaction's date lies in the inclusive
    /// range.
    pub open spec fn spec_matches_date(self, tx: Transaction) -> bool {
        &&& match self.date_from {
            Some(from) => from.spec_le(tx.date),
            None => true,
        }
        &&& match self.date_to {
            Some(to) => tx.date.spec_le(to),
            None => true,
        }
    }

    /// The account criterion: either leg of the transaction names the
    /// target account.
    pub open spec fn spec_matches_account(self, tx: Transaction) -> bool {
        match self.account {
            Some(a) => tx.income_account@ == a@ || tx.outcome_account@ == a@,
            None => true,
        }
    }

    /// The tag criterion: the transaction carries a tag list and the target
    /// tag is present in it. A transaction with no tag list never matches.
    pub open spec fn spec_matches_tag(self, tx: Transaction) -> bool {
        match self.tag {
            Some(target) => match tx.tag {
                Some(list) => exists|i: int| 0 <= i < list@.len() && (#[trigger] list@[i])@
                    == target@,
                None => false,
            },
            None => true,
        }
    }

    /// The payee criterion: case-insensitive containment of the target text
    /// in the payee field. A transaction with no payee never matches.
    pub open spec fn spec_matches_payee(self, tx: Transaction) -> bool {
        match self.payee {
            Some(p) => match tx.payee {
                Some(tx_payee) => contains_subseq(lower_of(tx_payee@), lower_of(p@)),
                None => false,
            },
            None => true,
        }
    }

    /// The merchant criterion: equality of the merchant key.
    pub open spec fn spec_matches_merchant(self, tx: Transaction) -> bool {
        match self.merchant {
            Some(m) => match tx.merchant {
                Some(tx_m) => tx_m@ == m@,
                None => false,
            },
            None => true,
        }
    }

    /// The amount criterion: at least one leg reaches the lower bound, and
    /// both legs stay within the upper bound.
    pub open spec fn spec_matches_amount(self, tx: Transaction) -> bool {
        &&& match self.min_amount {
            Some(min) => tx.income >= min || tx.outcome >= min,
            None => true,
        }
        &&& match self.max_amount {
            Some(max) => tx.income <= max && tx.outcome <= max,
            None => true,
        }
    }

    /// The whole filter: the conjunction of every set criterion.
    pub open spec fn spec_matches(self, tx: Transaction) -> bool {
        &&& self.spec_matches_date(tx)
        &&& self.spec_matches_account(tx)
        &&& self.spec_matches_tag(tx)
        &&& self.spec_matches_payee(tx)
        &&& self.spec_matches_merchant(tx)
        &&& self.spec_matches_amount(tx)
    }

    /// Creates an empty filter that matches all transactions.
    pub fn new() -> (r: Self)
        ensures
            r.date_from is None,
            r.date_to is None,
            r.account is None,
            r.tag is None,
            r.payee is None,
            r.merchant is None,
            r.min_amount is None,
            r.max_amount is None,
    {
        TransactionFilter {
            date_from: None,
            date_to: None,
            account: None,
            tag: None,
            payee: None,
            merchant: None,
            min_amount: None,
            max_amount: None,
        }
    }

    /// Restricts to transactions within the given date range (inclusive).
    pub fn date_range(self, from: Date, to: Date) -> (r: Self)
        ensures
            r == (TransactionFilter { date_from: Some(from), date_to: Some(to), ..self }),
    {
        TransactionFilter { date_from: Some(from), date_to: Some(to), ..self }
    }

    /// Restricts to transactions involving the given account.
    pub fn account(self, id: AccountId) -> (r: Self)
        ensures
            r == (TransactionFilter { account: Some(id), ..self }),
    {
        TransactionFilter { account: Some(id), ..self }
    }

    /// Restricts to transactions tagged with the given tag.
    pub fn tag(self, id: TagId) -> (r: Self)
        ensures
            r == (TransactionFilter { tag: Some(id), ..self }),
    {
        TransactionFilter { tag: Some(id), ..self }
    }

    /// Restricts to transactions whose payee contains the given substring
    /// (case-insensitive).
    pub fn payee(self, name: String) -> (r: Self)
        ensures
            r == (TransactionFilter { payee: Some(name), ..self }),
    {
        TransactionFilter { payee: Some(name), ..self }
    }

    /// Restricts to transactions with the given merchant.
    pub fn merchant(self, id: MerchantId) -> (r: Self)
        ensures
            r == (TransactionFilter { merchant: Some(id), ..self }),
    {
        TransactionFilter { merchant: Some(id), ..self }
    }

    /// Restricts to transactions with amounts in the given range: income or
    /// outcome at least `min`, and both at most `max`.
    pub fn amount_range(self, min: i64, max: i64) -> (r: Self)
        ensures
            r == (TransactionFilter { min_amount: Some(min), max_amount: Some(max), ..self }),
    {
        TransactionFilter { min_amount: Some(min), max_amount: Some(max), ..self }
    }

    /// Returns `true` if the transaction satisfies all set criteria.
    pub fn matches(&self, tx: &Transaction) -> (r: bool)
        ensures
            r == self.spec_matches(*tx),
    {
        self.matches_date(tx) && self.matches_account(tx) && self.matches_tag(tx)
            && self.matches_payee(tx) && self.matches_merchant(tx) && self.matches_amount(tx)
    }

    /// Checks the date range criterion.
    fn matches_date(&self, tx: &Transaction) -> (r: bool)
        ensures
            r == self.spec_matches_date(*tx),
    {
        let from_ok = match &self.date_from {
            Some(from) => from.is_on_or_before(&tx.date),
            None => true,
        };
        let to_ok = match &self.date_to {
            Some(to) => tx.date.is_on_or_before(to),
            None => true,
        };
        from_ok && to_ok
    }

    /// Checks the account criterion.
    fn matches_account(&self, tx: &Transaction) -> (r: bool)
        ensures
            r == self.spec_matches_account(*tx),
    {
        match &self.account {
            Some(a) => tx.income_account == *a || tx.outcome_account == *a,
            None => true,
        }
    }

    /// Checks the tag criterion.
    fn matches_tag(&self, tx: &Transaction) -> (r: bool)
        ensures
            r == self.spec_matches_tag(*tx),
    {
        match &self.tag {
            Some(target) => match &tx.tag {
                Some(list) => {
                    let mut i: usize = 0;
                    while i < list.len()
                        invariant
                            self.tag == Some(*target),
                            tx.tag == Some(*list),
                            i <= list@.len(),
                            forall|k: int| 0 <= k < i ==> (#[trigger] list@[k])@ != target@,
                        decreases list@.len() - i,
                    {
                        if list[i] == *target {
                            proof {
                                assert(self.tag->0 == *target);
                                assert(tx.tag->0 == *list);
                                assert(exists|k: int|
                                    0 <= k < list@.len() && (#[trigger] list@[k])@ == target@) by {
                                    assert((i as int) < list@.len() && (list@[i as int])@
                                        == target@);
                                }
                            }
                            return true;
                        }
                        i += 1;
                    }
                    false
                },
                None => false,
            },
            None => true,
        }
    }

    /// Checks the payee criterion.
    fn matches_payee(&self, tx: &Transaction) -> (r: bool)
        ensures
            r == self.spec_matches_payee(*tx),
    {
        match &self.payee {
            Some(p) => match &tx.payee {
                Some(tx_payee) => contains_ignore_case(tx_payee.as_str(), p.as_str()),
                None => false,
            },
            None => true,
        }
    }

    /// Checks the merchant criterion.
    fn matches_merchant(&self, tx: &Transaction) -> (r: bool)
        ensures
            r == self.spec_matches_merchant(*tx),
    {
        match &self.merchant {
            Some(m) => match &tx.merchant {
                Some(tx_m) => *tx_m == *m,
                None => false,
            },
            None => true,
        }
    }

    /// Checks the amount criterion.
    fn matches_amount(&self, tx: &Transaction) -> (r: bool)
        ensures
            r == self.spec_matches_amount(*tx),
    {
        let min_ok = match &self.min_amount {
            Some(min) => tx.income >= *min || tx.outcome >= *min,
            None => true,
        };
        let max_ok = match &self.max_amount {
            Some(max) => tx.income <= *max && tx.outcome <= *max,
            None => true,
        };
        min_ok && max_ok
    }
}

impl Default for TransactionFilter {
    /// An empty filter that matches all transactions.
    fn default() -> (r: Self)
        ensures
            r == (TransactionFilter {
                date_from: None,
                date_to: None,
                account: None,
                tag: None,
                payee: None,
                merchant: None,
                min_amount: None,
                max_amount: None,
            }),
    {
        TransactionFilter::new()
    }
}

/// The references of `s`, dereferenced.
pub open spec fn copied_seq<T>(s: Seq<&T>) -> Seq<T> {
    s.map_values(|t: &T| *t)
}

/// The transactions of `txs` that satisfy `f`, in their original order.
pub open spec fn matching_transactions(txs: Seq<Transaction>, f: TransactionFilter) -> Seq<
    Transaction,
> {
    txs.filter(|t: Transaction| f.spec_matches(t))
}

/// Returns the transactions matching the given filter, in their original
/// order.
pub fn filter_transactions<'a>(
    transactions: &'a Vec<Transaction>,
    filter: &TransactionFilter,
) -> (r: Vec<&'a Transaction>)
    ensures
        copied_seq(r@) == matching_transactions(transactions@, *filter),
{
    let ghost txs = transactions@;
    let mut out: Vec<&'a Transaction> = Vec::new();
    proof {
        reveal_with_fuel(Seq::filter, 2);
        assert(txs.take(0) =~= Seq::<Transaction>::empty());
        assert(copied_seq(out@) =~= matching_transactions(txs.take(0), *filter));
    }
    let mut i: usize = 0;
    while i < transactions.len()
        invariant
            txs == transactions@,
            i <= txs.len(),
            copied_seq(out@) == matching_transactions(txs.take(i as int), *filter),
        decreases txs.len() - i,
    {
        let tx = &transactions[i];
        let keep = filter.matches(tx);
        if keep {
            out.push(tx);
        }
        proof {
            reveal_with_fuel(Seq::filter, 2);
            assert(txs.take(i + 1).drop_last() =~= txs.take(i as int));
            assert(txs.take(i + 1).last() == txs[i as int]);
            if keep {
                assert(copied_seq(out@) =~= matching_transactions(txs.take(i as int), *filter).push(
                    txs[i as int],
                ));
            }
            assert(copied_seq(out@) =~= matching_transactions(txs.take(i + 1), *filter));
        }
        i += 1;
    }
    proof {
        assert(txs.take(txs.len() as int) =~= txs);
    }
    out
}

/// Returns the transactions within a date range (inclusive).
pub fn transactions_by_date<'a>(
    transactions: &'a Vec<Transaction>,
    from: Date,
    to: Date,
) -> (r: Vec<&'a Transaction>)
    ensures
        copied_seq(r@) == matching_transactions(
            transactions@,
            (TransactionFilter {
                date_from: Some(from),
                date_to: Some(to),
                account: None,
                tag: None,
                payee: None,
                merchant: None,
                min_amount: None,
                max_amount: None,
            }),
        ),
{
    let filter = TransactionFilter::new().date_range(from, to);
    filter_transactions(transactions, &filter)
}

/// Returns the transactions involving the given account on either leg.
pub fn transactions_by_account<'a>(
    transactions: &'a Vec<Transaction>,
    account_id: AccountId,
) -> (r: Vec<&'a Transaction>)
    ensures
        copied_seq(r@) == matching_transactions(
            transactions@,
            (TransactionFilter {
                date_from: None,
                date_to: None,
                account: Some(account_id),
                tag: None,
                payee: None,
                merchant: None,
                min_amount: None,
                max_amount: None,
            }),
        ),
{
    let filter = TransactionFilter::new().account(account_id);
    filter_transactions(transactions, &filter)
}

/// The accounts of `s` that are not archived, in their original order.
pub open spec fn active_seq(s: Seq<Account>) -> Seq<Account> {
    s.filter(|a: Account| !a.archive)
}

/// Returns the non-archived accounts, in their original order.
pub fn active_accounts<'a>(accounts: &'a Vec<Account>) -> (r: Vec<&'a Account>)
    ensures
        copied_seq(r@) == active_seq(accounts@),
{
    let ghost all = accounts@;
    let mut out: Vec<&'a Account> = Vec::new();
    proof {
        reveal_with_fuel(Seq::filter, 2);
        assert(all.take(0) =~= Seq::<Account>::empty());
        assert(copied_seq(out@) =~= active_seq(all.take(0)));
    }
    let mut i: usize = 0;
    while i < accounts.len()
        invariant
            all == accounts@,
            i <= all.len(),
            copied_seq(out@) == active_seq(all.take(i as int)),
        decreases all.len() - i,
    {
        let account = &accounts[i];
        let keep = !account.archive;
        if keep {
            out.push(account);
        }
        proof {
            reveal_with_fuel(Seq::filter, 2);
            assert(all.take(i + 1).drop_last() =~= all.take(i as int));
            assert(all.take(i + 1).last() == all[i as int]);
            if keep {
                assert(copied_seq(out@) =~= active_seq(all.take(i as int)).push(all[i as int]));
            }
            assert(copied_seq(out@) =~= active_seq(all.take(i + 1)));
        }
        i += 1;
    }
    proof {
        assert(all.take(all.len() as int) =~= all);
    }
    out
}

/// Whether the tag's title equals `title` up to case folding.
pub open spec fn tag_title_matches(t: Tag, title: Seq<char>) -> bool {
    lower_of(t.title@) == lower_of(title)
}

/// Finds the first tag whose title equals `title` case-insensitively.
pub fn find_tag_by_title<'a>(tags: &'a Vec<Tag>, title: &str) -> (r: Option<&'a Tag>)
    ensures
        match r {
            Some(t) => exists|i: int|
                0 <= i < tags@.len() && #[trigger] tags@[i] == *t && tag_title_matches(
                    tags@[i],
                    title@,
                ) && (forall|j: int| 0 <= j < i ==> !tag_title_matches(#[trigger] tags@[j], title@)),
            None => forall|i: int|
                0 <= i < tags@.len() ==> !tag_title_matches(#[trigger] tags@[i], title@),
        },
{
    let mut i: usize = 0;
    while i < tags.len()
        invariant
            i <= tags@.len(),
            forall|j: int| 0 <= j < i ==> !tag_title_matches(#[trigger] tags@[j], title@),
        decreases tags@.len() - i,
    {
        let tag = &tags[i];
        if eq_ignore_case(tag.title.as_str(), title) {
            return Some(tag);
        }
        i += 1;
    }
    None
}

/// Whether the account's title equals `title` up to case folding.
pub open spec fn account_title_matches(a: Account, title: Seq<char>) -> bool {
    lower_of(a.title@) == lower_of(title)
}

/// Finds the first account whose title equals `title` case-insensitively.
pub fn find_account_by_title<'a>(accounts: &'a Vec<Account>, title: &str) -> (r: Option<
    &'a Account,
>)
    ensures
        match r {
            Some(a) => exists|i: int|
                0 <= i < accounts@.len() && #[trigger] accounts@[i] == *a && account_title_matches(
                    accounts@[i],
                    title@,
                ) && (forall|j: int|
                    0 <= j < i ==> !account_title_matches(#[trigger] accounts@[j], title@)),
            None => forall|i: int|
                0 <= i < accounts@.len() ==> !account_title_matches(#[trigger] accounts@[i], title@),
        },
{
    let mut i: usize = 0;
    while i < accounts.len()
        invariant
            i <= accounts@.len(),
            forall|j: int| 0 <= j < i ==> !account_title_matches(#[trigger] accounts@[j], title@),
        decreases accounts@.len() - i,
    {
        let account = &accounts[i];
        if eq_ignore_case(account.title.as_str(), title) {
            return Some(account);
        }
        i += 1;
    }
    None
}

/// Finds the first instrument carrying the given key.
pub fn instrument<'a>(instruments: &'a Vec<Instrument>, id: InstrumentId) -> (r: Option<
    &'a Instrument,
>)
    ensures
        match r {
            Some(instr) => exists|i: int|
                0 <= i < instruments@.len() && #[trigger] instruments@[i] == *instr
                    && instruments@[i].id@ == id@,
            None => forall|i: int|
                0 <= i < instruments@.len() ==> (#[trigger] instruments@[i]).id@ != id@,
        },
{
    let mut i: usize = 0;
    while i < instruments.len()
        invariant
            i <= instruments@.len(),
            forall|j: int| 0 <= j < i ==> (#[trigger] instruments@[j]).id@ != id@,
        decreases instruments@.len() - i,
    {
        let instr = &instruments[i];
        if instr.id.eq_value(&id) {
            return Some(instr);
        }
        i += 1;
    }
    None
}

/// Resolves a lookup outcome to the found value: a failed or empty lookup
/// yields `None`, so the caller can report the name as unknown.
pub fn resolve_name<T, F: FnOnce(&str) -> Result<Option<T>>>(
    label: &str,
    name: &str,
    lookup: F,
) -> (r: Option<T>)
    requires
        call_requires(lookup, (name,)),
    ensures
        exists|res: Result<Option<T>>|
            #[trigger] call_ensures(lookup, (name,), res) && r == (match res {
                Ok(found) => found,
                Err(_) => None::<T>,
            }),
{
    let _ = label;
    match lookup(name) {
        Ok(found) => found,
        Err(_) => None,
    }
}

} // verus!
