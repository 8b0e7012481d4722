//! In-memory cache store.
//!
//! [`InMemoryStorage`] keeps one independently-managed [`EntityStore`] per
//! entity kind plus the single sync checkpoint. Every operation is verified
//! against the key-map model of [`crate::keyed`]. Durable backends reuse the
//! same verified merge and remove computations through
//! [`crate::keyed::merged_for_write`] and [`crate::keyed::removed_for_write`].

use vstd::prelude::*;

use crate::keyed::{key_view_set, keys_unique, map_of, remove_by_key, removed_seq, upsert_by_key,
    upsert_model, Keyed};
use crate::models::{Account, AccountId, Budget, BudgetKey, Company, CompanyId, Country, Date,
    Instrument, InstrumentId, Merchant, MerchantId, Reminder, ReminderId, ReminderMarker,
    ReminderMarkerId, Tag, TagId, Transaction, TransactionId, User, UserId};

verus! {

impl Keyed for Account {
    type Key = AccountId;

    open spec fn key(self) -> Seq<char> {
        self.id@
    }

    fn key_matches(&self, key: &AccountId) -> bool {
        self.id == *key
    }

    fn same_key(&self, other: &Self) -> bool {
        self.id == other.id
    }
}

impl Keyed for Transaction {
    type Key = TransactionId;

    open spec fn key(self) -> Seq<char> {
        self.id@
    }

    fn key_matches(&self, key: &TransactionId) -> bool {
        self.id == *key
    }

    fn same_key(&self, other: &Self) -> bool {
        self.id == other.id
    }
}

impl Keyed for Tag {
    type Key = TagId;

    open spec fn key(self) -> Seq<char> {
        self.id@
    }

    fn key_matches(&self, key: &TagId) -> bool {
        self.id == *key
    }

    fn same_key(&self, other: &Self) -> bool {
        self.id == other.id
    }
}

impl Keyed for Merchant {
    type Key = MerchantId;

    open spec fn key(self) -> Seq<char> {
        self.id@
    }

    fn key_matches(&self, key: &MerchantId) -> bool {
        self.id == *key
    }

    fn same_key(&self, other: &Self) -> bool {
        self.id == other.id
    }
}

impl Keyed for Instrument {
    type Key = InstrumentId;

    open spec fn key(self) -> i32 {
        self.id@
    }

    fn key_matches(&self, key: &InstrumentId) -> bool {
        self.id.eq_value(key)
    }

    fn same_key(&self, other: &Self) -> bool {
        self.id.eq_value(&other.id)
    }
}

impl Keyed for Company {
    type Key = CompanyId;

    open spec fn key(self) -> i32 {
        self.id@
    }

    fn key_matches(&self, key: &CompanyId) -> bool {
        self.id.eq_value(key)
    }

    fn same_key(&self, other: &Self) -> bool {
        self.id.eq_value(&other.id)
    }
}

impl Keyed for Country {
    type Key = i32;

    open spec fn key(self) -> i32 {
        self.id
    }

    fn key_matches(&self, key: &i32) -> bool {
        self.id == *key
    }

    fn same_key(&self, other: &Self) -> bool {
        self.id == other.id
    }
}

impl Keyed for User {
    type Key = UserId;

    open spec fn key(self) -> i64 {
        self.id@
    }

    fn key_matches(&self, key: &UserId) -> bool {
        self.id.eq_value(key)
    }

    fn same_key(&self, other: &Self) -> bool {
        self.id.eq_value(&other.id)
    }
}

impl Keyed for Reminder {
    type Key = ReminderId;

    open spec fn key(self) -> Seq<char> {
        self.id@
    }

    fn key_matches(&self, key: &ReminderId) -> bool {
        self.id == *key
    }

    fn same_key(&self, other: &Self) -> bool {
        self.id == other.id
    }
}

impl Keyed for ReminderMarker {
    type Key = ReminderMarkerId;

    open spec fn key(self) -> Seq<char> {
        self.id@
    }

    fn key_matches(&self, key: &ReminderMarkerId) -> bool {
        self.id == *key
    }

    fn same_key(&self, other: &Self) -> bool {
        self.id == other.id
    }
}

impl Keyed for Budget {
    type Key = BudgetKey;

    open spec fn key(self) -> (i64, Option<Seq<char>>, Date) {
        (
            self.user@,
            match self.tag {
                Some(t) => Some(t@),
                None => None,
            },
            self.date,
        )
    }

    fn key_matches(&self, key: &BudgetKey) -> bool {
        let user_eq = self.user.eq_value(&key.user);
        let tag_eq = match (&self.tag, &key.tag) {
            (Some(a), Some(b)) => a == b,
            (None, None) => true,
            _ => false,
        };
        user_eq && tag_eq && self.date == key.date
    }

    fn same_key(&self, other: &Self) -> bool {
        let user_eq = self.user.eq_value(&other.user);
        let tag_eq = match (&self.tag, &other.tag) {
            (Some(a), Some(b)) => a == b,
            (None, None) => true,
            _ => false,
        };
        user_eq && tag_eq && self.date == other.date
    }
}

/// One entity kind's cached collection: a sequence of records whose identity
/// keys stay pairwise distinct.
#[derive(Debug)]
pub struct EntityStore<T: Keyed> {
    /// The cached records, in unspecified order.
    items: Vec<T>,
}

impl<T: Keyed> View for EntityStore<T> {
    type V = Seq<T>;

    closed spec fn view(&self) -> Seq<T> {
        self.items@
    }
}

impl<T: Keyed> EntityStore<T> {
    /// The store's invariant: no two cached records share an identity key.
    pub open spec fn wf(self) -> bool {
        keys_unique(self@)
    }

    /// Creates an empty collection.
    pub fn new() -> (r: Self)
        ensures
            r@ == Seq::<T>::empty(),
            r.wf(),
    {
        EntityStore { items: Vec::new() }
    }

    /// Returns every currently cached record, in unspecified order.
    pub fn read_all(&self) -> (r: &Vec<T>)
        ensures
            r@ == self@,
    {
        &self.items
    }

    /// Number of cached records.
    pub fn len(&self) -> (n: usize)
        ensures
            n == self@.len(),
    {
        self.items.len()
    }

    /// Merges `items` by identity key: each replaces the cached record
    /// sharing its key, or is inserted. An empty batch is a no-op.
    pub fn merge_upsert(&mut self, items: Vec<T>)
        requires
            old(self).wf(),
        ensures
            final(self).wf(),
            map_of(final(self)@) == upsert_model(map_of(old(self)@), items@),
            items@.len() == 0 ==> final(self)@ == old(self)@,
    {
        upsert_by_key(&mut self.items, items);
    }

    /// Deletes every cached record whose identity key appears in `keys`;
    /// keys naming no record are silently ignored. An empty batch is a
    /// no-op.
    pub fn remove(&mut self, keys: &Vec<T::Key>)
        requires
            old(self).wf(),
        ensures
            final(self).wf(),
            final(self)@ == removed_seq(old(self)@, key_view_set(keys@)),
            map_of(final(self)@) == map_of(old(self)@).remove_keys(key_view_set(keys@)),
            keys@.len() == 0 ==> final(self)@ == old(self)@,
    {
        remove_by_key(&mut self.items, keys);
    }

    /// Removes every cached record.
    pub fn clear(&mut self)
        ensures
            final(self)@ == Seq::<T>::empty(),
            final(self).wf(),
    {
        self.items.clear();
    }
}

/// Thread-unsafe in-memory store covering every entity kind plus the sync
/// checkpoint. Intended for single-process use and tests; it offers no
/// cross-process guarantees.
#[derive(Debug)]
pub struct InMemoryStorage {
    /// Cached accounts.
    pub accounts: EntityStore<Account>,
    /// Cached transactions.
    pub transactions: EntityStore<Transaction>,
    /// Cached tags.
    pub tags: EntityStore<Tag>,
    /// Cached merchants.
    pub merchants: EntityStore<Merchant>,
    /// Cached instruments.
    pub instruments: EntityStore<Instrument>,
    /// Cached companies.
    pub companies: EntityStore<Company>,
    /// Cached countries.
    pub countries: EntityStore<Country>,
    /// Cached users.
    pub users: EntityStore<User>,
    /// Cached reminders.
    pub reminders: EntityStore<Reminder>,
    /// Cached reminder markers.
    pub reminder_markers: EntityStore<ReminderMarker>,
    /// Cached budgets.
    pub budgets: EntityStore<Budget>,
    /// The last persisted sync checkpoint, or `None` if never synced.
    pub server_timestamp: Option<i64>,
}

impl InMemoryStorage {
    /// Every per-kind collection keeps its keys unique.
    pub open spec fn wf(self) -> bool {
        &&& self.accounts.wf()
        &&& self.transactions.wf()
        &&& self.tags.wf()
        &&& self.merchants.wf()
        &&& self.instruments.wf()
        &&& self.companies.wf()
        &&& self.countries.wf()
        &&& self.users.wf()
        &&& self.reminders.wf()
        &&& self.reminder_markers.wf()
        &&& self.budgets.wf()
    }

    /// The stored checkpoint, at the specification level.
    pub open spec fn checkpoint(self) -> Option<i64> {
        self.server_timestamp
    }

    /// Every collection is empty and no checkpoint is stored.
    pub open spec fn is_empty(self) -> bool {
        &&& self.accounts@ == Seq::<Account>::empty()
        &&& self.transactions@ == Seq::<Transaction>::empty()
        &&& self.tags@ == Seq::<Tag>::empty()
        &&& self.merchants@ == Seq::<Merchant>::empty()
        &&& self.instruments@ == Seq::<Instrument>::empty()
        &&& self.companies@ == Seq::<Company>::empty()
        &&& self.countries@ == Seq::<Country>::empty()
        &&& self.users@ == Seq::<User>::empty()
        &&& self.reminders@ == Seq::<Reminder>::empty()
        &&& self.reminder_markers@ == Seq::<ReminderMarker>::empty()
        &&& self.budgets@ == Seq::<Budget>::empty()
        &&& self.checkpoint() is None
    }

    /// Creates a new empty in-memory store.
    pub fn new() -> (r: Self)
        ensures
            r.wf(),
            r.is_empty(),
    {
        InMemoryStorage {
            accounts: EntityStore::new(),
            transactions: EntityStore::new(),
            tags: EntityStore::new(),
            merchants: EntityStore::new(),
            instruments: EntityStore::new(),
            companies: EntityStore::new(),
            countries: EntityStore::new(),
            users: EntityStore::new(),
            reminders: EntityStore::new(),
            reminder_markers: EntityStore::new(),
            budgets: EntityStore::new(),
            server_timestamp: None,
        }
    }

    /// Returns the checkpoint from the last successful sync, or `None` if no
    /// sync has occurred yet.
    pub fn server_timestamp(&self) -> (r: Option<i64>)
        ensures
            r == self.checkpoint(),
    {
        self.server_timestamp
    }

    /// Stores the checkpoint after a successful sync, replacing any previous
    /// one. No other state changes.
    pub fn set_server_timestamp(&mut self, timestamp: i64)
        ensures
            final(self).checkpoint() == Some(timestamp),
            final(self).accounts == old(self).accounts,
            final(self).transactions == old(self).transactions,
            final(self).tags == old(self).tags,
            final(self).merchants == old(self).merchants,
            final(self).instruments == old(self).instruments,
            final(self).companies == old(self).companies,
            final(self).countries == old(self).countries,
            final(self).users == old(self).users,
            final(self).reminders == old(self).reminders,
            final(self).reminder_markers == old(self).reminder_markers,
            final(self).budgets == old(self).budgets,
    {
        self.server_timestamp = Some(timestamp);
    }

    /// Budget deletion notices carry only a raw string that cannot be mapped
    /// back to the composite budget key, so removing budgets by deletion
    /// identifier is a documented no-op.
    pub fn remove_budgets(&mut self, ids: &Vec<String>)
        ensures
            *final(self) == *old(self),
    {
        let _unused = ids;
    }

    /// Removes every entity of every kind and resets the checkpoint to
    /// absent.
    pub fn clear(&mut self)
        ensures
            final(self).wf(),
            final(self).is_empty(),
    {
        self.accounts.clear();
        self.transactions.clear();
        self.tags.clear();
        self.merchants.clear();
        self.instruments.clear();
        self.companies.clear();
        self.countries.clear();
        self.users.clear();
        self.reminders.clear();
        self.reminder_markers.clear();
        self.budgets.clear();
        self.server_timestamp = None;
    }
}

impl Default for InMemoryStorage {
    /// An empty store, identical to [`InMemoryStorage::new`].
    fn default() -> (r: Self)
        ensures
            r.wf(),
            r.is_empty(),
    {
        InMemoryStorage::new()
    }
}

/// Law: writing a checkpoint and reading it back returns exactly the value
/// written. `written` is a store [`InMemoryStorage::set_server_timestamp`]
/// has just run on with the value `t`, and `read` is what
/// [`InMemoryStorage::server_timestamp`] then returns of it, as the two
/// contracts state.
pub proof fn lemma_checkpoint_round_trip(written: InMemoryStorage, t: i64, read: Option<i64>)
    requires
        written.checkpoint() == Some(t),
        read == written.checkpoint(),
    ensures
        read == Some(t),
{
}

} // verus!
