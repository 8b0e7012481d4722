//! Newtype wrappers for entity identifiers.
//!
//! These prevent accidentally mixing up identifiers of different entity
//! types at compile time. Reference entities carry numeric identifiers;
//! user-authored entities carry string (UUID-like) identifiers.

use vstd::prelude::*;

verus! {

/// Unique identifier for a user.
#[derive(Debug, Clone, Copy, PartialEq, Eq, Structural)]
pub struct UserId(i64);

impl View for UserId {
    type V = i64;

    closed spec fn view(&self) -> i64 {
        self.0
    }
}

impl UserId {
    /// Creates a new identifier from the given value.
    pub fn new(value: i64) -> (r: Self)
        ensures
            r@ == value,
    {
        UserId(value)
    }

    /// Returns a reference to the inner value.
    pub fn as_inner(&self) -> (r: &i64)
        ensures
            *r == self@,
    {
        &self.0
    }

    /// Consumes the wrapper and returns the inner value.
    pub fn into_inner(self) -> (r: i64)
        ensures
            r == self@,
    {
        self.0
    }

    /// Whether the two identifiers carry the same value.
    pub fn eq_value(&self, other: &Self) -> (b: bool)
        ensures
            b == (self@ == other@),
    {
        self.0 == other.0
    }
}

impl From<i64> for UserId {
    fn from(value: i64) -> (r: Self) {
        UserId(value)
    }
}

impl vstd::std_specs::convert::FromSpecImpl<i64> for UserId {
    open spec fn obeys_from_spec() -> bool {
        true
    }

    closed spec fn from_spec(value: i64) -> Self {
        UserId(value)
    }
}

/// Unique identifier for a currency/financial instrument.
#[derive(Debug, Clone, Copy, PartialEq, Eq, Structural)]
pub struct InstrumentId(i32);

impl View for InstrumentId {
    type V = i32;

    closed spec fn view(&self) -> i32 {
        self.0
    }
}

impl InstrumentId {
    /// Creates a new identifier from the given value.
    pub fn new(value: i32) -> (r: Self)
        ensures
            r@ == value,
    {
        InstrumentId(value)
    }

    /// Returns a reference to the inner value.
    pub fn as_inner(&self) -> (r: &i32)
        ensures
            *r == self@,
    {
        &self.0
    }

    /// Consumes the wrapper and returns the inner value.
    pub fn into_inner(self) -> (r: i32)
        ensures
            r == self@,
    {
        self.0
    }

    /// Whether the two identifiers carry the same value.
    pub fn eq_value(&self, other: &Self) -> (b: bool)
        ensures
            b == (self@ == other@),
    {
        self.0 == other.0
    }
}

impl From<i32> for InstrumentId {
    fn from(value: i32) -> (r: Self) {
        InstrumentId(value)
    }
}

impl vstd::std_specs::convert::FromSpecImpl<i32> for InstrumentId {
    open spec fn obeys_from_spec() -> bool {
        true
    }

    closed spec fn from_spec(value: i32) -> Self {
        InstrumentId(value)
    }
}

/// Unique identifier for a financial company/institution.
#[derive(Debug, Clone, Copy, PartialEq, Eq, Structural)]
pub struct CompanyId(i32);

impl View for CompanyId {
    type V = i32;

    closed spec fn view(&self) -> i32 {
        self.0
    }
}

impl CompanyId {
    /// Creates a new identifier from the given value.
    pub fn new(value: i32) -> (r: Self)
        ensures
            r@ == value,
    {
        CompanyId(value)
    }

    /// Returns a reference to the inner value.
    pub fn as_inner(&self) -> (r: &i32)
        ensures
            *r == self@,
    {
        &self.0
    }

    /// Consumes the wrapper and returns the inner value.
    pub fn into_inner(self) -> (r: i32)
        ensures
            r == self@,
    {
        self.0
    }

    /// Whether the two identifiers carry the same value.
    pub fn eq_value(&self, other: &Self) -> (b: bool)
        ensures
            b == (self@ == other@),
    {
        self.0 == other.0
    }
}

impl From<i32> for CompanyId {
    fn from(value: i32) -> (r: Self) {
        CompanyId(value)
    }
}

impl vstd::std_specs::convert::FromSpecImpl<i32> for CompanyId {
    open spec fn obeys_from_spec() -> bool {
        true
    }

    closed spec fn from_spec(value: i32) -> Self {
        CompanyId(value)
    }
}

/// Unique identifier for a user account (UUID string).
#[derive(Debug)]
pub struct AccountId(String);

impl View for AccountId {
    type V = Seq<char>;

    closed spec fn view(&self) -> Seq<char> {
        self.0@
    }
}

impl AccountId {
    /// Creates a new identifier from the given string.
    pub fn new(value: String) -> (r: Self)
        ensures
            r@ == value@,
    {
        AccountId(value)
    }

    /// Returns a reference to the inner string.
    pub fn as_inner(&self) -> (r: &str)
        ensures
            r@ == self@,
    {
        self.0.as_str()
    }

    /// Consumes the wrapper and returns the inner string.
    pub fn into_inner(self) -> (r: String)
        ensures
            r@ == self@,
    {
        self.0
    }
}

impl Clone for AccountId {
    fn clone(&self) -> (r: Self)
        ensures
            r@ == self@,
    {
        AccountId(self.0.clone())
    }
}

impl PartialEq for AccountId {
    fn eq(&self, other: &Self) -> bool {
        self.0 == other.0
    }
}

impl vstd::std_specs::cmp::PartialEqSpecImpl for AccountId {
    open spec fn obeys_eq_spec() -> bool {
        true
    }

    open spec fn eq_spec(&self, other: &Self) -> bool {
        self@ == other@
    }
}

impl From<String> for AccountId {
    fn from(value: String) -> (r: Self) {
        AccountId(value)
    }
}

impl vstd::std_specs::convert::FromSpecImpl<String> for AccountId {
    open spec fn obeys_from_spec() -> bool {
        true
    }

    closed spec fn from_spec(value: String) -> Self {
        AccountId(value)
    }
}

/// Unique identifier for a transaction category tag (UUID string).
#[derive(Debug)]
pub struct TagId(String);

impl View for TagId {
    type V = Seq<char>;

    closed spec fn view(&self) -> Seq<char> {
        self.0@
    }
}

impl TagId {
    /// Creates a new identifier from the given string.
    pub fn new(value: String) -> (r: Self)
        ensures
            r@ == value@,
    {
        TagId(value)
    }

    /// Returns a reference to the inner string.
    pub fn as_inner(&self) -> (r: &str)
        ensures
            r@ == self@,
    {
        self.0.as_str()
    }

    /// Consumes the wrapper and returns the inner string.
    pub fn into_inner(self) -> (r: String)
        ensures
            r@ == self@,
    {
        self.0
    }
}

impl Clone for TagId {
    fn clone(&self) -> (r: Self)
        ensures
            r@ == self@,
    {
        TagId(self.0.clone())
    }
}

impl PartialEq for TagId {
    fn eq(&self, other: &Self) -> bool {
        self.0 == other.0
    }
}

impl vstd::std_specs::cmp::PartialEqSpecImpl for TagId {
    open spec fn obeys_eq_spec() -> bool {
        true
    }

    open spec fn eq_spec(&self, other: &Self) -> bool {
        self@ == other@
    }
}

impl From<String> for TagId {
    fn from(value: String) -> (r: Self) {
        TagId(value)
    }
}

impl vstd::std_specs::convert::FromSpecImpl<String> for TagId {
    open spec fn obeys_from_spec() -> bool {
        true
    }

    closed spec fn from_spec(value: String) -> Self {
        TagId(value)
    }
}

/// Unique identifier for a merchant/payee (UUID string).
#[derive(Debug)]
pub struct MerchantId(String);

impl View for MerchantId {
    type V = Seq<char>;

    closed spec fn view(&self) -> Seq<char> {
        self.0@
    }
}

impl MerchantId {
    /// Creates a new identifier from the given string.
    pub fn new(value: String) -> (r: Self)
        ensures
            r@ == value@,
    {
        MerchantId(value)
    }

    /// Returns a reference to the inner string.
    pub fn as_inner(&self) -> (r: &str)
        ensures
            r@ == self@,
    {
        self.0.as_str()
    }

    /// Consumes the wrapper and returns the inner string.
    pub fn into_inner(self) -> (r: String)
        ensures
            r@ == self@,
    {
        self.0
    }
}

impl Clone for MerchantId {
    fn clone(&self) -> (r: Self)
        ensures
            r@ == self@,
    {
        MerchantId(self.0.clone())
    }
}

impl PartialEq for MerchantId {
    fn eq(&self, other: &Self) -> bool {
        self.0 == other.0
    }
}

impl vstd::std_specs::cmp::PartialEqSpecImpl for MerchantId {
    open spec fn obeys_eq_spec() -> bool {
        true
    }

    open spec fn eq_spec(&self, other: &Self) -> bool {
        self@ == other@
    }
}

impl From<String> for MerchantId {
    fn from(value: String) -> (r: Self) {
        MerchantId(value)
    }
}

impl vstd::std_specs::convert::FromSpecImpl<String> for MerchantId {
    open spec fn obeys_from_spec() -> bool {
        true
    }

    closed spec fn from_spec(value: String) -> Self {
        MerchantId(value)
    }
}

/// Unique identifier for a reminder (UUID string).
#[derive(Debug)]
pub struct ReminderId(String);

impl View for ReminderId {
    type V = Seq<char>;

    closed spec fn view(&self) -> Seq<char> {
        self.0@
    }
}

impl ReminderId {
    /// Creates a new identifier from the given string.
    pub fn new(value: String) -> (r: Self)
        ensures
            r@ == value@,
    {
        ReminderId(value)
    }

    /// Returns a reference to the inner string.
    pub fn as_inner(&self) -> (r: &str)
        ensures
            r@ == self@,
    {
        self.0.as_str()
    }

    /// Consumes the wrapper and returns the inner string.
    pub fn into_inner(self) -> (r: String)
        ensures
            r@ == self@,
    {
        self.0
    }
}

impl Clone for ReminderId {
    fn clone(&self) -> (r: Self)
        ensures
            r@ == self@,
    {
        ReminderId(self.0.clone())
    }
}

impl PartialEq for ReminderId {
    fn eq(&self, other: &Self) -> bool {
        self.0 == other.0
    }
}

impl vstd::std_specs::cmp::PartialEqSpecImpl for ReminderId {
    open spec fn obeys_eq_spec() -> bool {
        true
    }

    open spec fn eq_spec(&self, other: &Self) -> bool {
        self@ == other@
    }
}

impl From<String> for ReminderId {
    fn from(value: String) -> (r: Self) {
        ReminderId(value)
    }
}

impl vstd::std_specs::convert::FromSpecImpl<String> for ReminderId {
    open spec fn obeys_from_spec() -> bool {
        true
    }

    closed spec fn from_spec(value: String) -> Self {
        ReminderId(value)
    }
}

/// Unique identifier for a reminder marker instance (UUID string).
#[derive(Debug)]
pub struct ReminderMarkerId(String);

impl View for ReminderMarkerId {
    type V = Seq<char>;

    closed spec fn view(&self) -> Seq<char> {
        self.0@
    }
}

impl ReminderMarkerId {
    /// Creates a new identifier from the given string.
    pub fn new(value: String) -> (r: Self)
        ensures
            r@ == value@,
    {
        ReminderMarkerId(value)
    }

    /// Returns a reference to the inner string.
    pub fn as_inner(&self) -> (r: &str)
        ensures
            r@ == self@,
    {
        self.0.as_str()
    }

    /// Consumes the wrapper and returns the inner string.
    pub fn into_inner(self) -> (r: String)
        ensures
            r@ == self@,
    {
        self.0
    }
}

impl Clone for ReminderMarkerId {
    fn clone(&self) -> (r: Self)
        ensures
            r@ == self@,
    {
        ReminderMarkerId(self.0.clone())
    }
}

impl PartialEq for ReminderMarkerId {
    fn eq(&self, other: &Self) -> bool {
        self.0 == other.0
    }
}

impl vstd::std_specs::cmp::PartialEqSpecImpl for ReminderMarkerId {
    open spec fn obeys_eq_spec() -> bool {
        true
    }

    open spec fn eq_spec(&self, other: &Self) -> bool {
        self@ == other@
    }
}

impl From<String> for ReminderMarkerId {
    fn from(value: String) -> (r: Self) {
        ReminderMarkerId(value)
    }
}

impl vstd::std_specs::convert::FromSpecImpl<String> for ReminderMarkerId {
    open spec fn obeys_from_spec() -> bool {
        true
    }

    closed spec fn from_spec(value: String) -> Self {
        ReminderMarkerId(value)
    }
}

/// Unique identifier for a transaction (UUID string).
#[derive(Debug)]
pub struct TransactionId(String);

impl View for TransactionId {
    type V = Seq<char>;

    closed spec fn view(&self) -> Seq<char> {
        self.0@
    }
}

impl TransactionId {
    /// Creates a new identifier from the given string.
    pub fn new(value: String) -> (r: Self)
        ensures
            r@ == value@,
    {
        TransactionId(value)
    }

    /// Returns a reference to the inner string.
    pub fn as_inner(&self) -> (r: &str)
        ensures
            r@ == self@,
    {
        self.0.as_str()
    }

    /// Consumes the wrapper and returns the inner string.
    pub fn into_inner(self) -> (r: String)
        ensures
            r@ == self@,
    {
        self.0
    }
}

impl Clone for TransactionId {
    fn clone(&self) -> (r: Self)
        ensures
            r@ == self@,
    {
        TransactionId(self.0.clone())
    }
}

impl PartialEq for TransactionId {
    fn eq(&self, other: &Self) -> bool {
        self.0 == other.0
    }
}

impl vstd::std_specs::cmp::PartialEqSpecImpl for TransactionId {
    open spec fn obeys_eq_spec() -> bool {
        true
    }

    open spec fn eq_spec(&self, other: &Self) -> bool {
        self@ == other@
    }
}

impl From<String> for TransactionId {
    fn from(value: String) -> (r: Self) {
        TransactionId(value)
    }
}

impl vstd::std_specs::convert::FromSpecImpl<String> for TransactionId {
    open spec fn obeys_from_spec() -> bool {
        true
    }

    closed spec fn from_spec(value: String) -> Self {
        TransactionId(value)
    }
}

} // verus!
