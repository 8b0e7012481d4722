//! Query filter evaluation and cache lookups.

use zenmoney_rs::models::{
    Account, AccountId, AccountType, Date, Instrument, InstrumentId, MerchantId, Tag, TagId,
    Transaction, TransactionId, UserId,
};
use zenmoney_rs::storage::InMemoryStorage;
use zenmoney_rs::zen_money::{
    active_accounts, filter_transactions, find_account_by_title, find_tag_by_title, instrument,
    transactions_by_account, transactions_by_date, TransactionFilter,
};

fn test_account(id: &str, title: &str, archive: bool) -> Account {
    Account {
        id: AccountId::new(id.to_owned()),
        changed: 1_700_000_000,
        user: UserId::new(1_i64),
        role: None,
        instrument: Some(InstrumentId::new(1_i32)),
        company: None,
        kind: AccountType::Checking,
        title: title.to_owned(),
        sync_id: None,
        balance: Some(0),
        start_balance: None,
        credit_limit: None,
        in_balance: true,
        savings: None,
        enable_correction: false,
        enable_sms: false,
        archive,
        capitalization: None,
        percent: None,
        start_date: None,
        end_date_offset: None,
        end_date_offset_interval: None,
        payoff_step: None,
        payoff_interval: None,
    }
}

fn test_tag(id: &str, title: &str) -> Tag {
    Tag {
        id: TagId::new(id.to_owned()),
        changed: 1_700_000_000,
        user: UserId::new(1_i64),
        title: title.to_owned(),
        parent: None,
        icon: None,
        picture: None,
        color: None,
        show_income: true,
        show_outcome: true,
        budget_income: false,
        budget_outcome: false,
        required: None,
    }
}

fn test_transaction(id: &str, account_id: &str, date: Date) -> Transaction {
    Transaction {
        id: TransactionId::new(id.to_owned()),
        changed: 1_700_000_000,
        created: 1_700_000_000,
        user: UserId::new(1_i64),
        deleted: false,
        hold: None,
        income_instrument: InstrumentId::new(1_i32),
        income_account: AccountId::new(account_id.to_owned()),
        income: 0,
        outcome_instrument: InstrumentId::new(1_i32),
        outcome_account: AccountId::new(account_id.to_owned()),
        outcome: 100,
        tag: None,
        merchant: None,
        payee: None,
        original_payee: None,
        comment: None,
        date,
        mcc: None,
        reminder_marker: None,
        op_income: None,
        op_income_instrument: None,
        op_outcome: None,
        op_outcome_instrument: None,
        income_bank_id: None,
        outcome_bank_id: None,
        qr_code: None,
        source: None,
        viewed: None,
    }
}

#[allow(clippy::too_many_arguments)]
fn test_transaction_full(
    id: &str,
    account_id: &str,
    date: Date,
    income: i64,
    outcome: i64,
    tag: Option<Vec<TagId>>,
    payee: Option<&str>,
    merchant: Option<MerchantId>,
) -> Transaction {
    let mut tx = test_transaction(id, account_id, date);
    tx.income = income;
    tx.outcome = outcome;
    tx.tag = tag;
    tx.payee = payee.map(ToOwned::to_owned);
    tx.merchant = merchant;
    tx
}

fn ymd(y: i32, m: u8, d: u8) -> Date {
    Date::from_ymd_opt(y, m, d).unwrap()
}

#[test]
fn filter_default_matches_all() {
    let filter = TransactionFilter::new();
    let tx = test_transaction("tx-1", "a-1", ymd(2024, 6, 15));
    assert!(filter.matches(&tx));
}

#[test]
fn filter_date_range() {
    let filter = TransactionFilter::new().date_range(ymd(2024, 1, 1), ymd(2024, 6, 30));
    let inside = test_transaction("t1", "a-1", ymd(2024, 3, 15));
    let before = test_transaction("t2", "a-1", ymd(2023, 12, 31));
    let after = test_transaction("t3", "a-1", ymd(2024, 7, 1));
    let on_boundary = test_transaction("t4", "a-1", ymd(2024, 1, 1));

    assert!(filter.matches(&inside));
    assert!(!filter.matches(&before));
    assert!(!filter.matches(&after));
    assert!(filter.matches(&on_boundary));
}

#[test]
fn filter_account() {
    let filter = TransactionFilter::new().account(AccountId::new("acc-target".to_owned()));
    let matching = test_transaction("t1", "acc-target", ymd(2024, 1, 1));
    let not_matching = test_transaction("t2", "acc-other", ymd(2024, 1, 1));

    assert!(filter.matches(&matching));
    assert!(!filter.matches(&not_matching));
}

#[test]
fn filter_account_matches_income_account() {
    let filter = TransactionFilter::new().account(AccountId::new("acc-target".to_owned()));
    let mut tx = test_transaction("t1", "acc-other", ymd(2024, 1, 1));
    tx.income_account = AccountId::new("acc-target".to_owned());

    assert!(filter.matches(&tx));
}

#[test]
fn filter_tag() {
    let tag_id = TagId::new("tag-food".to_owned());
    let filter = TransactionFilter::new().tag(tag_id.clone());

    let with_tag = test_transaction_full(
        "t1",
        "a-1",
        ymd(2024, 1, 1),
        0,
        100,
        Some(vec![tag_id]),
        None,
        None,
    );
    let without_tag =
        test_transaction_full("t2", "a-1", ymd(2024, 1, 1), 0, 100, None, None, None);
    let other_tag = test_transaction_full(
        "t3",
        "a-1",
        ymd(2024, 1, 1),
        0,
        100,
        Some(vec![TagId::new("tag-other".to_owned())]),
        None,
        None,
    );

    assert!(filter.matches(&with_tag));
    assert!(!filter.matches(&without_tag));
    assert!(!filter.matches(&other_tag));
}

#[test]
fn filter_payee_case_insensitive() {
    let filter = TransactionFilter::new().payee("coffee".to_owned());

    let matching = test_transaction_full(
        "t1",
        "a-1",
        ymd(2024, 1, 1),
        0,
        100,
        None,
        Some("Coffee Shop"),
        None,
    );
    let not_matching = test_transaction_full(
        "t2",
        "a-1",
        ymd(2024, 1, 1),
        0,
        100,
        None,
        Some("Restaurant"),
        None,
    );
    let no_payee = test_transaction_full("t3", "a-1", ymd(2024, 1, 1), 0, 100, None, None, None);

    assert!(filter.matches(&matching));
    assert!(!filter.matches(&not_matching));
    assert!(!filter.matches(&no_payee));
}

#[test]
fn filter_merchant() {
    let merchant_id = MerchantId::new("m-1".to_owned());
    let filter = TransactionFilter::new().merchant(merchant_id.clone());

    let matching = test_transaction_full(
        "t1",
        "a-1",
        ymd(2024, 1, 1),
        0,
        100,
        None,
        None,
        Some(merchant_id),
    );
    let not_matching =
        test_transaction_full("t2", "a-1", ymd(2024, 1, 1), 0, 100, None, None, None);

    assert!(filter.matches(&matching));
    assert!(!filter.matches(&not_matching));
}

#[test]
fn filter_amount_range() {
    let filter = TransactionFilter::new().amount_range(50, 200);

    let in_range = test_transaction_full("t1", "a-1", ymd(2024, 1, 1), 0, 100, None, None, None);
    let below_range =
        test_transaction_full("t2", "a-1", ymd(2024, 1, 1), 0, 10, None, None, None);
    let above_range =
        test_transaction_full("t3", "a-1", ymd(2024, 1, 1), 0, 500, None, None, None);
    // Income in range even though outcome is 0.
    let income_in_range =
        test_transaction_full("t4", "a-1", ymd(2024, 1, 1), 150, 0, None, None, None);

    assert!(filter.matches(&in_range));
    assert!(!filter.matches(&below_range));
    assert!(!filter.matches(&above_range));
    assert!(filter.matches(&income_in_range));
}

#[test]
fn filter_combined_criteria() {
    let filter = TransactionFilter::new()
        .date_range(ymd(2024, 1, 1), ymd(2024, 12, 31))
        .account(AccountId::new("a-1".to_owned()))
        .payee("coffee".to_owned());

    // Matches all criteria.
    let matching = test_transaction_full(
        "t1",
        "a-1",
        ymd(2024, 6, 15),
        0,
        100,
        None,
        Some("Coffee Shop"),
        None,
    );
    // Wrong account.
    let wrong_account = test_transaction_full(
        "t2",
        "a-2",
        ymd(2024, 6, 15),
        0,
        100,
        None,
        Some("Coffee Shop"),
        None,
    );
    // Wrong date.
    let wrong_date = test_transaction_full(
        "t3",
        "a-1",
        ymd(2025, 1, 1),
        0,
        100,
        None,
        Some("Coffee Shop"),
        None,
    );

    assert!(filter.matches(&matching));
    assert!(!filter.matches(&wrong_account));
    assert!(!filter.matches(&wrong_date));
}

#[test]
fn query_active_accounts() {
    let mut storage = InMemoryStorage::new();
    let acc1 = test_account("a-1", "Active", false);
    let acc2 = test_account("a-2", "Archived", true);
    storage.accounts.merge_upsert(vec![acc1, acc2]);

    let active = active_accounts(storage.accounts.read_all());
    assert_eq!(active.len(), 1);
    assert_eq!(active[0].title, "Active");
}

#[test]
fn query_find_tag_by_title() {
    let mut storage = InMemoryStorage::new();
    let tag = test_tag("t-1", "Groceries");
    storage.tags.merge_upsert(vec![tag]);

    let found = find_tag_by_title(storage.tags.read_all(), "groceries");
    assert!(found.is_some());
    assert_eq!(found.unwrap().id, TagId::new("t-1".to_owned()));
}

#[test]
fn query_transactions_by_date() {
    let mut storage = InMemoryStorage::new();
    let tx1 = test_transaction("tx-1", "a-1", ymd(2024, 1, 15));
    let tx2 = test_transaction("tx-2", "a-1", ymd(2024, 2, 15));
    let tx3 = test_transaction("tx-3", "a-1", ymd(2024, 3, 15));
    storage.transactions.merge_upsert(vec![tx1, tx2, tx3]);

    let filtered = transactions_by_date(
        storage.transactions.read_all(),
        ymd(2024, 1, 1),
        ymd(2024, 2, 28),
    );
    assert_eq!(filtered.len(), 2);
}

#[test]
fn filter_transactions_via_storage() {
    let mut storage = InMemoryStorage::new();
    let tx1 = test_transaction_full(
        "tx-1",
        "a-1",
        ymd(2024, 1, 15),
        0,
        100,
        None,
        Some("Coffee Shop"),
        None,
    );
    let tx2 = test_transaction_full(
        "tx-2",
        "a-2",
        ymd(2024, 2, 15),
        0,
        200,
        Some(vec![TagId::new("tag-food".to_owned())]),
        Some("Restaurant"),
        None,
    );
    let tx3 =
        test_transaction_full("tx-3", "a-1", ymd(2024, 3, 15), 500, 0, None, None, None);
    storage.transactions.merge_upsert(vec![tx1, tx2, tx3]);

    // Filter by payee.
    let filter = TransactionFilter::new().payee("coffee".to_owned());
    let results = filter_transactions(storage.transactions.read_all(), &filter);
    assert_eq!(results.len(), 1);
    assert_eq!(results[0].id, TransactionId::new("tx-1".to_owned()));

    // Filter by tag.
    let filter = TransactionFilter::new().tag(TagId::new("tag-food".to_owned()));
    let results = filter_transactions(storage.transactions.read_all(), &filter);
    assert_eq!(results.len(), 1);
    assert_eq!(results[0].id, TransactionId::new("tx-2".to_owned()));

    // Filter by amount.
    let filter = TransactionFilter::new().amount_range(150, 600);
    let results = filter_transactions(storage.transactions.read_all(), &filter);
    assert_eq!(results.len(), 2);
}

#[test]
fn query_transactions_by_account() {
    let txs = vec![
        test_transaction("tx-1", "a-1", ymd(2024, 1, 1)),
        test_transaction("tx-2", "a-2", ymd(2024, 1, 2)),
    ];
    let results = transactions_by_account(&txs, AccountId::new("a-2".to_owned()));
    assert_eq!(results.len(), 1);
    assert_eq!(results[0].id, TransactionId::new("tx-2".to_owned()));
}

#[test]
fn query_find_account_by_title() {
    let accounts = vec![
        test_account("a-1", "Main Checking", false),
        test_account("a-2", "Savings", false),
    ];
    let found = find_account_by_title(&accounts, "MAIN CHECKING");
    assert!(found.is_some());
    assert_eq!(found.unwrap().id, AccountId::new("a-1".to_owned()));
    assert!(find_account_by_title(&accounts, "Missing").is_none());
}

#[test]
fn query_instrument_by_key() {
    let instruments = vec![
        zenmoney_rs::models::Instrument {
            id: InstrumentId::new(1),
            changed: 1_700_000_000,
            title: "US Dollar".to_owned(),
            short_title: "USD".to_owned(),
            symbol: "$".to_owned(),
            rate: 92_500_000,
        },
        zenmoney_rs::models::Instrument {
            id: InstrumentId::new(2),
            changed: 1_700_000_000,
            title: "Euro".to_owned(),
            short_title: "EUR".to_owned(),
            symbol: "E".to_owned(),
            rate: 100_000_000,
        },
    ];
    let found = instrument(&instruments, InstrumentId::new(2));
    assert!(found.is_some());
    assert_eq!(found.unwrap().short_title, "EUR");
    assert!(instrument(&instruments, InstrumentId::new(3)).is_none());
}

#[test]
fn payee_filter_does_not_match_substring_of_other_payee() {
    let filter = TransactionFilter::new().payee("shop".to_owned());
    let tx = test_transaction_full(
        "t1",
        "a-1",
        ymd(2024, 1, 1),
        0,
        100,
        None,
        Some("SHOPPING MALL"),
        None,
    );
    assert!(filter.matches(&tx));
}

#[test]
fn amount_filter_min_only_and_max_only() {
    let mut min_only = TransactionFilter::new();
    min_only.min_amount = Some(50);
    let mut max_only = TransactionFilter::new();
    max_only.max_amount = Some(200);

    let small = test_transaction_full("t1", "a-1", ymd(2024, 1, 1), 0, 10, None, None, None);
    let large = test_transaction_full("t2", "a-1", ymd(2024, 1, 1), 0, 500, None, None, None);

    assert!(!min_only.matches(&small));
    assert!(min_only.matches(&large));
    assert!(max_only.matches(&small));
    assert!(!max_only.matches(&large));
}
