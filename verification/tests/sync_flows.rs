//! Applying diff responses to the store: incremental sync, full resync, and
//! the request/notice builders around them.

use zenmoney_rs::models::{
    Account, AccountId, AccountType, Deletion, DiffRequest, DiffResponse, InstrumentId, User,
    UserId,
};
use zenmoney_rs::storage::InMemoryStorage;
use zenmoney_rs::sync::{apply_diff, apply_full_sync, base_diff_request, build_deletions,
    first_user_id};

fn test_account(id: &str, title: &str, archive: bool) -> Account {
    Account {
        id: AccountId::new(id.to_owned()),
        changed: 1_700_000_000,
        user: UserId::new(1_i64),
        role: None,
        instrument: Some(InstrumentId::new(1_i32)),
        company: None,
        kind: AccountType::Checking,
        title: title.to_owned(),
        sync_id: None,
        balance: Some(0),
        start_balance: None,
        credit_limit: None,
        in_balance: true,
        savings: None,
        enable_correction: false,
        enable_sms: false,
        archive,
        capitalization: None,
        percent: None,
        start_date: None,
        end_date_offset: None,
        end_date_offset_interval: None,
        payoff_step: None,
        payoff_interval: None,
    }
}

fn empty_response(server_timestamp: i64) -> DiffResponse {
    DiffResponse {
        server_timestamp,
        instrument: Vec::new(),
        company: Vec::new(),
        user: Vec::new(),
        account: Vec::new(),
        tag: Vec::new(),
        merchant: Vec::new(),
        transaction: Vec::new(),
        country: Vec::new(),
        reminder: Vec::new(),
        reminder_marker: Vec::new(),
        budget: Vec::new(),
        deletion: Vec::new(),
    }
}

#[test]
fn apply_diff_upserts_and_deletes() {
    let acc1 = test_account("a-1", "First", false);
    let acc2 = test_account("a-2", "Second", false);

    let mut response = empty_response(200);
    response.account = vec![acc1, acc2];
    response.deletion = vec![Deletion {
        id: "a-1".to_owned(),
        object: "account".to_owned(),
        stamp: 200,
        user: 1_i64,
    }];

    let mut storage = InMemoryStorage::new();
    apply_diff(&mut storage, response).unwrap();

    let accounts = storage.accounts.read_all();
    assert_eq!(accounts.len(), 1);
    assert_eq!(accounts[0].title, "Second");

    assert_eq!(storage.server_timestamp(), Some(200));
}

#[test]
fn incremental_sync_scenario() {
    // Incremental sync with an empty prior checkpoint: the response carries
    // two new accounts and one deletion notice for one of them; afterwards
    // exactly the non-deleted account is cached and the checkpoint equals
    // the response's.
    let mut storage = InMemoryStorage::new();
    assert!(storage.server_timestamp().is_none());

    let request = base_diff_request(storage.server_timestamp());
    assert_eq!(request.server_timestamp, 0);

    let mut response = empty_response(1_700_000_500);
    response.account = vec![
        test_account("a-new-1", "Fresh One", false),
        test_account("a-new-2", "Fresh Two", false),
    ];
    response.deletion = vec![Deletion {
        id: "a-new-1".to_owned(),
        object: "account".to_owned(),
        stamp: 1_700_000_500,
        user: 1_i64,
    }];

    apply_diff(&mut storage, response).unwrap();

    let accounts = storage.accounts.read_all();
    assert_eq!(accounts.len(), 1);
    assert_eq!(accounts[0].id, AccountId::new("a-new-2".to_owned()));
    assert_eq!(storage.server_timestamp(), Some(1_700_000_500));
}

#[test]
fn full_resync_clears_stale_data() {
    // Seed the store with stale data and a checkpoint, apply a full resync,
    // and verify no stale entity the fresh response did not reintroduce
    // remains.
    let mut storage = InMemoryStorage::new();
    storage
        .accounts
        .merge_upsert(vec![test_account("stale-1", "Stale", false)]);
    storage
        .transactions
        .merge_upsert(Vec::new());
    storage.set_server_timestamp(1_700_000_000);

    let mut response = empty_response(1_700_000_900);
    response.account = vec![test_account("fresh-1", "Fresh", false)];

    apply_full_sync(&mut storage, response).unwrap();

    let accounts = storage.accounts.read_all();
    assert_eq!(accounts.len(), 1);
    assert_eq!(accounts[0].id, AccountId::new("fresh-1".to_owned()));
    assert_eq!(storage.server_timestamp(), Some(1_700_000_900));
}

#[test]
fn failed_routing_keeps_the_old_checkpoint() {
    // A malformed numeric deletion identifier aborts the sync after the
    // upserts, without removing anything and without advancing the
    // checkpoint, so a retry resumes from the old checkpoint.
    let mut storage = InMemoryStorage::new();
    storage.set_server_timestamp(1_000);

    let mut response = empty_response(2_000);
    response.account = vec![test_account("a-1", "First", false)];
    response.deletion = vec![Deletion {
        id: "not-a-number".to_owned(),
        object: "instrument".to_owned(),
        stamp: 2_000,
        user: 1_i64,
    }];

    assert!(apply_diff(&mut storage, response).is_err());
    assert_eq!(storage.server_timestamp(), Some(1_000));
    assert_eq!(storage.accounts.read_all().len(), 1);
}

#[test]
fn base_diff_request_uses_the_checkpoint() {
    let from_zero = base_diff_request(None);
    assert_eq!(from_zero.server_timestamp, 0);
    assert!(from_zero.account.is_empty());
    assert!(from_zero.deletion.is_empty());

    let resumed = base_diff_request(Some(1_700_000_123));
    assert_eq!(resumed.server_timestamp, 1_700_000_123);
}

#[test]
fn sync_only_request_is_read_only() {
    let request = DiffRequest::sync_only(100, 200);
    assert_eq!(request.server_timestamp, 100);
    assert_eq!(request.current_client_timestamp, 200);
    assert!(request.force_fetch.is_empty());
    assert!(request.account.is_empty());
    assert!(request.tag.is_empty());
    assert!(request.merchant.is_empty());
    assert!(request.transaction.is_empty());
    assert!(request.reminder.is_empty());
    assert!(request.reminder_marker.is_empty());
    assert!(request.budget.is_empty());
    assert!(request.deletion.is_empty());
}

#[test]
fn build_deletions_stamps_every_notice() {
    let ids = vec!["t-1".to_owned(), "t-2".to_owned()];
    let notices = build_deletions(&ids, "transaction", 1_700_000_400, 7);
    assert_eq!(notices.len(), 2);
    assert_eq!(notices[0].id, "t-1");
    assert_eq!(notices[1].id, "t-2");
    for n in &notices {
        assert_eq!(n.object, "transaction");
        assert_eq!(n.stamp, 1_700_000_400);
        assert_eq!(n.user, 7);
    }
}

#[test]
fn first_user_id_defaults_to_zero() {
    let none: Vec<User> = Vec::new();
    assert_eq!(first_user_id(&none), 0);

    let users = vec![
        User {
            id: UserId::new(42),
            changed: 1_700_000_000,
            login: None,
            currency: InstrumentId::new(1),
            parent: None,
            country: None,
            country_code: None,
            email: None,
            is_forecast_enabled: None,
            month_start_day: None,
            paid_till: None,
            plan_balance_mode: None,
            plan_settings: None,
            subscription: None,
            subscription_renewal_date: None,
        },
    ];
    assert_eq!(first_user_id(&users), 42);
}

#[test]
fn apply_diff_is_idempotent_per_key() {
    // Re-applying a response (at-least-once redelivery) leaves the same
    // cache content.
    let mut response = empty_response(300);
    response.account = vec![test_account("a-1", "One", false)];

    let mut storage = InMemoryStorage::new();
    apply_diff(&mut storage, response.clone()).unwrap();
    let first: Vec<String> = storage
        .accounts
        .read_all()
        .iter()
        .map(|a| a.id.as_inner().to_owned())
        .collect();
    apply_diff(&mut storage, response).unwrap();
    let second: Vec<String> = storage
        .accounts
        .read_all()
        .iter()
        .map(|a| a.id.as_inner().to_owned())
        .collect();
    assert_eq!(first, second);
    assert_eq!(storage.server_timestamp(), Some(300));
}
