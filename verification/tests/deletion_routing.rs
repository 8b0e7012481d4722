//! Deletion-notice classification and identifier parsing.

use zenmoney_rs::error::ZenMoneyError;
use zenmoney_rs::models::{Date, Deletion, DiffResponse, InstrumentId};
use zenmoney_rs::parse::{parse_date, parse_i32, parse_i64};
use zenmoney_rs::sync::GroupedDeletions;

fn notice(object: &str, id: &str) -> Deletion {
    Deletion {
        id: id.to_owned(),
        object: object.to_owned(),
        stamp: 100,
        user: 1_i64,
    }
}

fn response_with_deletions(deletion: Vec<Deletion>) -> DiffResponse {
    DiffResponse {
        server_timestamp: 100,
        instrument: Vec::new(),
        company: Vec::new(),
        user: Vec::new(),
        account: Vec::new(),
        tag: Vec::new(),
        merchant: Vec::new(),
        transaction: Vec::new(),
        country: Vec::new(),
        reminder: Vec::new(),
        reminder_marker: Vec::new(),
        budget: Vec::new(),
        deletion,
    }
}

#[test]
fn grouped_deletions_parses_entity_types() {
    let response = response_with_deletions(vec![
        notice("account", "acc-1"),
        notice("instrument", "42"),
        notice("unknownType", "unknown-id"),
    ]);

    let groups = GroupedDeletions::from_response(&response).unwrap();
    assert_eq!(groups.accounts.len(), 1);
    assert_eq!(groups.instruments.len(), 1);
    assert_eq!(groups.instruments[0], InstrumentId::new(42_i32));
}

#[test]
fn grouped_deletions_invalid_numeric_id_errors() {
    let response = response_with_deletions(vec![notice("instrument", "not-a-number")]);

    assert!(GroupedDeletions::from_response(&response).is_err());
}

#[test]
fn deletion_classification_scenario() {
    // The bucket for each recognized kind gets its notice; an unrecognized
    // kind is skipped without failing the batch.
    let response = response_with_deletions(vec![
        notice("account", "a-1"),
        notice("instrument", "42"),
        notice("bogus", "x"),
    ]);
    let groups = GroupedDeletions::from_response(&response).unwrap();
    assert_eq!(groups.accounts.len(), 1);
    assert_eq!(groups.accounts[0].as_inner(), "a-1");
    assert_eq!(groups.instruments, vec![InstrumentId::new(42)]);
    assert!(groups.transactions.is_empty());
    assert!(groups.tags.is_empty());
    assert!(groups.merchants.is_empty());
    assert!(groups.companies.is_empty());
    assert!(groups.countries.is_empty());
    assert!(groups.users.is_empty());
    assert!(groups.reminders.is_empty());
    assert!(groups.reminder_markers.is_empty());
}

#[test]
fn route_fills_every_recognized_bucket() {
    let response = response_with_deletions(vec![
        notice("transaction", "t-1"),
        notice("tag", "g-1"),
        notice("merchant", "m-1"),
        notice("company", "7"),
        notice("country", "3"),
        notice("user", "12"),
        notice("reminder", "r-1"),
        notice("reminderMarker", "rm-1"),
    ]);
    let groups = GroupedDeletions::from_response(&response).unwrap();
    assert_eq!(groups.transactions[0].as_inner(), "t-1");
    assert_eq!(groups.tags[0].as_inner(), "g-1");
    assert_eq!(groups.merchants[0].as_inner(), "m-1");
    assert_eq!(groups.companies[0].into_inner(), 7);
    assert_eq!(groups.countries, vec![3]);
    assert_eq!(groups.users[0].into_inner(), 12);
    assert_eq!(groups.reminders[0].as_inner(), "r-1");
    assert_eq!(groups.reminder_markers[0].as_inner(), "rm-1");
}

#[test]
fn route_failure_names_the_bad_identifier() {
    let response = response_with_deletions(vec![
        notice("account", "a-1"),
        notice("user", "not-numeric"),
    ]);
    let err = GroupedDeletions::from_response(&response).unwrap_err();
    assert!(matches!(err, ZenMoneyError::InvalidDeletionId(_)));
}

#[test]
fn push_deletion_skips_unknown_kind() {
    let mut groups = GroupedDeletions::new();
    assert!(groups.push_deletion("spaceship", "anything").is_ok());
    assert!(groups.accounts.is_empty());
}

#[test]
fn parse_i64_reads_plain_and_signed_numbers() {
    assert_eq!(parse_i64("42"), Some(42));
    assert_eq!(parse_i64("+42"), Some(42));
    assert_eq!(parse_i64("-42"), Some(-42));
    assert_eq!(parse_i64("0"), Some(0));
}

#[test]
fn parse_i64_rejects_malformed_text() {
    assert_eq!(parse_i64(""), None);
    assert_eq!(parse_i64("-"), None);
    assert_eq!(parse_i64("+"), None);
    assert_eq!(parse_i64("12a"), None);
    assert_eq!(parse_i64("a12"), None);
    assert_eq!(parse_i64(" 12"), None);
    assert_eq!(parse_i64("1 2"), None);
    assert_eq!(parse_i64("--1"), None);
}

#[test]
fn parse_i64_handles_the_extreme_values() {
    assert_eq!(parse_i64("9223372036854775807"), Some(i64::MAX));
    assert_eq!(parse_i64("9223372036854775808"), None);
    assert_eq!(parse_i64("-9223372036854775808"), Some(i64::MIN));
    assert_eq!(parse_i64("-9223372036854775809"), None);
    assert_eq!(parse_i64("99999999999999999999999999"), None);
}

#[test]
fn parse_i32_respects_its_range() {
    assert_eq!(parse_i32("2147483647"), Some(i32::MAX));
    assert_eq!(parse_i32("2147483648"), None);
    assert_eq!(parse_i32("-2147483648"), Some(i32::MIN));
    assert_eq!(parse_i32("-2147483649"), None);
    assert_eq!(parse_i32("17"), Some(17));
    assert_eq!(parse_i32("x"), None);
}

#[test]
fn parse_date_valid() {
    let date = parse_date("2024-01-15").unwrap();
    assert_eq!(date, Date::from_ymd_opt(2024, 1, 15).unwrap());
}

#[test]
fn parse_date_invalid() {
    assert!(parse_date("not-a-date").is_none());
    assert!(parse_date("01-15-2024").is_none());
}

#[test]
fn parse_date_respects_month_lengths() {
    assert!(parse_date("2024-02-29").is_some());
    assert!(parse_date("2023-02-29").is_none());
    assert!(parse_date("2024-04-31").is_none());
    assert!(parse_date("2024-13-01").is_none());
    assert!(parse_date("2024-00-10").is_none());
    assert!(parse_date("2024-01-00").is_none());
}

#[test]
fn date_validity_follows_the_calendar() {
    assert!(Date::from_ymd_opt(2024, 2, 29).is_some());
    assert!(Date::from_ymd_opt(2023, 2, 29).is_none());
    assert!(Date::from_ymd_opt(2000, 2, 29).is_some());
    assert!(Date::from_ymd_opt(1900, 2, 29).is_none());
    assert!(Date::from_ymd_opt(2024, 6, 31).is_none());
    assert!(Date::from_ymd_opt(2024, 12, 31).is_some());
}
