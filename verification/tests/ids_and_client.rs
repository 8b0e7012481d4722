//! Identifier newtypes, client configuration, response classification, and
//! name resolution.

use zenmoney_rs::client::{classify_response, ClientConfig, ZenMoneyClientBuilder};
use zenmoney_rs::error::ZenMoneyError;
use zenmoney_rs::models::{AccountId, CompanyId, InstrumentId, MerchantId, UserId};
use zenmoney_rs::zen_money::resolve_name;

#[test]
fn id_from_inner() {
    let id: UserId = 42_i64.into();
    assert_eq!(*id.as_inner(), 42);

    let id: AccountId = "abc".to_owned().into();
    assert_eq!(id.as_inner(), "abc");
}

#[test]
fn id_into_inner() {
    let id = UserId::new(7);
    assert_eq!(id.into_inner(), 7);

    let id = MerchantId::new("m-1".to_owned());
    assert_eq!(id.into_inner(), "m-1");
}

#[test]
fn copy_id_is_copy() {
    let id = UserId::new(1);
    let id2 = id;
    // Both still usable — Copy semantics.
    assert_eq!(id, id2);
}

#[test]
fn different_id_types_are_distinct() {
    let _user = UserId::new(1);
    let _instrument = InstrumentId::new(1);
    let _company = CompanyId::new(1);
}

#[test]
fn string_id_equality_is_by_value() {
    let a = AccountId::new("same".to_owned());
    let b = AccountId::new("same".to_owned());
    let c = AccountId::new("other".to_owned());
    assert_eq!(a, b);
    assert_ne!(a, c);
    assert_eq!(a.clone(), b);
}

#[test]
fn resolve_name_found() {
    let result = resolve_name("account", "Test", |_| Ok(Some(42_i32)));
    assert_eq!(result, Some(42_i32));
}

#[test]
fn resolve_name_not_found() {
    let result = resolve_name::<i32, _>("account", "Missing", |_| Ok(None));
    assert!(result.is_none());
}

#[test]
fn resolve_name_lookup_error() {
    let result = resolve_name::<i32, _>("account", "Bad", |_| {
        Err(ZenMoneyError::Storage("lookup failed".to_owned()))
    });
    assert!(result.is_none());
}

#[test]
fn builder_requires_token() {
    let result = ZenMoneyClientBuilder::new().build();
    assert!(result.is_err());
    assert!(matches!(result, Err(ZenMoneyError::TokenExpired)));
}

#[test]
fn builder_with_token_succeeds() {
    let config = ZenMoneyClientBuilder::new()
        .token("test-token".to_owned())
        .build()
        .unwrap();
    assert_eq!(config.base_url, "https://api.zenmoney.ru");
    assert_eq!(config.token, "test-token");
}

#[test]
fn builder_custom_base_url() {
    let config = ZenMoneyClientBuilder::new()
        .token("test-token".to_owned())
        .base_url("http://localhost:8080".to_owned())
        .build()
        .unwrap();
    assert_eq!(config.base_url, "http://localhost:8080");
}

#[test]
fn classify_response_accepts_success_statuses() {
    assert_eq!(
        classify_response(200, "body".to_owned()),
        Ok("body".to_owned())
    );
    assert_eq!(
        classify_response(299, "ok".to_owned()),
        Ok("ok".to_owned())
    );
}

#[test]
fn classify_response_wraps_failures_as_api_errors() {
    let err = classify_response(404, "missing".to_owned()).unwrap_err();
    assert_eq!(
        err,
        ZenMoneyError::Api { status: 404, message: "missing".to_owned() }
    );
    let err = classify_response(199, "early".to_owned()).unwrap_err();
    assert!(matches!(err, ZenMoneyError::Api { status: 199, .. }));
}

#[test]
fn client_config_carries_plain_values() {
    let config = ClientConfig {
        token: "test-token".to_owned(),
        base_url: "https://api.zenmoney.ru".to_owned(),
    };
    assert_eq!(config.token, "test-token");
    assert_eq!(config.base_url, "https://api.zenmoney.ru");
}
