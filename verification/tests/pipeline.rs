//! Request preparation: local validation happens before any request
//! exists, URLs carry the exact canonical query string, and headers
//! follow the endpoint's needs.

use upbit_client::credentials::CredentialStore;
use upbit_client::errors::ErrorKind;
use upbit_client::request::{
    prepare_account_info, prepare_candle_day, prepare_candle_minute, prepare_candle_month,
    prepare_coin_address_generation, prepare_deposit_krw, prepare_market_state,
    prepare_order_state, prepare_trade_recent, prepare_withdraw_address, prepare_withdraw_chance,
    prepare_withdraw_krw, Method,
};
use upbit_client::constant::TwoFactorType;

fn configured() -> CredentialStore {
    let mut store = CredentialStore::new();
    store.set_credentials("ak", "sk");
    store
}

#[test]
fn both_parameters_given_is_rejected_locally() {
    let store = configured();
    let r = prepare_order_state(&store, Some("u"), Some("i"));
    let e = r.unwrap_err();
    assert_eq!(e.kind, ErrorKind::LocalInvalidParameter);
    assert_eq!(e.message, "only one parameter of uuid and identifier must be specified.");
}

#[test]
fn neither_parameter_given_is_rejected_locally_with_its_own_message() {
    let store = configured();
    let r = prepare_order_state(&store, None, None);
    let e = r.unwrap_err();
    assert_eq!(e.kind, ErrorKind::LocalInvalidParameter);
    assert_eq!(e.message, "either parameter uuid or identifier must be specified.");
}

#[test]
fn order_state_with_uuid_builds_the_signed_request() {
    let store = configured();
    let p = prepare_order_state(&store, Some("9f432943"), None).unwrap();
    assert_eq!(p.method, Method::Get);
    assert_eq!(p.url, "https://api.upbit.com/v1/order?uuid=9f432943");
    assert!(!p.has_json_body);
    assert!(p.authorization.unwrap().starts_with("Bearer "));
}

#[test]
fn order_state_with_identifier_builds_the_signed_request() {
    let store = configured();
    let p = prepare_order_state(&store, None, Some("my-order-1")).unwrap();
    assert_eq!(p.url, "https://api.upbit.com/v1/order?identifier=my-order-1");
}

#[test]
fn missing_credentials_fail_before_any_request_exists() {
    let store = CredentialStore::new();
    let e = prepare_order_state(&store, Some("u"), None).unwrap_err();
    assert_eq!(e.kind, ErrorKind::LocalMissingCredentials);
    let e = prepare_account_info(&store).unwrap_err();
    assert_eq!(e.kind, ErrorKind::LocalMissingCredentials);
    let e = prepare_withdraw_chance(&store, "ETH", "ETH").unwrap_err();
    assert_eq!(e.kind, ErrorKind::LocalMissingCredentials);
}

#[test]
fn account_info_is_signed_without_query() {
    let store = configured();
    let p = prepare_account_info(&store).unwrap();
    assert_eq!(p.method, Method::Get);
    assert_eq!(p.url, "https://api.upbit.com/v1/accounts");
    assert!(p.authorization.is_some());
    assert!(!p.has_json_body);
}

#[test]
fn market_state_is_public() {
    let p = prepare_market_state(true);
    assert_eq!(p.method, Method::Get);
    assert_eq!(p.url, "https://api.upbit.com/v1/market/all?isDetails=true");
    assert!(p.authorization.is_none());
    let p = prepare_market_state(false);
    assert_eq!(p.url, "https://api.upbit.com/v1/market/all?isDetails=false");
}

#[test]
fn withdraw_chance_url_is_exact() {
    let store = configured();
    let p = prepare_withdraw_chance(&store, "ETH", "ETH").unwrap();
    assert_eq!(p.url, "https://api.upbit.com/v1/withdraws/chance?currency=ETH&net_type=ETH");
    assert!(p.authorization.is_some());
}

#[test]
fn withdraw_krw_is_a_signed_post_with_body() {
    let store = configured();
    let p = prepare_withdraw_krw(&store, "10000", TwoFactorType::KakaoPay).unwrap();
    assert_eq!(p.method, Method::Post);
    assert_eq!(
        p.url,
        "https://api.upbit.com/v1/withdraws/krw?amount=10000&two_factor_type=kakao_pay"
    );
    assert!(p.has_json_body);
    assert!(p.authorization.is_some());
}

#[test]
fn deposit_krw_is_a_signed_post_with_body() {
    let store = configured();
    let p = prepare_deposit_krw(&store, "5000.5", TwoFactorType::Naver).unwrap();
    assert_eq!(p.method, Method::Post);
    assert_eq!(
        p.url,
        "https://api.upbit.com/v1/deposits/krw?amount=5000.5&two_factor_type=naver"
    );
}

#[test]
fn coin_address_generation_is_a_signed_post() {
    let store = configured();
    let p = prepare_coin_address_generation(&store, "ETH", "ETH").unwrap();
    assert_eq!(p.method, Method::Post);
    assert_eq!(
        p.url,
        "https://api.upbit.com/v1/deposits/generate_coin_address?currency=ETH&net_type=ETH"
    );
    assert!(p.has_json_body);
}

#[test]
fn withdraw_address_listing_is_signed_without_query() {
    let store = configured();
    let p = prepare_withdraw_address(&store).unwrap();
    assert_eq!(p.url, "https://api.upbit.comv1/withdraws/coin_addresses");
    assert!(p.authorization.is_some());
}

#[test]
fn trade_recent_url_keeps_wire_order() {
    let p = prepare_trade_recent("KRW-ETH", Some("120101"), 3, "0", Some(2));
    assert_eq!(
        p.url,
        "https://api.upbit.com/v1/trades/ticks?market=KRW-ETH&count=3&cursor=0&to=120101&daysAgo=2"
    );
    assert!(p.authorization.is_none());
}

#[test]
fn candle_urls_are_exact() {
    let day = prepare_candle_day("KRW-ETH", 5, None, None);
    assert_eq!(day.url, "https://api.upbit.com/v1/candles/days?market=KRW-ETH&count=5");
    let month = prepare_candle_month("KRW-BTC", 2, Some("2023-01-01T00:00:00Z"));
    assert_eq!(
        month.url,
        "https://api.upbit.com/v1/candles/months?market=KRW-BTC&count=2&to=2023-01-01T00%3A00%3A00Z"
    );
    let minute = prepare_candle_minute("KRW-ETH", None, 7, 15);
    assert_eq!(minute.url, "https://api.upbit.com/v1/candles/minutes/15?market=KRW-ETH&count=7");
}
