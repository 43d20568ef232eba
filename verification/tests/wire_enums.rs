//! The string-coded enums: wire text round trips, the intentional
//! doubled-`l` spelling of the canceled deposit state, error-name
//! mapping, and the decoded market warning flag.

use upbit_client::constant::{OrderBy, TransactionType, TwoFactorType, WithdrawType};
use upbit_client::deposit::DepositState;
use upbit_client::errors::{api_error_name_of, ApiErrorName};
use upbit_client::response::{MarketState, MarketStateSource, TransactionInfoSource};

#[test]
fn order_by_round_trips() {
    assert_eq!(OrderBy::Asc.to_text(), "asc");
    assert_eq!(OrderBy::Desc.to_text(), "desc");
    assert_eq!(OrderBy::parse("asc"), Some(OrderBy::Asc));
    assert_eq!(OrderBy::parse("desc"), Some(OrderBy::Desc));
    assert_eq!(OrderBy::parse("sideways"), None);
}

#[test]
fn withdraw_type_round_trips() {
    assert_eq!(WithdrawType::Default.to_text(), "default");
    assert_eq!(WithdrawType::Internal.to_text(), "internal");
    assert_eq!(WithdrawType::parse("default"), Some(WithdrawType::Default));
    assert_eq!(WithdrawType::parse("internal"), Some(WithdrawType::Internal));
    assert_eq!(WithdrawType::parse("external"), None);
}

#[test]
fn transaction_type_round_trips() {
    assert_eq!(TransactionType::Withdraw.to_text(), "withdraw");
    assert_eq!(TransactionType::Deposit.to_text(), "deposit");
    assert_eq!(TransactionType::parse("withdraw"), Some(TransactionType::Withdraw));
    assert_eq!(TransactionType::parse("deposit"), Some(TransactionType::Deposit));
    assert_eq!(TransactionType::parse("transfer"), None);
}

#[test]
fn two_factor_type_wire_text() {
    assert_eq!(TwoFactorType::KakaoPay.to_text(), "kakao_pay");
    assert_eq!(TwoFactorType::Naver.to_text(), "naver");
}

#[test]
fn deposit_state_round_trips_with_doubled_l_spelling() {
    assert_eq!(DepositState::Canceled.to_text(), "cancelled");
    assert_eq!(DepositState::parse("cancelled"), Some(DepositState::Canceled));
    assert_eq!(DepositState::parse("canceled"), None);
    let all = [
        DepositState::Processing,
        DepositState::Accepted,
        DepositState::Canceled,
        DepositState::Rejected,
        DepositState::TravelRuleSuspected,
        DepositState::Refunding,
        DepositState::Refunded,
    ];
    for s in all {
        assert_eq!(DepositState::parse(&s.to_text()), Some(s));
    }
}

#[test]
fn known_error_names_map_to_their_variants() {
    assert_eq!(api_error_name_of("invalid_access_key"), ApiErrorName::InvalidAccessKey);
    assert_eq!(api_error_name_of("expired_access_key"), ApiErrorName::ExpiredAccessKey);
    assert_eq!(api_error_name_of("jwt_verification"), ApiErrorName::JwtVerification);
    assert_eq!(api_error_name_of("nonce_used"), ApiErrorName::NonceUsed);
    assert_eq!(api_error_name_of("invalid_query_payload"), ApiErrorName::InvalidQueryPayload);
    assert_eq!(api_error_name_of("out_of_scope"), ApiErrorName::OutOfScope);
    assert_eq!(api_error_name_of("never_seen_before"), ApiErrorName::Unknown);
}

#[test]
fn transaction_record_accessors_decode_the_coded_fields() {
    let source = TransactionInfoSource {
        kind: "deposit".to_string(),
        uuid: "9f432943-54e0-40b7-825f-b6fec8b42b79".to_string(),
        currency: "KRW".to_string(),
        net_type: None,
        txid: "ebe6937b".to_string(),
        state: "processing".to_string(),
        created_at: "2018-04-13T11:24:01+09:00".to_string(),
        done_at: None,
        amount: "0.01".to_string(),
        fee: "0.0".to_string(),
        transaction_type: "default".to_string(),
    };
    assert_eq!(source.kind(), TransactionType::Deposit);
    assert_eq!(source.uuid(), "9f432943-54e0-40b7-825f-b6fec8b42b79");
    assert_eq!(source.currency(), "KRW");
    assert_eq!(source.net_type(), None);
    assert_eq!(source.txid(), "ebe6937b");
    assert_eq!(source.state(), DepositState::Processing);
    assert_eq!(source.transaction_type(), WithdrawType::Default);
}

#[test]
fn market_warning_is_decoded_structurally() {
    let none = MarketState::from_source(MarketStateSource {
        market: "KRW-ETH".to_string(),
        korean_name: "a".to_string(),
        english_name: "b".to_string(),
        market_warning: Some("NONE".to_string()),
    });
    assert_eq!(none.market_warning, Some(false));
    let caution = MarketState::from_source(MarketStateSource {
        market: "KRW-ETH".to_string(),
        korean_name: "a".to_string(),
        english_name: "b".to_string(),
        market_warning: Some("CAUTION".to_string()),
    });
    assert_eq!(caution.market_warning, Some(true));
    let absent = MarketState::from_source(MarketStateSource {
        market: "KRW-ETH".to_string(),
        korean_name: "a".to_string(),
        english_name: "b".to_string(),
        market_warning: None,
    });
    assert_eq!(absent.market_warning, None);
    assert_eq!(absent.market, "KRW-ETH");
}
