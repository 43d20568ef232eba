//! Request preparation: everything about an outgoing call that can be
//! decided before any byte goes on the wire.
//!
//! A [`PreparedRequest`] fixes the method, the absolute URL (with the
//! canonical query string appended verbatim — the same bytes the token's
//! query hash was computed over, so the signed and wire forms cannot
//! disagree), the `Authorization` value for endpoints that need one, and
//! whether a JSON body accompanies the request. The HTTP executor adds
//! `Accept: application/json` always and `Content-Type: application/json`
//! exactly when `has_json_body` is set; it makes no decisions of its own.
//!
//! Local validation — conflicting parameters, missing credentials — is
//! finished before a request is prepared, so a rejected call provably
//! never reaches the network.

use vstd::prelude::*;
use vstd::utf8::encode_utf8;
use crate::constant::{
    OrderBy, URL_ACCOUNTS, URL_CANDLE_DAY, URL_CANDLE_MINUTE, URL_CANDLE_MONTH, URL_DEPOSITS,
    URL_DEPOSITS_KRW, URL_MARKET_STATE, URL_ORDER_STATUS, URL_SERVER, URL_TRADES_TICKS,
    URL_WITHDRAWS_CHANCE, URL_WITHDRAWS_COIN_ADDRESS, URL_WITHDRAWS_KRW, TwoFactorType,
};
use crate::deposit::{spec_deposit_state_text, DepositState};
use crate::numtext::{lemma_udec_ascii, spec_udec, u64_text};
use crate::credentials::CredentialStore;
use crate::errors::{ErrorKind, ResponseError};
use crate::numtext::{bool_text, i32_text, lemma_idec_chars_bytes, spec_idec};
use crate::text::lemma_ascii_chars_bytes;
use crate::query::{
    canonical_query_bytes, lemma_canonical_query_ascii, lemma_params_bytes_push,
    spec_canonical_query, spec_params_bytes,
};
use crate::text::{ascii_to_string, spec_ascii_chars};
use crate::token::{authorization_value, sign_token, spec_query_view, spec_token};

verus! {

/// HTTP method of a prepared request.
#[derive(Debug, Clone, Copy, PartialEq, Eq, Structural)]
pub enum Method {
    Get,
    Post,
}

/// A fully prepared outgoing request.
#[derive(Debug)]
pub struct PreparedRequest {
    pub method: Method,
    /// The absolute URL, query string included.
    pub url: String,
    /// The `Authorization` value, present exactly when the endpoint
    /// requires a signed identity.
    pub authorization: Option<String>,
    /// Whether a JSON body accompanies the request (and with it the
    /// `Content-Type: application/json` header).
    pub has_json_body: bool,
}

/// The token's query binding for a parameter list: absent for a
/// parameter-less request, the canonical query string otherwise.
pub open spec fn spec_query_binding(ps: Seq<(Seq<u8>, Seq<u8>)>) -> Option<Seq<u8>> {
    if ps.len() == 0 {
        None
    } else {
        Some(spec_canonical_query(ps))
    }
}

/// The absolute URL for a path and parameter list: the server address,
/// the path, and `?` plus the canonical query string when there is one.
pub open spec fn spec_url_with(path: Seq<char>, ps: Seq<(Seq<u8>, Seq<u8>)>) -> Seq<char> {
    URL_SERVER@ + path + if ps.len() == 0 {
        Seq::<char>::empty()
    } else {
        seq!['?'] + spec_ascii_chars(spec_canonical_query(ps))
    }
}

/// `a` is a bearer authorization carrying a token signed with the given
/// keys, bound to the parameter list's canonical query string, under
/// some 36-character nonce.
pub open spec fn spec_bearer_for(
    a: Seq<char>,
    access: Seq<char>,
    secret: Seq<char>,
    ps: Seq<(Seq<u8>, Seq<u8>)>,
) -> bool {
    exists|nonce: Seq<char>|
        nonce.len() == 36 && a == "Bearer "@ + spec_ascii_chars(
            spec_token(
                encode_utf8(access),
                encode_utf8(secret),
                encode_utf8(nonce),
                spec_query_binding(ps),
            ),
        )
}

/// A prepared request for an endpoint that requires a signed identity.
pub open spec fn spec_auth_prepared(
    p: PreparedRequest,
    store: CredentialStore,
    method: Method,
    path: Seq<char>,
    ps: Seq<(Seq<u8>, Seq<u8>)>,
    has_json_body: bool,
) -> bool {
    &&& p.method == method
    &&& p.has_json_body == has_json_body
    &&& p.url@ == spec_url_with(path, ps)
    &&& p.authorization matches Some(a) && spec_bearer_for(
        a@,
        store.spec_access_key().unwrap(),
        store.spec_secret_key().unwrap(),
        ps,
    )
}

/// A prepared request for a public endpoint: no authorization attached.
pub open spec fn spec_public_prepared(
    p: PreparedRequest,
    method: Method,
    path: Seq<char>,
    ps: Seq<(Seq<u8>, Seq<u8>)>,
    has_json_body: bool,
) -> bool {
    &&& p.method == method
    &&& p.has_json_body == has_json_body
    &&& p.url@ == spec_url_with(path, ps)
    &&& p.authorization is None
}

/// The error returned when credentials are required but not configured.
pub open spec fn spec_missing_credentials_err(e: ResponseError) -> bool {
    &&& e.kind == ErrorKind::LocalMissingCredentials
    &&& e.name@ == "internal_missing_credentials"@
    &&& e.message@ == "access key or secret key is not set."@
}

/// Prepares a request: builds the URL around the canonical query string
/// and, when the endpoint requires it, signs a token bound to exactly
/// that string. Fails — before anything could reach the network — iff
/// a signed identity is required and the credentials are not configured.
pub fn prepare(
    store: &CredentialStore,
    method: Method,
    path: &str,
    params: &Vec<(String, String)>,
    needs_auth: bool,
    has_json_body: bool,
) -> (r: Result<PreparedRequest, ResponseError>)
    ensures
        r is Ok <==> (!needs_auth || store.is_configured()),
        r matches Err(e) ==> spec_missing_credentials_err(e),
        r matches Ok(p) ==> {
            &&& p.method == method
            &&& p.has_json_body == has_json_body
            &&& p.url@ == spec_url_with(path@, spec_params_bytes(params@))
            &&& (needs_auth ==> (p.authorization matches Some(a) && spec_bearer_for(
                a@,
                store.spec_access_key().unwrap(),
                store.spec_secret_key().unwrap(),
                spec_params_bytes(params@),
            )))
            &&& (!needs_auth ==> p.authorization is None)
        },
{
    let ghost ps = spec_params_bytes(params@);
    let canonical = canonical_query_bytes(params);
    let authorization: Option<String> = if needs_auth {
        let creds = match store.credentials() {
            Ok(c) => c,
            Err(e) => {
                return Err(e);
            },
        };
        let qref = canonical.as_ref();
        let token = sign_token(&creds, qref);
        proof {
            assert(spec_query_view(qref) == spec_query_binding(ps));
        }
        let a = authorization_value(&token);
        proof {
            let nonce = choose|nonce: Seq<char>|
                nonce.len() == 36 && token.value@ == spec_ascii_chars(
                    spec_token(
                        encode_utf8(creds.access_key@),
                        encode_utf8(creds.secret_key@),
                        encode_utf8(nonce),
                        spec_query_view(qref),
                    ),
                );
            assert(a@ == "Bearer "@ + spec_ascii_chars(
                spec_token(
                    encode_utf8(store.spec_access_key().unwrap()),
                    encode_utf8(store.spec_secret_key().unwrap()),
                    encode_utf8(nonce),
                    spec_query_binding(ps),
                ),
            ));
        }
        Some(a)
    } else {
        None
    };
    let mut url = URL_SERVER.to_owned();
    url.append(path);
    match canonical {
        None => {
            proof {
                assert(url@ =~= spec_url_with(path@, ps));
            }
        },
        Some(q) => {
            url.append("?");
            proof {
                lemma_canonical_query_ascii(ps);
            }
            let qtext = ascii_to_string(q);
            url.append(qtext.as_str());
            proof {
                reveal_strlit("?");
                assert("?"@ =~= seq!['?']);
                assert(qtext@ =~= spec_ascii_chars(spec_canonical_query(ps)));
                assert(url@ =~= spec_url_with(path@, ps));
            }
        },
    }
    Ok(PreparedRequest { method, url, authorization, has_json_body })
}

/// The ordered parameters of an order-status inquiry, when exactly one
/// of `uuid` and `identifier` is given.
pub open spec fn spec_order_state_params(u: Option<&str>, id: Option<&str>) -> Seq<
    (Seq<u8>, Seq<u8>),
> {
    match (u, id) {
        (Some(u), None) => seq![(encode_utf8("uuid"@), encode_utf8(u@))],
        (None, Some(id)) => seq![(encode_utf8("identifier"@), encode_utf8(id@))],
        _ => Seq::empty(),
    }
}

/// Validates the order-status parameters: exactly one of `uuid` and
/// `identifier` must be given. Both or neither is rejected locally,
/// each with its own message, before any request is prepared.
pub fn order_state_params(uuid: Option<&str>, identifier: Option<&str>) -> (r: Result<
    Vec<(String, String)>,
    ResponseError,
>)
    ensures
        uuid is None && identifier is None ==> (r matches Err(e) && e.kind
            == ErrorKind::LocalInvalidParameter && e.name@
            == "internal_neither_parameter_specified"@ && e.message@
            == "either parameter uuid or identifier must be specified."@),
        uuid is Some && identifier is Some ==> (r matches Err(e) && e.kind
            == ErrorKind::LocalInvalidParameter && e.name@ == "internal_more_parameter_specified"@
            && e.message@ == "only one parameter of uuid and identifier must be specified."@),
        (uuid is Some <==> identifier is None) ==> (r matches Ok(ps) && spec_params_bytes(ps@)
            == spec_order_state_params(uuid, identifier)),
{
    match (uuid, identifier) {
        (None, None) => Err(ResponseError {
            kind: ErrorKind::LocalInvalidParameter,
            name: "internal_neither_parameter_specified".to_owned(),
            message: "either parameter uuid or identifier must be specified.".to_owned(),
        }),
        (Some(_), Some(_)) => Err(ResponseError {
            kind: ErrorKind::LocalInvalidParameter,
            name: "internal_more_parameter_specified".to_owned(),
            message: "only one parameter of uuid and identifier must be specified.".to_owned(),
        }),
        (Some(u), None) => {
            let mut ps: Vec<(String, String)> = Vec::new();
            ps.push(("uuid".to_owned(), u.to_owned()));
            proof {
                assert(spec_params_bytes(ps@) =~= spec_order_state_params(uuid, identifier));
            }
            Ok(ps)
        },
        (None, Some(id)) => {
            let mut ps: Vec<(String, String)> = Vec::new();
            ps.push(("identifier".to_owned(), id.to_owned()));
            proof {
                assert(spec_params_bytes(ps@) =~= spec_order_state_params(uuid, identifier));
            }
            Ok(ps)
        },
    }
}

/// Prepares the order-status inquiry. Both or neither of `uuid` and
/// `identifier` is rejected with `LocalInvalidParameter`, and missing
/// credentials with `LocalMissingCredentials`, in that order, without
/// preparing any request.
pub fn prepare_order_state(
    store: &CredentialStore,
    uuid: Option<&str>,
    identifier: Option<&str>,
) -> (r: Result<PreparedRequest, ResponseError>)
    ensures
        uuid is None && identifier is None ==> (r matches Err(e) && e.kind
            == ErrorKind::LocalInvalidParameter && e.message@
            == "either parameter uuid or identifier must be specified."@),
        uuid is Some && identifier is Some ==> (r matches Err(e) && e.kind
            == ErrorKind::LocalInvalidParameter && e.message@
            == "only one parameter of uuid and identifier must be specified."@),
        (uuid is Some <==> identifier is None) && !store.is_configured() ==> (r matches Err(e)
            && spec_missing_credentials_err(e)),
        (uuid is Some <==> identifier is None) && store.is_configured() ==> (r matches Ok(p)
            && spec_auth_prepared(
            p,
            *store,
            Method::Get,
            URL_ORDER_STATUS@,
            spec_order_state_params(uuid, identifier),
            false,
        )),
{
    let params = match order_state_params(uuid, identifier) {
        Ok(ps) => ps,
        Err(e) => {
            return Err(e);
        },
    };
    prepare(store, Method::Get, URL_ORDER_STATUS, &params, true, false)
}

/// Prepares the account-balance inquiry: a signed, parameter-less read.
pub fn prepare_account_info(store: &CredentialStore) -> (r: Result<
    PreparedRequest,
    ResponseError,
>)
    ensures
        r is Ok <==> store.is_configured(),
        r matches Err(e) ==> spec_missing_credentials_err(e),
        r matches Ok(p) ==> spec_auth_prepared(
            p,
            *store,
            Method::Get,
            URL_ACCOUNTS@,
            Seq::empty(),
            false,
        ),
{
    let params: Vec<(String, String)> = Vec::new();
    proof {
        assert(spec_params_bytes(params@) =~= Seq::<(Seq<u8>, Seq<u8>)>::empty());
    }
    prepare(store, Method::Get, URL_ACCOUNTS, &params, true, false)
}

/// The single parameter of the market-list inquiry.
pub open spec fn spec_market_state_params(is_detailed: bool) -> Seq<(Seq<u8>, Seq<u8>)> {
    seq![
        (
            encode_utf8("isDetails"@),
            if is_detailed {
                encode_utf8("true"@)
            } else {
                encode_utf8("false"@)
            },
        ),
    ]
}

/// Prepares a public, body-less request: no signature attached, and
/// nothing to fail on.
fn prepare_public_request(method: Method, path: &str, params: &Vec<(String, String)>) -> (r:
    PreparedRequest)
    ensures
        spec_public_prepared(r, method, path@, spec_params_bytes(params@), false),
{
    let store = CredentialStore::new();
    match prepare(&store, method, path, params, false, false) {
        Ok(p) => p,
        Err(_) => {
            proof {
                assert(false);
            }
            PreparedRequest {
                method: Method::Get,
                url: String::new(),
                authorization: None,
                has_json_body: false,
            }
        },
    }
}

/// Prepares the market-list inquiry: public, no signature.
pub fn prepare_market_state(is_detailed: bool) -> (r: PreparedRequest)
    ensures
        spec_public_prepared(
            r,
            Method::Get,
            URL_MARKET_STATE@,
            spec_market_state_params(is_detailed),
            false,
        ),
{
    let mut params: Vec<(String, String)> = Vec::new();
    params.push(("isDetails".to_owned(), bool_text(is_detailed)));
    proof {
        assert(spec_params_bytes(params@) =~= spec_market_state_params(is_detailed));
    }
    prepare_public_request(Method::Get, URL_MARKET_STATE, &params)
}

/// The parameters of the recent-trades listing, in wire order.
pub open spec fn spec_trade_recent_params(
    market: Seq<char>,
    hhmmss: Option<&str>,
    count: int,
    cursor: Seq<char>,
    days_ago: Option<i32>,
) -> Seq<(Seq<u8>, Seq<u8>)> {
    seq![
        (encode_utf8("market"@), encode_utf8(market)),
        (encode_utf8("count"@), spec_idec(count)),
        (encode_utf8("cursor"@), encode_utf8(cursor)),
    ] + match hhmmss {
        Some(t) => seq![(encode_utf8("to"@), encode_utf8(t@))],
        None => Seq::empty(),
    } + match days_ago {
        Some(d) => seq![(encode_utf8("daysAgo"@), spec_idec(d as int))],
        None => Seq::empty(),
    }
}

/// Prepares the recent-trades listing: public, no signature.
pub fn prepare_trade_recent(
    market: &str,
    hhmmss: Option<&str>,
    count: i32,
    cursor: &str,
    days_ago: Option<i32>,
) -> (r: PreparedRequest)
    ensures
        spec_public_prepared(
            r,
            Method::Get,
            URL_TRADES_TICKS@,
            spec_trade_recent_params(market@, hhmmss, count as int, cursor@, days_ago),
            false,
        ),
{
    let mut params: Vec<(String, String)> = Vec::new();
    params.push(("market".to_owned(), market.to_owned()));
    params.push(("count".to_owned(), i32_text(count)));
    params.push(("cursor".to_owned(), cursor.to_owned()));
    if let Some(t) = hhmmss {
        params.push(("to".to_owned(), t.to_owned()));
    }
    if let Some(d) = days_ago {
        params.push(("daysAgo".to_owned(), i32_text(d)));
    }
    proof {
        lemma_idec_chars_bytes(count as int);
        if days_ago is Some {
            lemma_idec_chars_bytes(days_ago.unwrap() as int);
        }
        assert(spec_params_bytes(params@) =~= spec_trade_recent_params(
            market@,
            hhmmss,
            count as int,
            cursor@,
            days_ago,
        ));
    }
    prepare_public_request(Method::Get, URL_TRADES_TICKS, &params)
}

/// The parameters of a candle listing: the market and count, then the
/// optional end time and converting price unit.
pub open spec fn spec_candle_params(
    market: Seq<char>,
    count: int,
    to: Option<&str>,
    price_unit: Option<&str>,
) -> Seq<(Seq<u8>, Seq<u8>)> {
    seq![
        (encode_utf8("market"@), encode_utf8(market)),
        (encode_utf8("count"@), spec_idec(count)),
    ] + match to {
        Some(t) => seq![(encode_utf8("to"@), encode_utf8(t@))],
        None => Seq::empty(),
    } + match price_unit {
        Some(u) => seq![(encode_utf8("convertingPriceUnit"@), encode_utf8(u@))],
        None => Seq::empty(),
    }
}

/// Builds the shared candle parameter list.
fn candle_params(market: &str, count: i32, to: Option<&str>, price_unit: Option<&str>) -> (r: Vec<
    (String, String),
>)
    ensures
        spec_params_bytes(r@) == spec_candle_params(market@, count as int, to, price_unit),
{
    let mut params: Vec<(String, String)> = Vec::new();
    params.push(("market".to_owned(), market.to_owned()));
    params.push(("count".to_owned(), i32_text(count)));
    if let Some(t) = to {
        params.push(("to".to_owned(), t.to_owned()));
    }
    if let Some(u) = price_unit {
        params.push(("convertingPriceUnit".to_owned(), u.to_owned()));
    }
    proof {
        lemma_idec_chars_bytes(count as int);
        assert(spec_params_bytes(params@) =~= spec_candle_params(
            market@,
            count as int,
            to,
            price_unit,
        ));
    }
    params
}

/// Prepares the day-candle listing: public, no signature.
pub fn prepare_candle_day(
    market: &str,
    count: i32,
    last_candle_time: Option<&str>,
    price_unit: Option<&str>,
) -> (r: PreparedRequest)
    ensures
        spec_public_prepared(
            r,
            Method::Get,
            URL_CANDLE_DAY@,
            spec_candle_params(market@, count as int, last_candle_time, price_unit),
            false,
        ),
{
    let params = candle_params(market, count, last_candle_time, price_unit);
    prepare_public_request(Method::Get, URL_CANDLE_DAY, &params)
}

/// Prepares the month-candle listing: public, no signature.
pub fn prepare_candle_month(market: &str, count: i32, last_candle_time: Option<&str>) -> (r:
    PreparedRequest)
    ensures
        spec_public_prepared(
            r,
            Method::Get,
            URL_CANDLE_MONTH@,
            spec_candle_params(market@, count as int, last_candle_time, None),
            false,
        ),
{
    let params = candle_params(market, count, last_candle_time, None);
    prepare_public_request(Method::Get, URL_CANDLE_MONTH, &params)
}

/// Prepares the minute-candle listing for a given minute unit: the unit
/// is part of the path, the rest are query parameters. Public.
pub fn prepare_candle_minute(market: &str, to: Option<&str>, count: i32, unit: i32) -> (r:
    PreparedRequest)
    ensures
        spec_public_prepared(
            r,
            Method::Get,
            URL_CANDLE_MINUTE@ + spec_ascii_chars(spec_idec(unit as int)),
            spec_candle_params(market@, count as int, to, None),
            false,
        ),
{
    let params = candle_params(market, count, to, None);
    let mut path = URL_CANDLE_MINUTE.to_owned();
    let unit_text = i32_text(unit);
    path.append(unit_text.as_str());
    prepare_public_request(Method::Get, path.as_str(), &params)
}

/// The parameters of the withdraw-chance inquiry.
pub open spec fn spec_currency_net_type_params(currency: Seq<char>, net_type: Seq<char>) -> Seq<
    (Seq<u8>, Seq<u8>),
> {
    seq![
        (encode_utf8("currency"@), encode_utf8(currency)),
        (encode_utf8("net_type"@), encode_utf8(net_type)),
    ]
}

/// Builds the (currency, net_type) parameter list shared by the
/// withdraw-chance and coin-address endpoints.
fn currency_net_type_params(currency: &str, net_type: &str) -> (r: Vec<(String, String)>)
    ensures
        spec_params_bytes(r@) == spec_currency_net_type_params(currency@, net_type@),
{
    let mut params: Vec<(String, String)> = Vec::new();
    params.push(("currency".to_owned(), currency.to_owned()));
    params.push(("net_type".to_owned(), net_type.to_owned()));
    proof {
        assert(spec_params_bytes(params@) =~= spec_currency_net_type_params(
            currency@,
            net_type@,
        ));
    }
    params
}

/// Prepares the withdraw-chance inquiry for a currency and network.
pub fn prepare_withdraw_chance(store: &CredentialStore, currency: &str, net_type: &str) -> (r:
    Result<PreparedRequest, ResponseError>)
    ensures
        r is Ok <==> store.is_configured(),
        r matches Err(e) ==> spec_missing_credentials_err(e),
        r matches Ok(p) ==> spec_auth_prepared(
            p,
            *store,
            Method::Get,
            URL_WITHDRAWS_CHANCE@,
            spec_currency_net_type_params(currency@, net_type@),
            false,
        ),
{
    let params = currency_net_type_params(currency, net_type);
    prepare(store, Method::Get, URL_WITHDRAWS_CHANCE, &params, true, false)
}

/// Prepares the coin-deposit-address generation request.
pub fn prepare_coin_address_generation(
    store: &CredentialStore,
    currency: &str,
    net_type: &str,
) -> (r: Result<PreparedRequest, ResponseError>)
    ensures
        r is Ok <==> store.is_configured(),
        r matches Err(e) ==> spec_missing_credentials_err(e),
        r matches Ok(p) ==> spec_auth_prepared(
            p,
            *store,
            Method::Post,
            crate::constant::URL_DEPOSITS_GENERATE_COIN_ADDRESS@,
            spec_currency_net_type_params(currency@, net_type@),
            true,
        ),
{
    let params = currency_net_type_params(currency, net_type);
    prepare(
        store,
        Method::Post,
        crate::constant::URL_DEPOSITS_GENERATE_COIN_ADDRESS,
        &params,
        true,
        true,
    )
}

/// Prepares the single deposit-address inquiry for a currency and
/// network.
pub fn prepare_coin_address_info(store: &CredentialStore, currency: &str, net_type: &str) -> (r:
    Result<PreparedRequest, ResponseError>)
    ensures
        r is Ok <==> store.is_configured(),
        r matches Err(e) ==> spec_missing_credentials_err(e),
        r matches Ok(p) ==> spec_auth_prepared(
            p,
            *store,
            Method::Get,
            crate::constant::URL_DEPOSITS_COIN_ADDRESS@,
            spec_currency_net_type_params(currency@, net_type@),
            false,
        ),
{
    let params = currency_net_type_params(currency, net_type);
    prepare(store, Method::Get, crate::constant::URL_DEPOSITS_COIN_ADDRESS, &params, true, false)
}

/// Prepares the deposit-address listing: signed, parameter-less.
pub fn prepare_coin_address_info_list(store: &CredentialStore) -> (r: Result<
    PreparedRequest,
    ResponseError,
>)
    ensures
        r is Ok <==> store.is_configured(),
        r matches Err(e) ==> spec_missing_credentials_err(e),
        r matches Ok(p) ==> spec_auth_prepared(
            p,
            *store,
            Method::Get,
            crate::constant::URL_DEPOSITS_COIN_ADDRESSES@,
            Seq::empty(),
            false,
        ),
{
    let params: Vec<(String, String)> = Vec::new();
    proof {
        assert(spec_params_bytes(params@) =~= Seq::<(Seq<u8>, Seq<u8>)>::empty());
    }
    prepare(store, Method::Get, crate::constant::URL_DEPOSITS_COIN_ADDRESSES, &params, true, false)
}

/// Prepares the coin-withdraw-address listing: signed, parameter-less.
pub fn prepare_withdraw_address(store: &CredentialStore) -> (r: Result<
    PreparedRequest,
    ResponseError,
>)
    ensures
        r is Ok <==> store.is_configured(),
        r matches Err(e) ==> spec_missing_credentials_err(e),
        r matches Ok(p) ==> spec_auth_prepared(
            p,
            *store,
            Method::Get,
            URL_WITHDRAWS_COIN_ADDRESS@,
            Seq::empty(),
            false,
        ),
{
    let params: Vec<(String, String)> = Vec::new();
    proof {
        assert(spec_params_bytes(params@) =~= Seq::<(Seq<u8>, Seq<u8>)>::empty());
    }
    prepare(store, Method::Get, URL_WITHDRAWS_COIN_ADDRESS, &params, true, false)
}

/// The parameters of a KRW transfer: the amount's text and the
/// two-factor channel.
pub open spec fn spec_krw_transfer_params(amount: Seq<char>, tf: TwoFactorType) -> Seq<
    (Seq<u8>, Seq<u8>),
> {
    seq![
        (encode_utf8("amount"@), encode_utf8(amount)),
        (
            encode_utf8("two_factor_type"@),
            if tf == TwoFactorType::KakaoPay {
                encode_utf8("kakao_pay"@)
            } else {
                encode_utf8("naver"@)
            },
        ),
    ]
}

/// Builds the (amount, two_factor_type) parameter list shared by the
/// KRW withdraw and deposit endpoints.
fn krw_transfer_params(amount: &str, two_factor_type: TwoFactorType) -> (r: Vec<(String, String)>)
    ensures
        spec_params_bytes(r@) == spec_krw_transfer_params(amount@, two_factor_type),
{
    let mut params: Vec<(String, String)> = Vec::new();
    params.push(("amount".to_owned(), amount.to_owned()));
    params.push(("two_factor_type".to_owned(), two_factor_type.to_text()));
    proof {
        assert(spec_params_bytes(params@) =~= spec_krw_transfer_params(
            amount@,
            two_factor_type,
        ));
    }
    params
}

/// Prepares a KRW withdrawal. The amount travels as its decimal text,
/// exactly as given.
pub fn prepare_withdraw_krw(
    store: &CredentialStore,
    amount: &str,
    two_factor_type: TwoFactorType,
) -> (r: Result<PreparedRequest, ResponseError>)
    ensures
        r is Ok <==> store.is_configured(),
        r matches Err(e) ==> spec_missing_credentials_err(e),
        r matches Ok(p) ==> spec_auth_prepared(
            p,
            *store,
            Method::Post,
            URL_WITHDRAWS_KRW@,
            spec_krw_transfer_params(amount@, two_factor_type),
            true,
        ),
{
    let params = krw_transfer_params(amount, two_factor_type);
    prepare(store, Method::Post, URL_WITHDRAWS_KRW, &params, true, true)
}

/// Prepares a KRW deposit. The amount travels as its decimal text,
/// exactly as given.
pub fn prepare_deposit_krw(
    store: &CredentialStore,
    amount: &str,
    two_factor_type: TwoFactorType,
) -> (r: Result<PreparedRequest, ResponseError>)
    ensures
        r is Ok <==> store.is_configured(),
        r matches Err(e) ==> spec_missing_credentials_err(e),
        r matches Ok(p) ==> spec_auth_prepared(
            p,
            *store,
            Method::Post,
            URL_DEPOSITS_KRW@,
            spec_krw_transfer_params(amount@, two_factor_type),
            true,
        ),
{
    let params = krw_transfer_params(amount, two_factor_type);
    prepare(store, Method::Post, URL_DEPOSITS_KRW, &params, true, true)
}


/// The repeated pairs a listing filter contributes: one `(key, item)`
/// pair per item, in order.
pub open spec fn spec_each_param(key: Seq<u8>, items: Seq<String>) -> Seq<(Seq<u8>, Seq<u8>)>
    decreases items.len(),
{
    if items.len() == 0 {
        Seq::empty()
    } else {
        seq![(key, encode_utf8(items[0]@))] + spec_each_param(key, items.drop_first())
    }
}

/// The items of an optional filter: none when the filter is absent.
pub open spec fn spec_opt_items(items: Option<&Vec<String>>) -> Seq<String> {
    match items {
        Some(v) => v@,
        None => Seq::empty(),
    }
}

/// Extending the item list by one extends its pair list by one.
proof fn lemma_each_param_snoc(key: Seq<u8>, items: Seq<String>, x: String)
    ensures
        spec_each_param(key, items.push(x)) == spec_each_param(key, items) + seq![
            (key, encode_utf8(x@)),
        ],
    decreases items.len(),
{
    if items.len() == 0 {
        assert(items.push(x)[0] == x);
        assert(items.push(x).drop_first() =~= Seq::<String>::empty());
        assert(spec_each_param(key, Seq::<String>::empty()) =~= Seq::<(Seq<u8>, Seq<u8>)>::empty());
        assert(spec_each_param(key, items.push(x)) =~= spec_each_param(key, items) + seq![
            (key, encode_utf8(x@)),
        ]);
    } else {
        lemma_each_param_snoc(key, items.drop_first(), x);
        assert(items.push(x).drop_first() =~= items.drop_first().push(x));
        assert(items.push(x)[0] == items[0]);
        assert(spec_each_param(key, items.push(x)) =~= spec_each_param(key, items) + seq![
            (key, encode_utf8(x@)),
        ]);
    }
}

/// Appends one `(key, item)` pair per item.
fn push_each(params: &mut Vec<(String, String)>, key: &str, items: &Vec<String>)
    ensures
        spec_params_bytes(final(params)@) == spec_params_bytes(old(params)@) + spec_each_param(
            encode_utf8(key@),
            items@,
        ),
{
    let ghost kb = encode_utf8(key@);
    let n = items.len();
    let mut i: usize = 0;
    proof {
        assert(items@.take(0) =~= Seq::<String>::empty());
        assert(spec_each_param(kb, Seq::<String>::empty()) =~= Seq::<(Seq<u8>, Seq<u8>)>::empty());
        assert(spec_params_bytes(params@) =~= spec_params_bytes(old(params)@) + spec_each_param(
            kb,
            items@.take(0),
        ));
    }
    while i < n
        invariant
            n == items@.len(),
            i <= n,
            kb == encode_utf8(key@),
            spec_params_bytes(params@) == spec_params_bytes(old(params)@) + spec_each_param(
                kb,
                items@.take(i as int),
            ),
        decreases n - i,
    {
        let ghost prev = params@;
        params.push((key.to_owned(), items[i].clone()));
        proof {
            lemma_params_bytes_push(prev, params@.last());
            lemma_each_param_snoc(kb, items@.take(i as int), items@[i as int]);
            assert(items@.take(i + 1) =~= items@.take(i as int).push(items@[i as int]));
            assert(spec_params_bytes(params@) =~= spec_params_bytes(old(params)@)
                + spec_each_param(kb, items@.take(i + 1)));
        }
        i += 1;
    }
    proof {
        assert(items@.take(n as int) =~= items@);
    }
}

/// The ordered parameters of the deposit listing: the currency and
/// state, the optional uuid and txid filters one pair per item, then
/// the pagination and ordering.
pub open spec fn spec_deposit_list_params(
    currency: Seq<char>,
    state: DepositState,
    uuids: Option<&Vec<String>>,
    txids: Option<&Vec<String>>,
    limit: u32,
    page: u32,
    order_by: OrderBy,
) -> Seq<(Seq<u8>, Seq<u8>)> {
    seq![
        (encode_utf8("currency"@), encode_utf8(currency)),
        (encode_utf8("state"@), encode_utf8(spec_deposit_state_text(state))),
    ] + spec_each_param(encode_utf8("uuids[]"@), spec_opt_items(uuids)) + spec_each_param(
        encode_utf8("txids[]"@),
        spec_opt_items(txids),
    ) + seq![
        (encode_utf8("limit"@), spec_udec(limit as nat)),
        (encode_utf8("page"@), spec_udec(page as nat)),
        (
            encode_utf8("order_by"@),
            if order_by == OrderBy::Asc {
                encode_utf8("asc"@)
            } else {
                encode_utf8("desc"@)
            },
        ),
    ]
}

/// Prepares the deposit listing inquiry.
pub fn prepare_deposit_info_list(
    store: &CredentialStore,
    currency: &str,
    state: DepositState,
    uuids: Option<&Vec<String>>,
    txids: Option<&Vec<String>>,
    limit: u32,
    page: u32,
    order_by: OrderBy,
) -> (r: Result<PreparedRequest, ResponseError>)
    ensures
        r is Ok <==> store.is_configured(),
        r matches Err(e) ==> spec_missing_credentials_err(e),
        r matches Ok(p) ==> spec_auth_prepared(
            p,
            *store,
            Method::Get,
            URL_DEPOSITS@,
            spec_deposit_list_params(currency@, state, uuids, txids, limit, page, order_by),
            false,
        ),
{
    let mut params: Vec<(String, String)> = Vec::new();
    params.push(("currency".to_owned(), currency.to_owned()));
    params.push(("state".to_owned(), state.to_text()));
    let ghost head = seq![
        (encode_utf8("currency"@), encode_utf8(currency@)),
        (encode_utf8("state"@), encode_utf8(spec_deposit_state_text(state))),
    ];
    proof {
        assert(spec_params_bytes(params@) =~= head);
    }
    if let Some(v) = uuids {
        push_each(&mut params, "uuids[]", v);
    }
    let ghost with_uuids = head + spec_each_param(encode_utf8("uuids[]"@), spec_opt_items(uuids));
    proof {
        if uuids is None {
            assert(spec_each_param(encode_utf8("uuids[]"@), Seq::<String>::empty()) =~= Seq::<
                (Seq<u8>, Seq<u8>),
            >::empty());
        }
        assert(spec_params_bytes(params@) =~= with_uuids);
    }
    if let Some(v) = txids {
        push_each(&mut params, "txids[]", v);
    }
    let ghost with_txids = with_uuids + spec_each_param(
        encode_utf8("txids[]"@),
        spec_opt_items(txids),
    );
    proof {
        if txids is None {
            assert(spec_each_param(encode_utf8("txids[]"@), Seq::<String>::empty()) =~= Seq::<
                (Seq<u8>, Seq<u8>),
            >::empty());
        }
        assert(spec_params_bytes(params@) =~= with_txids);
    }
    let ghost s0 = params@;
    params.push(("limit".to_owned(), u64_text(limit as u64)));
    let ghost s1 = params@;
    params.push(("page".to_owned(), u64_text(page as u64)));
    let ghost s2 = params@;
    params.push(("order_by".to_owned(), order_by.to_text()));
    proof {
        lemma_udec_ascii(limit as nat);
        lemma_udec_ascii(page as nat);
        lemma_ascii_chars_bytes(spec_udec(limit as nat));
        lemma_ascii_chars_bytes(spec_udec(page as nat));
        lemma_params_bytes_push(s0, s1.last());
        lemma_params_bytes_push(s1, s2.last());
        lemma_params_bytes_push(s2, params@.last());
        assert(spec_params_bytes(params@) =~= spec_deposit_list_params(
            currency@,
            state,
            uuids,
            txids,
            limit,
            page,
            order_by,
        ));
    }
    prepare(store, Method::Get, URL_DEPOSITS, &params, true, false)
}

/// The ordered parameters of the single-deposit inquiry: whichever of
/// the currency, uuid, and txid filters are given, in that order.
pub open spec fn spec_deposit_info_params(
    currency: Option<&str>,
    uuid: Option<&str>,
    txid: Option<&str>,
) -> Seq<(Seq<u8>, Seq<u8>)> {
    (match currency {
        Some(c) => seq![(encode_utf8("currency"@), encode_utf8(c@))],
        None => Seq::empty(),
    }) + (match uuid {
        Some(u) => seq![(encode_utf8("uuid"@), encode_utf8(u@))],
        None => Seq::empty(),
    }) + (match txid {
        Some(t) => seq![(encode_utf8("txid"@), encode_utf8(t@))],
        None => Seq::empty(),
    })
}

/// Prepares the single-deposit inquiry.
pub fn prepare_deposit_info(
    store: &CredentialStore,
    currency: Option<&str>,
    uuid: Option<&str>,
    txid: Option<&str>,
) -> (r: Result<PreparedRequest, ResponseError>)
    ensures
        r is Ok <==> store.is_configured(),
        r matches Err(e) ==> spec_missing_credentials_err(e),
        r matches Ok(p) ==> spec_auth_prepared(
            p,
            *store,
            Method::Get,
            crate::constant::URL_DEPOSIT@,
            spec_deposit_info_params(currency, uuid, txid),
            false,
        ),
{
    let mut params: Vec<(String, String)> = Vec::new();
    if let Some(c) = currency {
        params.push(("currency".to_owned(), c.to_owned()));
    }
    if let Some(u) = uuid {
        params.push(("uuid".to_owned(), u.to_owned()));
    }
    if let Some(t) = txid {
        params.push(("txid".to_owned(), t.to_owned()));
    }
    proof {
        assert(spec_params_bytes(params@) =~= spec_deposit_info_params(currency, uuid, txid));
    }
    prepare(store, Method::Get, crate::constant::URL_DEPOSIT, &params, true, false)
}

} // verus!
