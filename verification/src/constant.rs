//! Server address, endpoint paths, and the small closed enums the API's
//! string-coded fields map to.

use vstd::prelude::*;
use crate::text::str_eq;

verus! {

/// Server domain address
pub const URL_SERVER: &'static str = "https://api.upbit.com";

/// URL of API getting account info
pub const URL_ACCOUNTS: &'static str = "/v1/accounts";

/// URL of API getting order info
pub const URL_ORDER: &'static str = "/v1/orders";

/// URL of API getting order chance
pub const URL_ORDER_CHANCE: &'static str = "/v1/orders/chance";

/// URL of API getting order status
pub const URL_ORDER_STATUS: &'static str = "/v1/order";

/// URL of API getting order status list
pub const URL_ORDER_STATUS_LIST: &'static str = "/v1/orders";

/// URL of API getting order book
pub const URL_ORDERBOOK: &'static str = "/v1/orderbook";

/// URL of API getting ticker
pub const URL_TICKER: &'static str = "/v1/ticker";

/// URL of API getting trades ticks
pub const URL_TRADES_TICKS: &'static str = "/v1/trades/ticks";

/// URL of API getting market state
pub const URL_MARKET_STATE: &'static str = "/v1/market/all";

/// URL of API getting withdraw info
pub const URL_WITHDRAW: &'static str = "/v1/withdraw";

/// URL of API getting withdraw info list
pub const URL_WITHDRAWS: &'static str = "/v1/withdraws";

/// URL of API withdrawing KRW
pub const URL_WITHDRAWS_KRW: &'static str = "/v1/withdraws/krw";

/// URL of API withdrawing coin
pub const URL_WITHDRAWS_COIN: &'static str = "/v1/withdraws/coin";

/// URL of API getting coin address
pub const URL_WITHDRAWS_COIN_ADDRESS: &'static str = "v1/withdraws/coin_addresses";

/// URL of API getting withdraw chance
pub const URL_WITHDRAWS_CHANCE: &'static str = "/v1/withdraws/chance";

/// URL of deposit API
pub const URL_DEPOSIT: &'static str = "/v1/deposit";

/// URL of API listing deposit info
pub const URL_DEPOSITS: &'static str = "/v1/deposits";

/// URL of API inquiring generation of coin deposit address
pub const URL_DEPOSITS_GENERATE_COIN_ADDRESS: &'static str = "/v1/deposits/generate_coin_address";

/// URL of API getting asset you have
pub const URL_DEPOSITS_COIN_ADDRESS: &'static str = "/v1/deposits/coin_address";

/// URL of API listing assets you have
pub const URL_DEPOSITS_COIN_ADDRESSES: &'static str = "/v1/deposits/coin_addresses";

/// URL of API requesting to deposit KRW
pub const URL_DEPOSITS_KRW: &'static str = "/v1/deposits/krw";

/// URL of API listing candle data of minute unit
pub const URL_CANDLE_MINUTE: &'static str = "/v1/candles/minutes/";

/// URL of API listing candle data of day unit
pub const URL_CANDLE_DAY: &'static str = "/v1/candles/days";

/// URL of API listing candle data of week unit
pub const URL_CANDLE_WEEK: &'static str = "/v1/candles/weeks";

/// URL of API listing candle data of month unit
pub const URL_CANDLE_MONTH: &'static str = "/v1/candles/months";

/// Direction a listing is ordered in.
#[derive(Debug, Clone, Copy, PartialEq, Eq, Structural)]
pub enum OrderBy {
    /// Ascending
    Asc,
    /// Descending
    Desc,
}

impl OrderBy {
    /// The wire text of this value.
    pub fn to_text(&self) -> (r: String)
        ensures
            *self == OrderBy::Asc ==> r@ == "asc"@,
            *self == OrderBy::Desc ==> r@ == "desc"@,
    {
        match self {
            OrderBy::Asc => "asc".to_owned(),
            OrderBy::Desc => "desc".to_owned(),
        }
    }

    /// Reads the wire text; `None` for anything outside the closed set.
    pub fn parse(value: &str) -> (r: Option<Self>)
        ensures
            r == (if value@ == "asc"@ {
                Some(OrderBy::Asc)
            } else if value@ == "desc"@ {
                Some(OrderBy::Desc)
            } else {
                None::<OrderBy>
            }),
    {
        if str_eq(value, "asc") {
            Some(OrderBy::Asc)
        } else if str_eq(value, "desc") {
            Some(OrderBy::Desc)
        } else {
            None
        }
    }
}

/// Kind of withdrawal or deposit transfer.
#[derive(Debug, Clone, Copy, PartialEq, Eq, Structural)]
pub enum WithdrawType {
    /// A general transfer.
    Default,
    /// An instant transfer.
    Internal,
}

impl WithdrawType {
    /// The wire text of this value.
    pub fn to_text(&self) -> (r: String)
        ensures
            *self == WithdrawType::Default ==> r@ == "default"@,
            *self == WithdrawType::Internal ==> r@ == "internal"@,
    {
        match self {
            WithdrawType::Default => "default".to_owned(),
            WithdrawType::Internal => "internal".to_owned(),
        }
    }

    /// Reads the wire text; `None` for anything outside the closed set.
    pub fn parse(value: &str) -> (r: Option<Self>)
        ensures
            r == (if value@ == "default"@ {
                Some(WithdrawType::Default)
            } else if value@ == "internal"@ {
                Some(WithdrawType::Internal)
            } else {
                None::<WithdrawType>
            }),
    {
        if str_eq(value, "default") {
            Some(WithdrawType::Default)
        } else if str_eq(value, "internal") {
            Some(WithdrawType::Internal)
        } else {
            None
        }
    }
}

/// Kind of two-factor identification.
#[derive(Debug, Clone, Copy, PartialEq, Eq, Structural)]
pub enum TwoFactorType {
    /// Identification via Kakao Pay.
    KakaoPay,
    /// Identification via Naver.
    Naver,
}

impl TwoFactorType {
    /// The wire text of this value.
    pub fn to_text(&self) -> (r: String)
        ensures
            *self == TwoFactorType::KakaoPay ==> r@ == "kakao_pay"@,
            *self == TwoFactorType::Naver ==> r@ == "naver"@,
    {
        match self {
            TwoFactorType::KakaoPay => "kakao_pay".to_owned(),
            TwoFactorType::Naver => "naver".to_owned(),
        }
    }
}

/// Direction of a transaction.
#[derive(Debug, Clone, Copy, PartialEq, Eq, Structural)]
pub enum TransactionType {
    /// An outgoing withdrawal.
    Withdraw,
    /// An incoming deposit.
    Deposit,
}

impl TransactionType {
    /// The wire text of this value.
    pub fn to_text(&self) -> (r: String)
        ensures
            *self == TransactionType::Withdraw ==> r@ == "withdraw"@,
            *self == TransactionType::Deposit ==> r@ == "deposit"@,
    {
        match self {
            TransactionType::Withdraw => "withdraw".to_owned(),
            TransactionType::Deposit => "deposit".to_owned(),
        }
    }

    /// Reads the wire text; `None` for anything outside the closed set.
    pub fn parse(value: &str) -> (r: Option<Self>)
        ensures
            r == (if value@ == "withdraw"@ {
                Some(TransactionType::Withdraw)
            } else if value@ == "deposit"@ {
                Some(TransactionType::Deposit)
            } else {
                None::<TransactionType>
            }),
    {
        if str_eq(value, "withdraw") {
            Some(TransactionType::Withdraw)
        } else if str_eq(value, "deposit") {
            Some(TransactionType::Deposit)
        } else {
            None
        }
    }
}

} // verus!
