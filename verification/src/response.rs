//! The wire-shaped response records ("sources") and their typed read
//! accessors.
//!
//! A source struct holds each field exactly as the server sent it —
//! numbers and dates as strings — and the accessors convert the coded
//! fields into the library's enums. Accessors that would interpret a
//! field require that the field is well-formed; nothing here silently
//! substitutes a default.

use vstd::prelude::*;
use vstd::utf8::encode_utf8;
use crate::constant::{TransactionType, WithdrawType};
use crate::datetime::{parse_datetime, spec_datetime_value, spec_datetime_wellformed, DateTimeValue};
use crate::deposit::{spec_deposit_state, DepositState};
use crate::text::{contains_bytes, spec_contains_bytes, str_eq};

verus! {

/// The transaction type a wire word stands for.
pub open spec fn spec_transaction_type(s: Seq<char>) -> Option<TransactionType> {
    if s == "withdraw"@ {
        Some(TransactionType::Withdraw)
    } else if s == "deposit"@ {
        Some(TransactionType::Deposit)
    } else {
        None
    }
}

/// The withdraw type a wire word stands for.
pub open spec fn spec_withdraw_type(s: Seq<char>) -> Option<WithdrawType> {
    if s == "default"@ {
        Some(WithdrawType::Default)
    } else if s == "internal"@ {
        Some(WithdrawType::Internal)
    } else {
        None
    }
}

/// A deposit or withdrawal record, as sent on the wire.
#[derive(Debug)]
pub struct TransactionInfoSource {
    /// Whether the transaction is a withdrawal or a deposit.
    pub kind: String,
    pub uuid: String,
    pub currency: String,
    pub net_type: Option<String>,
    pub txid: String,
    pub state: String,
    pub created_at: String,
    pub done_at: Option<String>,
    pub amount: String,
    pub fee: String,
    pub transaction_type: String,
}

impl TransactionInfoSource {
    /// The transaction's direction; the field must hold a known word.
    pub fn kind(&self) -> (r: TransactionType)
        requires
            spec_transaction_type(self.kind@) is Some,
        ensures
            Some(r) == spec_transaction_type(self.kind@),
    {
        if str_eq(self.kind.as_str(), "withdraw") {
            TransactionType::Withdraw
        } else {
            TransactionType::Deposit
        }
    }

    /// The record's unique id.
    pub fn uuid(&self) -> (r: String)
        ensures
            r@ == self.uuid@,
    {
        self.uuid.clone()
    }

    /// The currency code.
    pub fn currency(&self) -> (r: String)
        ensures
            r@ == self.currency@,
    {
        self.currency.clone()
    }

    /// The transfer network, when reported.
    pub fn net_type(&self) -> (r: Option<String>)
        ensures
            r is Some <==> self.net_type is Some,
            r matches Some(s) ==> s@ == self.net_type.unwrap()@,
    {
        match &self.net_type {
            Some(s) => Some(s.clone()),
            None => None,
        }
    }

    /// The transaction id on the transfer network.
    pub fn txid(&self) -> (r: String)
        ensures
            r@ == self.txid@,
    {
        self.txid.clone()
    }

    /// The record's state; the field must hold a known word.
    pub fn state(&self) -> (r: DepositState)
        requires
            spec_deposit_state(self.state@) is Some,
        ensures
            Some(r) == spec_deposit_state(self.state@),
    {
        match DepositState::parse(self.state.as_str()) {
            Some(s) => s,
            None => DepositState::Processing,
        }
    }


    /// When the record was created; the field must be a well-formed
    /// timestamp.
    pub fn created_at(&self) -> (r: DateTimeValue)
        requires
            spec_datetime_wellformed(encode_utf8(self.created_at@)),
        ensures
            r == spec_datetime_value(encode_utf8(self.created_at@)),
    {
        match parse_datetime(self.created_at.as_str()) {
            Some(v) => v,
            None => DateTimeValue {
                year: 0,
                month: 1,
                day: 1,
                hour: 0,
                minute: 0,
                second: 0,
                offset_minutes: 0,
            },
        }
    }

    /// When the record completed: absent, or absent-by-malformedness,
    /// or the parsed timestamp.
    pub fn done_at(&self) -> (r: Option<DateTimeValue>)
        ensures
            r == (match self.done_at {
                Some(d) => if spec_datetime_wellformed(encode_utf8(d@)) {
                    Some(spec_datetime_value(encode_utf8(d@)))
                } else {
                    None::<DateTimeValue>
                },
                None => None::<DateTimeValue>,
            }),
    {
        match &self.done_at {
            Some(d) => parse_datetime(d.as_str()),
            None => None,
        }
    }

    /// The transfer kind; the field must hold a known word.
    pub fn transaction_type(&self) -> (r: WithdrawType)
        requires
            spec_withdraw_type(self.transaction_type@) is Some,
        ensures
            Some(r) == spec_withdraw_type(self.transaction_type@),
    {
        if str_eq(self.transaction_type.as_str(), "default") {
            WithdrawType::Default
        } else {
            WithdrawType::Internal
        }
    }
}

/// A deposit or withdrawal record carrying the derived KRW amount, as
/// sent on the wire.
#[derive(Debug)]
pub struct TransactionInfoDerivedSource {
    /// Whether the transaction is a withdrawal or a deposit.
    pub kind: String,
    pub uuid: String,
    pub currency: String,
    pub net_type: Option<String>,
    pub txid: String,
    pub state: String,
    pub created_at: String,
    pub done_at: Option<String>,
    pub amount: String,
    pub fee: String,
    pub krw_amount: String,
    pub transaction_type: String,
}

impl TransactionInfoDerivedSource {
    /// The transaction's direction; the field must hold a known word.
    pub fn kind(&self) -> (r: TransactionType)
        requires
            spec_transaction_type(self.kind@) is Some,
        ensures
            Some(r) == spec_transaction_type(self.kind@),
    {
        if str_eq(self.kind.as_str(), "withdraw") {
            TransactionType::Withdraw
        } else {
            TransactionType::Deposit
        }
    }

    /// The record's unique id.
    pub fn uuid(&self) -> (r: String)
        ensures
            r@ == self.uuid@,
    {
        self.uuid.clone()
    }

    /// The currency code.
    pub fn currency(&self) -> (r: String)
        ensures
            r@ == self.currency@,
    {
        self.currency.clone()
    }

    /// The transfer network, when reported.
    pub fn net_type(&self) -> (r: Option<String>)
        ensures
            r is Some <==> self.net_type is Some,
            r matches Some(s) ==> s@ == self.net_type.unwrap()@,
    {
        match &self.net_type {
            Some(s) => Some(s.clone()),
            None => None,
        }
    }

    /// The transaction id on the transfer network.
    pub fn txid(&self) -> (r: String)
        ensures
            r@ == self.txid@,
    {
        self.txid.clone()
    }

    /// The record's state; the field must hold a known word.
    pub fn state(&self) -> (r: DepositState)
        requires
            spec_deposit_state(self.state@) is Some,
        ensures
            Some(r) == spec_deposit_state(self.state@),
    {
        match DepositState::parse(self.state.as_str()) {
            Some(s) => s,
            None => DepositState::Processing,
        }
    }


    /// When the record was created; the field must be a well-formed
    /// timestamp.
    pub fn created_at(&self) -> (r: DateTimeValue)
        requires
            spec_datetime_wellformed(encode_utf8(self.created_at@)),
        ensures
            r == spec_datetime_value(encode_utf8(self.created_at@)),
    {
        match parse_datetime(self.created_at.as_str()) {
            Some(v) => v,
            None => DateTimeValue {
                year: 0,
                month: 1,
                day: 1,
                hour: 0,
                minute: 0,
                second: 0,
                offset_minutes: 0,
            },
        }
    }

    /// When the record completed: absent, or absent-by-malformedness,
    /// or the parsed timestamp.
    pub fn done_at(&self) -> (r: Option<DateTimeValue>)
        ensures
            r == (match self.done_at {
                Some(d) => if spec_datetime_wellformed(encode_utf8(d@)) {
                    Some(spec_datetime_value(encode_utf8(d@)))
                } else {
                    None::<DateTimeValue>
                },
                None => None::<DateTimeValue>,
            }),
    {
        match &self.done_at {
            Some(d) => parse_datetime(d.as_str()),
            None => None,
        }
    }

    /// The transfer kind; the field must hold a known word.
    pub fn transaction_type(&self) -> (r: WithdrawType)
        requires
            spec_withdraw_type(self.transaction_type@) is Some,
        ensures
            Some(r) == spec_withdraw_type(self.transaction_type@),
    {
        if str_eq(self.transaction_type.as_str(), "default") {
            WithdrawType::Default
        } else {
            WithdrawType::Internal
        }
    }
}

/// The account holder's verification level.
#[derive(Debug)]
pub struct MemberLevel {
    pub security_level: i32,
    pub fee_level: i32,
    pub email_verified: bool,
    pub identity_auth_verified: bool,
    pub bank_account_verified: bool,
    pub kakao_pay_auth_verified: bool,
    pub locked: bool,
    pub wallet_locked: bool,
}

/// An account's holdings, as sent on the wire.
#[derive(Debug)]
pub struct AccountsInfoSource {
    pub currency: String,
    pub balance: String,
    pub locked: String,
    pub avg_buy_price: String,
    pub avg_buy_price_modified: bool,
    pub unit_currency: String,
}

/// A withdrawable currency's properties, as sent on the wire.
#[derive(Debug)]
pub struct WithdrawCurrencySource {
    pub code: String,
    pub withdraw_fee: String,
    pub is_coin: bool,
    pub wallet_state: String,
    pub wallet_support: Vec<String>,
}

impl WithdrawCurrencySource {
    /// The currency code.
    pub fn code(&self) -> (r: String)
        ensures
            r@ == self.code@,
    {
        self.code.clone()
    }

    /// Whether the currency is a coin.
    pub fn is_coin(&self) -> (r: bool)
        ensures
            r == self.is_coin,
    {
        self.is_coin
    }

    /// The wallet's state.
    pub fn wallet_state(&self) -> (r: String)
        ensures
            r@ == self.wallet_state@,
    {
        self.wallet_state.clone()
    }

    /// The supported transfer kinds.
    pub fn wallet_support(&self) -> (r: Vec<String>)
        ensures
            r@.len() == self.wallet_support@.len(),
            forall|i: int| 0 <= i < r@.len() ==> r@[i]@ == self.wallet_support@[i]@,
    {
        let n = self.wallet_support.len();
        let mut r: Vec<String> = Vec::new();
        let mut i: usize = 0;
        while i < n
            invariant
                n == self.wallet_support@.len(),
                i <= n,
                r@.len() == i,
                forall|j: int| 0 <= j < i ==> r@[j]@ == self.wallet_support@[j]@,
            decreases n - i,
        {
            r.push(self.wallet_support[i].clone());
            i += 1;
        }
        r
    }
}

/// A currency's withdrawal limits, as sent on the wire.
#[derive(Debug)]
pub struct WithdrawLimitSource {
    pub currency: String,
    pub minimum: Option<String>,
    pub onetime: Option<String>,
    pub daily: String,
    pub remaining_daily: String,
    pub remaining_daily_krw: String,
    pub fixed: Option<i32>,
    pub can_withdraw: bool,
}

impl WithdrawLimitSource {
    /// The currency code.
    pub fn currency(&self) -> (r: String)
        ensures
            r@ == self.currency@,
    {
        self.currency.clone()
    }

    /// The fixed-point precision, when reported.
    pub fn fixed(&self) -> (r: Option<i32>)
        ensures
            r == self.fixed,
    {
        self.fixed
    }

    /// Whether withdrawal is currently possible.
    pub fn can_withdraw(&self) -> (r: bool)
        ensures
            r == self.can_withdraw,
    {
        self.can_withdraw
    }
}

/// The whole withdraw-chance report, as sent on the wire.
#[derive(Debug)]
pub struct WithdrawChanceSource {
    pub member_level: MemberLevel,
    pub currency: WithdrawCurrencySource,
    pub account: AccountsInfoSource,
    pub withdraw_limit: WithdrawLimitSource,
}

/// A registered withdraw address.
#[derive(Debug)]
pub struct WithdrawCoinAddress {
    pub currency: String,
    pub net_type: String,
    pub network_name: String,
    pub withdraw_address: String,
    pub secondary_address: Option<String>,
}

/// The two reply shapes of the deposit-address generator: the first
/// call only acknowledges, a later call carries the address.
#[derive(Debug)]
pub enum CoinAddressGenResponse {
    First(CoinAddressGenFirstResponse),
    Second(CoinAddressGenSecondaryResponse),
}

/// The generator's reply, whichever shape it took.
#[derive(Debug)]
pub struct CoinAddressGen {
    pub response: CoinAddressGenResponse,
}

/// The generator's acknowledgement reply.
#[derive(Debug)]
pub struct CoinAddressGenFirstResponse {
    pub success: bool,
    pub message: String,
}

/// The generator's reply once the address exists.
#[derive(Debug)]
pub struct CoinAddressGenSecondaryResponse {
    pub currency: String,
    pub net_type: Option<String>,
    pub deposit_address: String,
    pub secondary_address: Option<String>,
}

/// A deposit address listing entry.
#[derive(Debug)]
pub struct CoinAddressResponse {
    pub currency: String,
    pub net_type: String,
    pub deposit_address: Option<String>,
    pub secondary_address: Option<String>,
}

/// A market listing entry, with the warning flag decoded.
#[derive(Debug)]
pub struct MarketState {
    pub market: String,
    pub korean_name: String,
    pub english_name: String,
    pub market_warning: Option<bool>,
}

/// A market listing entry, as sent on the wire: the warning is a coded
/// word rather than a flag.
#[derive(Debug)]
pub struct MarketStateSource {
    pub market: String,
    pub korean_name: String,
    pub english_name: String,
    pub market_warning: Option<String>,
}

impl MarketState {
    /// Decodes a wire entry: the warning flag is set iff the coded word
    /// does not contain `NONE`.
    pub fn from_source(source: MarketStateSource) -> (r: MarketState)
        ensures
            r.market@ == source.market@,
            r.korean_name@ == source.korean_name@,
            r.english_name@ == source.english_name@,
            r.market_warning is Some <==> source.market_warning is Some,
            r.market_warning matches Some(w) ==> w == !spec_contains_bytes(
                vstd::utf8::encode_utf8(source.market_warning.unwrap()@),
                vstd::utf8::encode_utf8("NONE"@),
            ),
    {
        let market_warning = match &source.market_warning {
            Some(s) => Some(
                !contains_bytes(s.as_str().as_bytes(), "NONE".as_bytes()),
            ),
            None => None,
        };
        MarketState {
            market: source.market,
            korean_name: source.korean_name,
            english_name: source.english_name,
            market_warning,
        }
    }
}

} // verus!
