//! Market data shapes returned by the REST API, and the names of order book
//! depths and deposit chains.
use vstd::prelude::*;
use crate::text::same_text;

verus! {

/// Failures to read a name given as text.
#[derive(Copy, Clone, Debug, PartialEq, Eq, Structural)]
pub enum Error {
    InvalidOrderBookType,
    InvalidKlines,
    InvalidChain,
}

impl Error {
    /// A sentence that describes the failure.
    pub open spec fn text(self) -> Seq<char> {
        match self {
            Error::InvalidOrderBookType => "Invalid order book type"@,
            Error::InvalidKlines => "Invalid klines"@,
            Error::InvalidChain => "Invalid chain"@,
        }
    }

    pub fn message(&self) -> (r: &'static str)
        ensures
            r@ == self.text(),
    {
        match self {
            Error::InvalidOrderBookType => "Invalid order book type",
            Error::InvalidKlines => "Invalid klines",
            Error::InvalidChain => "Invalid chain",
        }
    }
}

/// One candle: open time and prices as the venue writes them.
#[derive(Clone, Debug, PartialEq, Eq, Hash)]
pub struct Candle {
    pub time: String,
    pub open: String,
    pub close: String,
    pub high: String,
    pub low: String,
    pub volume: String,
    pub amount: String,
}

/// A tradable pair and its trading rules.
#[derive(Clone, Debug, PartialEq, Eq)]
pub struct SymbolList {
    pub symbol: String,
    pub name: String,
    pub base_currency: String,
    pub quote_currency: String,
    pub base_min_size: String,
    pub base_max_size: String,
    pub quote_max_size: String,
    pub base_increment: String,
    pub quote_increment: String,
    pub price_increment: String,
    pub fee_currency: String,
    pub enable_trading: bool,
    pub is_margin_enabled: bool,
}

/// Best bid and ask of one pair.
#[derive(Clone, Debug, PartialEq, Eq)]
pub struct Ticker {
    pub sequence: String,
    pub best_ask: String,
    pub size: String,
    pub price: String,
    pub best_bid_size: String,
    pub best_bid: String,
    pub best_ask_size: String,
    pub time: i64,
}

/// Tickers of every pair at one time.
#[derive(Clone, Debug, PartialEq, Eq)]
pub struct AllTickers {
    pub time: i64,
    pub ticker: Vec<Tick>,
}

/// One pair's line in `AllTickers`.
#[derive(Clone, Debug, PartialEq, Eq)]
pub struct Tick {
    pub symbol: String,
    pub symbol_name: String,
    pub buy: String,
    pub sell: String,
    pub change_rate: Option<String>,
    pub change_price: Option<String>,
    pub high: Option<String>,
    pub low: Option<String>,
    pub vol: String,
    pub vol_value: String,
    pub last: String,
}

/// Statistics of one pair over the last day.
#[derive(Clone, Debug, PartialEq, Eq)]
pub struct DailyStats {
    pub symbol: String,
    pub buy: String,
    pub sell: String,
    pub change_rate: Option<String>,
    pub change_price: Option<String>,
    pub high: Option<String>,
    pub low: Option<String>,
    pub vol: String,
    pub vol_value: String,
    pub last: String,
}

/// Aggregated order book: each level is a price and a size.
#[derive(Clone, Debug, PartialEq, Eq)]
pub struct OrderBook {
    pub sequence: String,
    pub time: i64,
    pub bids: Vec<Vec<String>>,
    pub asks: Vec<Vec<String>>,
}

/// Order book by order: price, size, order id and time of each order.
#[derive(Clone, Debug, PartialEq, Eq)]
pub struct AtomicOrderBook {
    pub sequence: i64,
    pub time: i64,
    pub bids: Vec<(String, String, String, i64)>,
    pub asks: Vec<(String, String, String, i64)>,
}

/// One past trade of a pair.
#[derive(Clone, Debug, PartialEq, Eq)]
pub struct TradeHistories {
    pub sequence: String,
    pub price: String,
    pub size: String,
    pub side: String,
    pub time: i64,
}

/// A currency and what can be done with it.
#[derive(Clone, Debug, PartialEq, Eq)]
pub struct Currency {
    pub currency: String,
    pub name: String,
    pub full_name: String,
    pub precision: i32,
    pub withdrawal_min_size: String,
    pub withdrawal_min_fee: String,
    pub is_withdrawal_enabled: Option<bool>,
    pub is_deposit_enabled: bool,
    pub is_margin_enabled: bool,
    pub is_debit_enabled: bool,
}

/// Fiat currencies in which prices can be quoted.
#[derive(Copy, Clone, Debug, PartialEq, Eq, Structural)]
pub enum Fiat {
    USD,
    EUR,
    CAD,
    CNY,
    AUD,
    KRW,
    JPY,
    GBP,
    INR,
    IDR,
    RUB,
    BRL,
    TRY,
    PLN,
    PHP,
    ZAR,
    THB,
    CHF,
    MYR,
    MXR,
    HRK,
    ARS,
    KZT,
    IRR,
    VND,
    ILS,
    BDT,
    HKD,
    TWD,
    COP,
    DKK,
    BGN,
    NOK,
    DZD,
    RON,
    SGD,
    NGN,
    CZK,
    PKR,
    SEK,
    NZD,
    UAH,
}

/// Depth of an order book request.
#[derive(Copy, Clone, Debug, PartialEq, Eq, Structural)]
pub enum OrderBookType {
    L20,
    L100,
    Full,
}

impl OrderBookType {
    /// Names accepted by `parse`, in declaration order.
    pub const VARIANTS: [&'static str; 3] = ["L20", "L100", "Full"];

    /// The venue's name of the depth.
    pub open spec fn name(self) -> Seq<char> {
        match self {
            OrderBookType::L20 => "L20"@,
            OrderBookType::L100 => "L100"@,
            OrderBookType::Full => "Full"@,
        }
    }

    pub fn as_str(&self) -> (r: &'static str)
        ensures
            r@ == self.name(),
    {
        match self {
            OrderBookType::L20 => "L20",
            OrderBookType::L100 => "L100",
            OrderBookType::Full => "Full",
        }
    }

    /// Reads a name; fails on any text that names no variant.
    pub fn parse(s: &str) -> (r: Result<OrderBookType, Error>)
        ensures
            match r {
                Ok(v) => v.name() == s@,
                Err(e) => e == Error::InvalidOrderBookType && forall|v: OrderBookType| #[trigger] v.name() != s@,
            },
    {
        proof {
            reveal_strlit("L20");
            reveal_strlit("L100");
            reveal_strlit("Full");
        }
        if same_text(s, "L20") {
            return Ok(OrderBookType::L20);
        }
        if same_text(s, "L100") {
            return Ok(OrderBookType::L100);
        }
        if same_text(s, "Full") {
            return Ok(OrderBookType::Full);
        }
        Err(Error::InvalidOrderBookType)
    }

}

impl std::str::FromStr for OrderBookType {
    type Err = Error;

    fn from_str(s: &str) -> Result<Self, Self::Err> {
        OrderBookType::parse(s)
    }
}

/// Chain on which a currency moves.
#[derive(Copy, Clone, Debug, PartialEq, Eq, Structural)]
pub enum Chain {
    Native,
    Segwit,
    OMNI,
    ERC20,
    TRC20,
}

impl Chain {
    /// Names accepted by `parse`, in declaration order.
    pub const VARIANTS: [&'static str; 5] = ["Native", "Segwit", "OMNI", "ERC20", "TRC20"];

    /// The venue's name of the chain.
    pub open spec fn name(self) -> Seq<char> {
        match self {
            Chain::Native => "Native"@,
            Chain::Segwit => "Segwit"@,
            Chain::OMNI => "OMNI"@,
            Chain::ERC20 => "ERC20"@,
            Chain::TRC20 => "TRC20"@,
        }
    }

    pub fn as_str(&self) -> (r: &'static str)
        ensures
            r@ == self.name(),
    {
        match self {
            Chain::Native => "Native",
            Chain::Segwit => "Segwit",
            Chain::OMNI => "OMNI",
            Chain::ERC20 => "ERC20",
            Chain::TRC20 => "TRC20",
        }
    }

    /// Reads a name; fails on any text that names no variant.
    pub fn parse(s: &str) -> (r: Result<Chain, Error>)
        ensures
            match r {
                Ok(v) => v.name() == s@,
                Err(e) => e == Error::InvalidChain && forall|v: Chain| #[trigger] v.name() != s@,
            },
    {
        proof {
            reveal_strlit("Native");
            reveal_strlit("Segwit");
            reveal_strlit("OMNI");
            reveal_strlit("ERC20");
            reveal_strlit("TRC20");
        }
        if same_text(s, "Native") {
            return Ok(Chain::Native);
        }
        if same_text(s, "Segwit") {
            return Ok(Chain::Segwit);
        }
        if same_text(s, "OMNI") {
            return Ok(Chain::OMNI);
        }
        if same_text(s, "ERC20") {
            return Ok(Chain::ERC20);
        }
        if same_text(s, "TRC20") {
            return Ok(Chain::TRC20);
        }
        Err(Error::InvalidChain)
    }

}

impl std::str::FromStr for Chain {
    type Err = Error;

    fn from_str(s: &str) -> Result<Self, Self::Err> {
        Chain::parse(s)
    }
}

} // verus!
