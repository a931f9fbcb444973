//! Shapes of the realtime feed: endpoints handed out by negotiation, topics,
//! control frames, data frames and their payloads.
use vstd::prelude::*;
use crate::text::{push_char, same_text};

verus! {

/// Failure to read a topic name.
#[derive(Copy, Clone, Debug, PartialEq, Eq, Structural)]
pub enum Error {
    InvalidWSTopic,
}

/// The answer of the bootstrap call: a one-time token and the candidate
/// endpoints in the venue's order of preference.
#[derive(Clone, Debug, PartialEq, Eq)]
pub struct InstanceServers {
    pub instance_servers: Vec<InstanceServer>,
    pub token: String,
}

/// One realtime endpoint and its keepalive parameters, in milliseconds.
#[derive(Clone, Debug, PartialEq, Eq)]
pub struct InstanceServer {
    pub ping_interval: i32,
    pub endpoint: String,
    pub protocol: String,
    pub encrypt: bool,
    pub ping_timeout: i32,
}

/// A subscribable class of realtime data, with its parameters: a list of
/// symbols, one identifier, or nothing.
#[derive(Debug, Clone, PartialEq, Eq, Hash)]
pub enum WSTopic {
    Ticker(Vec<String>),
    AllTicker,
    Snapshot(String),
    OrderBook(Vec<String>),
    OrderBookDepth5(Vec<String>),
    OrderBookDepth50(Vec<String>),
    Match(Vec<String>),
    FullMatch(Vec<String>),
    Level3Public(Vec<String>),
    Level3Private(Vec<String>),
    IndexPrice(Vec<String>),
    MarketPrice(Vec<String>),
    OrderBookChange(Vec<String>),
    StopOrder(Vec<String>),
    Balances,
    DebtRatio,
    PositionChange,
    MarginTradeOrder(String),
    TradeOrders,
}

/// Text of a list of symbols joined by commas.
pub open spec fn joined(parts: Seq<Seq<char>>) -> Seq<char>
    decreases parts.len(),
{
    if parts.len() == 0 {
        Seq::empty()
    } else if parts.len() == 1 {
        parts[0]
    } else {
        joined(parts.drop_last()) + seq![','] + parts.last()
    }
}

/// Views of a list of texts.
pub open spec fn texts(v: Seq<String>) -> Seq<Seq<char>> {
    v.map_values(|x: String| x@)
}

impl WSTopic {
    /// The topic's name, without parameters.
    pub open spec fn name(self) -> Seq<char> {
        match self {
            WSTopic::Ticker(_) => "ticker"@,
            WSTopic::AllTicker => "allTicker"@,
            WSTopic::Snapshot(_) => "snapshot"@,
            WSTopic::OrderBook(_) => "orderBook"@,
            WSTopic::OrderBookDepth5(_) => "orderBookDepth5"@,
            WSTopic::OrderBookDepth50(_) => "orderBookDepth50"@,
            WSTopic::Match(_) => "match"@,
            WSTopic::FullMatch(_) => "fullMatch"@,
            WSTopic::Level3Public(_) => "level3public"@,
            WSTopic::Level3Private(_) => "level3private"@,
            WSTopic::IndexPrice(_) => "indexPrice"@,
            WSTopic::MarketPrice(_) => "marketPrice"@,
            WSTopic::OrderBookChange(_) => "orderBookChange"@,
            WSTopic::StopOrder(_) => "stopOrder"@,
            WSTopic::Balances => "balances"@,
            WSTopic::DebtRatio => "debtRatio"@,
            WSTopic::PositionChange => "positionChange"@,
            WSTopic::MarginTradeOrder(_) => "marginTradeOrder"@,
            WSTopic::TradeOrders => "tradeOrders"@,
        }
    }

    /// The parameters of the topic, as the text that follows the name.
    pub open spec fn param_text(self) -> Seq<char> {
        match self {
            WSTopic::Ticker(l) => joined(texts(l@)),
            WSTopic::AllTicker => Seq::empty(),
            WSTopic::Snapshot(x) => x@,
            WSTopic::OrderBook(l) => joined(texts(l@)),
            WSTopic::OrderBookDepth5(l) => joined(texts(l@)),
            WSTopic::OrderBookDepth50(l) => joined(texts(l@)),
            WSTopic::Match(l) => joined(texts(l@)),
            WSTopic::FullMatch(l) => joined(texts(l@)),
            WSTopic::Level3Public(l) => joined(texts(l@)),
            WSTopic::Level3Private(l) => joined(texts(l@)),
            WSTopic::IndexPrice(l) => joined(texts(l@)),
            WSTopic::MarketPrice(l) => joined(texts(l@)),
            WSTopic::OrderBookChange(l) => joined(texts(l@)),
            WSTopic::StopOrder(l) => joined(texts(l@)),
            WSTopic::Balances => Seq::empty(),
            WSTopic::DebtRatio => Seq::empty(),
            WSTopic::PositionChange => Seq::empty(),
            WSTopic::MarginTradeOrder(x) => x@,
            WSTopic::TradeOrders => Seq::empty(),
        }
    }

    /// The topic as a subscribe frame carries it: the name, then ':' and the
    /// parameters where there are any.
    pub open spec fn wire(self) -> Seq<char> {
        if self.param_text().len() == 0 {
            self.name()
        } else {
            self.name() + seq![':'] + self.param_text()
        }
    }

    pub fn as_str(&self) -> (r: &'static str)
        ensures
            r@ == self.name(),
    {
        match self {
            WSTopic::Ticker(_) => "ticker",
            WSTopic::AllTicker => "allTicker",
            WSTopic::Snapshot(_) => "snapshot",
            WSTopic::OrderBook(_) => "orderBook",
            WSTopic::OrderBookDepth5(_) => "orderBookDepth5",
            WSTopic::OrderBookDepth50(_) => "orderBookDepth50",
            WSTopic::Match(_) => "match",
            WSTopic::FullMatch(_) => "fullMatch",
            WSTopic::Level3Public(_) => "level3public",
            WSTopic::Level3Private(_) => "level3private",
            WSTopic::IndexPrice(_) => "indexPrice",
            WSTopic::MarketPrice(_) => "marketPrice",
            WSTopic::OrderBookChange(_) => "orderBookChange",
            WSTopic::StopOrder(_) => "stopOrder",
            WSTopic::Balances => "balances",
            WSTopic::DebtRatio => "debtRatio",
            WSTopic::PositionChange => "positionChange",
            WSTopic::MarginTradeOrder(_) => "marginTradeOrder",
            WSTopic::TradeOrders => "tradeOrders",
        }
    }

    /// Reads a topic name; the topic then carries no parameters.
    pub fn parse(s: &str) -> (r: Result<WSTopic, Error>)
        ensures
            match r {
                Ok(t) => t.name() == s@ && t.param_text().len() == 0,
                Err(e) => e == Error::InvalidWSTopic && forall|t: WSTopic| #[trigger] t.name() != s@,
            },
    {
        proof {
            reveal_strlit("ticker");
            reveal_strlit("allTicker");
            reveal_strlit("snapshot");
            reveal_strlit("orderBook");
            reveal_strlit("orderBookDepth5");
            reveal_strlit("orderBookDepth50");
            reveal_strlit("match");
            reveal_strlit("fullMatch");
            reveal_strlit("level3public");
            reveal_strlit("level3private");
            reveal_strlit("indexPrice");
            reveal_strlit("marketPrice");
            reveal_strlit("orderBookChange");
            reveal_strlit("stopOrder");
            reveal_strlit("balances");
            reveal_strlit("debtRatio");
            reveal_strlit("positionChange");
            reveal_strlit("marginTradeOrder");
            reveal_strlit("tradeOrders");
        }
        if same_text(s, "ticker") {
            proof { reveal_with_fuel(joined, 1); }
            return Ok(WSTopic::Ticker(Vec::new()));
        }
        if same_text(s, "allTicker") {
            proof { reveal_with_fuel(joined, 1); }
            return Ok(WSTopic::AllTicker);
        }
        if same_text(s, "snapshot") {
            proof { reveal_with_fuel(joined, 1); }
            return Ok(WSTopic::Snapshot(String::new()));
        }
        if same_text(s, "orderBook") {
            proof { reveal_with_fuel(joined, 1); }
            return Ok(WSTopic::OrderBook(Vec::new()));
        }
        if same_text(s, "orderBookDepth5") {
            proof { reveal_with_fuel(joined, 1); }
            return Ok(WSTopic::OrderBookDepth5(Vec::new()));
        }
        if same_text(s, "orderBookDepth50") {
            proof { reveal_with_fuel(joined, 1); }
            return Ok(WSTopic::OrderBookDepth50(Vec::new()));
        }
        if same_text(s, "match") {
            proof { reveal_with_fuel(joined, 1); }
            return Ok(WSTopic::Match(Vec::new()));
        }
        if same_text(s, "fullMatch") {
            proof { reveal_with_fuel(joined, 1); }
            return Ok(WSTopic::FullMatch(Vec::new()));
        }
        if same_text(s, "level3public") {
            proof { reveal_with_fuel(joined, 1); }
            return Ok(WSTopic::Level3Public(Vec::new()));
        }
        if same_text(s, "level3private") {
            proof { reveal_with_fuel(joined, 1); }
            return Ok(WSTopic::Level3Private(Vec::new()));
        }
        if same_text(s, "indexPrice") {
            proof { reveal_with_fuel(joined, 1); }
            return Ok(WSTopic::IndexPrice(Vec::new()));
        }
        if same_text(s, "marketPrice") {
            proof { reveal_with_fuel(joined, 1); }
            return Ok(WSTopic::MarketPrice(Vec::new()));
        }
        if same_text(s, "orderBookChange") {
            proof { reveal_with_fuel(joined, 1); }
            return Ok(WSTopic::OrderBookChange(Vec::new()));
        }
        if same_text(s, "stopOrder") {
            proof { reveal_with_fuel(joined, 1); }
            return Ok(WSTopic::StopOrder(Vec::new()));
        }
        if same_text(s, "balances") {
            proof { reveal_with_fuel(joined, 1); }
            return Ok(WSTopic::Balances);
        }
        if same_text(s, "debtRatio") {
            proof { reveal_with_fuel(joined, 1); }
            return Ok(WSTopic::DebtRatio);
        }
        if same_text(s, "positionChange") {
            proof { reveal_with_fuel(joined, 1); }
            return Ok(WSTopic::PositionChange);
        }
        if same_text(s, "marginTradeOrder") {
            proof { reveal_with_fuel(joined, 1); }
            return Ok(WSTopic::MarginTradeOrder(String::new()));
        }
        if same_text(s, "tradeOrders") {
            proof { reveal_with_fuel(joined, 1); }
            return Ok(WSTopic::TradeOrders);
        }
        Err(Error::InvalidWSTopic)
    }

    /// The parameters joined as they follow the name.
    pub fn param_string(&self) -> (r: String)
        ensures
            r@ == self.param_text(),
    {
        match self {
            WSTopic::Ticker(l) => join_symbols(l),
            WSTopic::AllTicker => String::new(),
            WSTopic::Snapshot(x) => x.clone(),
            WSTopic::OrderBook(l) => join_symbols(l),
            WSTopic::OrderBookDepth5(l) => join_symbols(l),
            WSTopic::OrderBookDepth50(l) => join_symbols(l),
            WSTopic::Match(l) => join_symbols(l),
            WSTopic::FullMatch(l) => join_symbols(l),
            WSTopic::Level3Public(l) => join_symbols(l),
            WSTopic::Level3Private(l) => join_symbols(l),
            WSTopic::IndexPrice(l) => join_symbols(l),
            WSTopic::MarketPrice(l) => join_symbols(l),
            WSTopic::OrderBookChange(l) => join_symbols(l),
            WSTopic::StopOrder(l) => join_symbols(l),
            WSTopic::Balances => String::new(),
            WSTopic::DebtRatio => String::new(),
            WSTopic::PositionChange => String::new(),
            WSTopic::MarginTradeOrder(x) => x.clone(),
            WSTopic::TradeOrders => String::new(),
        }
    }

    /// The topic text of a subscribe frame.
    pub fn wire_string(&self) -> (r: String)
        ensures
            r@ == self.wire(),
    {
        let params = self.param_string();
        let mut s = String::from_str(self.as_str());
        if params.unicode_len() > 0 {
            push_char(&mut s, ':');
            s.append(params.as_str());
        }
        s
    }
}

/// Joins symbols with commas.
pub fn join_symbols(l: &Vec<String>) -> (r: String)
    ensures
        r@ == joined(texts(l@)),
{
    let mut s = String::new();
    let mut i: usize = 0;
    while i < l.len()
        invariant
            i <= l.len(),
            s@ == joined(texts(l@.subrange(0, i as int))),
        decreases l.len() - i,
    {
        proof {
            assert(texts(l@.subrange(0, i as int + 1)).drop_last() =~= texts(l@.subrange(0, i as int)));
        }
        if i > 0 {
            push_char(&mut s, ',');
        }
        s.append(l[i].as_str());
        i = i + 1;
    }
    proof {
        assert(l@.subrange(0, l@.len() as int) =~= l@);
    }
    s
}

impl std::str::FromStr for WSTopic {
    type Err = Error;

    fn from_str(s: &str) -> Result<Self, Self::Err> {
        WSTopic::parse(s)
    }
}

/// Whether a connection reaches public data only, or private data too.
#[derive(Copy, Clone, Debug, PartialEq, Eq, Structural)]
pub enum WSType {
    Public,
    Private,
}

/// A data frame: its type, topic and subject, and the decoded payload.
#[verifier::reject_recursive_types(T)]
#[derive(Debug, Clone, PartialEq, Eq)]
pub struct WSResp<T> {
    pub msg_type: String,
    pub topic: String,
    pub subject: String,
    pub data: T,
}

/// A control frame: welcome, ping or pong, with its correlation id.
#[derive(Debug, Clone, PartialEq, Eq)]
pub struct DefaultMsg {
    pub id: String,
    pub msg_type: String,
}

/// A subscribe or unsubscribe frame.
#[derive(Debug, Clone, PartialEq, Eq)]
pub struct Subscribe {
    pub id: String,
    pub msg_type: String,
    pub topic: String,
    pub private_channel: bool,
    pub response: bool,
}

/// Best bid and ask pushed on the ticker topics.
#[derive(Clone, Debug, PartialEq, Eq)]
pub struct SymbolTicker {
    pub sequence: String,
    pub best_ask: String,
    pub size: String,
    pub best_bid_size: String,
    pub price: String,
    pub best_ask_size: String,
    pub best_bid: String,
}

/// Market snapshot of one pair.
#[derive(Clone, Debug, PartialEq, Eq)]
pub struct Snapshot {
    pub sequence: i64,
    pub data: SnapshotData,
}

/// Figures of a market snapshot; decimals are kept as the venue wrote them.
#[derive(Clone, Debug, PartialEq, Eq)]
pub struct SnapshotData {
    pub trading: bool,
    pub symbol: String,
    pub buy: String,
    pub sell: String,
    pub sort: i32,
    pub vol_value: String,
    pub base_currency: String,
    pub market: String,
    pub quote_currency: String,
    pub symbol_code: String,
    pub datetime: i64,
    pub high: Option<String>,
    pub vol: String,
    pub low: Option<String>,
    pub change_price: Option<String>,
    pub change_rate: String,
    pub last_traded_price: String,
    pub board: i32,
    pub mark: i32,
}

/// Incremental change of the aggregated order book.
#[derive(Clone, Debug, PartialEq, Eq)]
pub struct Level2 {
    pub sequence_start: i64,
    pub sequence_end: i64,
    pub symbol: String,
    pub changes: Level2Changes,
}

/// The best levels of an order book.
#[derive(Clone, Debug, PartialEq, Eq)]
pub struct Level2Depth {
    pub asks: Vec<Vec<String>>,
    pub bids: Vec<Vec<String>>,
    pub timestamp: u64,
}

/// Changed levels, each a price, a size and a sequence.
#[derive(Clone, Debug, PartialEq, Eq)]
pub struct Level2Changes {
    pub asks: Vec<Vec<String>>,
    pub bids: Vec<Vec<String>>,
}

/// One executed trade.
#[derive(Clone, Debug, PartialEq, Eq)]
pub struct Match {
    pub sequence: String,
    pub symbol: String,
    pub side: String,
    pub size: String,
    pub price: String,
    pub taker_order_id: String,
    pub time: String,
    pub msg_type: String,
    pub maker_order_id: String,
    pub trade_id: String,
}

/// Full order book feed: an order was received.
#[derive(Clone, Debug, PartialEq, Eq)]
pub struct Level3Received {
    pub sequence: String,
    pub symbol: String,
    pub side: String,
    pub order_id: String,
    pub price: Option<String>,
    pub time: String,
    pub client_oid: Option<String>,
    pub msg_type: String,
    pub order_type: String,
}

/// Full order book feed: an order entered the book.
#[derive(Clone, Debug, PartialEq, Eq)]
pub struct Level3Open {
    pub sequence: String,
    pub symbol: String,
    pub side: String,
    pub size: String,
    pub order_id: String,
    pub price: String,
    pub time: String,
    pub msg_type: String,
}

/// Full order book feed: an order left the book.
#[derive(Clone, Debug, PartialEq, Eq)]
pub struct Level3Done {
    pub sequence: String,
    pub symbol: String,
    pub reason: String,
    pub side: String,
    pub order_id: String,
    pub time: String,
    pub msg_type: String,
    pub size: Option<String>,
}

/// Full order book feed: two orders matched.
#[derive(Clone, Debug, PartialEq, Eq)]
pub struct Level3Match {
    pub sequence: String,
    pub symbol: String,
    pub side: String,
    pub size: String,
    pub price: String,
    pub taker_order_id: String,
    pub time: String,
    pub msg_type: String,
    pub maker_order_id: String,
    pub trade_id: String,
}

/// Full order book feed: the size of an order changed.
#[derive(Clone, Debug, PartialEq, Eq)]
pub struct Level3Change {
    pub sequence: String,
    pub symbol: String,
    pub side: String,
    pub order_id: String,
    pub price: String,
    pub new_size: String,
    pub time: String,
    pub msg_type: String,
    pub old_size: String,
}

/// Match feed: an order was received.
#[derive(Clone, Debug, PartialEq, Eq)]
pub struct FullMatchReceived {
    pub sequence: i64,
    pub symbol: String,
    pub order_id: String,
    pub client_oid: Option<String>,
    pub ts: i64,
}

/// Match feed: an order entered the book.
#[derive(Clone, Debug, PartialEq, Eq)]
pub struct FullMatchOpen {
    pub sequence: i64,
    pub symbol: String,
    pub order_id: String,
    pub side: String,
    pub price: String,
    pub size: String,
    pub order_time: i64,
    pub ts: i64,
}

/// Match feed: an order left the book.
#[derive(Clone, Debug, PartialEq, Eq)]
pub struct FullMatchDone {
    pub sequence: i64,
    pub symbol: String,
    pub order_id: String,
    pub reason: String,
    pub ts: i64,
}

/// Match feed: two orders matched.
#[derive(Clone, Debug, PartialEq, Eq)]
pub struct FullMatchMatch {
    pub sequence: i64,
    pub symbol: String,
    pub side: String,
    pub price: String,
    pub remain_size: String,
    pub taker_order_id: String,
    pub maker_order_id: String,
    pub trade_id: String,
    pub ts: i64,
}

/// Match feed: the size of an order changed.
#[derive(Clone, Debug, PartialEq, Eq)]
pub struct FullMatchChange {
    pub sequence: i64,
    pub symbol: String,
    pub size: String,
    pub order_id: String,
    pub ts: i64,
}

/// Index price of a pair; the value is kept as the venue wrote it.
#[derive(Clone, Debug, PartialEq, Eq)]
pub struct IndexPrice {
    pub symbol: String,
    pub granularity: i32,
    pub timestamp: i64,
    pub value: String,
}

/// Mark price of a pair; the value is kept as the venue wrote it.
#[derive(Clone, Debug, PartialEq, Eq)]
pub struct MarketPrice {
    pub symbol: String,
    pub granularity: i32,
    pub timestamp: i64,
    pub value: String,
}

/// Change of the lending order book; rates and size as the venue wrote them.
#[derive(Clone, Debug, PartialEq, Eq)]
pub struct BookChange {
    pub sequence: i32,
    pub currency: String,
    pub daily_int_rate: String,
    pub annual_int_rate: String,
    pub term: i32,
    pub size: String,
    pub side: String,
    pub ts: i64,
}

/// A stop order changed state.
#[derive(Clone, Debug, PartialEq, Eq)]
pub struct StopOrder {
    pub sequence: String,
    pub symbol: String,
    pub side: String,
    pub order_id: String,
    pub stop_entry: String,
    pub funds: String,
    pub time: String,
    pub msg_type: String,
    pub reason: Option<String>,
}

/// A change of an account balance.
#[derive(Clone, Debug, PartialEq, Eq)]
pub struct Balances {
    pub total: String,
    pub available: String,
    pub available_change: String,
    pub currency: String,
    pub hold: String,
    pub hold_change: String,
    pub relation_event: String,
    pub relation_event_id: String,
    pub time: String,
    pub account_id: String,
}

/// Debt ratio of a margin account; the ratio as the venue wrote it.
#[derive(Clone, Debug, PartialEq, Eq)]
pub struct DebtRatio {
    pub debt_ratio: String,
    pub total_debt: String,
    pub debt_list: Vec<(String, String)>,
    pub timestamp: i64,
}

/// The margin position changed state.
#[derive(Clone, Debug, PartialEq, Eq)]
pub struct PositionChange {
    pub msg_type: String,
    pub timestamp: i64,
}

/// A lending order entered the book.
#[derive(Clone, Debug, PartialEq, Eq)]
pub struct MarginTradeOpen {
    pub currency: String,
    pub order_id: String,
    pub daily_int_rate: String,
    pub term: i32,
    pub size: i32,
    pub side: String,
    pub ts: i64,
}

/// A lending order was partly filled.
#[derive(Clone, Debug, PartialEq, Eq)]
pub struct MarginTradeUpdate {
    pub currency: String,
    pub order_id: String,
    pub daily_int_rate: String,
    pub term: i32,
    pub size: i32,
    pub lent_size: String,
    pub side: String,
    pub ts: i64,
}

/// A lending order left the book.
#[derive(Clone, Debug, PartialEq, Eq)]
pub struct MarginTradeDone {
    pub currency: String,
    pub order_id: String,
    pub reason: String,
    pub side: String,
    pub ts: i64,
}

/// One of the account's orders entered the book.
#[derive(Clone, Debug, PartialEq, Eq)]
pub struct TradeOpen {
    pub symbol: String,
    pub order_type: String,
    pub side: String,
    pub msg_type: String,
    pub order_id: String,
    pub order_time: i64,
    pub size: String,
    pub filled_size: String,
    pub price: String,
    pub client_oid: String,
    pub remain_size: String,
    pub status: String,
    pub ts: i64,
}

/// One of the account's orders matched.
#[derive(Clone, Debug, PartialEq, Eq)]
pub struct TradeMatch {
    pub symbol: String,
    pub order_type: String,
    pub side: String,
    pub liquidity: String,
    pub msg_type: String,
    pub order_id: String,
    pub order_time: i64,
    pub size: String,
    pub filled_size: String,
    pub price: String,
    pub match_price: String,
    pub match_size: String,
    pub trade_id: String,
    pub client_oid: String,
    pub remain_size: String,
    pub status: String,
    pub ts: i64,
}

/// One of the account's orders was filled.
#[derive(Clone, Debug, PartialEq, Eq)]
pub struct TradeFilled {
    pub symbol: String,
    pub order_type: String,
    pub side: String,
    pub msg_type: String,
    pub order_id: String,
    pub order_time: i64,
    pub size: String,
    pub filled_size: String,
    pub price: String,
    pub client_oid: String,
    pub remain_size: String,
    pub status: String,
    pub ts: i64,
}

/// One of the account's orders was canceled.
#[derive(Clone, Debug, PartialEq, Eq)]
pub struct TradeCanceled {
    pub symbol: String,
    pub order_type: String,
    pub side: String,
    pub msg_type: String,
    pub order_id: String,
    pub order_time: i64,
    pub size: String,
    pub filled_size: String,
    pub price: String,
    pub client_oid: String,
    pub remain_size: String,
    pub status: String,
    pub ts: i64,
}

/// One of the account's orders changed size.
#[derive(Clone, Debug, PartialEq, Eq)]
pub struct TradeUpdate {
    pub symbol: String,
    pub order_type: String,
    pub side: String,
    pub msg_type: String,
    pub old_size: String,
    pub order_id: String,
    pub order_time: i64,
    pub size: String,
    pub filled_size: String,
    pub price: String,
    pub client_oid: String,
    pub remain_size: String,
    pub status: String,
    pub ts: i64,
}

/// One message of the realtime feed, with its payload decoded.
#[derive(Debug, Clone, PartialEq, Eq)]
pub enum KucoinWebsocketMsg {
    WelcomeMsg(DefaultMsg),
    SubscribeMsg(Subscribe),
    PingMsg(DefaultMsg),
    PongMsg(DefaultMsg),
    Ping,
    Pong,
    Binary(Vec<u8>),
    TickerMsg(WSResp<SymbolTicker>),
    AllTickerMsg(WSResp<SymbolTicker>),
    SnapshotMsg(WSResp<Snapshot>),
    OrderBookMsg(WSResp<Level2>),
    MatchMsg(WSResp<Match>),
    Level3ReceivedMsg(WSResp<Level3Received>),
    Level3OpenMsg(WSResp<Level3Open>),
    Level3MatchMsg(WSResp<Level3Match>),
    Level3DoneMsg(WSResp<Level3Done>),
    Level3ChangeMsg(WSResp<Level3Change>),
    OrderBookDepthMsg(WSResp<Level2Depth>),
    FullMatchReceivedMsg(WSResp<FullMatchReceived>),
    FullMatchOpenMsg(WSResp<FullMatchOpen>),
    FullMatchDoneMsg(WSResp<FullMatchDone>),
    FullMatchMatchMsg(WSResp<FullMatchMatch>),
    FullMatchChangeMsg(WSResp<FullMatchChange>),
    IndexPriceMsg(WSResp<IndexPrice>),
    MarketPriceMsg(WSResp<MarketPrice>),
    OrderBookChangeMsg(WSResp<BookChange>),
    StopOrderMsg(WSResp<StopOrder>),
    BalancesMsg(WSResp<Balances>),
    DebtRatioMsg(WSResp<DebtRatio>),
    PositionChangeMsg(WSResp<PositionChange>),
    MarginTradeOpenMsg(WSResp<MarginTradeOpen>),
    MarginTradeUpdateMsg(WSResp<MarginTradeUpdate>),
    MarginTradeDoneMsg(WSResp<MarginTradeDone>),
    TradeOpenMsg(WSResp<TradeOpen>),
    TradeMatchMsg(WSResp<TradeMatch>),
    TradeFilledMsg(WSResp<TradeFilled>),
    TradeCanceledMsg(WSResp<TradeCanceled>),
    TradeUpdateMsg(WSResp<TradeUpdate>),
    Error(String),
}

} // verus!
