//! The message router: maps the (topic, subject) pair of a data frame to the
//! kind of payload it carries, through one closed table.
use vstd::prelude::*;
use crate::text::{push_char, same_text};
use crate::websocket::WSTopic;

verus! {

/// Kind of payload of a recognised data frame.
#[derive(Copy, Clone, Debug, PartialEq, Eq, Structural)]
pub enum MsgKind {
    Ticker,
    AllTicker,
    Snapshot,
    OrderBook,
    OrderBookDepth,
    Match,
    Level3Received,
    Level3Open,
    Level3Match,
    Level3Done,
    Level3Change,
    FullMatchReceived,
    FullMatchOpen,
    FullMatchDone,
    FullMatchMatch,
    FullMatchChange,
    IndexPrice,
    MarketPrice,
    OrderBookChange,
    StopOrder,
    Balances,
    DebtRatio,
    PositionChange,
    MarginTradeOpen,
    MarginTradeUpdate,
    MarginTradeDone,
    TradeOpen,
    TradeMatch,
    TradeFilled,
    TradeCanceled,
    TradeUpdate,
}

/// Whether a character separates a topic's name from its parameters.
pub open spec fn is_separator(c: char) -> bool {
    c == ':' || c == '/'
}

/// Position of the first separator, or the length when there is none.
pub open spec fn first_separator(t: Seq<char>) -> nat
    decreases t.len(),
{
    if t.len() == 0 {
        0
    } else if is_separator(t[0]) {
        0
    } else {
        1 + first_separator(t.drop_first())
    }
}

/// The name of a topic text: what precedes its first separator.
pub open spec fn topic_name_of(t: Seq<char>) -> Seq<char> {
    t.subrange(0, first_separator(t) as int)
}

/// The closed table of known (topic name, subject) pairs.
pub open spec fn route_of(name: Seq<char>, subject: Seq<char>) -> Option<MsgKind> {
    if name == "ticker"@ {
        if subject == "trade.ticker"@ {
            Some(MsgKind::Ticker)
        } else {
            None
        }
    } else if name == "allTicker"@ {
        if subject == "trade.ticker"@ {
            Some(MsgKind::AllTicker)
        } else {
            None
        }
    } else if name == "snapshot"@ {
        if subject == "trade.snapshot"@ {
            Some(MsgKind::Snapshot)
        } else {
            None
        }
    } else if name == "orderBook"@ {
        if subject == "trade.l2update"@ {
            Some(MsgKind::OrderBook)
        } else {
            None
        }
    } else if name == "orderBookDepth5"@ {
        if subject == "level2"@ {
            Some(MsgKind::OrderBookDepth)
        } else {
            None
        }
    } else if name == "orderBookDepth50"@ {
        if subject == "level2"@ {
            Some(MsgKind::OrderBookDepth)
        } else {
            None
        }
    } else if name == "match"@ {
        if subject == "trade.l3match"@ {
            Some(MsgKind::Match)
        } else {
            None
        }
    } else if name == "level3public"@ {
        if subject == "trade.l3received"@ {
            Some(MsgKind::Level3Received)
        } else if subject == "trade.l3open"@ {
            Some(MsgKind::Level3Open)
        } else if subject == "trade.l3match"@ {
            Some(MsgKind::Level3Match)
        } else if subject == "trade.l3done"@ {
            Some(MsgKind::Level3Done)
        } else if subject == "trade.l3change"@ {
            Some(MsgKind::Level3Change)
        } else {
            None
        }
    } else if name == "level3private"@ {
        if subject == "trade.l3received"@ {
            Some(MsgKind::Level3Received)
        } else if subject == "trade.l3open"@ {
            Some(MsgKind::Level3Open)
        } else if subject == "trade.l3match"@ {
            Some(MsgKind::Level3Match)
        } else if subject == "trade.l3done"@ {
            Some(MsgKind::Level3Done)
        } else if subject == "trade.l3change"@ {
            Some(MsgKind::Level3Change)
        } else {
            None
        }
    } else if name == "fullMatch"@ {
        if subject == "received"@ {
            Some(MsgKind::FullMatchReceived)
        } else if subject == "open"@ {
            Some(MsgKind::FullMatchOpen)
        } else if subject == "done"@ {
            Some(MsgKind::FullMatchDone)
        } else if subject == "match"@ {
            Some(MsgKind::FullMatchMatch)
        } else if subject == "update"@ {
            Some(MsgKind::FullMatchChange)
        } else {
            None
        }
    } else if name == "indexPrice"@ {
        if subject == "tick"@ {
            Some(MsgKind::IndexPrice)
        } else {
            None
        }
    } else if name == "marketPrice"@ {
        if subject == "tick"@ {
            Some(MsgKind::MarketPrice)
        } else {
            None
        }
    } else if name == "orderBookChange"@ {
        if subject == "order.change"@ {
            Some(MsgKind::OrderBookChange)
        } else {
            None
        }
    } else if name == "stopOrder"@ {
        if subject == "stopOrder"@ {
            Some(MsgKind::StopOrder)
        } else {
            None
        }
    } else if name == "balances"@ {
        if subject == "account.balance"@ {
            Some(MsgKind::Balances)
        } else {
            None
        }
    } else if name == "debtRatio"@ {
        if subject == "debt.ratio"@ {
            Some(MsgKind::DebtRatio)
        } else {
            None
        }
    } else if name == "positionChange"@ {
        if subject == "position.status"@ {
            Some(MsgKind::PositionChange)
        } else {
            None
        }
    } else if name == "marginTradeOrder"@ {
        if subject == "order.open"@ {
            Some(MsgKind::MarginTradeOpen)
        } else if subject == "order.update"@ {
            Some(MsgKind::MarginTradeUpdate)
        } else if subject == "order.done"@ {
            Some(MsgKind::MarginTradeDone)
        } else {
            None
        }
    } else if name == "tradeOrders"@ {
        if subject == "open"@ {
            Some(MsgKind::TradeOpen)
        } else if subject == "match"@ {
            Some(MsgKind::TradeMatch)
        } else if subject == "filled"@ {
            Some(MsgKind::TradeFilled)
        } else if subject == "canceled"@ {
            Some(MsgKind::TradeCanceled)
        } else if subject == "update"@ {
            Some(MsgKind::TradeUpdate)
        } else {
            None
        }
    } else {
        None
    }
}

/// A data frame after routing: its kind when the table knows its pair, or
/// the frame as it came when it does not.
#[derive(Clone, Debug, PartialEq, Eq)]
pub enum Decoded {
    Routed { kind: MsgKind, topic: String, subject: String, data: String },
    Unrecognized { topic: String, subject: String, data: String },
}

impl Decoded {
    /// Topic, subject and payload text carried by the result.
    pub open spec fn parts(self) -> (Seq<char>, Seq<char>, Seq<char>) {
        match self {
            Decoded::Routed { topic, subject, data, .. } => (topic@, subject@, data@),
            Decoded::Unrecognized { topic, subject, data } => (topic@, subject@, data@),
        }
    }

    /// The kind found in the table, if any.
    pub open spec fn kind(self) -> Option<MsgKind> {
        match self {
            Decoded::Routed { kind, .. } => Some(kind),
            Decoded::Unrecognized { .. } => None,
        }
    }
}

proof fn lemma_first_separator(t: Seq<char>, k: int)
    requires
        0 <= k <= t.len(),
        forall|j: int| 0 <= j < k ==> !is_separator(#[trigger] t[j]),
        k == t.len() || is_separator(t[k]),
    ensures
        first_separator(t) == k,
    decreases k,
{
    if k > 0 {
        assert forall|j: int| 0 <= j < k - 1 implies !is_separator(#[trigger] t.drop_first()[j]) by {
            assert(t.drop_first()[j] == t[j + 1]);
        }
        if k < t.len() {
            assert(t.drop_first()[k - 1] == t[k]);
        }
        lemma_first_separator(t.drop_first(), k - 1);
    }
}

proof fn lemma_name_has_no_separator(t: WSTopic)
    ensures
        forall|j: int| 0 <= j < t.name().len() ==> !is_separator(#[trigger] t.name()[j]),
{
    reveal_strlit("ticker");
    reveal_strlit("allTicker");
    reveal_strlit("snapshot");
    reveal_strlit("orderBook");
    reveal_strlit("orderBookDepth5");
    reveal_strlit("orderBookDepth50");
    reveal_strlit("match");
    reveal_strlit("fullMatch");
    reveal_strlit("level3public");
    reveal_strlit("level3private");
    reveal_strlit("indexPrice");
    reveal_strlit("marketPrice");
    reveal_strlit("orderBookChange");
    reveal_strlit("stopOrder");
    reveal_strlit("balances");
    reveal_strlit("debtRatio");
    reveal_strlit("positionChange");
    reveal_strlit("marginTradeOrder");
    reveal_strlit("tradeOrders");
}

/// Routing a data frame whose topic text is the one a subscribe for `t`
/// carried looks up the name of `t`: for every (topic, subject) pair of the
/// table, `decode` of such a frame yields that pair's kind, with topic,
/// subject and payload unchanged.
pub proof fn lemma_route_round_trip(t: WSTopic, subject: Seq<char>)
    ensures
        topic_name_of(t.wire()) == t.name(),
        route_of(topic_name_of(t.wire()), subject) == route_of(t.name(), subject),
{
    lemma_name_has_no_separator(t);
    let w = t.wire();
    let k = t.name().len() as int;
    assert forall|j: int| 0 <= j < k implies !is_separator(#[trigger] w[j]) by {
        assert(w[j] == t.name()[j]);
    }
    if t.param_text().len() != 0 {
        assert(w[k] == ':');
    }
    lemma_first_separator(w, k);
    assert(w.subrange(0, k) =~= t.name());
}

/// The name of a topic text, without its parameters.
pub fn topic_name(topic: &str) -> (r: String)
    ensures
        r@ == topic_name_of(topic@),
{
    let n = topic.unicode_len();
    let mut r = String::new();
    let mut i: usize = 0;
    while i < n
        invariant
            n == topic@.len(),
            i <= n,
            r@ == topic@.subrange(0, i as int),
            forall|j: int| 0 <= j < i ==> !is_separator(#[trigger] topic@[j]),
        ensures
            i == n || is_separator(topic@[i as int]),
        decreases n - i,
    {
        let c = topic.get_char(i);
        if c == ':' || c == '/' {
            break;
        }
        push_char(&mut r, c);
        proof {
            assert(r@ =~= topic@.subrange(0, i as int + 1));
        }
        i = i + 1;
    }
    proof {
        lemma_first_separator(topic@, i as int);
    }
    r
}

/// Looks a topic name and a subject up in the table.
pub fn route(name: &str, subject: &str) -> (r: Option<MsgKind>)
    ensures
        r == route_of(name@, subject@),
{
    if same_text(name, "ticker") {
        if same_text(subject, "trade.ticker") {
            return Some(MsgKind::Ticker);
        }
        return None;
    }
    if same_text(name, "allTicker") {
        if same_text(subject, "trade.ticker") {
            return Some(MsgKind::AllTicker);
        }
        return None;
    }
    if same_text(name, "snapshot") {
        if same_text(subject, "trade.snapshot") {
            return Some(MsgKind::Snapshot);
        }
        return None;
    }
    if same_text(name, "orderBook") {
        if same_text(subject, "trade.l2update") {
            return Some(MsgKind::OrderBook);
        }
        return None;
    }
    if same_text(name, "orderBookDepth5") {
        if same_text(subject, "level2") {
            return Some(MsgKind::OrderBookDepth);
        }
        return None;
    }
    if same_text(name, "orderBookDepth50") {
        if same_text(subject, "level2") {
            return Some(MsgKind::OrderBookDepth);
        }
        return None;
    }
    if same_text(name, "match") {
        if same_text(subject, "trade.l3match") {
            return Some(MsgKind::Match);
        }
        return None;
    }
    if same_text(name, "level3public") {
        if same_text(subject, "trade.l3received") {
            return Some(MsgKind::Level3Received);
        }
        if same_text(subject, "trade.l3open") {
            return Some(MsgKind::Level3Open);
        }
        if same_text(subject, "trade.l3match") {
            return Some(MsgKind::Level3Match);
        }
        if same_text(subject, "trade.l3done") {
            return Some(MsgKind::Level3Done);
        }
        if same_text(subject, "trade.l3change") {
            return Some(MsgKind::Level3Change);
        }
        return None;
    }
    if same_text(name, "level3private") {
        if same_text(subject, "trade.l3received") {
            return Some(MsgKind::Level3Received);
        }
        if same_text(subject, "trade.l3open") {
            return Some(MsgKind::Level3Open);
        }
        if same_text(subject, "trade.l3match") {
            return Some(MsgKind::Level3Match);
        }
        if same_text(subject, "trade.l3done") {
            return Some(MsgKind::Level3Done);
        }
        if same_text(subject, "trade.l3change") {
            return Some(MsgKind::Level3Change);
        }
        return None;
    }
    if same_text(name, "fullMatch") {
        if same_text(subject, "received") {
            return Some(MsgKind::FullMatchReceived);
        }
        if same_text(subject, "open") {
            return Some(MsgKind::FullMatchOpen);
        }
        if same_text(subject, "done") {
            return Some(MsgKind::FullMatchDone);
        }
        if same_text(subject, "match") {
            return Some(MsgKind::FullMatchMatch);
        }
        if same_text(subject, "update") {
            return Some(MsgKind::FullMatchChange);
        }
        return None;
    }
    if same_text(name, "indexPrice") {
        if same_text(subject, "tick") {
            return Some(MsgKind::IndexPrice);
        }
        return None;
    }
    if same_text(name, "marketPrice") {
        if same_text(subject, "tick") {
            return Some(MsgKind::MarketPrice);
        }
        return None;
    }
    if same_text(name, "orderBookChange") {
        if same_text(subject, "order.change") {
            return Some(MsgKind::OrderBookChange);
        }
        return None;
    }
    if same_text(name, "stopOrder") {
        if same_text(subject, "stopOrder") {
            return Some(MsgKind::StopOrder);
        }
        return None;
    }
    if same_text(name, "balances") {
        if same_text(subject, "account.balance") {
            return Some(MsgKind::Balances);
        }
        return None;
    }
    if same_text(name, "debtRatio") {
        if same_text(subject, "debt.ratio") {
            return Some(MsgKind::DebtRatio);
        }
        return None;
    }
    if same_text(name, "positionChange") {
        if same_text(subject, "position.status") {
            return Some(MsgKind::PositionChange);
        }
        return None;
    }
    if same_text(name, "marginTradeOrder") {
        if same_text(subject, "order.open") {
            return Some(MsgKind::MarginTradeOpen);
        }
        if same_text(subject, "order.update") {
            return Some(MsgKind::MarginTradeUpdate);
        }
        if same_text(subject, "order.done") {
            return Some(MsgKind::MarginTradeDone);
        }
        return None;
    }
    if same_text(name, "tradeOrders") {
        if same_text(subject, "open") {
            return Some(MsgKind::TradeOpen);
        }
        if same_text(subject, "match") {
            return Some(MsgKind::TradeMatch);
        }
        if same_text(subject, "filled") {
            return Some(MsgKind::TradeFilled);
        }
        if same_text(subject, "canceled") {
            return Some(MsgKind::TradeCanceled);
        }
        if same_text(subject, "update") {
            return Some(MsgKind::TradeUpdate);
        }
        return None;
    }
    None
}

/// Routes one data frame. An unknown pair gives the catch-all result, which
/// carries the frame's topic, subject and payload unchanged.
pub fn decode(topic: String, subject: String, data: String) -> (r: Decoded)
    ensures
        r.parts() == (topic@, subject@, data@),
        r.kind() == route_of(topic_name_of(topic@), subject@),
{
    let name = topic_name(topic.as_str());
    match route(name.as_str(), subject.as_str()) {
        Some(kind) => Decoded::Routed { kind, topic, subject, data },
        None => Decoded::Unrecognized { topic, subject, data },
    }
}

} // verus!
