use kucoin_api::router::{decode, route, topic_name, Decoded, MsgKind};
use kucoin_api::websocket::WSTopic;

fn s(x: &str) -> String {
    x.to_string()
}

#[test]
fn topic_name_strips_parameters() {
    assert_eq!(topic_name("ticker:BTC-USDT,ETH-USDT"), "ticker");
    assert_eq!(topic_name("level3public/BTC-USDT"), "level3public");
    assert_eq!(topic_name("allTicker"), "allTicker");
    assert_eq!(topic_name(""), "");
}

#[test]
fn every_table_entry_routes_to_its_kind() {
    let table: Vec<(WSTopic, &str, MsgKind)> = vec![
        (WSTopic::Ticker(vec![s("BTC-USDT")]), "trade.ticker", MsgKind::Ticker),
        (WSTopic::AllTicker, "trade.ticker", MsgKind::AllTicker),
        (WSTopic::Snapshot(s("BTC")), "trade.snapshot", MsgKind::Snapshot),
        (WSTopic::OrderBook(vec![s("BTC-USDT")]), "trade.l2update", MsgKind::OrderBook),
        (WSTopic::OrderBookDepth5(vec![s("BTC-USDT")]), "level2", MsgKind::OrderBookDepth),
        (WSTopic::OrderBookDepth50(vec![s("BTC-USDT")]), "level2", MsgKind::OrderBookDepth),
        (WSTopic::Match(vec![s("BTC-USDT")]), "trade.l3match", MsgKind::Match),
        (WSTopic::Level3Public(vec![s("A")]), "trade.l3received", MsgKind::Level3Received),
        (WSTopic::Level3Public(vec![s("A")]), "trade.l3open", MsgKind::Level3Open),
        (WSTopic::Level3Public(vec![s("A")]), "trade.l3match", MsgKind::Level3Match),
        (WSTopic::Level3Public(vec![s("A")]), "trade.l3done", MsgKind::Level3Done),
        (WSTopic::Level3Public(vec![s("A")]), "trade.l3change", MsgKind::Level3Change),
        (WSTopic::Level3Private(vec![s("A")]), "trade.l3received", MsgKind::Level3Received),
        (WSTopic::Level3Private(vec![s("A")]), "trade.l3open", MsgKind::Level3Open),
        (WSTopic::Level3Private(vec![s("A")]), "trade.l3match", MsgKind::Level3Match),
        (WSTopic::Level3Private(vec![s("A")]), "trade.l3done", MsgKind::Level3Done),
        (WSTopic::Level3Private(vec![s("A")]), "trade.l3change", MsgKind::Level3Change),
        (WSTopic::FullMatch(vec![s("A")]), "received", MsgKind::FullMatchReceived),
        (WSTopic::FullMatch(vec![s("A")]), "open", MsgKind::FullMatchOpen),
        (WSTopic::FullMatch(vec![s("A")]), "done", MsgKind::FullMatchDone),
        (WSTopic::FullMatch(vec![s("A")]), "match", MsgKind::FullMatchMatch),
        (WSTopic::FullMatch(vec![s("A")]), "update", MsgKind::FullMatchChange),
        (WSTopic::IndexPrice(vec![s("USDT-BTC")]), "tick", MsgKind::IndexPrice),
        (WSTopic::MarketPrice(vec![s("USDT-BTC")]), "tick", MsgKind::MarketPrice),
        (WSTopic::OrderBookChange(vec![s("BTC")]), "order.change", MsgKind::OrderBookChange),
        (WSTopic::StopOrder(vec![s("BTC-USDT")]), "stopOrder", MsgKind::StopOrder),
        (WSTopic::Balances, "account.balance", MsgKind::Balances),
        (WSTopic::DebtRatio, "debt.ratio", MsgKind::DebtRatio),
        (WSTopic::PositionChange, "position.status", MsgKind::PositionChange),
        (WSTopic::MarginTradeOrder(s("BTC")), "order.open", MsgKind::MarginTradeOpen),
        (WSTopic::MarginTradeOrder(s("BTC")), "order.update", MsgKind::MarginTradeUpdate),
        (WSTopic::MarginTradeOrder(s("BTC")), "order.done", MsgKind::MarginTradeDone),
        (WSTopic::TradeOrders, "open", MsgKind::TradeOpen),
        (WSTopic::TradeOrders, "match", MsgKind::TradeMatch),
        (WSTopic::TradeOrders, "filled", MsgKind::TradeFilled),
        (WSTopic::TradeOrders, "canceled", MsgKind::TradeCanceled),
        (WSTopic::TradeOrders, "update", MsgKind::TradeUpdate),
    ];
    for (topic, subject, kind) in table {
        let wire = topic.wire_string();
        assert_eq!(route(topic.as_str(), subject), Some(kind));
        let data = s("{\"price\":\"0.000000012345678901\",\"size\":\"1e-9\"}");
        let d = decode(wire.clone(), s(subject), data.clone());
        assert_eq!(d, Decoded::Routed { kind, topic: wire, subject: s(subject), data });
    }
}

#[test]
fn unknown_pair_is_caught_all() {
    let d = decode(s("ticker:BTC-USDT"), s("trade.unknown"), s("{\"a\":1}"));
    assert_eq!(
        d,
        Decoded::Unrecognized { topic: s("ticker:BTC-USDT"), subject: s("trade.unknown"), data: s("{\"a\":1}") }
    );
    assert_eq!(route("nosuch", "trade.ticker"), None);
    assert_eq!(route("ticker", "level2"), None);
}
