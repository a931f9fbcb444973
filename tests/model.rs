use kucoin_api::api::Method;
use kucoin_api::candle_request::CandleRequest;
use kucoin_api::endpoints::{
    currency_endpoint, fiat_prices_endpoint, lend_market_endpoint, orderbook_endpoint, symbol_list_endpoint,
};
use kucoin_api::klines::Klines;
use kucoin_api::market::{Chain, Error, OrderBookType};
use kucoin_api::query::{format_query, page_params};
use kucoin_api::symbol::Symbol;
use kucoin_api::text::{decimal_string, same_text, signed_decimal_string};
use kucoin_api::websocket::{join_symbols, WSTopic};

#[test]
fn decimal_text() {
    assert_eq!(decimal_string(0), "0");
    assert_eq!(decimal_string(7), "7");
    assert_eq!(decimal_string(1700000000000), "1700000000000");
    assert_eq!(decimal_string(u64::MAX), "18446744073709551615");
    assert_eq!(signed_decimal_string(-42), "-42");
    assert_eq!(signed_decimal_string(i64::MIN), "-9223372036854775808");
    assert!(same_text("ab", "ab"));
    assert!(!same_text("ab", "abc"));
}

#[test]
fn klines_seconds_and_names() {
    assert_eq!(Klines::K1min.as_seconds(), 60);
    assert_eq!(Klines::K15min.as_seconds(), 900);
    assert_eq!(Klines::K4hour.as_seconds(), 14400);
    assert_eq!(Klines::K1day.as_seconds(), 86400);
    assert_eq!(Klines::K1week.as_seconds(), 604800);
    assert_eq!(Klines::K12hour.as_str(), "12hour");
    for name in Klines::VARIANTS {
        assert_eq!(Klines::parse(name).unwrap().as_str(), name);
    }
    assert_eq!(Klines::parse("2min"), Err(Error::InvalidKlines));
    assert_eq!("1week".parse::<Klines>(), Ok(Klines::K1week));
}

#[test]
fn chain_and_depth_names() {
    assert_eq!(Chain::ERC20.as_str(), "ERC20");
    assert_eq!(Chain::parse("TRC20"), Ok(Chain::TRC20));
    assert_eq!(Chain::parse("erc20"), Err(Error::InvalidChain));
    assert_eq!(OrderBookType::parse("L100"), Ok(OrderBookType::L100));
    assert_eq!(OrderBookType::Full.as_str(), "Full");
    assert_eq!("L5".parse::<OrderBookType>(), Err(Error::InvalidOrderBookType));
    assert_eq!(Error::InvalidChain.message(), "Invalid chain");
}

#[test]
fn symbol_and_method_names() {
    assert_eq!(Symbol::BtcUsdt.as_str(), "BTC-USDT");
    assert_eq!(Method::DELETE.as_str(), "DELETE");
}

#[test]
fn topic_names_and_wire_text() {
    assert_eq!(WSTopic::Ticker(vec!["BTC-USD".to_string()]).wire_string(), "ticker:BTC-USD");
    assert_eq!(
        WSTopic::Match(vec!["A".to_string(), "B".to_string()]).wire_string(),
        "match:A,B"
    );
    assert_eq!(WSTopic::AllTicker.wire_string(), "allTicker");
    assert_eq!(WSTopic::MarginTradeOrder("BTC".to_string()).wire_string(), "marginTradeOrder:BTC");
    assert_eq!(WSTopic::Ticker(vec![]).wire_string(), "ticker");
    assert_eq!(WSTopic::parse("level3private"), Ok(WSTopic::Level3Private(vec![])));
    assert_eq!(WSTopic::parse("snapshot"), Ok(WSTopic::Snapshot(String::new())));
    assert!(WSTopic::parse("tickers").is_err());
    assert_eq!(join_symbols(&vec![]), "");
}

#[test]
fn candle_endpoint() {
    let r = CandleRequest::new(Klines::K1hour, Symbol::BtcUsdt, Some(1566703297), None);
    assert_eq!(r.get_endpoint(), "/api/v1/market/candles?type=1hour&symbol=BTC-USDT&startAt=1566703297");
    let r = CandleRequest::new(Klines::K1min, Symbol::BtcUsdt, None, Some(-5));
    assert_eq!(r.get_endpoint(), "/api/v1/market/candles?type=1min&symbol=BTC-USDT&endAt=-5");
}

#[test]
fn query_strings_keep_order() {
    assert_eq!(format_query(&vec![]), "");
    let ps = vec![(String::from("b"), String::from("2")), (String::from("a"), String::from("1"))];
    assert_eq!(format_query(&ps), "?b=2&a=1");
    assert_eq!(format_query(&page_params(Some("BTC"), Some(2), Some(-1))), "?currency=BTC&currentPage=2&pageSize=-1");
    assert_eq!(format_query(&page_params(None, None, Some(50))), "?pageSize=50");
    assert_eq!(page_params(None, None, None).len(), 0);
}

#[test]
fn endpoint_builders() {
    assert_eq!(symbol_list_endpoint(None), "/api/v2/symbols");
    assert_eq!(symbol_list_endpoint(Some("BTC")), "/api/v2/symbols?market=BTC");
    assert_eq!(
        orderbook_endpoint("BTC-USDT", OrderBookType::L20),
        (String::from("/api/v1/market/orderbook/level2_20?symbol=BTC-USDT"), false)
    );
    assert_eq!(
        orderbook_endpoint("BTC-USDT", OrderBookType::Full),
        (String::from("/api/v3/market/orderbook/level2?symbol=BTC-USDT"), true)
    );
    assert_eq!(currency_endpoint("USDT", Some(Chain::TRC20)), "/api/v1/currencies/USDT?chain=TRC20");
    assert_eq!(currency_endpoint("BTC", None), "/api/v1/currencies/BTC");
    assert_eq!(fiat_prices_endpoint(None, None), "/api/v1/prices");
    assert_eq!(fiat_prices_endpoint(Some("USD"), None), "/api/v1/prices?base=USD");
    assert_eq!(fiat_prices_endpoint(None, Some("BTC,ETH")), "/api/v1/prices?currencies=BTC,ETH");
    assert_eq!(fiat_prices_endpoint(Some("EUR"), Some("BTC")), "/api/v1/prices?base=EUR&currencies=BTC");
    assert_eq!(lend_market_endpoint("BTC", Some(7)), "/api/v1/margin/market?currency=BTC&term=7");
    assert_eq!(lend_market_endpoint("BTC", None), "/api/v1/margin/market?currency=BTC");
}
