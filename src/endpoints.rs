//! Paths and queries of the REST endpoints whose address depends on their
//! arguments.
use vstd::prelude::*;
use crate::market::{Chain, OrderBookType};
use crate::text::{signed_decimal, signed_decimal_string};

verus! {

/// A query parameter that is present only when given.
pub open spec fn opt_param(prefix: Seq<char>, v: Option<Seq<char>>) -> Seq<char> {
    match v {
        Some(x) => prefix + x,
        None => Seq::empty(),
    }
}

/// View of an optional text.
pub open spec fn opt_view(v: Option<&str>) -> Option<Seq<char>> {
    match v {
        Some(x) => Some(x@),
        None => None,
    }
}

fn push_opt(s: &mut String, prefix: &str, v: Option<&str>)
    ensures
        final(s)@ == old(s)@ + opt_param(prefix@, opt_view(v)),
{
    if let Some(x) = v {
        s.append(prefix);
        s.append(x);
    } else {
        assert(old(s)@ + Seq::<char>::empty() =~= old(s)@);
    }
}

/// The symbol list, optionally of one market.
pub fn symbol_list_endpoint(market: Option<&str>) -> (r: String)
    ensures
        r@ == "/api/v2/symbols"@ + opt_param("?market="@, opt_view(market)),
{
    let mut s = String::from_str("/api/v2/symbols");
    push_opt(&mut s, "?market=", market);
    s
}

/// Whether an order book of this depth is read with a signed call.
pub open spec fn orderbook_signed_of(amount: OrderBookType) -> bool {
    amount == OrderBookType::Full
}

/// The path of an order book of this depth.
pub open spec fn orderbook_path_of(amount: OrderBookType) -> Seq<char> {
    match amount {
        OrderBookType::L20 => "/api/v1/market/orderbook/level2_20"@,
        OrderBookType::L100 => "/api/v1/market/orderbook/level2_100"@,
        OrderBookType::Full => "/api/v3/market/orderbook/level2"@,
    }
}

/// The order book of a symbol at a depth, and whether the call is signed:
/// the full book needs authentication, the partial ones do not.
pub fn orderbook_endpoint(symbol: &str, amount: OrderBookType) -> (r: (String, bool))
    ensures
        r.0@ == orderbook_path_of(amount) + "?symbol="@ + symbol@,
        r.1 == orderbook_signed_of(amount),
{
    let mut s = match amount {
        OrderBookType::L20 => String::from_str("/api/v1/market/orderbook/level2_20"),
        OrderBookType::L100 => String::from_str("/api/v1/market/orderbook/level2_100"),
        OrderBookType::Full => String::from_str("/api/v3/market/orderbook/level2"),
    };
    s.append("?symbol=");
    s.append(symbol);
    let signed = match amount {
        OrderBookType::Full => true,
        _ => false,
    };
    (s, signed)
}

/// One currency, optionally on one chain.
pub fn currency_endpoint(currency: &str, chain: Option<Chain>) -> (r: String)
    ensures
        r@ == "/api/v1/currencies/"@ + currency@ + match chain {
            Some(c) => "?chain="@ + c.name(),
            None => Seq::empty(),
        },
{
    let mut s = String::from_str("/api/v1/currencies/");
    s.append(currency);
    match chain {
        Some(c) => {
            s.append("?chain=");
            s.append(c.as_str());
        },
        None => {},
    }
    s
}

/// Fiat prices, optionally in a base currency and for some currencies; the
/// query starts with `?` and joins what is given with `&`.
pub open spec fn fiat_query_of(base: Option<Seq<char>>, currencies: Option<Seq<char>>) -> Seq<char> {
    match (base, currencies) {
        (Some(b), Some(c)) => "?base="@ + b + "&currencies="@ + c,
        (Some(b), None) => "?base="@ + b,
        (None, Some(c)) => "?currencies="@ + c,
        (None, None) => Seq::empty(),
    }
}

pub fn fiat_prices_endpoint(base: Option<&str>, currencies: Option<&str>) -> (r: String)
    ensures
        r@ == "/api/v1/prices"@ + fiat_query_of(opt_view(base), opt_view(currencies)),
{
    let mut s = String::from_str("/api/v1/prices");
    match base {
        Some(b) => {
            s.append("?base=");
            s.append(b);
            push_opt(&mut s, "&currencies=", currencies);
        },
        None => push_opt(&mut s, "?currencies=", currencies),
    }
    s
}

/// Lending market data of a currency, optionally for one term in days.
pub fn lend_market_endpoint(currency: &str, term: Option<i32>) -> (r: String)
    ensures
        r@ == "/api/v1/margin/market?currency="@ + currency@ + match term {
            Some(t) => "&term="@ + signed_decimal(t as int),
            None => Seq::empty(),
        },
{
    let mut s = String::from_str("/api/v1/margin/market?currency=");
    s.append(currency);
    if let Some(t) = term {
        s.append("&term=");
        let v = signed_decimal_string(t as i64);
        s.append(v.as_str());
    }
    s
}

} // verus!
