//! The request for candles of one pair.
use vstd::prelude::*;
use crate::klines::Klines;
use crate::symbol::Symbol;
use crate::text::{signed_decimal, signed_decimal_string};

verus! {

/// Candles of `symbol` at interval `klines`, optionally bounded by start and
/// end times in seconds since the epoch.
#[derive(Copy, Clone, Debug, PartialEq, Eq, Hash, PartialOrd, Ord, Structural)]
pub struct CandleRequest {
    pub klines: Klines,
    pub symbol: Symbol,
    pub start_at: Option<i64>,
    pub end_at: Option<i64>,
}

/// A query parameter holding a time, or nothing.
pub open spec fn time_param(name: Seq<char>, t: Option<i64>) -> Seq<char> {
    match t {
        Some(v) => name + signed_decimal(v as int),
        None => Seq::empty(),
    }
}

impl CandleRequest {
    pub fn new(klines: Klines, symbol: Symbol, start_at: Option<i64>, end_at: Option<i64>) -> (r: Self)
        ensures
            r == (CandleRequest { klines, symbol, start_at, end_at }),
    {
        CandleRequest { klines, symbol, start_at, end_at }
    }

    /// The path and query of the request.
    pub open spec fn endpoint(self) -> Seq<char> {
        "/api/v1/market/candles?type="@ + self.klines.name() + "&symbol="@ + self.symbol.name() + time_param(
            "&startAt="@,
            self.start_at,
        ) + time_param("&endAt="@, self.end_at)
    }

    pub fn get_endpoint(&self) -> (r: String)
        ensures
            r@ == self.endpoint(),
    {
        let mut endpoint = String::from_str("/api/v1/market/candles?type=");
        endpoint.append(self.klines.as_str());
        endpoint.append("&symbol=");
        endpoint.append(self.symbol.as_str());
        if let Some(t) = self.start_at {
            endpoint.append("&startAt=");
            let v = signed_decimal_string(t);
            endpoint.append(v.as_str());
        }
        if let Some(t) = self.end_at {
            endpoint.append("&endAt=");
            let v = signed_decimal_string(t);
            endpoint.append(v.as_str());
        }
        endpoint
    }
}

} // verus!
