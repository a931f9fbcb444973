//! Candle intervals.
use vstd::prelude::*;
use crate::market::Error;
use crate::text::same_text;

verus! {

/// Width of one candle.
#[derive(Copy, Clone, Debug, PartialEq, Eq, Hash, PartialOrd, Ord, Structural)]
pub enum Klines {
    K1min,
    K3min,
    K5min,
    K15min,
    K30min,
    K1hour,
    K2hour,
    K4hour,
    K6hour,
    K8hour,
    K12hour,
    K1day,
    K1week,
}

/// Seconds in a minute, an hour and a day.
pub const MINUTE: u64 = 60;
pub const HOUR: u64 = 3600;
pub const DAY: u64 = 86400;

impl Klines {
    /// Names accepted by `parse`, in declaration order.
    pub const VARIANTS: [&'static str; 13] = [
        "1min",
        "3min",
        "5min",
        "15min",
        "30min",
        "1hour",
        "2hour",
        "4hour",
        "6hour",
        "8hour",
        "12hour",
        "1day",
        "1week",
    ];

    /// Length of the interval in seconds.
    pub open spec fn seconds(self) -> nat {
        match self {
            Klines::K1min => 60,
            Klines::K3min => 3 * 60,
            Klines::K5min => 5 * 60,
            Klines::K15min => 15 * 60,
            Klines::K30min => 30 * 60,
            Klines::K1hour => 3600,
            Klines::K2hour => 2 * 3600,
            Klines::K4hour => 4 * 3600,
            Klines::K6hour => 6 * 3600,
            Klines::K8hour => 8 * 3600,
            Klines::K12hour => 12 * 3600,
            Klines::K1day => 86400,
            Klines::K1week => 7 * 86400,
        }
    }

    /// The venue's name of the interval.
    pub open spec fn name(self) -> Seq<char> {
        match self {
            Klines::K1min => "1min"@,
            Klines::K3min => "3min"@,
            Klines::K5min => "5min"@,
            Klines::K15min => "15min"@,
            Klines::K30min => "30min"@,
            Klines::K1hour => "1hour"@,
            Klines::K2hour => "2hour"@,
            Klines::K4hour => "4hour"@,
            Klines::K6hour => "6hour"@,
            Klines::K8hour => "8hour"@,
            Klines::K12hour => "12hour"@,
            Klines::K1day => "1day"@,
            Klines::K1week => "1week"@,
        }
    }

    pub fn as_seconds(&self) -> (r: u64)
        ensures
            r as nat == self.seconds(),
    {
        match self {
            Klines::K1min => 1 * MINUTE,
            Klines::K3min => 3 * MINUTE,
            Klines::K5min => 5 * MINUTE,
            Klines::K15min => 15 * MINUTE,
            Klines::K30min => 30 * MINUTE,
            Klines::K1hour => 1 * HOUR,
            Klines::K2hour => 2 * HOUR,
            Klines::K4hour => 4 * HOUR,
            Klines::K6hour => 6 * HOUR,
            Klines::K8hour => 8 * HOUR,
            Klines::K12hour => 12 * HOUR,
            Klines::K1day => 1 * DAY,
            Klines::K1week => 7 * DAY,
        }
    }

    pub fn as_str(&self) -> (r: &'static str)
        ensures
            r@ == self.name(),
    {
        match self {
            Klines::K1min => "1min",
            Klines::K3min => "3min",
            Klines::K5min => "5min",
            Klines::K15min => "15min",
            Klines::K30min => "30min",
            Klines::K1hour => "1hour",
            Klines::K2hour => "2hour",
            Klines::K4hour => "4hour",
            Klines::K6hour => "6hour",
            Klines::K8hour => "8hour",
            Klines::K12hour => "12hour",
            Klines::K1day => "1day",
            Klines::K1week => "1week",
        }
    }

    /// Reads a name; fails on any text that names no variant.
    pub fn parse(s: &str) -> (r: Result<Klines, Error>)
        ensures
            match r {
                Ok(v) => v.name() == s@,
                Err(e) => e == Error::InvalidKlines && forall|v: Klines| #[trigger] v.name() != s@,
            },
    {
        proof {
            reveal_strlit("1min");
            reveal_strlit("3min");
            reveal_strlit("5min");
            reveal_strlit("15min");
            reveal_strlit("30min");
            reveal_strlit("1hour");
            reveal_strlit("2hour");
            reveal_strlit("4hour");
            reveal_strlit("6hour");
            reveal_strlit("8hour");
            reveal_strlit("12hour");
            reveal_strlit("1day");
            reveal_strlit("1week");
        }
        if same_text(s, "1min") {
            return Ok(Klines::K1min);
        }
        if same_text(s, "3min") {
            return Ok(Klines::K3min);
        }
        if same_text(s, "5min") {
            return Ok(Klines::K5min);
        }
        if same_text(s, "15min") {
            return Ok(Klines::K15min);
        }
        if same_text(s, "30min") {
            return Ok(Klines::K30min);
        }
        if same_text(s, "1hour") {
            return Ok(Klines::K1hour);
        }
        if same_text(s, "2hour") {
            return Ok(Klines::K2hour);
        }
        if same_text(s, "4hour") {
            return Ok(Klines::K4hour);
        }
        if same_text(s, "6hour") {
            return Ok(Klines::K6hour);
        }
        if same_text(s, "8hour") {
            return Ok(Klines::K8hour);
        }
        if same_text(s, "12hour") {
            return Ok(Klines::K12hour);
        }
        if same_text(s, "1day") {
            return Ok(Klines::K1day);
        }
        if same_text(s, "1week") {
            return Ok(Klines::K1week);
        }
        Err(Error::InvalidKlines)
    }
}

impl std::str::FromStr for Klines {
    type Err = Error;

    fn from_str(s: &str) -> Result<Self, Self::Err> {
        Klines::parse(s)
    }
}

} // verus!
