//! Instruments known by name.
use vstd::prelude::*;

verus! {

/// A traded pair.
#[derive(Copy, Clone, Debug, PartialEq, Eq, Hash, PartialOrd, Ord, Structural)]
pub enum Symbol {
    BtcUsdt,
}

impl Symbol {
    /// The venue's name of the pair.
    pub open spec fn name(self) -> Seq<char> {
        match self {
            Symbol::BtcUsdt => "BTC-USDT"@,
        }
    }

    pub fn as_str(&self) -> (r: &'static str)
        ensures
            r@ == self.name(),
    {
        match self {
            Symbol::BtcUsdt => "BTC-USDT",
        }
    }
}

} // verus!
