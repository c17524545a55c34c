//! The asset pairs that the oracle quotes.
use vstd::prelude::*;

verus! {

/// A tradable pair: the asset priced, then the currency it is priced in.
#[derive(Clone, Copy, Debug, PartialEq, Eq, Hash, Structural)]
pub enum AssetPair {
    BTCUSD,
    BTCUSDT,
    MSTRUSD,
}

} // verus!
