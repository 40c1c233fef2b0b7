//! Enumerations used across the adapter.

use vstd::prelude::*;

verus! {

/// The OANDA trading environment.
#[derive(Clone, Copy, Debug, PartialEq, Eq, Structural)]
pub enum OandaEnvironment {
    /// The practice (demo) environment.
    FxTradePractice,
    /// The live environment.
    FxTrade,
}

} // verus!
