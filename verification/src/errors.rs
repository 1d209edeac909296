//! The failure modes of the settlement engine.

use vstd::prelude::*;

verus! {

/// Every way an operation of the engine can be refused.
///
/// All validation failures are detected before any mutation is applied: an
/// operation that returns one of these has changed nothing.
#[derive(Clone, Copy, Debug, PartialEq, Eq, Structural)]
pub enum ErrorCode {
    /// A market was configured with too few or too many outcomes.
    InvalidConfiguration,
    /// A bet was placed on a market that is already resolved.
    MarketResolved,
    /// A bet was placed at or after the betting deadline.
    MarketEnded,
    /// A bet was below the market's minimum contribution.
    BetTooSmall,
    /// An outcome index was out of range for the market.
    InvalidOutcome,
    /// Resolution was attempted by a caller other than the market authority.
    Unauthorized,
    /// Resolution was attempted on a market that is already resolved.
    MarketAlreadyResolved,
    /// Resolution was attempted before the betting deadline.
    MarketNotEnded,
    /// A claim was attempted on a market that is not yet resolved.
    MarketNotResolved,
    /// A claim was attempted on a position that has already claimed.
    AlreadyClaimed,
    /// An addition of amounts would exceed the representable range.
    ArithmeticOverflow,
    /// The external custody collaborator refused a value transfer.
    TransferError,
}

} // verus!
