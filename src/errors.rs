//! Error types of the engine.
use vstd::prelude::*;

verus! {

/// Failures of the weighted-mean tracker and the accrual controller.
#[derive(Clone, Copy, Debug, PartialEq, Eq, Structural)]
pub enum AccrualError {
    /// A timestamp earlier than the last update, or an age longer than the
    /// time that has passed.
    BadTimestamp,
    /// A value that does not fit in its integer type.
    Overflow,
    /// A removal of more weight than the tracker holds.
    Underflow,
    /// Accrual parameters that break the controller's invariant.
    InvalidConfig,
}

/// Failures of the bond lifecycle operations. Each leaves the state as it
/// was.
#[derive(Clone, Copy, Debug, PartialEq, Eq, Structural)]
pub enum BondError {
    /// A clock that ran backwards, or an age that does not fit the time.
    BadTimestamp,
    /// The note is not in the status that the operation requires.
    InvalidNoteState,
    /// The account has no note of that id.
    NoteNotFound,
    /// Less execution budget was reserved than the whole call chain needs.
    InsufficientBudget,
    /// The price oracle reported a failure.
    PriceUnavailable,
    /// The account holds fewer claim tokens than asked for.
    InsufficientBalance,
    /// Redeeming would leave at most one claim token in supply.
    SupplyFloorViolation,
    /// User operations are paused.
    Paused,
    /// Less than the storage deposit plus the minimum bond was attached.
    BondTooSmall,
    /// Commit and redeem are not open before the bootstrap period ends.
    Bootstrapping,
    /// The caller is not the owner.
    NotOwner,
    /// The owner setting is already as requested.
    AlreadySet,
    /// Nothing is owed to the account, or the treasury is empty.
    NothingToClaim,
    /// Tokens other than the staked asset were sent to bond.
    WrongToken,
    /// A transfer of zero tokens.
    ZeroTransfer,
    /// A protocol parameter out of its range.
    InvalidConfig,
    /// A value that does not fit in its integer type, or a pool that would
    /// go negative.
    Overflow,
}

} // verus!
