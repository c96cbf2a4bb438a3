//! The errors that the lottery's instructions answer with.
use vstd::prelude::*;

verus! {

/// The lottery's own refusals, in the order of their error codes.
#[derive(Clone, Copy, Debug, PartialEq, Eq, Structural)]
pub enum LotteryError {
    /// Lottery is already closed.
    LotteryClosed,
    /// Lottery is still open.
    LotteryOpen,
    /// Wrong lottery Id.
    InvalidLotteryId,
    /// Unauthorized attempt to open/close the lottery.
    UnauthorizedOwner,
    /// User is not whitelisted.
    NotWhitelisted,
    /// Not enough tickets
    NotEnoughTickets,
    /// Lottery time elapsed
    LotteryTimeElapsed,
    /// Lottery time un-elapsed
    LotteryTimeUnElapsed,
    /// Not enough ANTcoin
    InsufficientFunds,
    /// Not owner.
    NotOwner,
    /// Invalid Lottery Token Account for admin.
    InvalidLotteryTokenAccount,
    /// Uninitialized Account
    UninitializedAccount,
    /// Already Confirm
    AlreadyConfirm,
    /// Not Confirmed
    NotConfirmed,
    /// Didn't Deposit
    NotDeposit,
    /// Lottery not claimable
    LotteryNotClaimable,
}

/// The error type of Anchor, which an account read can fail with.
#[verifier::external_type_specification]
#[verifier::external_body]
pub struct ExAnchorError(anchor_lang::error::Error);

/// Why an instruction was refused.
#[derive(Debug)]
pub enum InstructionError {
    /// One of the lottery's own errors.
    Lottery(LotteryError),
    /// A `require_eq!` without an error of its own failed: Anchor's `RequireEqViolated`.
    RequireEqViolated,
    /// An account's data could not be read; the error is Anchor's, handed on as it came.
    Anchor(anchor_lang::error::Error),
}

} // verus!
