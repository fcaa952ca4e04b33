//! Plain data shared by the engine and the ledger.

use vstd::prelude::*;

verus! {

/// Identifier of a participant.
pub type AccountId = u64;

/// Amount of ledger units.
pub type Balance = u128;

/// Discrete clock value.
pub type BlockNumber = u64;

/// Parameters of a game, fixed when it is set up.
#[derive(Clone, Copy, Debug, PartialEq, Eq, Structural)]
pub struct Config {
    /// How much the price increases with each round.
    pub price_increment: Balance,
    /// How many blocks must pass without a purchase for the game to end.
    pub blocks_to_win: BlockNumber,
}

/// Why the ledger refused a transfer.
#[derive(Clone, Copy, Debug, PartialEq, Eq, Structural)]
pub enum TransferError {
    /// The sender holds less than the amount.
    InsufficientBalance,
    /// The receiver's balance would exceed the largest representable amount.
    Overflow,
}

/// Why an operation of the game was rejected.
#[derive(Clone, Copy, Debug, PartialEq, Eq, Structural)]
pub enum Error {
    /// The spending ceiling is below the current ticket price.
    InsufficientFunds,
    /// The ticket price cannot be represented.
    ValueConversionError,
    /// The game is over, preventing the intended action.
    GameIsOver,
    /// The game is not over, preventing the intended action.
    GameIsNotOver,
    /// The account attempting to claim the pool is not the current leader.
    ClaimerIsNotLeader,
    /// The pool holds nothing that could be paid out.
    PoolIsEmpty,
    /// The ledger refused the transfer.
    Transfer(TransferError),
}

/// What a successful operation reports to observers.
#[derive(Clone, Copy, Debug, PartialEq, Eq, Structural)]
pub enum Event {
    /// A player purchased a ticket: who, and at which price.
    TicketPurchased(AccountId, Balance),
    /// The winner has claimed the pool: who, and how much.
    PoolClaimed(AccountId, Balance),
}

} // verus!
