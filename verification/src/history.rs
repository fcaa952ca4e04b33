//! Histories of calls, replayed on the pure model of the engine: the state
//! of the game together with the balances of all accounts.

use vstd::prelude::*;

use crate::custodian::pool_account;
use crate::engine::Module;
use crate::ledger::transferred;
use crate::types::{AccountId, Balance, BlockNumber, Error, Event};

verus! {

/// One call of the engine.
pub enum Call {
    /// `buy_ticket` by `purchaser` at `now` with the ceiling `max_spend`.
    BuyTicket { now: BlockNumber, purchaser: AccountId, max_spend: Balance },
    /// `claim` by `claimer` at `now`.
    Claim { now: BlockNumber, claimer: AccountId },
}

impl Call {
    /// The clock value at the call.
    pub open spec fn now(self) -> BlockNumber {
        match self {
            Call::BuyTicket { now, .. } => now,
            Call::Claim { now, .. } => now,
        }
    }

    /// Who makes the call.
    pub open spec fn caller(self) -> AccountId {
        match self {
            Call::BuyTicket { purchaser, .. } => purchaser,
            Call::Claim { claimer, .. } => claimer,
        }
    }
}

/// The game and the balances it acts on.
pub struct World {
    pub game: Module,
    pub balances: Map<AccountId, Balance>,
}

impl World {
    /// What the pool holds.
    pub open spec fn pool(self) -> Balance {
        self.balances[pool_account()]
    }

    /// What the call returns in this world.
    pub open spec fn outcome(self, call: Call) -> Result<Event, Error> {
        match call {
            Call::BuyTicket { now, purchaser, max_spend } => self.game.purchase_outcome(
                self.balances,
                now,
                purchaser,
                max_spend,
            ),
            Call::Claim { now, claimer } => self.game.claim_outcome(self.balances, now, claimer),
        }
    }

    /// The world after the call: changed as `buy_ticket` and `claim` change
    /// it where they succeed, and untouched where they fail.
    pub open spec fn step(self, call: Call) -> World {
        match self.outcome(call) {
            Ok(Event::TicketPurchased(purchaser, price)) => World {
                game: self.game.after_purchase(purchaser, call.now()),
                balances: transferred(self.balances, purchaser, pool_account(), price),
            },
            Ok(Event::PoolClaimed(claimer, amount)) => World {
                game: self.game,
                balances: transferred(self.balances, pool_account(), claimer, amount),
            },
            Err(_) => self,
        }
    }

    /// What the call pays into the pool.
    pub open spec fn paid_in(self, call: Call) -> nat {
        match self.outcome(call) {
            Ok(Event::TicketPurchased(_, price)) => price as nat,
            _ => 0,
        }
    }

    /// What the call pays out of the pool.
    pub open spec fn paid_out(self, call: Call) -> nat {
        match self.outcome(call) {
            Ok(Event::PoolClaimed(_, amount)) => amount as nat,
            _ => 0,
        }
    }

    /// The world after all of `calls`, in order.
    pub open spec fn run(self, calls: Seq<Call>) -> World
        decreases calls.len(),
    {
        if calls.len() == 0 {
            self
        } else {
            self.step(calls[0]).run(calls.skip(1))
        }
    }

    /// The sum of the prices of all purchases among `calls` that succeed.
    pub open spec fn total_paid_in(self, calls: Seq<Call>) -> nat
        decreases calls.len(),
    {
        if calls.len() == 0 {
            0
        } else {
            self.paid_in(calls[0]) + self.step(calls[0]).total_paid_in(calls.skip(1))
        }
    }

    /// The sum of the payouts of all claims among `calls` that succeed.
    pub open spec fn total_paid_out(self, calls: Seq<Call>) -> nat
        decreases calls.len(),
    {
        if calls.len() == 0 {
            0
        } else {
            self.paid_out(calls[0]) + self.step(calls[0]).total_paid_out(calls.skip(1))
        }
    }

    /// How many purchases among `calls` succeed.
    pub open spec fn successful_purchases(self, calls: Seq<Call>) -> nat
        decreases calls.len(),
    {
        if calls.len() == 0 {
            0
        } else {
            let first: nat = if self.outcome(calls[0]) is Ok && calls[0] is BuyTicket {
                1
            } else {
                0
            };
            first + self.step(calls[0]).successful_purchases(calls.skip(1))
        }
    }

    /// How many claims among `calls` succeed.
    pub open spec fn successful_claims(self, calls: Seq<Call>) -> nat
        decreases calls.len(),
    {
        if calls.len() == 0 {
            0
        } else {
            let first: nat = if self.outcome(calls[0]) is Ok && calls[0] is Claim {
                1
            } else {
                0
            };
            first + self.step(calls[0]).successful_claims(calls.skip(1))
        }
    }
}

/// No call is made by the custodian of the pool.
pub open spec fn custodian_is_silent(calls: Seq<Call>) -> bool {
    forall|i: int| 0 <= i < calls.len() ==> (#[trigger] calls[i]).caller() != pool_account()
}

/// The clock never runs backwards: the first call is made at `start` or
/// later, and each call no earlier than the one before.
pub open spec fn clock_is_monotonic(start: BlockNumber, calls: Seq<Call>) -> bool
    decreases calls.len(),
{
    calls.len() == 0 || (calls[0].now() >= start && clock_is_monotonic(
        calls[0].now(),
        calls.skip(1),
    ))
}

} // verus!
