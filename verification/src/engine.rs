//! The game engine: round progression, price escalation, the timeout that
//! ends the game, and custody and payout of the pool.

use vstd::prelude::*;

use crate::custodian::{into_account, module_account, pool_account, pool_seed};
use crate::history::{Call, World};
use crate::ledger::{transfer_outcome, transferred, Ledger};
use crate::types::{AccountId, Balance, BlockNumber, Config, Error, Event};

verus! {

/// The price of the ticket that is bought in round `round`.
pub open spec fn price_at(round: nat, increment: nat) -> nat {
    (round + 1) * increment
}

/// The state of the game.
#[derive(Clone, Copy, Debug, PartialEq, Eq, Structural)]
pub struct Module {
    /// The parameters the game was set up with.
    pub config: Config,
    /// How many tickets have been bought.
    pub round: u128,
    /// Who bought the latest ticket, if one was bought.
    pub leader: Option<AccountId>,
    /// The block in which the latest ticket was bought.
    pub last_payment_block: BlockNumber,
}

impl Module {
    /// What holds of every state that purchases lead to: there is a leader
    /// exactly when a ticket has been bought, and before the first purchase
    /// the block of the latest one is the clock's zero.
    pub open spec fn well_formed(&self) -> bool {
        &&& self.leader is Some <==> self.round > 0
        &&& self.round == 0 ==> self.last_payment_block == 0
    }

    /// The game over predicate: the window after the latest purchase has
    /// passed at `now`.
    pub open spec fn is_over_at(&self, now: BlockNumber) -> bool {
        now >= self.last_payment_block + self.config.blocks_to_win
    }

    /// The price of the next ticket.
    pub open spec fn next_price(&self) -> nat {
        price_at(self.round as nat, self.config.price_increment as nat)
    }

    /// Whether the next round and the next price can be represented.
    pub open spec fn price_is_representable(&self) -> bool {
        self.round < u128::MAX && self.next_price() <= Balance::MAX
    }

    /// The state after `purchaser` has bought a ticket at `now`.
    pub open spec fn after_purchase(&self, purchaser: AccountId, now: BlockNumber) -> Module {
        Module {
            config: self.config,
            round: (self.round + 1) as u128,
            leader: Some(purchaser),
            last_payment_block: now,
        }
    }

    /// What a purchase is quoted at `now` under the ceiling `max_spend`: the
    /// price, or the first check that fails.
    pub open spec fn quote(&self, now: BlockNumber, max_spend: Balance) -> Result<Balance, Error> {
        if self.is_over_at(now) {
            Err(Error::GameIsOver)
        } else if !self.price_is_representable() {
            Err(Error::ValueConversionError)
        } else if self.next_price() > max_spend {
            Err(Error::InsufficientFunds)
        } else {
            Ok(self.next_price() as Balance)
        }
    }

    /// What `claimer` is owed at `now` from a pool that holds `pool`: all of
    /// it, or the first check that fails.
    pub open spec fn payout(&self, now: BlockNumber, claimer: AccountId, pool: Balance) -> Result<
        Balance,
        Error,
    > {
        if self.leader != Some(claimer) {
            Err(Error::ClaimerIsNotLeader)
        } else if !self.is_over_at(now) {
            Err(Error::GameIsNotOver)
        } else if pool == 0 {
            Err(Error::PoolIsEmpty)
        } else {
            Ok(pool)
        }
    }

    /// What `buy_ticket` returns on the given balances.
    pub open spec fn purchase_outcome(
        &self,
        balances: Map<AccountId, Balance>,
        now: BlockNumber,
        purchaser: AccountId,
        max_spend: Balance,
    ) -> Result<Event, Error> {
        match self.quote(now, max_spend) {
            Err(e) => Err(e),
            Ok(price) => match transfer_outcome(balances, purchaser, pool_account(), price) {
                Err(e) => Err(Error::Transfer(e)),
                Ok(_) => Ok(Event::TicketPurchased(purchaser, price)),
            },
        }
    }

    /// What `claim` returns on the given balances.
    pub open spec fn claim_outcome(
        &self,
        balances: Map<AccountId, Balance>,
        now: BlockNumber,
        claimer: AccountId,
    ) -> Result<Event, Error> {
        match self.payout(now, claimer, balances[pool_account()]) {
            Err(e) => Err(e),
            Ok(amount) => match transfer_outcome(balances, pool_account(), claimer, amount) {
                Err(e) => Err(Error::Transfer(e)),
                Ok(_) => Ok(Event::PoolClaimed(claimer, amount)),
            },
        }
    }

    /// A game in which no ticket has been bought.
    pub fn new(config: Config) -> (game: Module)
        ensures
            game == (Module { config, round: 0, leader: None, last_payment_block: 0 }),
            game.well_formed(),
    {
        Module { config, round: 0, leader: None, last_payment_block: 0 }
    }

    /// The account that holds the pool, derived from the pool's seed.
    pub fn pool_account_id() -> (account: AccountId)
        ensures
            account == pool_account(),
            account == module_account(pool_seed()),
    {
        let seed: [u8; 8] = [0x66, 0x6f, 0x6d, 0x6f, 0x66, 0x6f, 0x6d, 0x6f];
        into_account(seed)
    }

    /// What the pool holds.
    pub fn pool_balance(ledger: &Ledger) -> (amount: Balance)
        ensures
            amount == ledger@[pool_account()],
    {
        ledger.free_balance(Self::pool_account_id())
    }

    /// The price of the next ticket, or `ValueConversionError` where the next
    /// round or its price cannot be represented.
    pub fn current_price(&self) -> (price: Result<Balance, Error>)
        ensures
            self.price_is_representable() ==> price == Ok::<Balance, Error>(
                self.next_price() as Balance,
            ),
            !self.price_is_representable() ==> price == Err::<Balance, Error>(
                Error::ValueConversionError,
            ),
    {
        match self.round.checked_add(1) {
            None => Err(Error::ValueConversionError),
            Some(next_round) => match next_round.checked_mul(self.config.price_increment) {
                None => Err(Error::ValueConversionError),
                Some(price) => Ok(price),
            },
        }
    }

    /// Whether the game is over at `now`.
    pub fn game_is_over(&self, now: BlockNumber) -> (over: bool)
        ensures
            over == self.is_over_at(now),
    {
        match self.last_payment_block.checked_add(self.config.blocks_to_win) {
            Some(deadline) => now >= deadline,
            None => false,
        }
    }

    /// Checks a purchase at `now` under the ceiling `max_spend` and gives the
    /// price to pay, without changing anything.
    pub fn quote_ticket(&self, now: BlockNumber, max_spend: Balance) -> (quoted: Result<
        Balance,
        Error,
    >)
        ensures
            quoted == self.quote(now, max_spend),
    {
        if self.game_is_over(now) {
            return Err(Error::GameIsOver);
        }
        match self.current_price() {
            Err(e) => Err(e),
            Ok(price) => if price <= max_spend {
                Ok(price)
            } else {
                Err(Error::InsufficientFunds)
            },
        }
    }

    /// Records that `purchaser` has paid for a ticket at `now`.
    pub fn record_purchase(&mut self, purchaser: AccountId, now: BlockNumber)
        requires
            old(self).round < u128::MAX,
        ensures
            *final(self) == old(self).after_purchase(purchaser, now),
            final(self).round == old(self).round + 1,
    {
        self.leader = Some(purchaser);
        self.round = self.round + 1;
        self.last_payment_block = now;
    }

    /// Checks that `claimer` may withdraw the pool, which holds `pool`, at
    /// `now`, and gives the amount to pay out, without changing anything.
    pub fn check_claim(&self, now: BlockNumber, claimer: AccountId, pool: Balance) -> (checked:
        Result<Balance, Error>)
        ensures
            checked == self.payout(now, claimer, pool),
    {
        let leads = match self.leader {
            Some(leader) => leader == claimer,
            None => false,
        };
        if !leads {
            Err(Error::ClaimerIsNotLeader)
        } else if !self.game_is_over(now) {
            Err(Error::GameIsNotOver)
        } else if pool == 0 {
            Err(Error::PoolIsEmpty)
        } else {
            Ok(pool)
        }
    }

    /// Buys a ticket for `purchaser` at `now`, who is willing to pay up to
    /// `max_spend`: the price moves from the purchaser to the pool, and the
    /// purchaser becomes the leader. On any failure nothing changes.
    pub fn buy_ticket(
        &mut self,
        ledger: &mut Ledger,
        now: BlockNumber,
        purchaser: AccountId,
        max_spend: Balance,
    ) -> (bought: Result<Event, Error>)
        ensures
            bought == old(self).purchase_outcome(old(ledger)@, now, purchaser, max_spend),
            bought is Ok ==> *final(self) == old(self).after_purchase(purchaser, now)
                && final(ledger)@ == transferred(
                old(ledger)@,
                purchaser,
                pool_account(),
                old(self).next_price() as Balance,
            ),
            bought is Err ==> *final(self) == *old(self) && final(ledger)@ == old(ledger)@,
            bought == Err::<Event, Error>(Error::GameIsOver) <==> old(self).is_over_at(now),
            bought is Ok ==> final(self).round == old(self).round + 1 && final(self).leader
                == Some(purchaser) && final(self).last_payment_block == now,
            old(self).well_formed() ==> final(self).well_formed(),
            (World { game: *final(self), balances: final(ledger)@ }) == (World {
                game: *old(self),
                balances: old(ledger)@,
            }).step(Call::BuyTicket { now, purchaser, max_spend }),
    {
        let price = match self.quote_ticket(now, max_spend) {
            Ok(price) => price,
            Err(e) => {
                return Err(e);
            },
        };
        match ledger.transfer(purchaser, Self::pool_account_id(), price) {
            Err(e) => Err(Error::Transfer(e)),
            Ok(_) => {
                self.record_purchase(purchaser, now);
                Ok(Event::TicketPurchased(purchaser, price))
            },
        }
    }

    /// Pays the whole pool to `claimer` at `now`, if `claimer` leads a game
    /// that is over and the pool holds anything. On any failure nothing
    /// changes. A claim does not restart the game: round, leader and the
    /// block of the latest purchase stay as they are, so the game remains
    /// over and a further claim finds the pool empty.
    pub fn claim(&self, ledger: &mut Ledger, now: BlockNumber, claimer: AccountId) -> (claimed:
        Result<Event, Error>)
        ensures
            claimed == self.claim_outcome(old(ledger)@, now, claimer),
            claimed is Ok ==> final(ledger)@ == transferred(
                old(ledger)@,
                pool_account(),
                claimer,
                old(ledger)@[pool_account()],
            ),
            claimed is Err ==> final(ledger)@ == old(ledger)@,
            claimed is Ok ==> self.leader == Some(claimer) && self.is_over_at(now),
            claimed is Ok && claimer != pool_account() ==> final(ledger)@[pool_account()] == 0
                && final(ledger)@[claimer] == old(ledger)@[claimer] + old(ledger)@[pool_account()],
            (World { game: *self, balances: final(ledger)@ }) == (World {
                game: *self,
                balances: old(ledger)@,
            }).step(Call::Claim { now, claimer }),
    {
        let pool = Self::pool_account_id();
        let winnings = match self.check_claim(now, claimer, ledger.free_balance(pool)) {
            Ok(winnings) => winnings,
            Err(e) => {
                return Err(e);
            },
        };
        match ledger.transfer(pool, claimer, winnings) {
            Err(e) => Err(Error::Transfer(e)),
            Ok(_) => Ok(Event::PoolClaimed(claimer, winnings)),
        }
    }
}

} // verus!
