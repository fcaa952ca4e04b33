//! What holds of the game: of the price, of single calls, and of whole
//! histories of calls.

use vstd::prelude::*;

use crate::custodian::pool_account;
use crate::engine::{price_at, Module};
use crate::history::{clock_is_monotonic, custodian_is_silent, Call, World};
use crate::ledger::{transfer_outcome, transferred};
use crate::types::{AccountId, Balance, BlockNumber, Error, Event};

verus! {

/// With a positive increment the ticket price rises strictly from round to
/// round.
pub proof fn law_price_strictly_increasing(earlier: nat, later: nat, increment: nat)
    requires
        increment > 0,
        earlier < later,
    ensures
        price_at(earlier, increment) < price_at(later, increment),
        price_at(earlier + 1, increment) == price_at(earlier, increment) + increment,
{
    assert((earlier + 1) * increment < (later + 1) * increment) by (nonlinear_arith)
        requires
            increment > 0,
            earlier < later,
    ;
    assert((earlier + 1 + 1) * increment == (earlier + 1) * increment + increment)
        by (nonlinear_arith);
}

/// A purchase succeeds exactly when the game is not over, the price can be
/// represented and is within the ceiling, and the ledger moves it. It then
/// raises the round by one, makes the purchaser the leader and restarts the
/// window at the time of the call.
pub proof fn law_purchase_advances_game(
    game: Module,
    balances: Map<AccountId, Balance>,
    now: BlockNumber,
    purchaser: AccountId,
    max_spend: Balance,
)
    ensures
        game.purchase_outcome(balances, now, purchaser, max_spend) == Err::<Event, Error>(
            Error::GameIsOver,
        ) <==> game.is_over_at(now),
        game.purchase_outcome(balances, now, purchaser, max_spend) is Ok <==> {
            &&& !game.is_over_at(now)
            &&& game.price_is_representable()
            &&& game.next_price() <= max_spend
            &&& transfer_outcome(
                balances,
                purchaser,
                pool_account(),
                game.next_price() as Balance,
            ) is Ok
        },
        game.purchase_outcome(balances, now, purchaser, max_spend) is Ok ==> {
            let next = game.after_purchase(purchaser, now);
            &&& next.round == game.round + 1
            &&& next.leader == Some(purchaser)
            &&& next.last_payment_block == now
            &&& next.config == game.config
        },
{
}

/// Where the pool holds something and the claimer's balance has room for
/// it, a claim succeeds exactly when the claimer leads a game that is over.
pub proof fn law_claim_succeeds_for_leader_of_finished_game(
    game: Module,
    balances: Map<AccountId, Balance>,
    now: BlockNumber,
    claimer: AccountId,
)
    requires
        balances[pool_account()] > 0,
        claimer == pool_account() || balances[claimer] + balances[pool_account()] <= Balance::MAX,
    ensures
        game.claim_outcome(balances, now, claimer) is Ok <==> game.leader == Some(claimer)
            && game.is_over_at(now),
{
}

/// A successful claim by anyone but the custodian reports what the pool
/// held, empties the pool and raises the claimer's balance by exactly that
/// amount.
pub proof fn law_claim_pays_whole_pool(
    game: Module,
    balances: Map<AccountId, Balance>,
    now: BlockNumber,
    claimer: AccountId,
)
    requires
        claimer != pool_account(),
        game.claim_outcome(balances, now, claimer) is Ok,
    ensures
        game.claim_outcome(balances, now, claimer) == Ok::<Event, Error>(
            Event::PoolClaimed(claimer, balances[pool_account()]),
        ),
        transferred(balances, pool_account(), claimer, balances[pool_account()])[pool_account()]
            == 0,
        transferred(balances, pool_account(), claimer, balances[pool_account()])[claimer]
            == balances[claimer] + balances[pool_account()],
{
}

/// A call made by anyone but the custodian changes the pool by exactly what
/// it pays in, less what it pays out.
pub proof fn law_step_accounts_for_pool(world: World, call: Call)
    requires
        call.caller() != pool_account(),
    ensures
        world.step(call).pool() == world.pool() + world.paid_in(call) - world.paid_out(call),
{
}

/// Over any history in which the custodian makes no call, the pool holds
/// what it held at the start, plus the prices of all successful purchases,
/// less the payouts of all successful claims.
pub proof fn law_pool_is_payments_less_payouts(world: World, calls: Seq<Call>)
    requires
        custodian_is_silent(calls),
    ensures
        world.run(calls).pool() == world.pool() + world.total_paid_in(calls)
            - world.total_paid_out(calls),
    decreases calls.len(),
{
    if calls.len() > 0 {
        law_step_accounts_for_pool(world, calls[0]);
        let rest = calls.skip(1);
        assert forall|i: int| 0 <= i < rest.len() implies (#[trigger] rest[i]).caller()
            != pool_account() by {
            assert(rest[i] == calls[i + 1]);
        }
        law_pool_is_payments_less_payouts(world.step(calls[0]), rest);
    }
}

/// Once the game is over and the pool is empty, nothing is paid in or out
/// any more, as long as the clock does not run backwards.
pub proof fn law_finished_game_stays_finished(world: World, start: BlockNumber, calls: Seq<Call>)
    requires
        world.game.is_over_at(start),
        world.pool() == 0,
        clock_is_monotonic(start, calls),
    ensures
        world.run(calls) == world,
        world.total_paid_in(calls) == 0,
        world.total_paid_out(calls) == 0,
        world.successful_claims(calls) == 0,
    decreases calls.len(),
{
    if calls.len() > 0 {
        assert(world.game.is_over_at(calls[0].now()));
        assert(world.outcome(calls[0]) is Err);
        law_finished_game_stays_finished(world, calls[0].now(), calls.skip(1));
    }
}

/// No double payout: over any history in which the clock does not run
/// backwards and the custodian makes no call, at most one claim succeeds,
/// and nothing is paid out unless one does.
pub proof fn law_at_most_one_payout(world: World, start: BlockNumber, calls: Seq<Call>)
    requires
        custodian_is_silent(calls),
        clock_is_monotonic(start, calls),
    ensures
        world.successful_claims(calls) <= 1,
        world.successful_claims(calls) == 0 ==> world.total_paid_out(calls) == 0,
    decreases calls.len(),
{
    if calls.len() > 0 {
        let first = calls[0];
        let rest = calls.skip(1);
        let next = world.step(first);
        assert(first.caller() != pool_account());
        assert forall|i: int| 0 <= i < rest.len() implies (#[trigger] rest[i]).caller()
            != pool_account() by {
            assert(rest[i] == calls[i + 1]);
        }
        if world.outcome(first) is Ok && first is Claim {
            assert(next.game.is_over_at(first.now()));
            assert(next.pool() == 0);
            law_finished_game_stays_finished(next, first.now(), rest);
        } else {
            law_at_most_one_payout(next, first.now(), rest);
        }
    }
}

} // verus!
