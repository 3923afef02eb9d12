//! What the operations guarantee about balances and sessions, stated over the
//! plans and records their contracts describe.
use vstd::prelude::*;
use crate::address::Address;
use crate::records::{net_flow, transfer_flow, GamehouseError, GamerData, OutcomeState, TokenTransfer};
use crate::game::{after_claim, after_wager, claim_error, claim_plan, wager_plan, Claim, StartGame};

verus! {

proof fn lemma_net_flow_pair(t0: TokenTransfer, t1: TokenTransfer, a: Address)
    ensures
        net_flow(seq![t0, t1], a) == transfer_flow(t0, a) + transfer_flow(t1, a),
{
    let s = seq![t0, t1];
    assert(s.drop_last() =~= seq![t0]);
    assert(seq![t0].drop_last() =~= Seq::<TokenTransfer>::empty());
    reveal_with_fuel(net_flow, 3);
}

proof fn lemma_net_flow_single(t: TokenTransfer, a: Address)
    ensures
        net_flow(seq![t], a) == transfer_flow(t, a),
{
    assert(seq![t].drop_last() =~= Seq::<TokenTransfer>::empty());
    reveal_with_fuel(net_flow, 2);
}

/// A successful wager takes exactly the fee and the stake out of the player's
/// fee and stake accounts and puts them into the house's fee and stake
/// escrows, and records the stake in the session.
pub proof fn wager_moves_fee_and_stake(ctx: StartGame, gd: GamerData, amount: u64)
    requires
        ctx.from_utility_account != ctx.from_account,
        ctx.from_utility_account != ctx.to_utility_account,
        ctx.from_utility_account != ctx.to_account,
        ctx.from_account != ctx.to_utility_account,
        ctx.from_account != ctx.to_account,
        ctx.to_utility_account != ctx.to_account,
    ensures
        ({
            let plan = wager_plan(ctx, amount);
            let fee = ctx.gamehouse.burn_amount as int;
            &&& net_flow(plan, ctx.from_utility_account) == -fee
            &&& net_flow(plan, ctx.from_account) == -(amount as int)
            &&& net_flow(plan, ctx.to_utility_account) == fee
            &&& net_flow(plan, ctx.to_account) == amount as int
            &&& net_flow(plan, ctx.from_utility_account) + net_flow(plan, ctx.from_account) == -(fee + amount)
            &&& net_flow(plan, ctx.to_utility_account) + net_flow(plan, ctx.to_account) == fee + amount
        }),
        after_wager(gd, amount, ctx.unix_timestamp).bet_amount == amount,
{
    let plan = wager_plan(ctx, amount);
    lemma_net_flow_pair(plan[0], plan[1], ctx.from_utility_account);
    lemma_net_flow_pair(plan[0], plan[1], ctx.from_account);
    lemma_net_flow_pair(plan[0], plan[1], ctx.to_utility_account);
    lemma_net_flow_pair(plan[0], plan[1], ctx.to_account);
    assert(plan =~= seq![plan[0], plan[1]]);
}

/// For a player claiming their own session from the house's stake escrow, a
/// claim succeeds exactly when the session is won; then twice the stake leaves
/// the escrow and reaches the player's account, and the session is idle again.
pub proof fn claim_pays_double(ctx: Claim, gd: GamerData)
    requires
        gd.gamer == ctx.gamer,
        gd.gamehouse == ctx.gamehouse_key,
        ctx.from_account == ctx.gamehouse.sol_account,
        ctx.from_account != ctx.to_account,
        2 * gd.bet_amount <= u64::MAX,
    ensures
        claim_error(ctx, gd) is None <==> gd.win_state == OutcomeState::Won,
        gd.win_state == OutcomeState::Won ==> {
            &&& net_flow(claim_plan(ctx, gd), ctx.from_account) == -2 * gd.bet_amount
            &&& net_flow(claim_plan(ctx, gd), ctx.to_account) == 2 * gd.bet_amount
            &&& after_claim(gd).win_state == OutcomeState::Idle
        },
{
    let plan = claim_plan(ctx, gd);
    lemma_net_flow_single(plan[0], ctx.from_account);
    lemma_net_flow_single(plan[0], ctx.to_account);
    assert(plan =~= seq![plan[0]]);
}

/// A claim made again on the session that a successful claim left behind
/// fails as not a winner, and so transfers nothing.
pub proof fn second_claim_fails(ctx: Claim, gd: GamerData)
    requires
        claim_error(ctx, gd) is None,
    ensures
        claim_error(ctx, after_claim(gd)) == Some(GamehouseError::NotAWinner),
{
}

} // verus!
