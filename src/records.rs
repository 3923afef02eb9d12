//! The two persistent records, the errors of the operations, and the token
//! transfers that the operations ask the ledger to carry out.
use vstd::prelude::*;
use crate::address::Address;

verus! {

/// Configuration of one house, stored at the address derived from `rand`.
#[derive(Clone, Copy, Debug)]
pub struct Gamehouse {
    /// The identity allowed to withdraw from the escrow accounts.
    pub owner: Address,
    /// Seed from which the house's signing address is derived.
    pub rand: Address,
    /// Escrow token account that receives stakes and pays out wins.
    pub sol_account: Address,
    /// Mint of the fee token.
    pub utility_token: Address,
    /// Escrow token account that receives the fees.
    pub burn_token_account: Address,
    /// The collection whose verified creator entry a membership NFT must carry.
    pub collection: Address,
    /// Largest stake of a single wager.
    pub max_bet_amount: u64,
    /// Fee charged on every wager, in the fee token.
    pub burn_amount: u64,
    /// Bump that, with `rand`, reconstructs the house's signing address.
    pub bumps: u8,
}

/// Whether a player has a payout owed.
#[derive(Clone, Copy, Debug, PartialEq, Eq, Structural)]
pub enum OutcomeState {
    Idle,
    Won,
}

/// One player's session with one house.
#[derive(Clone, Copy, Debug)]
pub struct GamerData {
    pub gamer: Address,
    pub gamehouse: Address,
    /// Stake of the last wager.
    pub bet_amount: u64,
    pub win_state: OutcomeState,
}

#[derive(Clone, Copy, Debug, PartialEq, Eq, Structural)]
pub enum GamehouseError {
    /// The stake is zero or above the house's maximum.
    InvalidWagerAmount,
    /// The membership NFT or its metadata does not prove membership.
    InvalidMembership,
    /// A claim on a session that has nothing owed.
    NotAWinner,
    /// The signer is not the one the record names.
    Unauthorized,
    /// An account's balance is below what a transfer takes.
    InsufficientFunds,
    /// A session for this player and house already exists.
    DuplicateSession,
    /// An account is not the one the house or the operation requires.
    ConstraintViolated,
}

/// A token account as the ledger reports it.
#[derive(Clone, Copy, Debug)]
pub struct TokenAccount {
    pub address: Address,
    pub mint: Address,
    /// The identity that controls the account's balance.
    pub owner: Address,
    pub amount: u64,
}

/// Who authorises a transfer.
#[derive(Clone, Copy, Debug)]
pub enum Authority {
    /// The holder of the source account, by signature.
    Holder(Address),
    /// The house's derived signing address, rebuilt from its seed and bump.
    House { seed: Address, bump: u8 },
}

/// A transfer of `amount` tokens from one token account to another.
#[derive(Clone, Copy, Debug)]
pub struct TokenTransfer {
    pub from: Address,
    pub to: Address,
    pub amount: u64,
    pub authority: Authority,
}

/// What one transfer does to the balance of `a`.
pub open spec fn transfer_flow(t: TokenTransfer, a: Address) -> int {
    (if t.to == a { t.amount as int } else { 0 }) - (if t.from == a { t.amount as int } else { 0 })
}

/// What carrying out `plan` in order does to the balance of `a`, once every
/// transfer in it has gone through.
pub open spec fn net_flow(plan: Seq<TokenTransfer>, a: Address) -> int
    decreases plan.len(),
{
    if plan.len() == 0 {
        0
    } else {
        net_flow(plan.drop_last(), a) + transfer_flow(plan.last(), a)
    }
}

} // verus!
