//! The house's operations. Each checks the accounts and records it is given,
//! in a fixed order where the first failure wins, and on success updates the
//! records and returns the token transfers the ledger must carry out. A failed
//! operation changes nothing and asks for no transfer.
use vstd::prelude::*;
use crate::address::Address;
use crate::records::{Authority, GamehouseError, GamerData, Gamehouse, OutcomeState, TokenAccount, TokenTransfer};
use crate::membership::{
    check_membership, decode_metadata, decoded_metadata, proves_membership, MembershipMetadata,
    MetadataView,
};
use crate::authority::{derive_house_address, program_address};

verus! {

/// The house's derived signing capability, rebuilt from its configuration.
pub open spec fn house_signer(house: Gamehouse) -> Authority {
    Authority::House { seed: house.rand, bump: house.bumps }
}

/// Accounts and inputs of a wager.
#[derive(Clone, Debug)]
pub struct StartGame {
    /// The signing player.
    pub gamer: Address,
    /// Address of the house record.
    pub gamehouse_key: Address,
    pub gamehouse: Gamehouse,
    /// The player's stake account.
    pub from_account: Address,
    /// Must be the house's stake escrow.
    pub to_account: Address,
    /// The player's fee-token account.
    pub from_utility_account: Address,
    /// Must be the house's fee escrow.
    pub to_utility_account: Address,
    /// Mint of the membership NFT.
    pub nft_mint: Address,
    /// The player's account holding the membership NFT.
    pub nft_account: TokenAccount,
    /// Data of the NFT's token-metadata account.
    pub metadata: Vec<u8>,
    /// Ledger time at which the wager is placed.
    pub unix_timestamp: i64,
}

/// Whether the wager outcome at ledger time `ts` is a win.
pub open spec fn wins_at(ts: i64) -> bool {
    ts % 4 == 0
}

/// Whether the presented NFT account holds the one token of `nft_mint` and
/// belongs to the player.
pub open spec fn holds_nft(ctx: StartGame) -> bool {
    &&& ctx.nft_account.mint == ctx.nft_mint
    &&& ctx.nft_account.amount == 1
    &&& ctx.nft_account.owner == ctx.gamer
}

/// The error of a wager of `amount` with session `gd` and decoded metadata
/// `meta`, if any: the first of these checks that fails.
pub open spec fn wager_error(ctx: StartGame, gd: GamerData, meta: Option<MetadataView>, amount: u64) -> Option<GamehouseError> {
    if amount == 0 || amount > ctx.gamehouse.max_bet_amount {
        Some(GamehouseError::InvalidWagerAmount)
    } else if gd.gamer != ctx.gamer || gd.gamehouse != ctx.gamehouse_key {
        Some(GamehouseError::Unauthorized)
    } else if gd.win_state != OutcomeState::Idle || ctx.to_account != ctx.gamehouse.sol_account
        || ctx.to_utility_account != ctx.gamehouse.burn_token_account {
        Some(GamehouseError::ConstraintViolated)
    } else if !holds_nft(ctx) {
        Some(GamehouseError::InvalidMembership)
    } else if !(meta matches Some(m) && proves_membership(m, ctx.nft_mint, ctx.gamehouse.collection)) {
        Some(GamehouseError::InvalidMembership)
    } else {
        None
    }
}

/// The transfers of a successful wager: the fee into the fee escrow, then the
/// stake into the stake escrow, both signed by the player.
pub open spec fn wager_plan(ctx: StartGame, amount: u64) -> Seq<TokenTransfer> {
    seq![
        TokenTransfer {
            from: ctx.from_utility_account,
            to: ctx.to_utility_account,
            amount: ctx.gamehouse.burn_amount,
            authority: Authority::Holder(ctx.gamer),
        },
        TokenTransfer {
            from: ctx.from_account,
            to: ctx.to_account,
            amount: amount,
            authority: Authority::Holder(ctx.gamer),
        },
    ]
}

/// The session after a successful wager of `amount` at ledger time `ts`.
pub open spec fn after_wager(gd: GamerData, amount: u64, ts: i64) -> GamerData {
    GamerData {
        bet_amount: amount,
        win_state: if wins_at(ts) { OutcomeState::Won } else { OutcomeState::Idle },
        ..gd
    }
}

pub open spec fn metadata_view(meta: Option<MembershipMetadata>) -> Option<MetadataView> {
    match meta {
        Some(m) => Some(m@),
        None => None,
    }
}

/// A wager of `amount`, with the NFT's metadata already decoded (`None` where
/// it did not decode).
pub fn start_game_with_metadata(
    ctx: &StartGame,
    meta: &Option<MembershipMetadata>,
    gamer_data: &mut GamerData,
    amount: u64,
) -> (r: Result<Vec<TokenTransfer>, GamehouseError>)
    ensures
        match r {
            Ok(plan) => {
                &&& wager_error(*ctx, *old(gamer_data), metadata_view(*meta), amount) is None
                &&& plan@ == wager_plan(*ctx, amount)
                &&& *final(gamer_data) == after_wager(*old(gamer_data), amount, ctx.unix_timestamp)
            },
            Err(e) => {
                &&& wager_error(*ctx, *old(gamer_data), metadata_view(*meta), amount) == Some(e)
                &&& *final(gamer_data) == *old(gamer_data)
            },
        },
        (amount == 0 || amount > ctx.gamehouse.max_bet_amount) <==> r == Err::<Vec<TokenTransfer>, GamehouseError>(
            GamehouseError::InvalidWagerAmount,
        ),
{
    let house = &ctx.gamehouse;
    if amount > house.max_bet_amount || amount == 0 {
        return Err(GamehouseError::InvalidWagerAmount);
    }
    if !gamer_data.gamer.same(&ctx.gamer) || !gamer_data.gamehouse.same(&ctx.gamehouse_key) {
        return Err(GamehouseError::Unauthorized);
    }
    if gamer_data.win_state != OutcomeState::Idle || !ctx.to_account.same(&house.sol_account)
        || !ctx.to_utility_account.same(&house.burn_token_account) {
        return Err(GamehouseError::ConstraintViolated);
    }
    if !ctx.nft_account.mint.same(&ctx.nft_mint) || ctx.nft_account.amount != 1
        || !ctx.nft_account.owner.same(&ctx.gamer) {
        return Err(GamehouseError::InvalidMembership);
    }
    let verified = match meta {
        Some(m) => check_membership(m, &ctx.nft_mint, &house.collection),
        None => false,
    };
    if !verified {
        return Err(GamehouseError::InvalidMembership);
    }
    let mut plan: Vec<TokenTransfer> = Vec::new();
    plan.push(TokenTransfer {
        from: ctx.from_utility_account,
        to: ctx.to_utility_account,
        amount: house.burn_amount,
        authority: Authority::Holder(ctx.gamer),
    });
    plan.push(TokenTransfer {
        from: ctx.from_account,
        to: ctx.to_account,
        amount: amount,
        authority: Authority::Holder(ctx.gamer),
    });
    gamer_data.bet_amount = amount;
    if ctx.unix_timestamp % 4 == 0 {
        gamer_data.win_state = OutcomeState::Won;
    }
    assert(plan@ =~= wager_plan(*ctx, amount));
    Ok(plan)
}

/// A wager of `amount`: decodes the NFT's metadata account, then decides as
/// [`start_game_with_metadata`] does.
pub fn start_game(ctx: &StartGame, gamer_data: &mut GamerData, amount: u64) -> (r: Result<
    Vec<TokenTransfer>,
    GamehouseError,
>)
    ensures
        match r {
            Ok(plan) => {
                &&& wager_error(*ctx, *old(gamer_data), decoded_metadata(ctx.metadata@), amount) is None
                &&& plan@ == wager_plan(*ctx, amount)
                &&& *final(gamer_data) == after_wager(*old(gamer_data), amount, ctx.unix_timestamp)
            },
            Err(e) => {
                &&& wager_error(*ctx, *old(gamer_data), decoded_metadata(ctx.metadata@), amount) == Some(e)
                &&& *final(gamer_data) == *old(gamer_data)
            },
        },
        (amount == 0 || amount > ctx.gamehouse.max_bet_amount) <==> r == Err::<Vec<TokenTransfer>, GamehouseError>(
            GamehouseError::InvalidWagerAmount,
        ),
{
    let meta = decode_metadata(ctx.metadata.as_slice());
    start_game_with_metadata(ctx, &meta, gamer_data, amount)
}

/// Accounts of a claim.
#[derive(Clone, Copy, Debug)]
pub struct Claim {
    /// The signing player.
    pub gamer: Address,
    /// Address of the house record.
    pub gamehouse_key: Address,
    pub gamehouse: Gamehouse,
    /// Must be the house's stake escrow.
    pub from_account: Address,
    /// The player's account that receives the payout.
    pub to_account: Address,
}

/// The error of a claim on session `gd`, if any: the first of these checks
/// that fails. A payout above the largest token amount cannot be funded.
pub open spec fn claim_error(ctx: Claim, gd: GamerData) -> Option<GamehouseError> {
    if gd.gamer != ctx.gamer || gd.gamehouse != ctx.gamehouse_key {
        Some(GamehouseError::Unauthorized)
    } else if gd.win_state != OutcomeState::Won {
        Some(GamehouseError::NotAWinner)
    } else if ctx.from_account != ctx.gamehouse.sol_account {
        Some(GamehouseError::ConstraintViolated)
    } else if 2 * gd.bet_amount > u64::MAX {
        Some(GamehouseError::InsufficientFunds)
    } else {
        None
    }
}

/// The transfer of a successful claim: twice the stake out of the stake
/// escrow, signed by the house.
pub open spec fn claim_plan(ctx: Claim, gd: GamerData) -> Seq<TokenTransfer> {
    seq![
        TokenTransfer {
            from: ctx.from_account,
            to: ctx.to_account,
            amount: (2 * gd.bet_amount) as u64,
            authority: house_signer(ctx.gamehouse),
        },
    ]
}

/// The session after a successful claim: nothing owed, the stake kept as a
/// record of the last wager.
pub open spec fn after_claim(gd: GamerData) -> GamerData {
    GamerData { win_state: OutcomeState::Idle, ..gd }
}

/// Pays a won session out: twice its stake, from the stake escrow.
pub fn claim(ctx: &Claim, gamer_data: &mut GamerData) -> (r: Result<Vec<TokenTransfer>, GamehouseError>)
    ensures
        match r {
            Ok(plan) => {
                &&& claim_error(*ctx, *old(gamer_data)) is None
                &&& plan@ == claim_plan(*ctx, *old(gamer_data))
                &&& *final(gamer_data) == after_claim(*old(gamer_data))
            },
            Err(e) => {
                &&& claim_error(*ctx, *old(gamer_data)) == Some(e)
                &&& *final(gamer_data) == *old(gamer_data)
            },
        },
{
    if !gamer_data.gamer.same(&ctx.gamer) || !gamer_data.gamehouse.same(&ctx.gamehouse_key) {
        return Err(GamehouseError::Unauthorized);
    }
    if gamer_data.win_state != OutcomeState::Won {
        return Err(GamehouseError::NotAWinner);
    }
    let house = &ctx.gamehouse;
    if !ctx.from_account.same(&house.sol_account) {
        return Err(GamehouseError::ConstraintViolated);
    }
    let payout = match gamer_data.bet_amount.checked_mul(2) {
        Some(p) => p,
        None => {
            return Err(GamehouseError::InsufficientFunds);
        },
    };
    let mut plan: Vec<TokenTransfer> = Vec::new();
    plan.push(TokenTransfer {
        from: ctx.from_account,
        to: ctx.to_account,
        amount: payout,
        authority: Authority::House { seed: house.rand, bump: house.bumps },
    });
    gamer_data.win_state = OutcomeState::Idle;
    assert(plan@ =~= claim_plan(*ctx, *old(gamer_data)));
    Ok(plan)
}

/// Accounts of a withdrawal from an escrow.
#[derive(Clone, Copy, Debug)]
pub struct WithdrawToken {
    /// The signer, who must own the house.
    pub owner: Address,
    pub gamehouse: Gamehouse,
    /// An escrow account of the house.
    pub from_account: Address,
    pub to_account: Address,
}

/// The transfer of a withdrawal, signed by the house.
pub open spec fn withdraw_plan(ctx: WithdrawToken, amount: u64) -> Seq<TokenTransfer> {
    seq![
        TokenTransfer {
            from: ctx.from_account,
            to: ctx.to_account,
            amount: amount,
            authority: house_signer(ctx.gamehouse),
        },
    ]
}

/// Moves `amount` out of a house escrow; only the house's owner may.
pub fn withdraw_token(ctx: &WithdrawToken, amount: u64) -> (r: Result<Vec<TokenTransfer>, GamehouseError>)
    ensures
        match r {
            Ok(plan) => ctx.owner == ctx.gamehouse.owner && plan@ == withdraw_plan(*ctx, amount),
            Err(e) => ctx.owner != ctx.gamehouse.owner && e == GamehouseError::Unauthorized,
        },
{
    let house = &ctx.gamehouse;
    if !ctx.owner.same(&house.owner) {
        return Err(GamehouseError::Unauthorized);
    }
    let mut plan: Vec<TokenTransfer> = Vec::new();
    plan.push(TokenTransfer {
        from: ctx.from_account,
        to: ctx.to_account,
        amount: amount,
        authority: Authority::House { seed: house.rand, bump: house.bumps },
    });
    assert(plan@ =~= withdraw_plan(*ctx, amount));
    Ok(plan)
}

/// Accounts of a new session.
#[derive(Clone, Copy, Debug)]
pub struct InitGamerAccount {
    /// The signing player.
    pub gamer: Address,
    /// Address of the house record.
    pub gamehouse: Address,
}

/// The new session of a player with a house: no stake, nothing owed.
pub fn init_gamer_account(ctx: &InitGamerAccount) -> (r: GamerData)
    ensures
        r == (GamerData {
            gamer: ctx.gamer,
            gamehouse: ctx.gamehouse,
            bet_amount: 0,
            win_state: OutcomeState::Idle,
        }),
{
    GamerData { gamer: ctx.gamer, gamehouse: ctx.gamehouse, bet_amount: 0, win_state: OutcomeState::Idle }
}

/// Accounts of a new house.
#[derive(Clone, Copy, Debug)]
pub struct InitGamehouse {
    /// Identity of the program that signs for the house.
    pub program_id: Address,
    /// The signer, who becomes the house's owner.
    pub creator: Address,
    /// Address of the new house record, which is also its signing address.
    pub gamehouse: Address,
    /// The stake escrow.
    pub sol_account: TokenAccount,
    /// Mint of the fee token.
    pub utility_token: Address,
    /// The fee escrow.
    pub burn_token_account: TokenAccount,
}

/// Whether the accounts fit a new house whose seed and bump derive `derived`:
/// the record stands at that address, and both escrows are controlled by it,
/// the fee escrow holding the fee token.
pub open spec fn house_accounts_ok(ctx: InitGamehouse, derived: Option<Address>) -> bool {
    &&& derived == Some(ctx.gamehouse)
    &&& ctx.sol_account.owner == ctx.gamehouse
    &&& ctx.burn_token_account.owner == ctx.gamehouse
    &&& ctx.burn_token_account.mint == ctx.utility_token
}

/// The configuration of a new house.
pub open spec fn new_gamehouse(
    ctx: InitGamehouse,
    bumps: u8,
    rand: Address,
    collection: Address,
    max_bet_amount: u64,
    burn_amount: u64,
) -> Gamehouse {
    Gamehouse {
        owner: ctx.creator,
        rand: rand,
        sol_account: ctx.sol_account.address,
        utility_token: ctx.utility_token,
        burn_token_account: ctx.burn_token_account.address,
        collection: collection,
        max_bet_amount: max_bet_amount,
        burn_amount: burn_amount,
        bumps: bumps,
    }
}

/// A new house, given the address that its seed and bump derive (`None` where
/// they derive none).
pub fn configure_gamehouse(
    ctx: &InitGamehouse,
    derived: Option<Address>,
    bumps: u8,
    rand: Address,
    collection: Address,
    max_bet_amount: u64,
    burn_amount: u64,
) -> (r: Result<Gamehouse, GamehouseError>)
    ensures
        r == if house_accounts_ok(*ctx, derived) {
            Ok(new_gamehouse(*ctx, bumps, rand, collection, max_bet_amount, burn_amount))
        } else {
            Err(GamehouseError::ConstraintViolated)
        },
{
    let at_derived = match derived {
        Some(a) => a.same(&ctx.gamehouse),
        None => false,
    };
    if !at_derived || !ctx.sol_account.owner.same(&ctx.gamehouse)
        || !ctx.burn_token_account.owner.same(&ctx.gamehouse)
        || !ctx.burn_token_account.mint.same(&ctx.utility_token) {
        return Err(GamehouseError::ConstraintViolated);
    }
    Ok(Gamehouse {
        owner: ctx.creator,
        rand: rand,
        sol_account: ctx.sol_account.address,
        utility_token: ctx.utility_token,
        burn_token_account: ctx.burn_token_account.address,
        collection: collection,
        max_bet_amount: max_bet_amount,
        burn_amount: burn_amount,
        bumps: bumps,
    })
}

/// A new house with seed `rand` and bump `bumps`: derives its signing address
/// under the program, then decides as [`configure_gamehouse`] does.
pub fn init_gamehouse(
    ctx: &InitGamehouse,
    bumps: u8,
    rand: Address,
    collection: Address,
    max_bet_amount: u64,
    burn_amount: u64,
) -> (r: Result<Gamehouse, GamehouseError>)
    ensures
        r == if house_accounts_ok(*ctx, program_address(rand.bytes@, bumps, ctx.program_id.bytes@)) {
            Ok(new_gamehouse(*ctx, bumps, rand, collection, max_bet_amount, burn_amount))
        } else {
            Err(GamehouseError::ConstraintViolated)
        },
{
    let derived = derive_house_address(&rand, bumps, &ctx.program_id);
    configure_gamehouse(ctx, derived, bumps, rand, collection, max_bet_amount, burn_amount)
}

} // verus!
