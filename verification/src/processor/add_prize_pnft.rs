use vstd::prelude::*;
use crate::custody::{
    check_deposit, deposit_plan, deposit_refusal, deposit_steps, with_prize, AssetClass,
    CustodyStep, Metadata, TokenAccount,
};
use crate::error::RaffleError;
use crate::pubkey::Pubkey;
use crate::states::{GlobalAccount, RaffleAccount};

verus! {

/// What the deposit of a restricted prize reads and changes: the depositor,
/// the configuration, the raffle, the asset, its registry entry and the
/// depositor's holding account for it.
#[derive(Clone, Debug, PartialEq, Eq)]
pub struct AddPrizePnftCtx {
    pub authority: Pubkey,
    pub global_account: GlobalAccount,
    pub raffle_account: RaffleAccount,
    pub mint: Pubkey,
    pub metadata: Metadata,
    pub token_account: TokenAccount,
}

impl AddPrizePnftCtx {
    /// The first reason why this deposit is refused; `None` when it goes
    /// through.
    pub open spec fn refusal(self) -> Option<RaffleError> {
        deposit_refusal(
            AssetClass::Restricted,
            self.authority,
            self.global_account,
            self.raffle_account@,
            self.mint,
            self.metadata,
            self.token_account,
        )
    }
}

/// Takes the restricted asset `ctx.mint` into custody as the prize of the
/// raffle. `idx` is the index under which the ledger keeps the raffle.
///
/// A deposit that is refused changes nothing. One that goes through records
/// the asset as the prize and returns the custody steps to be made for it:
/// a locked-transfer delegation of one unit to the escrow, then a lock by
/// the escrow. An asset whose registry entry does not declare it
/// programmable is refused.
#[allow(unused_variables)]
pub fn add_prize_pnft(ctx: &mut AddPrizePnftCtx, idx: u32) -> (res: Result<
    [CustodyStep; 2],
    RaffleError,
>)
    ensures
        match res {
            Ok(steps) => {
                &&& old(ctx).refusal() is None
                &&& steps@ == deposit_steps(AssetClass::Restricted)
                &&& final(ctx).raffle_account@ == with_prize(
                    old(ctx).raffle_account@,
                    old(ctx).mint,
                )
                &&& final(ctx).authority == old(ctx).authority
                &&& final(ctx).global_account == old(ctx).global_account
                &&& final(ctx).mint == old(ctx).mint
                &&& final(ctx).metadata == old(ctx).metadata
                &&& final(ctx).token_account == old(ctx).token_account
            },
            Err(e) => old(ctx).refusal() == Some(e) && *final(ctx) == *old(ctx),
        },
        old(ctx).raffle_account.wf() ==> final(ctx).raffle_account.wf(),
        final(ctx).raffle_account.total_sales >= old(ctx).raffle_account.total_sales,
        final(ctx).raffle_account.total_supply == old(ctx).raffle_account.total_supply,
{
    check_deposit(
        AssetClass::Restricted,
        &ctx.authority,
        &ctx.global_account,
        &ctx.raffle_account,
        &ctx.mint,
        &ctx.metadata,
        &ctx.token_account,
    )?;
    ctx.raffle_account.mint = ctx.mint;
    ctx.raffle_account.is_deposited = true;
    Ok(deposit_plan(AssetClass::Restricted))
}

} // verus!
