use vstd::prelude::*;
use crate::constants::ID_LENGTH;
use crate::custody::{
    check_claim, claim_plan, claim_refusal, claim_steps, with_claim, AssetClass, CustodyStep,
};
use crate::error::RaffleError;
use crate::pubkey::Pubkey;
use crate::states::{RaffleAccount, UserAccount};

verus! {

/// What the claim of a standard prize reads and changes: the claimant, the
/// raffle, and the record that the ledger keeps for the claimed identifier.
#[derive(Clone, Debug, PartialEq, Eq)]
pub struct ClaimPrizeCtx {
    pub authority: Pubkey,
    pub raffle_account: RaffleAccount,
    pub user_account: UserAccount,
}

impl ClaimPrizeCtx {
    /// The first reason why this claim is refused; `None` when it goes
    /// through.
    pub open spec fn refusal(self, uid: [u8; ID_LENGTH]) -> Option<RaffleError> {
        claim_refusal(self.authority, self.raffle_account@, self.user_account, uid)
    }
}

/// Hands the standard prize of the raffle to the holder of the winning
/// ticket. `idx` is the index under which the ledger keeps the raffle.
///
/// A claim that is refused changes nothing. One that goes through marks the
/// prize as claimed and returns the custody steps to be made for it: a thaw
/// by the escrow, then a transfer of one unit to the winner.
#[allow(unused_variables)]
pub fn claim_prize(ctx: &mut ClaimPrizeCtx, idx: u32, uid: [u8; ID_LENGTH]) -> (res: Result<
    [CustodyStep; 2],
    RaffleError,
>)
    requires
        old(ctx).raffle_account.wf(),
    ensures
        match res {
            Ok(steps) => {
                &&& old(ctx).refusal(uid) is None
                &&& steps@ == claim_steps(AssetClass::Standard)
                &&& final(ctx).raffle_account@ == with_claim(old(ctx).raffle_account@)
                &&& final(ctx).authority == old(ctx).authority
                &&& final(ctx).user_account == old(ctx).user_account
            },
            Err(e) => old(ctx).refusal(uid) == Some(e) && *final(ctx) == *old(ctx),
        },
        final(ctx).raffle_account.wf(),
        final(ctx).raffle_account.total_sales >= old(ctx).raffle_account.total_sales,
        final(ctx).raffle_account.total_supply == old(ctx).raffle_account.total_supply,
{
    check_claim(&ctx.authority, &ctx.raffle_account, &ctx.user_account, &uid)?;
    ctx.raffle_account.is_claimed = true;
    Ok(claim_plan(AssetClass::Standard))
}

} // verus!
