use vstd::prelude::*;
use crate::error::RaffleError;
use crate::payment::{is_native_mint, native_mint_bytes};
use crate::pubkey::Pubkey;
use crate::states::{RaffleAccount, RaffleView};

verus! {

/// What a withdrawal reads and changes: the raffle, the asset in which the
/// proceeds are asked for, and how much of it the raffle's escrow holds.
#[derive(Clone, Debug, PartialEq, Eq)]
pub struct WithdrawRaffleCtx {
    pub raffle_account: RaffleAccount,
    pub spl_mint: Pubkey,
    pub escrow_balance: u64,
}

/// The transfer that a withdrawal asks for: `amount` from the raffle's
/// escrow to `recipient`, signed by the escrow.
#[derive(Clone, Copy, Debug, PartialEq, Eq)]
pub struct Withdrawal {
    pub is_native: bool,
    pub recipient: Pubkey,
    pub amount: u64,
}

/// Whether the sale of the raffle is over at the time `now`: its window has
/// closed, or every ticket is sold.
pub open spec fn sale_over(raffle: RaffleView, now: u64) -> bool {
    now >= raffle.end_date || raffle.sold_out()
}

/// The first reason, in the order in which a withdrawal is examined, why
/// the proceeds of `raffle` are not paid out in `spl_mint` at the time `now`;
/// `None` when they are.
pub open spec fn withdraw_raffle_refusal(raffle: RaffleView, spl_mint: Pubkey, now: u64) -> Option<
    RaffleError,
> {
    if raffle.is_withdrawn {
        Some(RaffleError::RaffleAlreadyWithdrawn)
    } else if !sale_over(raffle, now) {
        Some(RaffleError::RaffleNotEnded)
    } else if spl_mint != raffle.spl_mint {
        Some(RaffleError::InvalidMint)
    } else {
        None
    }
}

impl WithdrawRaffleCtx {
    /// The first reason why this withdrawal is refused; `None` when it goes
    /// through.
    pub open spec fn refusal(self, now: u64) -> Option<RaffleError> {
        withdraw_raffle_refusal(self.raffle_account@, self.spl_mint, now)
    }

    /// The transfer that this withdrawal asks for: all that the escrow
    /// holds, to the creator of the raffle.
    pub open spec fn withdrawal(self) -> Withdrawal {
        Withdrawal {
            is_native: self.raffle_account.spl_mint@ == native_mint_bytes(),
            recipient: self.raffle_account.authority,
            amount: self.escrow_balance,
        }
    }
}

/// The raffle once its proceeds have been withdrawn.
pub open spec fn with_withdrawal(raffle: RaffleView) -> RaffleView {
    RaffleView { is_withdrawn: true, ..raffle }
}

/// Pays the proceeds of the raffle out to its creator, at the time `now`.
/// `idx` is the index under which the ledger keeps the raffle.
///
/// A withdrawal that is refused changes nothing. One that goes through
/// marks the raffle as withdrawn and returns the transfer to be made: the
/// whole balance of the escrow. Whether the prize has been claimed plays no
/// part.
#[allow(unused_variables)]
pub fn withdraw_raffle(ctx: &mut WithdrawRaffleCtx, idx: u32, now: u64) -> (res: Result<
    Withdrawal,
    RaffleError,
>)
    ensures
        match res {
            Ok(withdrawal) => {
                &&& old(ctx).refusal(now) is None
                &&& withdrawal == old(ctx).withdrawal()
                &&& final(ctx).raffle_account@ == with_withdrawal(old(ctx).raffle_account@)
                &&& final(ctx).spl_mint == old(ctx).spl_mint
                &&& final(ctx).escrow_balance == old(ctx).escrow_balance
            },
            Err(e) => old(ctx).refusal(now) == Some(e) && *final(ctx) == *old(ctx),
        },
        old(ctx).raffle_account.wf() ==> final(ctx).raffle_account.wf(),
        final(ctx).raffle_account.total_sales >= old(ctx).raffle_account.total_sales,
        final(ctx).raffle_account.total_supply == old(ctx).raffle_account.total_supply,
{
    if ctx.raffle_account.is_withdrawn {
        return Err(RaffleError::RaffleAlreadyWithdrawn);
    }
    if !(now >= ctx.raffle_account.end_date || ctx.raffle_account.total_sales
        == ctx.raffle_account.total_supply) {
        return Err(RaffleError::RaffleNotEnded);
    }
    if ctx.spl_mint != ctx.raffle_account.spl_mint {
        return Err(RaffleError::InvalidMint);
    }
    let is_native = is_native_mint(&ctx.raffle_account.spl_mint);
    ctx.raffle_account.is_withdrawn = true;
    Ok(
        Withdrawal {
            is_native,
            recipient: ctx.raffle_account.authority,
            amount: ctx.escrow_balance,
        },
    )
}

} // verus!
