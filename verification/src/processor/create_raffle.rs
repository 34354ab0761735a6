use vstd::prelude::*;
use crate::constants::ID_LENGTH;
use crate::error::RaffleError;
use crate::pubkey::Pubkey;
use crate::states::{empty_uid, GlobalAccount, RaffleAccount, RaffleTicket, RaffleView};

verus! {

/// What the creation of a raffle reads and changes: the creator, the
/// configuration, the asset in which tickets are paid, and the place where
/// the new raffle is put.
#[derive(Clone, Debug, PartialEq, Eq)]
pub struct CreateRaffleCtx {
    pub authority: Pubkey,
    pub global_account: GlobalAccount,
    pub spl_mint: Pubkey,
    pub raffle_account: RaffleAccount,
}

/// The first reason, in the order in which a creation is examined, why no
/// raffle is created; `None` when one is.
pub open spec fn create_raffle_refusal(
    global: GlobalAccount,
    idx: u32,
    total_supply: u32,
    start_date: u64,
    end_date: u64,
    now: u64,
) -> Option<RaffleError> {
    if total_supply == 0 {
        Some(RaffleError::InvalidAmount)
    } else if global.total_raffles != idx {
        Some(RaffleError::InvalidRaffleIndex)
    } else if !(start_date < end_date) {
        Some(RaffleError::InvalidDate)
    } else if !(end_date > now) {
        Some(RaffleError::InvalidDate)
    } else if global.total_raffles + 1 > u32::MAX {
        Some(RaffleError::NumericOverflow)
    } else {
        None
    }
}

impl CreateRaffleCtx {
    /// The first reason why this creation is refused; `None` when it goes
    /// through.
    pub open spec fn refusal(
        self,
        idx: u32,
        total_supply: u32,
        start_date: u64,
        end_date: u64,
        now: u64,
    ) -> Option<RaffleError> {
        create_raffle_refusal(self.global_account, idx, total_supply, start_date, end_date, now)
    }
}

/// A raffle as it is created: nothing sold, nothing deposited, no winner,
/// and one empty slot for each ticket.
pub open spec fn new_raffle(
    idx: u32,
    authority: Pubkey,
    spl_mint: Pubkey,
    total_supply: u32,
    price: u64,
    start_date: u64,
    end_date: u64,
) -> RaffleView {
    RaffleView {
        idx,
        authority,
        spl_mint,
        mint: Pubkey::zero(),
        price,
        total_supply,
        total_sales: 0,
        winner_idx: 0,
        start_date,
        end_date,
        is_deposited: false,
        is_claimed: false,
        is_withdrawn: false,
        tickets: Seq::new(total_supply as nat, |i: int| RaffleTicket { uid: empty_uid() }),
    }
}

/// As many empty ticket slots as `total_supply`.
fn empty_tickets(total_supply: u32) -> (tickets: Vec<RaffleTicket>)
    ensures
        tickets@ == Seq::new(total_supply as nat, |i: int| RaffleTicket { uid: empty_uid() }),
{
    let mut tickets: Vec<RaffleTicket> = Vec::new();
    let mut i: u32 = 0;
    while i < total_supply
        invariant
            i <= total_supply,
            tickets@ == Seq::new(i as nat, |j: int| RaffleTicket { uid: empty_uid() }),
        decreases total_supply - i,
    {
        tickets.push(RaffleTicket { uid: [0u8; ID_LENGTH] });
        i += 1;
        assert(tickets@ =~= Seq::new(i as nat, |j: int| RaffleTicket { uid: empty_uid() }));
    }
    tickets
}

/// Creates the raffle number `idx` for `ctx.authority`, at the time `now`.
///
/// A creation that is refused changes nothing. One that goes through puts a
/// new raffle of `total_supply` empty slots in `ctx.raffle_account` and
/// counts it in the configuration. Raffles are created in the order of
/// their indices: `idx` must be the number of raffles that exist.
pub fn create_raffle(
    ctx: &mut CreateRaffleCtx,
    idx: u32,
    total_supply: u32,
    price: u64,
    start_date: u64,
    end_date: u64,
    now: u64,
) -> (res: Result<(), RaffleError>)
    ensures
        match res {
            Ok(()) => {
                &&& old(ctx).refusal(idx, total_supply, start_date, end_date, now) is None
                &&& final(ctx).raffle_account@ == new_raffle(
                    idx,
                    old(ctx).authority,
                    old(ctx).spl_mint,
                    total_supply,
                    price,
                    start_date,
                    end_date,
                )
                &&& final(ctx).raffle_account.wf()
                &&& final(ctx).global_account == (GlobalAccount {
                    total_raffles: (idx + 1) as u32,
                    ..old(ctx).global_account
                })
                &&& final(ctx).authority == old(ctx).authority
                &&& final(ctx).spl_mint == old(ctx).spl_mint
            },
            Err(e) => {
                &&& old(ctx).refusal(idx, total_supply, start_date, end_date, now) == Some(e)
                &&& *final(ctx) == *old(ctx)
            },
        },
{
    if total_supply == 0 {
        return Err(RaffleError::InvalidAmount);
    }
    if ctx.global_account.total_raffles != idx {
        return Err(RaffleError::InvalidRaffleIndex);
    }
    if !(start_date < end_date) {
        return Err(RaffleError::InvalidDate);
    }
    if !(end_date > now) {
        return Err(RaffleError::InvalidDate);
    }
    let total_raffles = ctx.global_account.total_raffles.checked_add(1).ok_or(
        RaffleError::NumericOverflow,
    )?;
    ctx.raffle_account = RaffleAccount {
        idx,
        authority: ctx.authority,
        spl_mint: ctx.spl_mint,
        mint: Pubkey::default(),
        price,
        total_supply,
        total_sales: 0,
        winner_idx: 0,
        start_date,
        end_date,
        is_deposited: false,
        is_claimed: false,
        is_withdrawn: false,
        tickets: empty_tickets(total_supply),
    };
    ctx.global_account.total_raffles = total_raffles;
    Ok(())
}

} // verus!
