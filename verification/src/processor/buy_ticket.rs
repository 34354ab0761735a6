use vstd::prelude::*;
use crate::constants::{FEE_PERCENT, ID_LENGTH, MAX_TICKET_PERCENT};
use crate::error::RaffleError;
use crate::payment::{
    checked_fee, checked_wallet_limit, fee_of, is_native_mint, native_mint_bytes, wallet_limit,
};
use crate::pubkey::Pubkey;
use crate::states::{GlobalAccount, RaffleAccount, RaffleTicket, RaffleView, UserAccount};

verus! {

/// What a purchase reads and changes: the buyer, the configuration, the
/// raffle, the buyer's record in it if there is one, the asset offered in
/// payment and how much of it the buyer has.
#[derive(Clone, Debug, PartialEq, Eq)]
pub struct BuyTicketCtx {
    pub buyer: Pubkey,
    pub global_account: GlobalAccount,
    pub raffle_account: RaffleAccount,
    pub user_account: Option<UserAccount>,
    pub spl_mint: Pubkey,
    pub user_token_balance: u64,
}

/// The transfers that a purchase asks for: `fee_amount` from the buyer to
/// `vault`, and `remain_amount` from the buyer to the raffle's escrow.
#[derive(Clone, Copy, Debug, PartialEq, Eq)]
pub struct Payment {
    pub is_native: bool,
    pub vault: Pubkey,
    pub total_amount: u64,
    pub fee_amount: u64,
    pub remain_amount: u64,
}

/// Tickets that a buyer's record holds; none when there is no record yet.
pub open spec fn held_amount(user: Option<UserAccount>) -> int {
    match user {
        Some(u) => u.amount as int,
        None => 0,
    }
}

/// The buyer's record once `amount` more tickets are theirs.
pub open spec fn aggregate_after(
    user: Option<UserAccount>,
    idx: u32,
    buyer: Pubkey,
    uid: [u8; ID_LENGTH],
    amount: u32,
) -> UserAccount {
    match user {
        Some(u) => UserAccount { amount: (u.amount + amount) as u32, ..u },
        None => UserAccount { raffle_idx: idx, authority: buyer, uid, amount },
    }
}

impl RaffleView {
    /// The raffle once the next `amount` free slots carry `uid`.
    pub open spec fn with_sale(self, uid: [u8; ID_LENGTH], amount: u32) -> RaffleView {
        RaffleView {
            total_sales: (self.total_sales + amount) as u32,
            tickets: Seq::new(
                self.tickets.len(),
                |i: int|
                    if self.total_sales <= i < self.total_sales + amount {
                        RaffleTicket { uid }
                    } else {
                        self.tickets[i]
                    },
            ),
            ..self
        }
    }
}

/// The first reason, in the order in which a purchase is examined, why
/// `buyer` is not sold `amount` tickets of `raffle` at the time `now`; `None`
/// when the purchase goes through. `user` is the buyer's record so far,
/// `spl_mint` the asset offered in payment, `balance` what the buyer has of
/// it.
pub open spec fn buy_ticket_refusal(
    raffle: RaffleView,
    user: Option<UserAccount>,
    buyer: Pubkey,
    spl_mint: Pubkey,
    balance: u64,
    amount: u32,
    now: u64,
) -> Option<RaffleError> {
    let held = held_amount(user);
    let total = raffle.price * amount;
    if now < raffle.start_date {
        Some(RaffleError::RaffleNotStarted)
    } else if raffle.end_date < now {
        Some(RaffleError::RaffleExpired)
    } else if !raffle.is_deposited {
        Some(RaffleError::PrizeNotDeposited)
    } else if amount == 0 {
        Some(RaffleError::InvalidAmount)
    } else if held + amount > u32::MAX {
        Some(RaffleError::NumericOverflow)
    } else if raffle.total_supply * MAX_TICKET_PERCENT > u32::MAX {
        Some(RaffleError::NumericOverflow)
    } else if held + amount > wallet_limit(raffle.total_supply as int) {
        Some(RaffleError::WalletLimitExceed)
    } else if spl_mint != raffle.spl_mint {
        Some(RaffleError::InvalidMint)
    } else if user is Some && user->0.authority != buyer {
        Some(RaffleError::InvalidWallet)
    } else if total > u64::MAX {
        Some(RaffleError::NumericOverflow)
    } else if balance < total {
        Some(RaffleError::InsufficientBalance)
    } else if total * FEE_PERCENT > u64::MAX {
        Some(RaffleError::NumericOverflow)
    } else if raffle.total_sales + amount > raffle.total_supply {
        Some(RaffleError::SupplyLimitExceed)
    } else {
        None
    }
}

/// The transfers that a purchase of `amount` tickets at `price` each asks
/// for, paid in `spl_mint`, with `vault` as the receiver of the fee.
pub open spec fn payment_of(price: u64, amount: u32, spl_mint: Pubkey, vault: Pubkey) -> Payment {
    let total = price * amount;
    Payment {
        is_native: spl_mint@ == native_mint_bytes(),
        vault,
        total_amount: total as u64,
        fee_amount: fee_of(total) as u64,
        remain_amount: (total - fee_of(total)) as u64,
    }
}

impl BuyTicketCtx {
    /// The first reason why this purchase is refused; `None` when it goes
    /// through.
    pub open spec fn refusal(self, amount: u32, now: u64) -> Option<RaffleError> {
        buy_ticket_refusal(
            self.raffle_account@,
            self.user_account,
            self.buyer,
            self.spl_mint,
            self.user_token_balance,
            amount,
            now,
        )
    }
}

/// Stamps the next `amount` free slots of `raffle` with `uid`, in ascending
/// order, and counts them as sold.
fn assign_tickets(raffle: &mut RaffleAccount, uid: [u8; ID_LENGTH], amount: u32)
    requires
        old(raffle).wf(),
        old(raffle).total_sales + amount <= old(raffle).total_supply,
    ensures
        final(raffle)@ == old(raffle)@.with_sale(uid, amount),
        final(raffle).wf(),
{
    let sold = raffle.total_sales;
    let mut i: u32 = 0;
    assert(raffle.tickets@ =~= old(raffle)@.with_sale(uid, 0).tickets);
    while i < amount
        invariant
            i <= amount,
            sold == old(raffle).total_sales,
            sold + amount <= old(raffle).total_supply,
            old(raffle).wf(),
            raffle.tickets@ == old(raffle)@.with_sale(uid, i).tickets,
            raffle@ == (RaffleView { tickets: raffle.tickets@, ..old(raffle)@ }),
        decreases amount - i,
    {
        let slot = sold + i;
        raffle.tickets.set(slot as usize, RaffleTicket { uid });
        i += 1;
        assert(raffle.tickets@ =~= old(raffle)@.with_sale(uid, i).tickets);
    }
    raffle.total_sales = sold + amount;
}

/// Sells `amount` tickets of the raffle to `ctx.buyer` under the identifier
/// `uid`, at the time `now`.
///
/// A purchase that is refused changes nothing. One that goes through fills
/// the next `amount` slots with `uid`, adds `amount` to the buyer's record
/// (which it opens, if this is their first purchase) and to the tickets
/// sold, and returns the transfers to be made for it.
pub fn buy_ticket(
    ctx: &mut BuyTicketCtx,
    idx: u32,
    uid: [u8; ID_LENGTH],
    amount: u32,
    now: u64,
) -> (res: Result<Payment, RaffleError>)
    requires
        old(ctx).raffle_account.wf(),
    ensures
        match res {
            Ok(payment) => {
                &&& old(ctx).refusal(amount, now) is None
                &&& payment == payment_of(
                    old(ctx).raffle_account.price,
                    amount,
                    old(ctx).spl_mint,
                    old(ctx).global_account.vault,
                )
                &&& payment.total_amount == old(ctx).raffle_account.price * amount
                &&& payment.fee_amount == fee_of(payment.total_amount as int)
                &&& payment.fee_amount + payment.remain_amount == payment.total_amount
                &&& final(ctx).raffle_account@ == old(ctx).raffle_account@.with_sale(uid, amount)
                &&& final(ctx).raffle_account.total_sales == old(ctx).raffle_account.total_sales
                    + amount
                &&& final(ctx).user_account == Some(
                    aggregate_after(old(ctx).user_account, idx, old(ctx).buyer, uid, amount),
                )
                &&& final(ctx).user_account->0.amount == held_amount(old(ctx).user_account)
                    + amount
                &&& final(ctx).user_account->0.amount <= wallet_limit(
                    old(ctx).raffle_account.total_supply as int,
                )
                &&& final(ctx).buyer == old(ctx).buyer
                &&& final(ctx).global_account == old(ctx).global_account
                &&& final(ctx).spl_mint == old(ctx).spl_mint
                &&& final(ctx).user_token_balance == old(ctx).user_token_balance
            },
            Err(e) => old(ctx).refusal(amount, now) == Some(e) && *final(ctx) == *old(ctx),
        },
        final(ctx).raffle_account.wf(),
        final(ctx).raffle_account.total_sales >= old(ctx).raffle_account.total_sales,
        final(ctx).raffle_account.total_supply == old(ctx).raffle_account.total_supply,
{
    if now < ctx.raffle_account.start_date {
        return Err(RaffleError::RaffleNotStarted);
    }
    if ctx.raffle_account.end_date < now {
        return Err(RaffleError::RaffleExpired);
    }
    if !ctx.raffle_account.is_deposited {
        return Err(RaffleError::PrizeNotDeposited);
    }
    if amount == 0 {
        return Err(RaffleError::InvalidAmount);
    }
    let held: u32 = match &ctx.user_account {
        Some(user) => user.amount,
        None => 0,
    };
    let wallet_amount = held.checked_add(amount).ok_or(RaffleError::NumericOverflow)?;
    let limit = checked_wallet_limit(ctx.raffle_account.total_supply)?;
    if wallet_amount > limit {
        return Err(RaffleError::WalletLimitExceed);
    }
    if ctx.spl_mint != ctx.raffle_account.spl_mint {
        return Err(RaffleError::InvalidMint);
    }
    let user = match &ctx.user_account {
        Some(user) => {
            if user.authority != ctx.buyer {
                return Err(RaffleError::InvalidWallet);
            }
            UserAccount {
                raffle_idx: user.raffle_idx,
                authority: user.authority,
                uid: user.uid,
                amount: wallet_amount,
            }
        },
        None => UserAccount { raffle_idx: idx, authority: ctx.buyer, uid, amount },
    };
    let is_native = is_native_mint(&ctx.raffle_account.spl_mint);
    let total_amount = ctx.raffle_account.price.checked_mul(amount as u64).ok_or(
        RaffleError::NumericOverflow,
    )?;
    if ctx.user_token_balance < total_amount {
        return Err(RaffleError::InsufficientBalance);
    }
    let fee_amount = checked_fee(total_amount)?;
    let remain_amount = total_amount.checked_sub(fee_amount).ok_or(RaffleError::NumericOverflow)?;
    let total_sales = ctx.raffle_account.total_sales.checked_add(amount).ok_or(
        RaffleError::NumericOverflow,
    )?;
    if total_sales > ctx.raffle_account.total_supply {
        return Err(RaffleError::SupplyLimitExceed);
    }
    ctx.user_account = Some(user);
    assign_tickets(&mut ctx.raffle_account, uid, amount);
    Ok(
        Payment {
            is_native,
            vault: ctx.global_account.vault,
            total_amount,
            fee_amount,
            remain_amount,
        },
    )
}

} // verus!
