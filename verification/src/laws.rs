use vstd::prelude::*;
use crate::constants::ID_LENGTH;
use crate::custody::{
    claim_refusal, deposit_refusal, holds_one_unit, with_claim, with_prize, AssetClass, Metadata,
    TokenAccount,
};
use crate::error::RaffleError;
use crate::payment::{fee_of, wallet_limit};
use crate::processor::buy_ticket::{aggregate_after, buy_ticket_refusal, held_amount, payment_of};
use crate::processor::create_raffle::new_raffle;
use crate::processor::reveal_winner::{reveal_winner_refusal, sale_ended, with_winner};
use crate::processor::withdraw_raffle::{sale_over, with_withdrawal, withdraw_raffle_refusal};
use crate::pubkey::Pubkey;
use crate::processor::add_whitelist::slots_with;
use crate::processor::remove_whitelist::slots_without;
use crate::states::{
    distinct, first_index, lemma_first_index, members, GlobalAccount, RaffleView, UserAccount,
};

verus! {

/// Adding a collection to a whitelist that does not hold it and has an empty
/// slot makes it a member, and changes no other membership.
pub proof fn lemma_add_inserts(slots: Seq<Pubkey>, collection: Pubkey)
    requires
        slots.contains(Pubkey::zero()),
        !slots.contains(collection),
    ensures
        members(slots_with(slots, collection)) == members(slots).insert(collection),
        distinct(slots) ==> distinct(slots_with(slots, collection)),
        slots_with(slots, collection).len() == slots.len(),
{
    lemma_first_index(slots, Pubkey::zero());
    let at = first_index(slots, Pubkey::zero());
    let after = slots_with(slots, collection);
    assert(after[at] == collection);
    assert forall|c: Pubkey| members(after).contains(c) <==> members(slots).insert(
        collection,
    ).contains(c) by {
        if c != Pubkey::zero() {
            if slots.contains(c) {
                let i = choose|i: int| 0 <= i < slots.len() && slots[i] == c;
                assert(after[i] == c);
            }
            if after.contains(c) && c != collection {
                let i = choose|i: int| 0 <= i < after.len() && after[i] == c;
                assert(slots[i] == c);
            }
        }
    }
    assert(members(after) =~= members(slots).insert(collection));
}

/// Removing a collection from a whitelist without duplicates ends its
/// membership, and changes no other.
pub proof fn lemma_remove_deletes(slots: Seq<Pubkey>, collection: Pubkey)
    requires
        distinct(slots),
        slots.contains(collection),
    ensures
        members(slots_without(slots, collection)) == members(slots).remove(collection),
        distinct(slots_without(slots, collection)),
        slots_without(slots, collection).len() == slots.len(),
{
    lemma_first_index(slots, collection);
    let at = first_index(slots, collection);
    let after = slots_without(slots, collection);
    assert(after[at] == Pubkey::zero());
    assert forall|c: Pubkey| members(after).contains(c) <==> members(slots).remove(
        collection,
    ).contains(c) by {
        if c != Pubkey::zero() {
            if slots.contains(c) && c != collection {
                let i = choose|i: int| 0 <= i < slots.len() && slots[i] == c;
                assert(after[i] == c);
            }
            if after.contains(c) {
                let i = choose|i: int| 0 <= i < after.len() && after[i] == c;
                assert(slots[i] == c || i == at);
                if c == collection {
                    assert(i != at);
                    assert(slots[i] == slots[at]);
                }
            }
        }
    }
    assert(members(after) =~= members(slots).remove(collection));
}

/// A raffle is created well formed, with nothing sold.
pub proof fn lemma_new_raffle_is_well_formed(
    idx: u32,
    authority: Pubkey,
    spl_mint: Pubkey,
    total_supply: u32,
    price: u64,
    start_date: u64,
    end_date: u64,
)
    ensures
        new_raffle(idx, authority, spl_mint, total_supply, price, start_date, end_date).wf(),
        new_raffle(idx, authority, spl_mint, total_supply, price, start_date, end_date).total_sales
            == 0,
{
}

/// Whatever happens to a well-formed raffle, it stays well formed, so that
/// the tickets sold never pass the supply; and their number never goes
/// down. A deposit, a draw, a claim and a withdrawal leave it as it is, and
/// a sale of `amount` tickets raises it by `amount`.
pub proof fn lemma_sales_never_shrink(
    raffle: RaffleView,
    mint: Pubkey,
    uid: [u8; ID_LENGTH],
    amount: u32,
    digest: Seq<u8>,
    now: u64,
)
    requires
        raffle.wf(),
    ensures
        with_prize(raffle, mint).wf(),
        with_prize(raffle, mint).total_sales == raffle.total_sales,
        raffle.total_sales + amount <= raffle.total_supply ==> {
            &&& raffle.with_sale(uid, amount).wf()
            &&& raffle.with_sale(uid, amount).total_sales == raffle.total_sales + amount
            &&& raffle.with_sale(uid, amount).total_supply == raffle.total_supply
        },
        raffle.total_sales > 0 ==> {
            &&& with_winner(raffle, digest, now).wf()
            &&& with_winner(raffle, digest, now).total_sales == raffle.total_sales
        },
        with_claim(raffle).wf(),
        with_claim(raffle).total_sales == raffle.total_sales,
        with_withdrawal(raffle).wf(),
        with_withdrawal(raffle).total_sales == raffle.total_sales,
{
    if raffle.total_sales > 0 {
        lemma_winner_is_a_sold_slot(digest, raffle.total_sales as int);
    }
}

/// The order of a raffle's life: tickets are sold only once the prize is
/// deposited, a winner is drawn only among the sold tickets of a raffle with
/// its prize, and the prize is claimed only once the winner is drawn.
pub open spec fn in_order(raffle: RaffleView) -> bool {
    &&& raffle.total_sales > 0 ==> raffle.is_deposited
    &&& raffle.winner_idx > 0 ==> raffle.is_deposited && raffle.winner_idx <= raffle.total_sales
    &&& raffle.is_claimed ==> raffle.winner_idx > 0
}

/// A raffle starts its life in order, and every operation that goes through
/// keeps it so.
pub proof fn lemma_life_goes_in_order(
    raffle: RaffleView,
    global: GlobalAccount,
    class: AssetClass,
    authority: Pubkey,
    mint: Pubkey,
    metadata: Metadata,
    holding: TokenAccount,
    user: Option<UserAccount>,
    record: UserAccount,
    spl_mint: Pubkey,
    balance: u64,
    uid: [u8; ID_LENGTH],
    amount: u32,
    digest: Seq<u8>,
    now: u64,
)
    requires
        in_order(raffle),
    ensures
        in_order(
            new_raffle(
                raffle.idx,
                authority,
                spl_mint,
                raffle.total_supply,
                raffle.price,
                raffle.start_date,
                raffle.end_date,
            ),
        ),
        deposit_refusal(class, authority, global, raffle, mint, metadata, holding) is None
            ==> in_order(with_prize(raffle, mint)),
        buy_ticket_refusal(raffle, user, authority, spl_mint, balance, amount, now) is None
            ==> in_order(raffle.with_sale(uid, amount)),
        reveal_winner_refusal(raffle, now) is None && raffle.total_sales > 0 ==> in_order(
            with_winner(raffle, digest, now),
        ),
        claim_refusal(authority, raffle, record, uid) is None ==> in_order(with_claim(raffle)),
        withdraw_raffle_refusal(raffle, spl_mint, now) is None ==> in_order(
            with_withdrawal(raffle),
        ),
{
    if raffle.total_sales > 0 {
        lemma_winner_is_a_sold_slot(digest, raffle.total_sales as int);
    }
}

/// After a deposit that went through, every deposit is refused: the prize of
/// a raffle is taken into custody once.
pub proof fn lemma_prize_is_deposited_once(
    class: AssetClass,
    authority: Pubkey,
    global: GlobalAccount,
    raffle: RaffleView,
    mint: Pubkey,
    metadata: Metadata,
    holding: TokenAccount,
    next_class: AssetClass,
    next_authority: Pubkey,
    next_global: GlobalAccount,
    next_mint: Pubkey,
    next_metadata: Metadata,
    next_holding: TokenAccount,
)
    requires
        deposit_refusal(class, authority, global, raffle, mint, metadata, holding) is None,
    ensures
        with_prize(raffle, mint).mint == mint,
        deposit_refusal(
            next_class,
            next_authority,
            next_global,
            with_prize(raffle, mint),
            next_mint,
            next_metadata,
            next_holding,
        ) is Some,
        next_authority == raffle.authority && holds_one_unit(
            next_holding,
            next_mint,
            next_authority,
        ) ==> deposit_refusal(
            next_class,
            next_authority,
            next_global,
            with_prize(raffle, mint),
            next_mint,
            next_metadata,
            next_holding,
        ) == Some(RaffleError::PrizeAlreadyDeposited),
{
}

/// A purchase goes through only where the raffle has room for it.
pub proof fn lemma_purchase_fits_supply(
    raffle: RaffleView,
    user: Option<UserAccount>,
    buyer: Pubkey,
    spl_mint: Pubkey,
    balance: u64,
    amount: u32,
    now: u64,
)
    requires
        buy_ticket_refusal(raffle, user, buyer, spl_mint, balance, amount, now) is None,
    ensures
        raffle.total_sales + amount <= raffle.total_supply,
        raffle.start_date <= now <= raffle.end_date,
        raffle.is_deposited,
        amount > 0,
{
}

/// The wallet cap is forty percent of the supply, rounded down to a whole
/// number of tickets.
pub proof fn lemma_wallet_limit_is_floor(total_supply: int)
    requires
        0 <= total_supply,
    ensures
        0 <= wallet_limit(total_supply) <= total_supply,
        wallet_limit(total_supply) * 10000 <= total_supply * 4000,
        total_supply * 4000 < (wallet_limit(total_supply) + 1) * 10000,
{
}

/// After a purchase that goes through, the buyer's record holds what it held
/// before and the tickets bought, and no more than the wallet cap.
pub proof fn lemma_purchase_within_wallet_limit(
    raffle: RaffleView,
    user: Option<UserAccount>,
    buyer: Pubkey,
    spl_mint: Pubkey,
    balance: u64,
    idx: u32,
    uid: [u8; ID_LENGTH],
    amount: u32,
    now: u64,
)
    requires
        buy_ticket_refusal(raffle, user, buyer, spl_mint, balance, amount, now) is None,
    ensures
        aggregate_after(user, idx, buyer, uid, amount).amount == held_amount(user) + amount,
        aggregate_after(user, idx, buyer, uid, amount).amount <= wallet_limit(
            raffle.total_supply as int,
        ),
        aggregate_after(user, idx, buyer, uid, amount).authority == buyer,
{
}

/// A sale of `amount` tickets stamps the slots from the number sold before
/// up to, but not including, that number plus `amount` with the buyer's
/// identifier, and touches no other slot.
pub proof fn lemma_sale_fills_next_slots(raffle: RaffleView, uid: [u8; ID_LENGTH], amount: u32)
    requires
        raffle.wf(),
        raffle.total_sales + amount <= raffle.total_supply,
    ensures
        raffle.with_sale(uid, amount).tickets.len() == raffle.tickets.len(),
        forall|i: int|
            raffle.total_sales <= i < raffle.total_sales + amount ==> (
            #[trigger] raffle.with_sale(uid, amount).tickets[i]).uid == uid,
        forall|i: int|
            0 <= i < raffle.tickets.len() && !(raffle.total_sales <= i < raffle.total_sales
                + amount) ==> #[trigger] raffle.with_sale(uid, amount).tickets[i]
                == raffle.tickets[i],
{
}

/// The fee is one percent of the price of the tickets, rounded down, and
/// fee and remainder together are that price: nothing is lost or gained in
/// the split.
pub proof fn lemma_payment_is_exact(
    raffle: RaffleView,
    user: Option<UserAccount>,
    buyer: Pubkey,
    spl_mint: Pubkey,
    balance: u64,
    amount: u32,
    now: u64,
    vault: Pubkey,
)
    requires
        buy_ticket_refusal(raffle, user, buyer, spl_mint, balance, amount, now) is None,
    ensures
        ({
            let payment = payment_of(raffle.price, amount, spl_mint, vault);
            let total = raffle.price * amount;
            &&& payment.total_amount == total
            &&& payment.fee_amount == fee_of(total)
            &&& payment.remain_amount == total - fee_of(total)
            &&& payment.fee_amount + payment.remain_amount == total
            &&& fee_of(total) * 10000 <= total * 100 < (fee_of(total) + 1) * 10000
            &&& payment.total_amount <= balance
        }),
{
    let total = raffle.price * amount;
    assert(0 <= total) by (nonlinear_arith)
        requires
            total == raffle.price * amount,
    ;
}

/// The slot that a digest picks is one of the sold slots, counted from one.
pub proof fn lemma_winner_is_a_sold_slot(digest: Seq<u8>, total_sales: int)
    requires
        total_sales > 0,
    ensures
        1 <= crate::processor::reveal_winner::winner_of(digest, total_sales) <= total_sales,
{
}

/// A winner is drawn only for a raffle whose prize is deposited and whose
/// sale has ended; the winner is then one of the sold slots, and every
/// further draw is refused, whenever it is asked for.
pub proof fn lemma_winner_is_drawn_once(raffle: RaffleView, digest: Seq<u8>, now: u64, later: u64)
    requires
        raffle.wf(),
        raffle.total_sales > 0,
        reveal_winner_refusal(raffle, now) is None,
    ensures
        raffle.is_deposited,
        sale_ended(raffle, now),
        1 <= with_winner(raffle, digest, now).winner_idx <= raffle.total_sales,
        with_winner(raffle, digest, now).end_date == now,
        reveal_winner_refusal(with_winner(raffle, digest, now), later) is Some,
{
    lemma_winner_is_a_sold_slot(digest, raffle.total_sales as int);
}

/// A raffle that has a winner refuses every draw.
pub proof fn lemma_drawn_raffle_refuses_draw(raffle: RaffleView, now: u64)
    requires
        raffle.winner_idx != 0,
    ensures
        reveal_winner_refusal(raffle, now) is Some,
{
}

/// Once a winner is drawn and while the prize is unclaimed, a claim under
/// any identifier but that of the winning ticket is refused with
/// `WinnerNotMatched`, and a claim that goes through names that identifier
/// and comes from the owner of its record.
pub proof fn lemma_only_winner_claims(
    authority: Pubkey,
    raffle: RaffleView,
    user: UserAccount,
    uid: [u8; ID_LENGTH],
)
    requires
        raffle.winner_idx > 0,
        !raffle.is_claimed,
    ensures
        uid != raffle.tickets[raffle.winner_idx - 1].uid ==> claim_refusal(
            authority,
            raffle,
            user,
            uid,
        ) == Some(RaffleError::WinnerNotMatched),
        claim_refusal(authority, raffle, user, uid) is None ==> {
            &&& uid == raffle.tickets[raffle.winner_idx - 1].uid
            &&& user.authority == authority
        },
{
}

/// After a claim that went through, every claim is refused with
/// `PrizeAlreadyClaimed`, whoever makes it and under whatever identifier.
pub proof fn lemma_prize_is_claimed_once(
    authority: Pubkey,
    raffle: RaffleView,
    user: UserAccount,
    uid: [u8; ID_LENGTH],
    next_authority: Pubkey,
    next_user: UserAccount,
    next_uid: [u8; ID_LENGTH],
)
    requires
        claim_refusal(authority, raffle, user, uid) is None,
    ensures
        claim_refusal(next_authority, with_claim(raffle), next_user, next_uid) == Some(
            RaffleError::PrizeAlreadyClaimed,
        ),
{
}

/// After a withdrawal that went through, every withdrawal is refused with
/// `RaffleAlreadyWithdrawn`, whenever it is asked for and in whatever asset.
pub proof fn lemma_proceeds_are_withdrawn_once(
    raffle: RaffleView,
    spl_mint: Pubkey,
    now: u64,
    next_mint: Pubkey,
    later: u64,
)
    requires
        withdraw_raffle_refusal(raffle, spl_mint, now) is None,
    ensures
        sale_over(raffle, now),
        withdraw_raffle_refusal(with_withdrawal(raffle), next_mint, later) == Some(
            RaffleError::RaffleAlreadyWithdrawn,
        ),
{
}

/// Whether the prize has been claimed makes no difference to a withdrawal,
/// and a claim leaves a raffle as ready for withdrawal as it was.
pub proof fn lemma_withdrawal_ignores_claim(
    raffle: RaffleView,
    spl_mint: Pubkey,
    now: u64,
    claimed: bool,
)
    ensures
        withdraw_raffle_refusal(RaffleView { is_claimed: claimed, ..raffle }, spl_mint, now)
            == withdraw_raffle_refusal(raffle, spl_mint, now),
        withdraw_raffle_refusal(with_claim(raffle), spl_mint, now) == withdraw_raffle_refusal(
            raffle,
            spl_mint,
            now,
        ),
{
}

} // verus!
