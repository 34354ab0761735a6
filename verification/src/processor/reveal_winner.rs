use vstd::prelude::*;
use crate::error::RaffleError;
use crate::pubkey::Pubkey;
use crate::states::{RaffleAccount, RaffleView};

verus! {

/// What a draw reads and changes: the raffle, the identity under which the
/// ledger keeps it, and the ledger's latest sample of entropy.
#[derive(Clone, Debug, PartialEq, Eq)]
pub struct RevealWinnerCtx {
    pub raffle_account: RaffleAccount,
    pub raffle_key: Pubkey,
    pub recent_slothashes: Vec<u8>,
}

/// Where in the entropy sample the bytes of a draw start.
pub const ENTROPY_OFFSET: usize = 12;

/// How many bytes of the entropy sample a draw takes.
pub const ENTROPY_LENGTH: usize = 8;

/// The Keccak-256 digest of the given byte strings, taken one after another
/// as one message.
pub uninterp spec fn keccak_hashv(vals: Seq<Seq<u8>>) -> Seq<u8>;

/// Calls `solana_program::keccak::hashv`, reached through `anchor_lang`,
/// on the three byte strings in this order. The digest it returns depends
/// on nothing else; the contract gives it the name `keccak_hashv`.
#[verifier::external_body]
fn keccak_of_three(first: &[u8], second: &[u8], third: &[u8]) -> (digest: [u8; 32])
    ensures
        digest@ == keccak_hashv(seq![first@, second@, third@]),
{
    anchor_lang::solana_program::keccak::hashv(&[first, second, third]).to_bytes()
}

/// The eight bytes of `n`, least significant first.
pub open spec fn u64_le_bytes(n: u64) -> Seq<u8> {
    seq![
        (n % 256) as u8,
        (n / 0x100 % 256) as u8,
        (n / 0x1_0000 % 256) as u8,
        (n / 0x100_0000 % 256) as u8,
        (n / 0x1_0000_0000 % 256) as u8,
        (n / 0x100_0000_0000 % 256) as u8,
        (n / 0x1_0000_0000_0000 % 256) as u8,
        (n / 0x100_0000_0000_0000 % 256) as u8,
    ]
}

/// The bytes of the entropy sample that a draw takes.
pub open spec fn entropy_of(sample: Seq<u8>) -> Seq<u8> {
    sample.subrange(ENTROPY_OFFSET as int, ENTROPY_OFFSET + ENTROPY_LENGTH)
}

/// What a draw hashes: the entropy, the time, and the raffle's identity.
pub open spec fn draw_input(sample: Seq<u8>, now: u64, raffle_key: Pubkey) -> Seq<Seq<u8>> {
    seq![entropy_of(sample), u64_le_bytes(now), raffle_key@]
}

/// The number that the first four bytes of a digest spell, least
/// significant byte first.
pub open spec fn seed_of(digest: Seq<u8>) -> int {
    digest[0] + digest[1] * 0x100 + digest[2] * 0x1_0000 + digest[3] * 0x100_0000
}

/// The winning slot that a digest picks among `total_sales` sold tickets,
/// counted from one.
pub open spec fn winner_of(digest: Seq<u8>, total_sales: int) -> int {
    seed_of(digest) % total_sales + 1
}

/// The eight bytes of `n`, least significant first.
pub fn le_bytes(n: u64) -> (bytes: [u8; 8])
    ensures
        bytes@ == u64_le_bytes(n),
{
    let bytes = [
        (n % 256) as u8,
        (n / 0x100 % 256) as u8,
        (n / 0x1_0000 % 256) as u8,
        (n / 0x100_0000 % 256) as u8,
        (n / 0x1_0000_0000 % 256) as u8,
        (n / 0x100_0000_0000 % 256) as u8,
        (n / 0x1_0000_0000_0000 % 256) as u8,
        (n / 0x100_0000_0000_0000 % 256) as u8,
    ];
    assert(bytes@ =~= u64_le_bytes(n));
    bytes
}

/// The bytes of the entropy sample that a draw takes.
pub fn entropy(sample: &Vec<u8>) -> (bytes: [u8; 8])
    requires
        sample@.len() >= ENTROPY_OFFSET + ENTROPY_LENGTH,
    ensures
        bytes@ == entropy_of(sample@),
{
    let bytes = [
        sample[12],
        sample[13],
        sample[14],
        sample[15],
        sample[16],
        sample[17],
        sample[18],
        sample[19],
    ];
    assert(bytes@ =~= entropy_of(sample@));
    bytes
}

/// The winning slot that `digest` picks among `total_sales` sold tickets.
pub fn winner_slot(digest: &[u8; 32], total_sales: u32) -> (slot: u32)
    requires
        total_sales > 0,
    ensures
        slot == winner_of(digest@, total_sales as int),
        1 <= slot <= total_sales,
{
    let seed: u32 = (digest[0] as u32) + (digest[1] as u32) * 0x100 + (digest[2] as u32) * 0x1_0000
        + (digest[3] as u32) * 0x100_0000;
    seed % total_sales + 1
}

/// Whether the sale of the raffle has ended at the time `now`, so that a
/// winner may be drawn: its window has closed, or every ticket is sold.
pub open spec fn sale_ended(raffle: RaffleView, now: u64) -> bool {
    raffle.end_date < now || raffle.sold_out()
}

/// The first reason, in the order in which a draw is examined, why no
/// winner is drawn for `raffle` at the time `now`; `None` when one is drawn.
pub open spec fn reveal_winner_refusal(raffle: RaffleView, now: u64) -> Option<RaffleError> {
    if !raffle.is_deposited {
        Some(RaffleError::PrizeNotDeposited)
    } else if !sale_ended(raffle, now) {
        Some(RaffleError::RaffleNotEnded)
    } else if raffle.winner_idx != 0 {
        Some(RaffleError::WinnerAlreadyRevealed)
    } else {
        None
    }
}

/// Examines a draw and names the first reason to refuse it, if any.
pub fn check_reveal(raffle: &RaffleAccount, now: u64) -> (res: Result<(), RaffleError>)
    ensures
        match res {
            Ok(()) => reveal_winner_refusal(raffle@, now) is None,
            Err(e) => reveal_winner_refusal(raffle@, now) == Some(e),
        },
{
    if !raffle.is_deposited {
        return Err(RaffleError::PrizeNotDeposited);
    }
    if !(raffle.end_date < now || raffle.total_supply == raffle.total_sales) {
        return Err(RaffleError::RaffleNotEnded);
    }
    if raffle.winner_idx != 0 {
        return Err(RaffleError::WinnerAlreadyRevealed);
    }
    Ok(())
}

impl RevealWinnerCtx {
    /// The first reason why this draw is refused; `None` when it goes
    /// through.
    pub open spec fn refusal(self, now: u64) -> Option<RaffleError> {
        reveal_winner_refusal(self.raffle_account@, now)
    }

    /// The digest that this draw lets pick the winner.
    pub open spec fn digest(self, now: u64) -> Seq<u8> {
        keccak_hashv(draw_input(self.recent_slothashes@, now, self.raffle_key))
    }
}

/// The raffle once `digest` has picked its winner at the time `now`. The
/// sale window closes at `now`, whenever it was to close before.
pub open spec fn with_winner(raffle: RaffleView, digest: Seq<u8>, now: u64) -> RaffleView {
    RaffleView {
        winner_idx: winner_of(digest, raffle.total_sales as int) as u32,
        end_date: now,
        ..raffle
    }
}

/// Draws the winner of the raffle at the time `now`. `idx` is the index
/// under which the ledger keeps the raffle.
///
/// A draw that is refused changes nothing. One that goes through hashes the
/// entropy, the time and the raffle's identity, lets the digest pick one of
/// the sold slots, and closes the sale window at `now`. A raffle whose
/// winner is drawn refuses every further draw.
///
/// Where a winner would be drawn, at least one ticket must be sold and the
/// entropy sample must reach to the bytes that the draw takes.
#[allow(unused_variables)]
pub fn reveal_winner(ctx: &mut RevealWinnerCtx, idx: u32, now: u64) -> (res: Result<
    (),
    RaffleError,
>)
    requires
        old(ctx).raffle_account.wf(),
        old(ctx).refusal(now) is None ==> {
            &&& old(ctx).raffle_account.total_sales > 0
            &&& old(ctx).recent_slothashes@.len() >= ENTROPY_OFFSET + ENTROPY_LENGTH
        },
    ensures
        match res {
            Ok(()) => {
                &&& old(ctx).refusal(now) is None
                &&& final(ctx).raffle_account@ == with_winner(
                    old(ctx).raffle_account@,
                    old(ctx).digest(now),
                    now,
                )
                &&& 1 <= final(ctx).raffle_account.winner_idx <= old(ctx).raffle_account.total_sales
                &&& final(ctx).raffle_key == old(ctx).raffle_key
                &&& final(ctx).recent_slothashes == old(ctx).recent_slothashes
            },
            Err(e) => old(ctx).refusal(now) == Some(e) && *final(ctx) == *old(ctx),
        },
        final(ctx).raffle_account.wf(),
        final(ctx).raffle_account.total_sales >= old(ctx).raffle_account.total_sales,
        final(ctx).raffle_account.total_supply == old(ctx).raffle_account.total_supply,
{
    check_reveal(&ctx.raffle_account, now)?;
    let sample = entropy(&ctx.recent_slothashes);
    let time = le_bytes(now);
    let digest = keccak_of_three(
        sample.as_slice(),
        time.as_slice(),
        ctx.raffle_key.bytes.as_slice(),
    );
    ctx.raffle_account.winner_idx = winner_slot(&digest, ctx.raffle_account.total_sales);
    ctx.raffle_account.end_date = now;
    Ok(())
}

} // verus!
