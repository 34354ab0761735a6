use vstd::prelude::*;
use crate::constants::{BASIS_POINTS, FEE_PERCENT, MAX_TICKET_PERCENT};
use crate::error::RaffleError;
use crate::pubkey::{lemma_pubkey_ext, Pubkey};

verus! {

/// Most tickets that one buyer may hold in a raffle of `total_supply`
/// tickets: forty percent of the supply, rounded down.
pub open spec fn wallet_limit(total_supply: int) -> int {
    total_supply * (MAX_TICKET_PERCENT as int) / (BASIS_POINTS as int)
}

/// The platform's share of a payment of `total`: one percent, rounded down.
pub open spec fn fee_of(total: int) -> int {
    total * (FEE_PERCENT as int) / (BASIS_POINTS as int)
}

/// The 32 bytes of the mint that stands for the ledger's native currency.
pub open spec fn native_mint_bytes() -> Seq<u8> {
    seq![
        6u8, 155u8, 136u8, 87u8, 254u8, 171u8, 129u8, 132u8, 251u8, 104u8, 127u8, 99u8, 70u8,
        24u8, 192u8, 53u8, 218u8, 196u8, 57u8, 220u8, 26u8, 235u8, 59u8, 85u8, 152u8, 160u8,
        240u8, 0u8, 0u8, 0u8, 0u8, 1u8,
    ]
}

/// Calls `spl_token::native_mint::id`, reached through `anchor_spl::token`.
/// That function returns a constant, declared in its crate by the address
/// `So11111111111111111111111111111111111111112`; the contract claims that
/// the bytes of that address are those of `native_mint_bytes`.
#[verifier::external_body]
fn native_mint_id() -> (id: Pubkey)
    ensures
        id@ == native_mint_bytes(),
{
    Pubkey { bytes: anchor_spl::token::spl_token::native_mint::id().to_bytes() }
}

/// Whether `mint` is the native currency rather than a fungible token.
pub fn is_native_mint(mint: &Pubkey) -> (native: bool)
    ensures
        native == (mint@ == native_mint_bytes()),
{
    let id = native_mint_id();
    proof {
        lemma_pubkey_ext(*mint, id);
    }
    *mint == id
}

/// The wallet cap of a raffle of `total_supply` tickets, or
/// `NumericOverflow` when 4000 times the supply does not fit in 32 bits.
pub fn checked_wallet_limit(total_supply: u32) -> (limit: Result<u32, RaffleError>)
    ensures
        match limit {
            Ok(l) => total_supply * MAX_TICKET_PERCENT <= u32::MAX && l == wallet_limit(
                total_supply as int,
            ),
            Err(e) => e == RaffleError::NumericOverflow && total_supply * MAX_TICKET_PERCENT
                > u32::MAX,
        },
{
    let scaled = total_supply.checked_mul(MAX_TICKET_PERCENT as u32).ok_or(
        RaffleError::NumericOverflow,
    )?;
    scaled.checked_div(BASIS_POINTS as u32).ok_or(RaffleError::NumericOverflow)
}

/// The platform's fee on a payment of `total`, or `NumericOverflow` when 100
/// times `total` does not fit in 64 bits.
pub fn checked_fee(total: u64) -> (fee: Result<u64, RaffleError>)
    ensures
        match fee {
            Ok(f) => total * FEE_PERCENT <= u64::MAX && f == fee_of(total as int) && f <= total,
            Err(e) => e == RaffleError::NumericOverflow && total * FEE_PERCENT > u64::MAX,
        },
{
    let scaled = total.checked_mul(FEE_PERCENT as u64).ok_or(RaffleError::NumericOverflow)?;
    scaled.checked_div(BASIS_POINTS as u64).ok_or(RaffleError::NumericOverflow)
}

} // verus!
