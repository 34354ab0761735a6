//! Raffles of a non-fungible prize, with tickets paid in the ledger's native
//! currency or in a fungible token.
//!
//! The crate holds the rules of a raffle's life: the whitelist of
//! collections, creation, custody of the prize, the sale of tickets with its
//! split into fee and proceeds, the draw of the winner, the claim of the
//! prize and the withdrawal of the proceeds. Every operation takes the state
//! it works on and the facts it needs as plain values, changes the state or
//! refuses with a [`RaffleError`] and changes nothing, and returns what is
//! to be done on the ledger for it. Reading the ledger and acting on it is
//! left to the caller.

pub mod constants;
pub mod custody;
pub mod error;
pub mod laws;
pub mod payment;
pub mod processor;
pub mod pubkey;
pub mod states;

pub use custody::{AssetClass, Collection, CustodyStep, Metadata, TokenAccount, TokenStandard};
pub use error::RaffleError;
pub use processor::{
    add_prize, add_prize_pnft, add_whitelist, buy_ticket, claim_prize, claim_prize_pnft,
    create_raffle, initialize, remove_whitelist, reveal_winner, update_setting, withdraw_raffle,
    AddPrizeCtx, AddPrizePnftCtx, AddWhitelistCtx, BuyTicketCtx, ClaimPrizeCtx, ClaimPrizePnftCtx,
    CreateRaffleCtx, InitializeCtx, Payment, RemoveWhitelistCtx, RevealWinnerCtx,
    UpdateSettingCtx, WithdrawRaffleCtx, Withdrawal,
};
pub use pubkey::Pubkey;
pub use states::{GlobalAccount, RaffleAccount, RaffleTicket, UserAccount};
