use vstd::prelude::*;

verus! {

/// Every way in which an operation on a raffle can be refused.
#[derive(Clone, Copy, Debug, PartialEq, Eq, Structural)]
pub enum RaffleError {
    InvalidSigner,
    InvalidWallet,
    InvalidRaffleIndex,
    InvalidUUID,
    InvalidDate,
    InsufficientBalance,
    RaffleNotStarted,
    RaffleExpired,
    RaffleNotEnded,
    RaffleAlreadyWithdrawn,
    PrizeNotDeposited,
    PrizeAlreadyDeposited,
    PrizeAlreadyClaimed,
    WinnerNotRevealed,
    WinnerNotMatched,
    SupplyLimitExceed,
    WalletLimitExceed,
    TotalSupplyLessTotalSales,
    InvalidAmount,
    NumericOverflow,
    InvalidMint,
    InvalidTokenAccount,
    InvalidPubkey,
    InvalidOwner,
    UninitializedAccount,
    InvalidCollection,
    InvalidTokenStandard,
    BadMetadata,
    WhitelistFull,
    AlreadyWhitelisted,
    NotWhitelisted,
    WinnerAlreadyRevealed,
}

} // verus!
