use vstd::prelude::*;
use crate::constants::{ID_LENGTH, MAX_COLLECTIONS};
use crate::error::RaffleError;
use crate::pubkey::{bytes_eq, Pubkey};
use crate::states::{GlobalAccount, RaffleAccount, RaffleView, UserAccount};

verus! {

/// The kind of asset that an asset's registry entry declares it to be.
#[derive(Clone, Copy, Debug, PartialEq, Eq, Structural)]
pub enum TokenStandard {
    NonFungible,
    FungibleAsset,
    Fungible,
    NonFungibleEdition,
    ProgrammableNonFungible,
    ProgrammableNonFungibleEdition,
}

/// The collection that an asset's registry entry names, and whether the
/// collection has confirmed the membership.
#[derive(Clone, Copy, Debug, PartialEq, Eq)]
pub struct Collection {
    pub verified: bool,
    pub key: Pubkey,
}

/// What the asset registry says of a prize: its collection and its standard.
#[derive(Clone, Copy, Debug, PartialEq, Eq)]
pub struct Metadata {
    pub token_standard: Option<TokenStandard>,
    pub collection: Option<Collection>,
}

/// A holding account: which asset it holds, for whom, and how many units.
#[derive(Clone, Copy, Debug, PartialEq, Eq)]
pub struct TokenAccount {
    pub mint: Pubkey,
    pub owner: Pubkey,
    pub amount: u64,
}

/// The two ways in which a prize is held in custody. A standard asset stays
/// in its owner's account, frozen; a restricted one moves only through a
/// delegate, and is locked.
#[derive(Clone, Copy, Debug, PartialEq, Eq, Structural)]
pub enum AssetClass {
    Standard,
    Restricted,
}

/// One call on the custody primitives of the ledger. The raffle's escrow
/// identity is the delegate of `Approve` and `DelegateLockedTransfer`, and
/// the signer of every other step.
#[derive(Clone, Copy, Debug, PartialEq, Eq, Structural)]
pub enum CustodyStep {
    /// The owner allows the escrow to spend `amount` units.
    Approve { amount: u64 },
    /// The escrow freezes the owner's holding account.
    Freeze,
    /// The owner delegates a transfer of `amount` units that only the escrow
    /// can make, and only to itself.
    DelegateLockedTransfer { amount: u64 },
    /// The escrow locks the asset's token record.
    Lock,
    /// The escrow thaws the owner's holding account.
    Thaw,
    /// The escrow moves `amount` units to the winner's holding account.
    Transfer { amount: u64 },
    /// The escrow unlocks the asset's token record.
    Unlock,
    /// The escrow moves `amount` units of a restricted asset to the winner.
    LockedTransfer { amount: u64 },
}

/// The steps, in order, that take a prize of the given class into custody.
pub open spec fn deposit_steps(class: AssetClass) -> Seq<CustodyStep> {
    match class {
        AssetClass::Standard => seq![CustodyStep::Approve { amount: 1 }, CustodyStep::Freeze],
        AssetClass::Restricted => seq![
            CustodyStep::DelegateLockedTransfer { amount: 1 },
            CustodyStep::Lock,
        ],
    }
}

/// The steps, in order, that hand a prize of the given class to the winner.
pub open spec fn claim_steps(class: AssetClass) -> Seq<CustodyStep> {
    match class {
        AssetClass::Standard => seq![CustodyStep::Thaw, CustodyStep::Transfer { amount: 1 }],
        AssetClass::Restricted => seq![
            CustodyStep::Unlock,
            CustodyStep::LockedTransfer { amount: 1 },
        ],
    }
}

/// The steps, in order, that take a prize of the given class into custody.
pub fn deposit_plan(class: AssetClass) -> (steps: [CustodyStep; 2])
    ensures
        steps@ == deposit_steps(class),
{
    let steps = match class {
        AssetClass::Standard => [CustodyStep::Approve { amount: 1 }, CustodyStep::Freeze],
        AssetClass::Restricted => [
            CustodyStep::DelegateLockedTransfer { amount: 1 },
            CustodyStep::Lock,
        ],
    };
    assert(steps@ =~= deposit_steps(class));
    steps
}

/// The steps, in order, that hand a prize of the given class to the winner.
pub fn claim_plan(class: AssetClass) -> (steps: [CustodyStep; 2])
    ensures
        steps@ == claim_steps(class),
{
    let steps = match class {
        AssetClass::Standard => [CustodyStep::Thaw, CustodyStep::Transfer { amount: 1 }],
        AssetClass::Restricted => [CustodyStep::Unlock, CustodyStep::LockedTransfer { amount: 1 }],
    };
    assert(steps@ =~= claim_steps(class));
    steps
}

/// Whether `holding` is the depositor's own account for the prize and holds
/// exactly one unit of it.
pub open spec fn holds_one_unit(holding: TokenAccount, mint: Pubkey, owner: Pubkey) -> bool {
    holding.mint == mint && holding.owner == owner && holding.amount == 1
}

/// Whether the registry entry names a verified collection that some slot of
/// the whitelist holds. The all-zero identity marks an empty slot, so it is
/// held while a slot is empty.
pub open spec fn collection_accepted(global: GlobalAccount, metadata: Metadata) -> bool {
    match metadata.collection {
        Some(collection) => collection.verified && global.holds(collection.key),
        None => false,
    }
}

/// The first reason, in the order in which a deposit is examined, why
/// `authority` may not deposit the asset `mint` as the prize of `raffle`;
/// `None` when the deposit goes through.
pub open spec fn deposit_refusal(
    class: AssetClass,
    authority: Pubkey,
    global: GlobalAccount,
    raffle: RaffleView,
    mint: Pubkey,
    metadata: Metadata,
    holding: TokenAccount,
) -> Option<RaffleError> {
    if raffle.authority != authority {
        Some(RaffleError::InvalidSigner)
    } else if !holds_one_unit(holding, mint, authority) {
        Some(RaffleError::InvalidTokenAccount)
    } else if raffle.is_deposited {
        Some(RaffleError::PrizeAlreadyDeposited)
    } else if class == AssetClass::Restricted && metadata.token_standard != Some(
        TokenStandard::ProgrammableNonFungible,
    ) {
        Some(RaffleError::InvalidTokenStandard)
    } else if !collection_accepted(global, metadata) {
        Some(RaffleError::InvalidCollection)
    } else {
        None
    }
}

/// Examines a deposit and names the first reason to refuse it, if any.
pub fn check_deposit(
    class: AssetClass,
    authority: &Pubkey,
    global: &GlobalAccount,
    raffle: &RaffleAccount,
    mint: &Pubkey,
    metadata: &Metadata,
    holding: &TokenAccount,
) -> (res: Result<(), RaffleError>)
    ensures
        match res {
            Ok(()) => deposit_refusal(
                class,
                *authority,
                *global,
                raffle@,
                *mint,
                *metadata,
                *holding,
            ) is None,
            Err(e) => deposit_refusal(
                class,
                *authority,
                *global,
                raffle@,
                *mint,
                *metadata,
                *holding,
            ) == Some(e),
        },
{
    if raffle.authority != *authority {
        return Err(RaffleError::InvalidSigner);
    }
    if !(holding.mint == *mint && holding.owner == *authority && holding.amount == 1) {
        return Err(RaffleError::InvalidTokenAccount);
    }
    if raffle.is_deposited {
        return Err(RaffleError::PrizeAlreadyDeposited);
    }
    match class {
        AssetClass::Restricted => {
            match metadata.token_standard {
                Some(TokenStandard::ProgrammableNonFungible) => {},
                _ => {
                    return Err(RaffleError::InvalidTokenStandard);
                },
            }
        },
        AssetClass::Standard => {},
    }
    match metadata.collection {
        Some(collection) => {
            if !collection.verified {
                return Err(RaffleError::InvalidCollection);
            }
            if global.position(&collection.key) >= MAX_COLLECTIONS {
                return Err(RaffleError::InvalidCollection);
            }
        },
        None => {
            return Err(RaffleError::InvalidCollection);
        },
    }
    Ok(())
}

/// The raffle once the asset `mint` is its prize.
pub open spec fn with_prize(raffle: RaffleView, mint: Pubkey) -> RaffleView {
    RaffleView { mint, is_deposited: true, ..raffle }
}

/// The first reason, in the order in which a claim is examined, why
/// `authority` may not claim the prize of `raffle` under the identifier
/// `uid`; `None` when the claim goes through. `user` is the record that the
/// ledger keeps for `uid` in this raffle.
pub open spec fn claim_refusal(
    authority: Pubkey,
    raffle: RaffleView,
    user: UserAccount,
    uid: [u8; ID_LENGTH],
) -> Option<RaffleError> {
    if raffle.winner_idx == 0 {
        Some(RaffleError::WinnerNotRevealed)
    } else if raffle.is_claimed {
        Some(RaffleError::PrizeAlreadyClaimed)
    } else if raffle.tickets[raffle.winner_idx - 1].uid != uid {
        Some(RaffleError::WinnerNotMatched)
    } else if user.authority != authority {
        Some(RaffleError::InvalidSigner)
    } else {
        None
    }
}

/// Examines a claim and names the first reason to refuse it, if any.
pub fn check_claim(
    authority: &Pubkey,
    raffle: &RaffleAccount,
    user: &UserAccount,
    uid: &[u8; ID_LENGTH],
) -> (res: Result<(), RaffleError>)
    requires
        raffle.wf(),
    ensures
        match res {
            Ok(()) => claim_refusal(*authority, raffle@, *user, *uid) is None,
            Err(e) => claim_refusal(*authority, raffle@, *user, *uid) == Some(e),
        },
{
    if raffle.winner_idx == 0 {
        return Err(RaffleError::WinnerNotRevealed);
    }
    if raffle.is_claimed {
        return Err(RaffleError::PrizeAlreadyClaimed);
    }
    let winner_idx = raffle.winner_idx.checked_sub(1).ok_or(RaffleError::NumericOverflow)?;
    if !bytes_eq(&raffle.tickets[winner_idx as usize].uid, uid) {
        return Err(RaffleError::WinnerNotMatched);
    }
    if user.authority != *authority {
        return Err(RaffleError::InvalidSigner);
    }
    Ok(())
}

/// The raffle once its prize has been handed over.
pub open spec fn with_claim(raffle: RaffleView) -> RaffleView {
    RaffleView { is_claimed: true, ..raffle }
}

} // verus!
