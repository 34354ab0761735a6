use vstd::prelude::*;
use crate::constants::MAX_COLLECTIONS;
use crate::error::RaffleError;
use crate::laws::lemma_add_inserts;
use crate::pubkey::Pubkey;
use crate::states::{first_index, lemma_first_index, GlobalAccount};

verus! {

/// What an addition to the whitelist reads and changes: who asks for it,
/// and the configuration.
#[derive(Clone, Copy, Debug, PartialEq, Eq)]
pub struct AddWhitelistCtx {
    pub authority: Pubkey,
    pub global_account: GlobalAccount,
}

/// The first reason, in the order in which an addition is examined, why
/// `authority` may not add `collection` to the whitelist of `global`; `None`
/// when it is added.
pub open spec fn add_whitelist_refusal(
    authority: Pubkey,
    global: GlobalAccount,
    collection: Pubkey,
) -> Option<RaffleError> {
    if authority != global.authority {
        Some(RaffleError::InvalidSigner)
    } else if global.holds(collection) {
        Some(RaffleError::AlreadyWhitelisted)
    } else if !global.holds(Pubkey::zero()) {
        Some(RaffleError::WhitelistFull)
    } else {
        None
    }
}

impl AddWhitelistCtx {
    /// The first reason why this addition is refused; `None` when it goes
    /// through.
    pub open spec fn refusal(self, collection: Pubkey) -> Option<RaffleError> {
        add_whitelist_refusal(self.authority, self.global_account, collection)
    }
}

/// The whitelist once `collection` has taken its first empty slot.
pub open spec fn slots_with(slots: Seq<Pubkey>, collection: Pubkey) -> Seq<Pubkey> {
    slots.update(first_index(slots, Pubkey::zero()), collection)
}

/// Adds `collection` to the whitelist.
///
/// An addition that is refused changes nothing. One that goes through puts
/// `collection` in the first empty slot and leaves every other slot as it
/// was. The all-zero identity marks an empty slot, so it counts as held
/// while a slot is empty.
pub fn add_whitelist(ctx: &mut AddWhitelistCtx, collection: Pubkey) -> (res: Result<
    (),
    RaffleError,
>)
    ensures
        match res {
            Ok(()) => {
                &&& old(ctx).refusal(collection) is None
                &&& final(ctx).global_account.slots() == slots_with(
                    old(ctx).global_account.slots(),
                    collection,
                )
                &&& final(ctx).global_account.whitelisted()
                    == old(ctx).global_account.whitelisted().insert(collection)
                &&& final(ctx).global_account.authority == old(ctx).global_account.authority
                &&& final(ctx).global_account.vault == old(ctx).global_account.vault
                &&& final(ctx).global_account.total_raffles == old(ctx).global_account.total_raffles
                &&& final(ctx).authority == old(ctx).authority
            },
            Err(e) => old(ctx).refusal(collection) == Some(e) && *final(ctx)
                == *old(ctx),
        },
        old(ctx).global_account.wf() ==> final(ctx).global_account.wf(),
{
    if ctx.authority != ctx.global_account.authority {
        return Err(RaffleError::InvalidSigner);
    }
    if ctx.global_account.position(&collection) < MAX_COLLECTIONS {
        return Err(RaffleError::AlreadyWhitelisted);
    }
    let zero = Pubkey::default();
    let at = ctx.global_account.position(&zero);
    if at >= MAX_COLLECTIONS {
        return Err(RaffleError::WhitelistFull);
    }
    proof {
        lemma_first_index(ctx.global_account.slots(), zero);
        lemma_add_inserts(ctx.global_account.slots(), collection);
    }
    ctx.global_account.wl_collections[at] = collection;
    Ok(())
}

} // verus!
