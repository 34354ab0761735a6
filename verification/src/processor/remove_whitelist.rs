use vstd::prelude::*;
use crate::constants::MAX_COLLECTIONS;
use crate::error::RaffleError;
use crate::laws::lemma_remove_deletes;
use crate::pubkey::Pubkey;
use crate::states::{first_index, lemma_first_index, GlobalAccount};

verus! {

/// What a removal from the whitelist reads and changes: who asks for it,
/// and the configuration.
#[derive(Clone, Copy, Debug, PartialEq, Eq)]
pub struct RemoveWhitelistCtx {
    pub authority: Pubkey,
    pub global_account: GlobalAccount,
}

/// The first reason, in the order in which a removal is examined, why
/// `authority` may not remove `collection` from the whitelist of `global`;
/// `None` when it is removed.
pub open spec fn remove_whitelist_refusal(
    authority: Pubkey,
    global: GlobalAccount,
    collection: Pubkey,
) -> Option<RaffleError> {
    if authority != global.authority {
        Some(RaffleError::InvalidSigner)
    } else if !global.holds(collection) {
        Some(RaffleError::NotWhitelisted)
    } else {
        None
    }
}

impl RemoveWhitelistCtx {
    /// The first reason why this removal is refused; `None` when it goes
    /// through.
    pub open spec fn refusal(self, collection: Pubkey) -> Option<RaffleError> {
        remove_whitelist_refusal(self.authority, self.global_account, collection)
    }
}

/// The whitelist once the first slot that holds `collection` is empty.
pub open spec fn slots_without(slots: Seq<Pubkey>, collection: Pubkey) -> Seq<Pubkey> {
    slots.update(first_index(slots, collection), Pubkey::zero())
}

/// Removes `collection` from the whitelist.
///
/// A removal that is refused changes nothing. One that goes through empties
/// the first slot that holds `collection` and leaves every other slot as it
/// was; in a whitelist without duplicates no slot holds it afterwards.
pub fn remove_whitelist(ctx: &mut RemoveWhitelistCtx, collection: Pubkey) -> (res: Result<
    (),
    RaffleError,
>)
    ensures
        match res {
            Ok(()) => {
                &&& old(ctx).refusal(collection) is None
                &&& final(ctx).global_account.slots() == slots_without(
                    old(ctx).global_account.slots(),
                    collection,
                )
                &&& final(ctx).global_account.authority == old(ctx).global_account.authority
                &&& final(ctx).global_account.vault == old(ctx).global_account.vault
                &&& final(ctx).global_account.total_raffles == old(ctx).global_account.total_raffles
                &&& final(ctx).authority == old(ctx).authority
            },
            Err(e) => old(ctx).refusal(collection) == Some(e) && *final(ctx)
                == *old(ctx),
        },
        old(ctx).global_account.wf() ==> final(ctx).global_account.wf(),
        old(ctx).global_account.wf() && res is Ok ==> final(ctx).global_account.whitelisted()
            == old(ctx).global_account.whitelisted().remove(collection),
{
    if ctx.authority != ctx.global_account.authority {
        return Err(RaffleError::InvalidSigner);
    }
    let at = ctx.global_account.position(&collection);
    if at >= MAX_COLLECTIONS {
        return Err(RaffleError::NotWhitelisted);
    }
    proof {
        lemma_first_index(ctx.global_account.slots(), collection);
        if ctx.global_account.wf() {
            lemma_remove_deletes(ctx.global_account.slots(), collection);
        }
    }
    ctx.global_account.wl_collections[at] = Pubkey::default();
    Ok(())
}

} // verus!
