use vstd::prelude::*;
use crate::constants::MAX_COLLECTIONS;
use crate::error::RaffleError;
use crate::pubkey::Pubkey;
use crate::states::GlobalAccount;

verus! {

/// What the set-up of the configuration reads and changes: who sets it up,
/// who is to receive fees, and the configuration itself.
#[derive(Clone, Copy, Debug, PartialEq, Eq)]
pub struct InitializeCtx {
    pub authority: Pubkey,
    pub vault: Pubkey,
    pub global_account: GlobalAccount,
}

/// The configuration as it is set up: no raffles and an empty whitelist.
pub open spec fn initial_global(authority: Pubkey, vault: Pubkey, global: GlobalAccount) -> bool {
    &&& global.authority == authority
    &&& global.vault == vault
    &&& global.total_raffles == 0
    &&& global.slots() == Seq::new(MAX_COLLECTIONS as nat, |i: int| Pubkey::zero())
}

/// Sets the configuration up with `ctx.authority` as its administrator and
/// `ctx.vault` as the receiver of fees. It is never refused.
pub fn initialize(ctx: &mut InitializeCtx) -> (res: Result<(), RaffleError>)
    ensures
        res is Ok,
        initial_global(old(ctx).authority, old(ctx).vault, final(ctx).global_account),
        final(ctx).global_account.wf(),
        final(ctx).authority == old(ctx).authority,
        final(ctx).vault == old(ctx).vault,
{
    ctx.global_account.authority = ctx.authority;
    ctx.global_account.vault = ctx.vault;
    ctx.global_account.total_raffles = 0;
    ctx.global_account.wl_collections = [Pubkey::default();MAX_COLLECTIONS];
    assert(ctx.global_account.slots() =~= Seq::new(
        MAX_COLLECTIONS as nat,
        |i: int| Pubkey::zero(),
    ));
    Ok(())
}

} // verus!
