use vstd::prelude::*;
use crate::error::RaffleError;
use crate::pubkey::Pubkey;
use crate::states::GlobalAccount;

verus! {

/// What a change of settings reads and changes: who asks for it, the new
/// administrator, the new receiver of fees, and the configuration.
#[derive(Clone, Copy, Debug, PartialEq, Eq)]
pub struct UpdateSettingCtx {
    pub authority: Pubkey,
    pub new_authority: Pubkey,
    pub vault: Pubkey,
    pub global_account: GlobalAccount,
}

/// Hands the configuration to `ctx.new_authority` and directs fees to
/// `ctx.vault`. Only the administrator may do so: anyone else is refused
/// with `InvalidSigner`, and nothing changes.
pub fn update_setting(ctx: &mut UpdateSettingCtx) -> (res: Result<(), RaffleError>)
    ensures
        match res {
            Ok(()) => {
                &&& old(ctx).authority == old(ctx).global_account.authority
                &&& *final(ctx) == (UpdateSettingCtx {
                    global_account: GlobalAccount {
                        authority: old(ctx).new_authority,
                        vault: old(ctx).vault,
                        ..old(ctx).global_account
                    },
                    ..*old(ctx)
                })
            },
            Err(e) => {
                &&& old(ctx).authority != old(ctx).global_account.authority
                &&& e == RaffleError::InvalidSigner
                &&& *final(ctx) == *old(ctx)
            },
        },
{
    if ctx.authority != ctx.global_account.authority {
        return Err(RaffleError::InvalidSigner);
    }
    ctx.global_account.authority = ctx.new_authority;
    ctx.global_account.vault = ctx.vault;
    Ok(())
}

} // verus!
