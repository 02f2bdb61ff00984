//! Closing a release: the cap becomes the supply issued so far.

use vstd::prelude::*;
use crate::accounts::{Account, Context, Mint};
use crate::constraints::{check_release, spec_check_release};
use crate::errors::{ErrorCode, NinaError};
use crate::pubkey::Pubkey;
use crate::state::release::ReleaseV2;
use crate::utils::{check_delegated_payer, payer_allowed};

verus! {

/// The accounts of closing a release.
#[derive(Clone, Copy, Debug, PartialEq, Eq)]
pub struct ReleaseClose {
    pub payer: Pubkey,
    pub authority: Pubkey,
    pub release_signer: Pubkey,
    pub release: Account<ReleaseV2>,
    pub mint: Account<Mint>,
}

/// The record after closing: the cap is the live supply, all else as before.
pub open spec fn closed(release: ReleaseV2, supply: u64) -> ReleaseV2 {
    ReleaseV2 { total_supply: supply, ..release }
}

/// The outcome of closing: the accounts with the closed record, or the
/// rejection of a payer that is neither the authority of the release nor a
/// delegate of the file service.
pub open spec fn spec_handler(ctx: Context<ReleaseClose>) -> Result<Context<ReleaseClose>, NinaError> {
    if payer_allowed(ctx.accounts.payer, ctx.accounts.release.data.authority, ctx.delegates.file_service_accounts@) {
        Ok(
            Context {
                accounts: ReleaseClose {
                    release: Account {
                        key: ctx.accounts.release.key,
                        data: closed(ctx.accounts.release.data, ctx.accounts.mint.data.supply),
                    },
                    ..ctx.accounts
                },
                ..ctx
            },
        )
    } else {
        Err(NinaError::DelegatedPayerMismatch)
    }
}

/// Closes the release for its authority, or for a delegate of the file
/// service: the cap is set to the supply that the mint has issued. Any other
/// payer is rejected, and nothing is changed.
pub fn handler(ctx: &mut Context<ReleaseClose>) -> (r: Result<(), NinaError>)
    ensures
        match spec_handler(*old(ctx)) {
            Ok(after) => r == Ok::<(), NinaError>(()) && *final(ctx) == after,
            Err(e) => r == Err::<(), NinaError>(e) && *final(ctx) == *old(ctx),
        },
        r is Ok ==> final(ctx).accounts.release.data.total_supply == old(ctx).accounts.mint.data.supply,
        r is Ok <==> payer_allowed(
            old(ctx).accounts.payer,
            old(ctx).accounts.release.data.authority,
            old(ctx).delegates.file_service_accounts@,
        ),
        r is Err ==> r == Err::<(), NinaError>(NinaError::DelegatedPayerMismatch) && *final(ctx) == *old(ctx),
{
    match check_delegated_payer(
        &ctx.accounts.payer,
        &ctx.accounts.release.data.authority,
        &ctx.delegates.file_service_accounts,
    ) {
        Ok(()) => {},
        Err(e) => {
            return Err(e);
        },
    }
    ctx.accounts.release.data.total_supply = ctx.accounts.mint.data.supply;
    Ok(())
}

impl ReleaseClose {
    /// The verdict on the accounts: the authority and the signer are those
    /// of the record, the record is at the address derived from the mint,
    /// and the mint is that of the record.
    pub open spec fn spec_try_accounts(self, program_id: Pubkey) -> Result<(), ErrorCode> {
        spec_check_release(self.authority, self.release_signer, self.release, self.mint.key, program_id)
    }

    /// Checks the accounts against each other.
    pub fn try_accounts(&self, program_id: &Pubkey) -> (r: Result<(), ErrorCode>)
        ensures
            r == self.spec_try_accounts(*program_id),
            r is Ok ==> self.release_signer == self.release.data.release_signer,
    {
        check_release(&self.authority, &self.release_signer, &self.release, &self.mint.key, program_id)
    }
}

} // verus!
