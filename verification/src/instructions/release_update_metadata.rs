//! Changing the address of the content of a release.

use vstd::prelude::*;
use crate::accounts::{Account, Context, Mint};
use crate::constraints::{check_release, check_signer_seeds, spec_check_release, spec_check_signer_seeds, then};
use crate::cpi::{Field, SignerSeeds, TokenMetadataUpdateField};
use crate::errors::ErrorCode;
use crate::pubkey::Pubkey;
use crate::state::release::ReleaseV2;

verus! {

/// The accounts of changing the address of the content.
#[derive(Clone, Copy, Debug, PartialEq, Eq)]
pub struct ReleaseUpdateMetadata {
    /// Who funds the operation.
    pub payer: Pubkey,
    pub authority: Pubkey,
    pub release_signer: Pubkey,
    pub release: Account<ReleaseV2>,
    pub mint: Account<Mint>,
    pub system_program: Pubkey,
    pub token_2022_program: Pubkey,
}

/// Asks for the address of the content in the metadata of the mint to be
/// overwritten, signed by the signer of the release with the given bump.
pub fn handler(ctx: &Context<ReleaseUpdateMetadata>, uri: String, release_signer_bump: u8) -> (update:
    TokenMetadataUpdateField)
    ensures
        update == (TokenMetadataUpdateField {
            program_id: ctx.accounts.token_2022_program,
            metadata: ctx.accounts.mint.key,
            update_authority: ctx.accounts.release_signer,
            signer_seeds: SignerSeeds { release: ctx.accounts.release.key, bump: release_signer_bump },
            field: Field::Uri,
            value: uri,
        }),
{
    TokenMetadataUpdateField {
        program_id: ctx.accounts.token_2022_program,
        metadata: ctx.accounts.mint.key,
        update_authority: ctx.accounts.release_signer,
        signer_seeds: SignerSeeds { release: ctx.accounts.release.key, bump: release_signer_bump },
        field: Field::Uri,
        value: uri,
    }
}

impl ReleaseUpdateMetadata {
    /// The verdict on the accounts: the authority and the signer are those
    /// of the record, the record is at the address derived from the mint,
    /// the mint is that of the record, and the bump seed given derives the
    /// signer from the record. The operation has no verdict of its own, so
    /// the bump seed is judged with the accounts.
    pub open spec fn spec_try_accounts(self, program_id: Pubkey, release_signer_bump: u8) -> Result<(), ErrorCode> {
        then(
            spec_check_release(self.authority, self.release_signer, self.release, self.mint.key, program_id),
            spec_check_signer_seeds(self.release.key, release_signer_bump, self.release_signer, program_id),
        )
    }

    /// Checks the accounts against each other and the bump seed against the
    /// signer.
    pub fn try_accounts(&self, program_id: &Pubkey, release_signer_bump: u8) -> (r: Result<(), ErrorCode>)
        ensures
            r == self.spec_try_accounts(*program_id, release_signer_bump),
            r is Ok ==> self.release_signer == self.release.data.release_signer && (SignerSeeds {
                release: self.release.key,
                bump: release_signer_bump,
            }).spec_verify(self.release.data.release_signer, *program_id),
    {
        match check_release(&self.authority, &self.release_signer, &self.release, &self.mint.key, program_id) {
            Ok(()) => {},
            Err(e) => {
                return Err(e);
            },
        }
        check_signer_seeds(&self.release.key, release_signer_bump, &self.release_signer, program_id)
    }
}

} // verus!
