//! Changing the metadata and the sale terms of a release.

use vstd::prelude::*;
use crate::accounts::{Account, Context, Mint};
use crate::cpi::{Field, MintBalanceUpdate, Request, SignerSeeds, TokenMetadataUpdateField};
use crate::constraints::{check_release, spec_check_release};
use crate::errors::{ErrorCode, NinaError};
use crate::instructions::release_init_v2::update_mint_balance;
use crate::pubkey::Pubkey;
use crate::state::release::ReleaseV2;
use crate::utils::{check_delegated_payer, payer_allowed};

verus! {

/// The accounts of updating a release.
#[derive(Clone, Copy, Debug, PartialEq, Eq)]
pub struct ReleaseUpdate {
    /// Who funds the operation.
    pub payer: Pubkey,
    pub authority: Pubkey,
    pub release_signer: Pubkey,
    pub release: Account<ReleaseV2>,
    pub mint: Account<Mint>,
    pub system_program: Pubkey,
    pub token_2022_program: Pubkey,
}

/// What updating a release asks for, in this order.
#[derive(Clone, Debug, PartialEq, Eq)]
pub struct UpdatePlan {
    /// The new address of the content.
    pub uri: TokenMetadataUpdateField,
    /// The new name.
    pub name: TokenMetadataUpdateField,
    /// The new symbol.
    pub symbol: TokenMetadataUpdateField,
    /// The raising of the balance of the mint, which the metadata may have
    /// made larger.
    pub balance: MintBalanceUpdate,
}

/// The overwriting of `field` of the metadata of the release by `value`,
/// signed by the signer of the release with the given bump.
pub open spec fn spec_update_field(
    accounts: ReleaseUpdate,
    field: Field,
    value: String,
    release_signer_bump: u8,
) -> TokenMetadataUpdateField {
    TokenMetadataUpdateField {
        program_id: accounts.token_2022_program,
        metadata: accounts.mint.key,
        update_authority: accounts.release_signer,
        signer_seeds: SignerSeeds { release: accounts.release.key, bump: release_signer_bump },
        field: field,
        value: value,
    }
}

/// What updating a release asks for.
pub open spec fn spec_update_plan(
    accounts: ReleaseUpdate,
    uri: String,
    name: String,
    symbol: String,
    release_signer_bump: u8,
) -> UpdatePlan {
    UpdatePlan {
        uri: spec_update_field(accounts, Field::Uri, uri, release_signer_bump),
        name: spec_update_field(accounts, Field::Name, name, release_signer_bump),
        symbol: spec_update_field(accounts, Field::Symbol, symbol, release_signer_bump),
        balance: MintBalanceUpdate {
            mint: accounts.mint.key,
            payer: accounts.payer,
            system_program: accounts.system_program,
        },
    }
}

/// The accounts after the update: the record has the new price and the new
/// cap, all else is as before.
pub open spec fn spec_updated(accounts: ReleaseUpdate, price: u64, total_supply: u64) -> ReleaseUpdate {
    ReleaseUpdate {
        release: Account {
            key: accounts.release.key,
            data: ReleaseV2 { price: price, total_supply: total_supply, ..accounts.release.data },
        },
        ..accounts
    }
}

/// The overwriting of one field of the metadata.
fn update_field(ctx: &Context<ReleaseUpdate>, field: Field, value: String, release_signer_bump: u8) -> (update:
    TokenMetadataUpdateField)
    ensures
        update == spec_update_field(ctx.accounts, field, value, release_signer_bump),
{
    TokenMetadataUpdateField {
        program_id: ctx.accounts.token_2022_program,
        metadata: ctx.accounts.mint.key,
        update_authority: ctx.accounts.release_signer,
        signer_seeds: SignerSeeds { release: ctx.accounts.release.key, bump: release_signer_bump },
        field,
        value,
    }
}

/// The outcome of updating a release: what is asked for and the accounts
/// with the new terms, or the rejection of a payer that is neither the
/// authority of the release nor a delegate of the file service.
pub open spec fn spec_handler(
    ctx: Context<ReleaseUpdate>,
    uri: String,
    name: String,
    symbol: String,
    release_signer_bump: u8,
    price: u64,
    total_supply: u64,
) -> Result<(UpdatePlan, Context<ReleaseUpdate>), NinaError> {
    if payer_allowed(ctx.accounts.payer, ctx.accounts.release.data.authority, ctx.delegates.file_service_accounts@) {
        Ok(
            (
                spec_update_plan(ctx.accounts, uri, name, symbol, release_signer_bump),
                Context { accounts: spec_updated(ctx.accounts, price, total_supply), ..ctx },
            ),
        )
    } else {
        Err(NinaError::DelegatedPayerMismatch)
    }
}

/// Updates a release for its authority, or for a delegate of the file
/// service.
///
/// Asks for the address, the name and the symbol in the metadata of the mint
/// to be overwritten, in this order, and then for the balance of the mint to
/// be raised, and writes the new price and the new cap into the record. Any
/// other payer is rejected, and nothing is changed.
pub fn handler(
    ctx: &mut Context<ReleaseUpdate>,
    uri: String,
    name: String,
    symbol: String,
    release_signer_bump: u8,
    price: u64,
    total_supply: u64,
) -> (r: Result<UpdatePlan, NinaError>)
    ensures
        match spec_handler(*old(ctx), uri, name, symbol, release_signer_bump, price, total_supply) {
            Ok((plan, after)) => r == Ok::<UpdatePlan, NinaError>(plan) && *final(ctx) == after,
            Err(e) => r == Err::<UpdatePlan, NinaError>(e) && *final(ctx) == *old(ctx),
        },
        r is Ok <==> payer_allowed(
            old(ctx).accounts.payer,
            old(ctx).accounts.release.data.authority,
            old(ctx).delegates.file_service_accounts@,
        ),
        r is Err ==> r == Err::<UpdatePlan, NinaError>(NinaError::DelegatedPayerMismatch) && *final(ctx) == *old(
            ctx,
        ),
{
    match check_delegated_payer(
        &ctx.accounts.payer,
        &ctx.accounts.release.data.authority,
        &ctx.delegates.file_service_accounts,
    ) {
        Ok(()) => {},
        Err(e) => {
            return Err(e);
        },
    }
    let plan = UpdatePlan {
        uri: update_field(ctx, Field::Uri, uri, release_signer_bump),
        name: update_field(ctx, Field::Name, name, release_signer_bump),
        symbol: update_field(ctx, Field::Symbol, symbol, release_signer_bump),
        balance: update_mint_balance(&ctx.accounts.mint.key, &ctx.accounts.payer, &ctx.accounts.system_program),
    };
    ctx.accounts.release.data.price = price;
    ctx.accounts.release.data.total_supply = total_supply;
    Ok(plan)
}

impl ReleaseUpdate {
    /// The verdict on the accounts: the authority and the signer are those
    /// of the record, the record is at the address derived from the mint,
    /// and the mint is that of the record.
    pub open spec fn spec_try_accounts(self, program_id: Pubkey) -> Result<(), ErrorCode> {
        spec_check_release(self.authority, self.release_signer, self.release, self.mint.key, program_id)
    }

    /// Checks the accounts against each other.
    pub fn try_accounts(&self, program_id: &Pubkey) -> (r: Result<(), ErrorCode>)
        ensures
            r == self.spec_try_accounts(*program_id),
            r is Ok ==> self.release_signer == self.release.data.release_signer,
    {
        check_release(&self.authority, &self.release_signer, &self.release, &self.mint.key, program_id)
    }
}

impl UpdatePlan {
    /// What the plan asks for, in order: the address, the name and the
    /// symbol are overwritten, then the balance of the mint is raised.
    pub open spec fn spec_requests(self) -> Seq<Request> {
        seq![
            Request::TokenMetadataUpdateField(self.uri),
            Request::TokenMetadataUpdateField(self.name),
            Request::TokenMetadataUpdateField(self.symbol),
            Request::MintBalanceUpdate(self.balance),
        ]
    }

    /// What the plan asks for, in the order in which it is to be done.
    pub fn requests(self) -> (requests: Vec<Request>)
        ensures
            requests@ == self.spec_requests(),
    {
        let mut requests: Vec<Request> = Vec::new();
        requests.push(Request::TokenMetadataUpdateField(self.uri));
        requests.push(Request::TokenMetadataUpdateField(self.name));
        requests.push(Request::TokenMetadataUpdateField(self.symbol));
        requests.push(Request::MintBalanceUpdate(self.balance));
        proof {
            assert(requests@ =~= self.spec_requests());
        }
        requests
    }
}

} // verus!
