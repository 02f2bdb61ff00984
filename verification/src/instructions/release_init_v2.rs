//! Opening a release.

use vstd::prelude::*;
use crate::accounts::{Account, Context, TokenAccount};
use crate::constraints::{
    check_associated_token, check_release_signer, spec_check_associated_token, spec_check_release_address,
    spec_check_release_signer, then,
};
use crate::cpi::{CreateAccount, CreateMint, MintBalanceUpdate, Request, SignerSeeds, TokenMetadataInitialize};
use crate::errors::{ErrorCode, NinaError};
use crate::pubkey::{lemma_pubkey_ext, Pubkey};
use crate::seeds::{
    find_release_address, found_bump, is_found, spec_find_release_address, spec_find_release_signer,
};
use crate::state::release::{ReleaseV2, RELEASE_SPACE};
use crate::utils::{check_delegated_payer, payer_allowed};

verus! {

/// The arguments of opening a release.
#[derive(Clone, Debug, PartialEq, Eq)]
pub struct ReleaseInitV2Args {
    pub uri: String,
    pub name: String,
    pub symbol: String,
    pub total_supply: u64,
    pub price: u64,
    pub release_signer_bump: u8,
}

/// The accounts of opening a release.
#[derive(Clone, Copy, Debug, PartialEq, Eq)]
pub struct ReleaseInitV2 {
    /// Who funds the operation.
    pub payer: Pubkey,
    /// Who will own the release.
    pub authority: Pubkey,
    /// The record of the release; it holds nothing before the release is
    /// opened.
    pub release: Account<Option<ReleaseV2>>,
    /// The mint that is created for the release.
    pub mint: Pubkey,
    pub release_signer: Pubkey,
    pub payment_mint: Pubkey,
    pub royalty_token_account: Account<TokenAccount>,
    pub system_program: Pubkey,
    pub associated_token_program: Pubkey,
    pub token_program: Pubkey,
    pub token_2022_program: Pubkey,
}

/// What opening a release asks for, in this order.
#[derive(Clone, Debug, PartialEq, Eq)]
pub struct InitPlan {
    /// The writing of the metadata of the mint.
    pub metadata: TokenMetadataInitialize,
    /// The raising of the balance of the mint, which the metadata has made
    /// larger.
    pub balance: MintBalanceUpdate,
}

/// The writing of name, symbol and address into the metadata that the mint
/// itself holds, signed by the signer of the release with the given bump.
pub fn initialize_token_metadata(
    token_2022_program: &Pubkey,
    mint: &Pubkey,
    release: &Account<Option<ReleaseV2>>,
    release_signer: &Pubkey,
    name: String,
    symbol: String,
    uri: String,
    release_signer_bump: u8,
) -> (metadata: TokenMetadataInitialize)
    ensures
        metadata == (TokenMetadataInitialize {
            program_id: *token_2022_program,
            mint: *mint,
            metadata: *mint,
            mint_authority: *release_signer,
            update_authority: *release_signer,
            signer_seeds: SignerSeeds { release: release.key, bump: release_signer_bump },
            name: name,
            symbol: symbol,
            uri: uri,
        }),
{
    TokenMetadataInitialize {
        program_id: *token_2022_program,
        mint: *mint,
        metadata: *mint,
        mint_authority: *release_signer,
        update_authority: *release_signer,
        signer_seeds: SignerSeeds { release: release.key, bump: release_signer_bump },
        name,
        symbol,
        uri,
    }
}

/// The raising of the balance of the mint at the cost of the payer.
pub fn update_mint_balance(mint: &Pubkey, payer: &Pubkey, system_program: &Pubkey) -> (balance: MintBalanceUpdate)
    ensures
        balance == (MintBalanceUpdate { mint: *mint, payer: *payer, system_program: *system_program }),
{
    MintBalanceUpdate { mint: *mint, payer: *payer, system_program: *system_program }
}

/// Fills the record of the release: its identities, its cap and its price.
pub fn set_release_data(
    release: &mut Account<Option<ReleaseV2>>,
    authority: &Pubkey,
    release_signer: &Pubkey,
    mint: &Pubkey,
    royalty_token_account: &Account<TokenAccount>,
    payment_mint: &Pubkey,
    total_supply: u64,
    price: u64,
)
    ensures
        *final(release) == (Account {
            key: old(release).key,
            data: Some(
                ReleaseV2 {
                    authority: *authority,
                    release_signer: *release_signer,
                    mint: *mint,
                    royalty_token_account: royalty_token_account.key,
                    payment_mint: *payment_mint,
                    total_supply: total_supply,
                    price: price,
                },
            ),
        }),
{
    release.data = Some(
        ReleaseV2 {
            authority: *authority,
            release_signer: *release_signer,
            mint: *mint,
            royalty_token_account: royalty_token_account.key,
            payment_mint: *payment_mint,
            total_supply,
            price,
        },
    );
}

/// The record that opening a release writes.
pub open spec fn spec_release(accounts: ReleaseInitV2, total_supply: u64, price: u64) -> ReleaseV2 {
    ReleaseV2 {
        authority: accounts.authority,
        release_signer: accounts.release_signer,
        mint: accounts.mint,
        royalty_token_account: accounts.royalty_token_account.key,
        payment_mint: accounts.payment_mint,
        total_supply: total_supply,
        price: price,
    }
}

/// What opening a release asks for.
pub open spec fn spec_init_plan(
    accounts: ReleaseInitV2,
    uri: String,
    name: String,
    symbol: String,
    release_signer_bump: u8,
) -> InitPlan {
    InitPlan {
        metadata: TokenMetadataInitialize {
            program_id: accounts.token_2022_program,
            mint: accounts.mint,
            metadata: accounts.mint,
            mint_authority: accounts.release_signer,
            update_authority: accounts.release_signer,
            signer_seeds: SignerSeeds { release: accounts.release.key, bump: release_signer_bump },
            name: name,
            symbol: symbol,
            uri: uri,
        },
        balance: MintBalanceUpdate {
            mint: accounts.mint,
            payer: accounts.payer,
            system_program: accounts.system_program,
        },
    }
}

/// The accounts after the release is opened: the record is filled, all else
/// is as before.
pub open spec fn spec_opened(accounts: ReleaseInitV2, total_supply: u64, price: u64) -> ReleaseInitV2 {
    ReleaseInitV2 {
        release: Account { key: accounts.release.key, data: Some(spec_release(accounts, total_supply, price)) },
        ..accounts
    }
}

/// The outcome of opening a release: what is asked for and the accounts
/// with the filled record, or the rejection of a payer that is neither the
/// authority nor a delegate of the file service.
pub open spec fn spec_handler(
    ctx: Context<ReleaseInitV2>,
    uri: String,
    name: String,
    symbol: String,
    total_supply: u64,
    price: u64,
    release_signer_bump: u8,
) -> Result<(InitPlan, Context<ReleaseInitV2>), NinaError> {
    if payer_allowed(ctx.accounts.payer, ctx.accounts.authority, ctx.delegates.file_service_accounts@) {
        Ok(
            (
                spec_init_plan(ctx.accounts, uri, name, symbol, release_signer_bump),
                Context { accounts: spec_opened(ctx.accounts, total_supply, price), ..ctx },
            ),
        )
    } else {
        Err(NinaError::DelegatedPayerMismatch)
    }
}

/// Opens a release for its authority, or for a delegate of the file service.
///
/// Asks for the metadata of the mint to be written and then for the balance
/// of the mint to be raised, and fills the record with the identities, the
/// cap and the price. Any other payer is rejected, and nothing is changed.
pub fn handler(
    ctx: &mut Context<ReleaseInitV2>,
    uri: String,
    name: String,
    symbol: String,
    total_supply: u64,
    price: u64,
    release_signer_bump: u8,
) -> (r: Result<InitPlan, NinaError>)
    ensures
        match spec_handler(*old(ctx), uri, name, symbol, total_supply, price, release_signer_bump) {
            Ok((plan, after)) => r == Ok::<InitPlan, NinaError>(plan) && *final(ctx) == after,
            Err(e) => r == Err::<InitPlan, NinaError>(e) && *final(ctx) == *old(ctx),
        },
        r is Ok <==> payer_allowed(
            old(ctx).accounts.payer,
            old(ctx).accounts.authority,
            old(ctx).delegates.file_service_accounts@,
        ),
        r is Err ==> r == Err::<InitPlan, NinaError>(NinaError::DelegatedPayerMismatch) && *final(ctx) == *old(ctx),
{
    match check_delegated_payer(
        &ctx.accounts.payer,
        &ctx.accounts.authority,
        &ctx.delegates.file_service_accounts,
    ) {
        Ok(()) => {},
        Err(e) => {
            return Err(e);
        },
    }
    let metadata = initialize_token_metadata(
        &ctx.accounts.token_2022_program,
        &ctx.accounts.mint,
        &ctx.accounts.release,
        &ctx.accounts.release_signer,
        name,
        symbol,
        uri,
        release_signer_bump,
    );
    let balance = update_mint_balance(&ctx.accounts.mint, &ctx.accounts.payer, &ctx.accounts.system_program);
    let authority = ctx.accounts.authority;
    let release_signer = ctx.accounts.release_signer;
    let mint = ctx.accounts.mint;
    let royalty_token_account = ctx.accounts.royalty_token_account;
    let payment_mint = ctx.accounts.payment_mint;
    set_release_data(
        &mut ctx.accounts.release,
        &authority,
        &release_signer,
        &mint,
        &royalty_token_account,
        &payment_mint,
        total_supply,
        price,
    );
    Ok(InitPlan { metadata, balance })
}

/// What is created before a release is opened, in this order.
#[derive(Clone, Copy, Debug, PartialEq, Eq)]
pub struct InitAccounts {
    /// The account of the record.
    pub create_release: CreateAccount,
    /// The mint of the release: no decimals, and the signer of the release
    /// as the authority over both the issue of units and the metadata.
    pub create_mint: CreateMint,
}

/// The record holds nothing yet, or the verdict is `AccountAlreadyInUse`.
pub open spec fn spec_check_vacant(release: Account<Option<ReleaseV2>>) -> Result<(), ErrorCode> {
    if release.data is None {
        Ok(())
    } else {
        Err(ErrorCode::AccountAlreadyInUse)
    }
}

/// Checks that the record holds nothing yet.
pub fn check_vacant(release: &Account<Option<ReleaseV2>>) -> (r: Result<(), ErrorCode>)
    ensures
        r == spec_check_vacant(*release),
{
    match release.data {
        None => Ok(()),
        Some(_) => Err(ErrorCode::AccountAlreadyInUse),
    }
}

/// The creation of the account of a record at `release`, found for `mint`
/// with `bump`.
pub open spec fn spec_create_release(
    system_program: Pubkey,
    payer: Pubkey,
    release: Pubkey,
    mint: Pubkey,
    program_id: Pubkey,
    bump: u8,
) -> CreateAccount {
    CreateAccount {
        program: system_program,
        payer: payer,
        account: release,
        mint: mint,
        bump: bump,
        space: RELEASE_SPACE,
        owner: program_id,
    }
}

/// The creation of the mint of a release.
pub open spec fn spec_create_mint(
    token_2022_program: Pubkey,
    system_program: Pubkey,
    payer: Pubkey,
    mint: Pubkey,
    release_signer: Pubkey,
) -> CreateMint {
    CreateMint {
        program: token_2022_program,
        system_program: system_program,
        payer: payer,
        mint: mint,
        decimals: 0,
        mint_authority: release_signer,
        metadata_pointer_authority: release_signer,
        metadata_address: mint,
    }
}

impl ReleaseInitV2 {
    /// The verdict on the accounts, the first failure deciding: the record
    /// is at the address derived from the mint and holds nothing yet; the
    /// signer is at the address derived from the record; the royalty account
    /// is the one that belongs to the authority and the payment mint.
    pub open spec fn spec_verdict(self, program_id: Pubkey) -> Result<(), ErrorCode> {
        then(
            spec_check_release_address(self.release.key, self.mint, program_id),
            then(
                spec_check_vacant(self.release),
                then(
                    spec_check_release_signer(self.release_signer, self.release.key, program_id),
                    spec_check_associated_token(
                        self.royalty_token_account,
                        self.authority,
                        self.payment_mint,
                        self.token_program,
                    ),
                ),
            ),
        )
    }

    /// The outcome of checking the accounts: the rejection, or what is to
    /// be created.
    pub open spec fn spec_try_accounts(self, program_id: Pubkey) -> Result<
        InitAccounts,
        ErrorCode,
    > {
        match self.spec_verdict(program_id) {
            Ok(()) => Ok(
                InitAccounts {
                    create_release: spec_create_release(
                        self.system_program,
                        self.payer,
                        self.release.key,
                        self.mint,
                        program_id,
                        found_bump(spec_find_release_address(self.mint, program_id)),
                    ),
                    create_mint: spec_create_mint(
                        self.token_2022_program,
                        self.system_program,
                        self.payer,
                        self.mint,
                        self.release_signer,
                    ),
                },
            ),
            Err(e) => Err(e),
        }
    }

    /// Checks the accounts against each other, and says what is to be
    /// created.
    pub fn try_accounts(&self, program_id: &Pubkey) -> (r: Result<
        InitAccounts,
        ErrorCode,
    >)
        ensures
            r == self.spec_try_accounts(*program_id),
            r is Ok ==> {
                &&& self.release.data is None
                &&& is_found(spec_find_release_signer(self.release.key, *program_id), self.release_signer)
            },
    {
        let bump = match find_release_address(&self.mint, program_id) {
            Some((address, bump)) => {
                proof {
                    lemma_pubkey_ext(address, self.release.key);
                }
                if address != self.release.key {
                    return Err(ErrorCode::ConstraintSeeds);
                }
                bump
            },
            None => {
                return Err(ErrorCode::ConstraintSeeds);
            },
        };
        match check_vacant(&self.release) {
            Ok(()) => {},
            Err(e) => {
                return Err(e);
            },
        }
        match check_release_signer(&self.release_signer, &self.release.key, program_id) {
            Ok(()) => {},
            Err(e) => {
                return Err(e);
            },
        }
        match check_associated_token(
            &self.royalty_token_account,
            &self.authority,
            &self.payment_mint,
            &self.token_program,
        ) {
            Ok(()) => {},
            Err(e) => {
                return Err(e);
            },
        }
        Ok(
            InitAccounts {
                create_release: CreateAccount {
                    program: self.system_program,
                    payer: self.payer,
                    account: self.release.key,
                    mint: self.mint,
                    bump,
                    space: RELEASE_SPACE,
                    owner: *program_id,
                },
                create_mint: CreateMint {
                    program: self.token_2022_program,
                    system_program: self.system_program,
                    payer: self.payer,
                    mint: self.mint,
                    decimals: 0,
                    mint_authority: self.release_signer,
                    metadata_pointer_authority: self.release_signer,
                    metadata_address: self.mint,
                },
            },
        )
    }
}

impl InitAccounts {
    /// What is created, in order: the account of the record, then the mint.
    pub open spec fn spec_requests(self) -> Seq<Request> {
        seq![Request::CreateAccount(self.create_release), Request::CreateMint(self.create_mint)]
    }

    /// What is created, in the order in which it is to be done.
    pub fn requests(self) -> (requests: Vec<Request>)
        ensures
            requests@ == self.spec_requests(),
    {
        let mut requests: Vec<Request> = Vec::new();
        requests.push(Request::CreateAccount(self.create_release));
        requests.push(Request::CreateMint(self.create_mint));
        proof {
            assert(requests@ =~= self.spec_requests());
        }
        requests
    }
}

impl InitPlan {
    /// What the plan asks for, in order: the writing of the metadata, then
    /// the raising of the balance of the mint.
    pub open spec fn spec_requests(self) -> Seq<Request> {
        seq![Request::TokenMetadataInitialize(self.metadata), Request::MintBalanceUpdate(self.balance)]
    }

    /// What the plan asks for, in the order in which it is to be done.
    pub fn requests(self) -> (requests: Vec<Request>)
        ensures
            requests@ == self.spec_requests(),
    {
        let mut requests: Vec<Request> = Vec::new();
        requests.push(Request::TokenMetadataInitialize(self.metadata));
        requests.push(Request::MintBalanceUpdate(self.balance));
        proof {
            assert(requests@ =~= self.spec_requests());
        }
        requests
    }
}

} // verus!
