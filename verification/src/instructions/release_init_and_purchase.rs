//! Opening a release and buying its first unit in one operation.

use vstd::prelude::*;
use crate::accounts::{Account, Context, Mint, TokenAccount};
use crate::constraints::{
    check_associated_token, check_init_associated_token, check_release_signer, check_same,
    spec_check_associated_token, spec_check_init_associated_token, spec_check_release_address,
    spec_check_release_signer, spec_check_same, then,
};
use crate::cpi::{CreateAccount, CreateAssociatedToken, CreateMint, Request};
use crate::errors::{ErrorCode, NinaError};
use crate::instructions::release_init_v2::{
    check_vacant, initialize_token_metadata, set_release_data, spec_check_vacant, spec_create_mint,
    spec_create_release, spec_init_plan, spec_release, update_mint_balance, InitPlan, ReleaseInitV2,
};
use crate::instructions::release_purchase::{
    mint_release_token, spec_purchase_plan, transfer_payment, validate_purchase, PurchasePlan, ReleasePurchase,
};
use crate::pubkey::{lemma_pubkey_ext, Pubkey};
use crate::seeds::{
    find_release_address, found_bump, is_found, spec_find_release_address, spec_find_release_signer,
};
use crate::state::release::{ReleaseV2, RELEASE_SPACE};
use crate::utils::{check_delegated_payer, payer_allowed};

verus! {

/// The accounts of opening a release and buying its first unit.
#[derive(Clone, Copy, Debug, PartialEq, Eq)]
pub struct ReleaseInitAndPurchase {
    /// Who funds the operation.
    pub payer: Pubkey,
    /// Who pays the price and receives the unit.
    pub receiver: Pubkey,
    /// Who will own the release.
    pub authority: Pubkey,
    /// The record of the release; it holds nothing before the release is
    /// opened.
    pub release: Account<Option<ReleaseV2>>,
    pub release_signer: Pubkey,
    /// The mint that is created for the release.
    pub mint: Pubkey,
    pub payment_mint: Pubkey,
    /// The account that the price is taken from.
    pub payment_token_account: Account<TokenAccount>,
    /// The account that the price is credited to.
    pub royalty_token_account: Account<TokenAccount>,
    /// The account of the receiver that the unit is issued into; it holds
    /// nothing where it does not exist yet.
    pub receiver_release_token_account: Account<Option<TokenAccount>>,
    pub system_program: Pubkey,
    pub associated_token_program: Pubkey,
    pub token_program: Pubkey,
    pub token_2022_program: Pubkey,
}

/// What opening a release and buying its first unit asks for, in this order.
#[derive(Clone, Debug, PartialEq, Eq)]
pub struct InitAndPurchasePlan {
    pub init: InitPlan,
    pub purchase: PurchasePlan,
}

impl ReleaseInitAndPurchase {
    /// The accounts that opening the release alone is given.
    pub open spec fn init_accounts(self) -> ReleaseInitV2 {
        ReleaseInitV2 {
            payer: self.payer,
            authority: self.authority,
            release: self.release,
            mint: self.mint,
            release_signer: self.release_signer,
            payment_mint: self.payment_mint,
            royalty_token_account: self.royalty_token_account,
            system_program: self.system_program,
            associated_token_program: self.associated_token_program,
            token_program: self.token_program,
            token_2022_program: self.token_2022_program,
        }
    }

    /// The accounts that a purchase alone is given, once the release holds
    /// `release` and its mint has issued `supply` units.
    pub open spec fn purchase_accounts(self, release: ReleaseV2, supply: u64) -> ReleasePurchase {
        ReleasePurchase {
            payer: self.payer,
            receiver: self.receiver,
            release: Account { key: self.release.key, data: release },
            release_signer: self.release_signer,
            mint: Account { key: self.mint, data: Mint { supply: supply } },
            payment_mint: self.payment_mint,
            payment_token_account: self.payment_token_account,
            royalty_token_account: self.royalty_token_account,
            receiver_release_token_account: self.receiver_release_token_account,
            system_program: self.system_program,
            associated_token_program: self.associated_token_program,
            token_program: self.token_program,
            token_2022_program: self.token_2022_program,
        }
    }

    /// The accounts after the operation: the record is filled, all else is
    /// as before.
    pub open spec fn spec_opened(self, total_supply: u64, price: u64) -> ReleaseInitAndPurchase {
        ReleaseInitAndPurchase {
            release: Account {
                key: self.release.key,
                data: Some(spec_release(self.init_accounts(), total_supply, price)),
            },
            ..self
        }
    }
}

/// What the operation asks for, once it is accepted: what opening the
/// release asks for, then what the purchase of one unit at the price asks
/// for of a mint that has issued nothing.
pub open spec fn spec_init_and_purchase_plan(
    accounts: ReleaseInitAndPurchase,
    release_signer_bump: u8,
    uri: String,
    name: String,
    symbol: String,
    total_supply: u64,
    price: u64,
) -> InitAndPurchasePlan {
    InitAndPurchasePlan {
        init: spec_init_plan(accounts.init_accounts(), uri, name, symbol, release_signer_bump),
        purchase: spec_purchase_plan(
            accounts.purchase_accounts(spec_release(accounts.init_accounts(), total_supply, price), 0),
            price,
            release_signer_bump,
        ),
    }
}

/// The outcome of the operation: what is asked for and the accounts with
/// the filled record, or its rejection. The operation is judged as opening
/// the release and then buying one unit at the price: first the payer, who
/// is the authority or a delegate of the file service; then the cap, which
/// must allow one unit; then the payer again, who is the receiver or a
/// delegate for purchases.
pub open spec fn spec_handler(
    ctx: Context<ReleaseInitAndPurchase>,
    release_signer_bump: u8,
    uri: String,
    name: String,
    symbol: String,
    total_supply: u64,
    price: u64,
) -> Result<(InitAndPurchasePlan, Context<ReleaseInitAndPurchase>), NinaError> {
    if !payer_allowed(ctx.accounts.payer, ctx.accounts.authority, ctx.delegates.file_service_accounts@) {
        Err(NinaError::DelegatedPayerMismatch)
    } else if total_supply == 0 {
        Err(NinaError::ReleasePurchaseSoldOut)
    } else if !payer_allowed(ctx.accounts.payer, ctx.accounts.receiver, ctx.delegates.id_accounts@) {
        Err(NinaError::DelegatedPayerMismatch)
    } else {
        Ok(
            (
                spec_init_and_purchase_plan(
                    ctx.accounts,
                    release_signer_bump,
                    uri,
                    name,
                    symbol,
                    total_supply,
                    price,
                ),
                Context { accounts: ctx.accounts.spec_opened(total_supply, price), ..ctx },
            ),
        )
    }
}

/// Opens a release for its authority, or for a delegate of the file service,
/// and sells its first unit at the price to the receiver.
///
/// Asks for what opening the release asks for, then for the payment of the
/// price and the issue of one unit, and fills the record. A release with a
/// cap of zero is sold out at once, and a payer who may open the release but
/// not pay for a purchase is rejected. Where the operation is rejected,
/// nothing is changed and nothing is asked for.
pub fn handler(
    ctx: &mut Context<ReleaseInitAndPurchase>,
    release_signer_bump: u8,
    uri: String,
    name: String,
    symbol: String,
    total_supply: u64,
    price: u64,
) -> (r: Result<InitAndPurchasePlan, NinaError>)
    ensures
        match spec_handler(*old(ctx), release_signer_bump, uri, name, symbol, total_supply, price) {
            Ok((plan, after)) => r == Ok::<InitAndPurchasePlan, NinaError>(plan) && *final(ctx) == after,
            Err(e) => r == Err::<InitAndPurchasePlan, NinaError>(e) && *final(ctx) == *old(ctx),
        },
{
    match check_delegated_payer(
        &ctx.accounts.payer,
        &ctx.accounts.authority,
        &ctx.delegates.file_service_accounts,
    ) {
        Ok(()) => {},
        Err(e) => {
            return Err(e);
        },
    }
    let metadata = initialize_token_metadata(
        &ctx.accounts.token_2022_program,
        &ctx.accounts.mint,
        &ctx.accounts.release,
        &ctx.accounts.release_signer,
        name,
        symbol,
        uri,
        release_signer_bump,
    );
    let balance = update_mint_balance(&ctx.accounts.mint, &ctx.accounts.payer, &ctx.accounts.system_program);
    let mut release = ctx.accounts.release;
    set_release_data(
        &mut release,
        &ctx.accounts.authority,
        &ctx.accounts.release_signer,
        &ctx.accounts.mint,
        &ctx.accounts.royalty_token_account,
        &ctx.accounts.payment_mint,
        total_supply,
        price,
    );
    let opened = Account {
        key: release.key,
        data: ReleaseV2 {
            authority: ctx.accounts.authority,
            release_signer: ctx.accounts.release_signer,
            mint: ctx.accounts.mint,
            royalty_token_account: ctx.accounts.royalty_token_account.key,
            payment_mint: ctx.accounts.payment_mint,
            total_supply,
            price,
        },
    };
    let mint = Account { key: ctx.accounts.mint, data: Mint { supply: 0 } };
    match validate_purchase(&opened, &mint, price) {
        Ok(()) => {},
        Err(e) => {
            return Err(e);
        },
    }
    match check_delegated_payer(&ctx.accounts.payer, &ctx.accounts.receiver, &ctx.delegates.id_accounts) {
        Ok(()) => {},
        Err(e) => {
            return Err(e);
        },
    }
    let payment = transfer_payment(
        &ctx.accounts.payment_token_account,
        &ctx.accounts.royalty_token_account,
        &ctx.accounts.receiver,
        &ctx.accounts.token_program,
        price,
    );
    let mint_to = mint_release_token(
        &mint,
        &ctx.accounts.receiver_release_token_account,
        &ctx.accounts.release_signer,
        &opened,
        &ctx.accounts.token_2022_program,
        release_signer_bump,
    );
    ctx.accounts.release = release;
    Ok(
        InitAndPurchasePlan {
            init: InitPlan { metadata, balance },
            purchase: PurchasePlan { payment, mint: mint_to },
        },
    )
}

/// What is created before a release is opened and its first unit is sold,
/// in this order.
#[derive(Clone, Copy, Debug, PartialEq, Eq)]
pub struct InitAndPurchaseAccounts {
    /// The account of the record.
    pub create_release: CreateAccount,
    /// The mint of the release.
    pub create_mint: CreateMint,
    /// The receiver's account for the release token, where it is missing.
    pub create_receiver_account: Option<CreateAssociatedToken>,
}

impl ReleaseInitAndPurchase {
    /// The creation of the receiver's account for the release token, asked
    /// for exactly where the account holds nothing yet.
    pub open spec fn spec_create_receiver_account(self) -> Option<CreateAssociatedToken> {
        if self.receiver_release_token_account.data is None {
            Some(
                CreateAssociatedToken {
                    program: self.associated_token_program,
                    payer: self.payer,
                    associated_token: self.receiver_release_token_account.key,
                    authority: self.receiver,
                    mint: self.mint,
                    system_program: self.system_program,
                    token_program: self.token_2022_program,
                },
            )
        } else {
            None
        }
    }

    /// The verdict on the accounts, the first failure deciding: the record
    /// is at the address derived from the mint and holds nothing yet; the
    /// receiver's account for the release token is the one that belongs to
    /// the receiver and the mint; the signer is at the address derived from
    /// the record; the payment account holds the payment currency and
    /// belongs to the receiver; the royalty account is the one that belongs
    /// to the authority and the payment mint.
    pub open spec fn spec_verdict(self, program_id: Pubkey) -> Result<(), ErrorCode> {
        then(
            spec_check_release_address(self.release.key, self.mint, program_id),
            then(
                spec_check_vacant(self.release),
                then(
                    spec_check_init_associated_token(
                        self.receiver_release_token_account,
                        self.receiver,
                        self.mint,
                        self.token_2022_program,
                    ),
                    then(
                        spec_check_release_signer(self.release_signer, self.release.key, program_id),
                        then(
                            spec_check_same(self.payment_token_account.data.mint, self.payment_mint),
                            then(
                                spec_check_same(self.payment_token_account.data.owner, self.receiver),
                                spec_check_associated_token(
                                    self.royalty_token_account,
                                    self.authority,
                                    self.payment_mint,
                                    self.token_program,
                                ),
                            ),
                        ),
                    ),
                ),
            ),
        )
    }

    /// The outcome of checking the accounts: the rejection, or what is to
    /// be created.
    pub open spec fn spec_try_accounts(self, program_id: Pubkey) -> Result<
        InitAndPurchaseAccounts,
        ErrorCode,
    > {
        match self.spec_verdict(program_id) {
            Ok(()) => Ok(
                InitAndPurchaseAccounts {
                    create_release: spec_create_release(
                        self.system_program,
                        self.payer,
                        self.release.key,
                        self.mint,
                        program_id,
                        found_bump(spec_find_release_address(self.mint, program_id)),
                    ),
                    create_mint: spec_create_mint(
                        self.token_2022_program,
                        self.system_program,
                        self.payer,
                        self.mint,
                        self.release_signer,
                    ),
                    create_receiver_account: self.spec_create_receiver_account(),
                },
            ),
            Err(e) => Err(e),
        }
    }

    /// Checks the accounts against each other, and says what is to be
    /// created.
    pub fn try_accounts(&self, program_id: &Pubkey) -> (r: Result<
        InitAndPurchaseAccounts,
        ErrorCode,
    >)
        ensures
            r == self.spec_try_accounts(*program_id),
            r is Ok ==> {
                &&& self.release.data is None
                &&& is_found(spec_find_release_signer(self.release.key, *program_id), self.release_signer)
            },
    {
        let bump = match find_release_address(&self.mint, program_id) {
            Some((address, bump)) => {
                proof {
                    lemma_pubkey_ext(address, self.release.key);
                }
                if address != self.release.key {
                    return Err(ErrorCode::ConstraintSeeds);
                }
                bump
            },
            None => {
                return Err(ErrorCode::ConstraintSeeds);
            },
        };
        match check_vacant(&self.release) {
            Ok(()) => {},
            Err(e) => {
                return Err(e);
            },
        }
        match check_init_associated_token(
            &self.receiver_release_token_account,
            &self.receiver,
            &self.mint,
            &self.token_2022_program,
        ) {
            Ok(()) => {},
            Err(e) => {
                return Err(e);
            },
        }
        match check_release_signer(&self.release_signer, &self.release.key, program_id) {
            Ok(()) => {},
            Err(e) => {
                return Err(e);
            },
        }
        match check_same(&self.payment_token_account.data.mint, &self.payment_mint) {
            Ok(()) => {},
            Err(e) => {
                return Err(e);
            },
        }
        match check_same(&self.payment_token_account.data.owner, &self.receiver) {
            Ok(()) => {},
            Err(e) => {
                return Err(e);
            },
        }
        match check_associated_token(
            &self.royalty_token_account,
            &self.authority,
            &self.payment_mint,
            &self.token_program,
        ) {
            Ok(()) => {},
            Err(e) => {
                return Err(e);
            },
        }
        let create_receiver_account = match self.receiver_release_token_account.data {
            Some(_) => None,
            None => Some(
                CreateAssociatedToken {
                    program: self.associated_token_program,
                    payer: self.payer,
                    associated_token: self.receiver_release_token_account.key,
                    authority: self.receiver,
                    mint: self.mint,
                    system_program: self.system_program,
                    token_program: self.token_2022_program,
                },
            ),
        };
        Ok(
            InitAndPurchaseAccounts {
                create_release: CreateAccount {
                    program: self.system_program,
                    payer: self.payer,
                    account: self.release.key,
                    mint: self.mint,
                    bump,
                    space: RELEASE_SPACE,
                    owner: *program_id,
                },
                create_mint: CreateMint {
                    program: self.token_2022_program,
                    system_program: self.system_program,
                    payer: self.payer,
                    mint: self.mint,
                    decimals: 0,
                    mint_authority: self.release_signer,
                    metadata_pointer_authority: self.release_signer,
                    metadata_address: self.mint,
                },
                create_receiver_account,
            },
        )
    }
}

impl InitAndPurchaseAccounts {
    /// What is created, in order: the account of the record, the mint, and
    /// the receiver's account for the release token where it is missing.
    pub open spec fn spec_requests(self) -> Seq<Request> {
        let first = seq![Request::CreateAccount(self.create_release), Request::CreateMint(self.create_mint)];
        match self.create_receiver_account {
            Some(create) => first.push(Request::CreateAssociatedToken(create)),
            None => first,
        }
    }

    /// What is created, in the order in which it is to be done.
    pub fn requests(self) -> (requests: Vec<Request>)
        ensures
            requests@ == self.spec_requests(),
    {
        let mut requests: Vec<Request> = Vec::new();
        requests.push(Request::CreateAccount(self.create_release));
        requests.push(Request::CreateMint(self.create_mint));
        proof {
            assert(requests@ =~= seq![
                Request::CreateAccount(self.create_release),
                Request::CreateMint(self.create_mint),
            ]);
        }
        match self.create_receiver_account {
            Some(create) => {
                requests.push(Request::CreateAssociatedToken(create));
            },
            None => {},
        }
        requests
    }
}

impl InitAndPurchasePlan {
    /// What the plan asks for, in order: what opening the release asks for,
    /// then what the purchase asks for.
    pub open spec fn spec_requests(self) -> Seq<Request> {
        self.init.spec_requests() + self.purchase.spec_requests()
    }

    /// What the plan asks for, in the order in which it is to be done.
    pub fn requests(self) -> (requests: Vec<Request>)
        ensures
            requests@ == self.spec_requests(),
    {
        let mut requests = self.init.requests();
        let mut rest = self.purchase.requests();
        requests.append(&mut rest);
        requests
    }
}

} // verus!
