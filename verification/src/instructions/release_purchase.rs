//! Buying one unit of a release.

use vstd::prelude::*;
use crate::accounts::{Account, Context, Mint, TokenAccount};
use crate::constraints::{
    check_init_associated_token, check_release_address, check_release_signer, check_same,
    spec_check_init_associated_token, spec_check_release_address, spec_check_release_signer, spec_check_same, then,
};
use crate::cpi::{CreateAssociatedToken, MintTo, Request, SignerSeeds, Transfer};
use crate::errors::{ErrorCode, NinaError};
use crate::pubkey::Pubkey;
use crate::seeds::{is_found, spec_find_release_signer};
use crate::state::release::ReleaseV2;
use crate::utils::{check_delegated_payer, payer_allowed};

verus! {

/// The whole that a share of a payment is a part of.
pub const BASIS_POINTS: u64 = 1_000_000;

/// The payment above which the forwarded share is a part of the payment, and
/// the share that is forwarded of a payment up to it.
pub const ONE_USDC: u64 = 10_000_000;

/// The part of a payment that is forwarded, out of `BASIS_POINTS`.
pub const TEN_PERCENT: u64 = 100_000;

/// The accounts of a purchase.
#[derive(Clone, Copy, Debug, PartialEq, Eq)]
pub struct ReleasePurchase {
    /// Who funds the operation.
    pub payer: Pubkey,
    /// Who pays the price and receives the unit.
    pub receiver: Pubkey,
    pub release: Account<ReleaseV2>,
    pub release_signer: Pubkey,
    /// The mint of the release, with the supply issued so far.
    pub mint: Account<Mint>,
    pub payment_mint: Pubkey,
    /// The account that the price is taken from.
    pub payment_token_account: Account<TokenAccount>,
    /// The account that the price is credited to.
    pub royalty_token_account: Account<TokenAccount>,
    /// The account of the receiver that the unit is issued into; it holds
    /// nothing where it does not exist yet.
    pub receiver_release_token_account: Account<Option<TokenAccount>>,
    pub system_program: Pubkey,
    pub associated_token_program: Pubkey,
    pub token_program: Pubkey,
    pub token_2022_program: Pubkey,
}

/// What a purchase asks for, in this order.
#[derive(Clone, Copy, Debug, PartialEq, Eq)]
pub struct PurchasePlan {
    /// The payment of the price.
    pub payment: Transfer,
    /// The issue of the unit.
    pub mint: MintTo,
}

impl PurchasePlan {
    /// The units of `mint` that the plan asks to issue.
    pub open spec fn issued(self, mint: Pubkey) -> nat {
        if self.mint.mint == mint {
            self.mint.amount as nat
        } else {
            0
        }
    }

    /// The payment that the plan asks to credit to `account`.
    pub open spec fn credited(self, account: Pubkey) -> nat {
        if self.payment.to == account {
            self.payment.amount as nat
        } else {
            0
        }
    }
}

/// The verdict on a payment of `amount` for a release whose mint has issued
/// `supply` units: the amount is judged first, then the supply.
pub open spec fn spec_validate_purchase(release: ReleaseV2, supply: u64, amount: u64) -> Result<(), NinaError> {
    if amount != release.price {
        Err(NinaError::ReleasePurchaseWrongAmount)
    } else if supply >= release.total_supply {
        Err(NinaError::ReleasePurchaseSoldOut)
    } else {
        Ok(())
    }
}

/// Accepts a payment that is exactly the price while the supply issued is
/// below the cap.
pub fn validate_purchase(release: &Account<ReleaseV2>, mint: &Account<Mint>, amount: u64) -> (r: Result<
    (),
    NinaError,
>)
    ensures
        r == spec_validate_purchase(release.data, mint.data.supply, amount),
        amount != release.data.price ==> r == Err::<(), NinaError>(NinaError::ReleasePurchaseWrongAmount),
        amount == release.data.price && mint.data.supply >= release.data.total_supply ==> r == Err::<
            (),
            NinaError,
        >(NinaError::ReleasePurchaseSoldOut),
        amount == release.data.price && mint.data.supply < release.data.total_supply ==> r == Ok::<
            (),
            NinaError,
        >(()),
{
    if amount != release.data.price {
        return Err(NinaError::ReleasePurchaseWrongAmount);
    }
    if mint.data.supply >= release.data.total_supply {
        return Err(NinaError::ReleasePurchaseSoldOut);
    }
    Ok(())
}

/// The payment of `amount` from the buyer's account to the royalty account,
/// allowed by the buyer.
pub fn transfer_payment(
    payment_token_account: &Account<TokenAccount>,
    royalty_token_account: &Account<TokenAccount>,
    payer: &Pubkey,
    token_program: &Pubkey,
    amount: u64,
) -> (transfer: Transfer)
    ensures
        transfer == (Transfer {
            program: *token_program,
            from: payment_token_account.key,
            to: royalty_token_account.key,
            authority: *payer,
            amount: amount,
        }),
{
    Transfer {
        program: *token_program,
        from: payment_token_account.key,
        to: royalty_token_account.key,
        authority: *payer,
        amount,
    }
}

/// The issue of exactly one unit of the release into the receiver's account,
/// signed by the signer of the release with the given bump.
pub fn mint_release_token(
    mint: &Account<Mint>,
    receiver_release_token_account: &Account<Option<TokenAccount>>,
    release_signer: &Pubkey,
    release: &Account<ReleaseV2>,
    token_2022_program: &Pubkey,
    release_signer_bump: u8,
) -> (mint_to: MintTo)
    ensures
        mint_to == (MintTo {
            program: *token_2022_program,
            mint: mint.key,
            to: receiver_release_token_account.key,
            authority: *release_signer,
            signer_seeds: SignerSeeds { release: release.key, bump: release_signer_bump },
            amount: 1,
        }),
{
    MintTo {
        program: *token_2022_program,
        mint: mint.key,
        to: receiver_release_token_account.key,
        authority: *release_signer,
        signer_seeds: SignerSeeds { release: release.key, bump: release_signer_bump },
        amount: 1,
    }
}

/// The share of a payment that is forwarded to the reward pool: a tenth of a
/// payment above `ONE_USDC`, rounded down, and `ONE_USDC` of any other.
pub open spec fn spec_crs_amount(amount: u64) -> int {
    if amount > ONE_USDC {
        (amount * TEN_PERCENT) / (BASIS_POINTS as int)
    } else {
        ONE_USDC as int
    }
}

/// The forwarding of the reward pool's share of a payment from the buyer's
/// account, allowed by the receiver. No purchase asks for it as yet.
///
/// Fails where the payment times `TEN_PERCENT` does not fit in 64 bits.
pub fn transfer_crs(
    payment_token_account: &Account<TokenAccount>,
    crs_token_account: &Account<TokenAccount>,
    receiver: &Pubkey,
    token_program: &Pubkey,
    amount: u64,
) -> (r: Result<Transfer, NinaError>)
    ensures
        amount > ONE_USDC && amount * TEN_PERCENT > u64::MAX ==> r == Err::<Transfer, NinaError>(
            NinaError::ArithmeticError,
        ),
        !(amount > ONE_USDC && amount * TEN_PERCENT > u64::MAX) ==> r == Ok::<Transfer, NinaError>(
            Transfer {
                program: *token_program,
                from: payment_token_account.key,
                to: crs_token_account.key,
                authority: *receiver,
                amount: spec_crs_amount(amount) as u64,
            },
        ) && 0 <= spec_crs_amount(amount) <= u64::MAX,
{
    let mut crs_amount: u64 = ONE_USDC;
    if amount > ONE_USDC {
        let scaled: u64 = match amount.checked_mul(TEN_PERCENT) {
            Some(scaled) => scaled,
            None => {
                return Err(NinaError::ArithmeticError);
            },
        };
        crs_amount = match scaled.checked_div(BASIS_POINTS) {
            Some(share) => share,
            None => {
                return Err(NinaError::ArithmeticError);
            },
        };
    }
    Ok(
        Transfer {
            program: *token_program,
            from: payment_token_account.key,
            to: crs_token_account.key,
            authority: *receiver,
            amount: crs_amount,
        },
    )
}

/// What a purchase of `amount` asks for, once it is accepted.
pub open spec fn spec_purchase_plan(accounts: ReleasePurchase, amount: u64, release_signer_bump: u8) -> PurchasePlan {
    PurchasePlan {
        payment: Transfer {
            program: accounts.token_program,
            from: accounts.payment_token_account.key,
            to: accounts.royalty_token_account.key,
            authority: accounts.receiver,
            amount: amount,
        },
        mint: MintTo {
            program: accounts.token_2022_program,
            mint: accounts.mint.key,
            to: accounts.receiver_release_token_account.key,
            authority: accounts.release_signer,
            signer_seeds: SignerSeeds { release: accounts.release.key, bump: release_signer_bump },
            amount: 1,
        },
    }
}

/// The outcome of a purchase: the amount is judged first, then the supply,
/// then the payer, who is the receiver or a delegate for purchases.
pub open spec fn spec_handler(ctx: Context<ReleasePurchase>, amount: u64, release_signer_bump: u8) -> Result<
    PurchasePlan,
    NinaError,
> {
    let accounts = ctx.accounts;
    if amount != accounts.release.data.price {
        Err(NinaError::ReleasePurchaseWrongAmount)
    } else if accounts.mint.data.supply >= accounts.release.data.total_supply {
        Err(NinaError::ReleasePurchaseSoldOut)
    } else if !payer_allowed(accounts.payer, accounts.receiver, ctx.delegates.id_accounts@) {
        Err(NinaError::DelegatedPayerMismatch)
    } else {
        Ok(spec_purchase_plan(accounts, amount, release_signer_bump))
    }
}

/// Sells one unit of the release for exactly its price while the supply
/// issued is below the cap.
///
/// An accepted purchase asks for the payment of the price from the receiver
/// to the royalty account, and then for the issue of one unit to the
/// receiver. A rejected purchase asks for nothing.
pub fn handler(ctx: &Context<ReleasePurchase>, amount: u64, release_signer_bump: u8) -> (r: Result<
    PurchasePlan,
    NinaError,
>)
    ensures
        r == spec_handler(*ctx, amount, release_signer_bump),
        amount != ctx.accounts.release.data.price ==> r == Err::<PurchasePlan, NinaError>(
            NinaError::ReleasePurchaseWrongAmount,
        ),
        amount == ctx.accounts.release.data.price && ctx.accounts.mint.data.supply
            >= ctx.accounts.release.data.total_supply ==> r == Err::<PurchasePlan, NinaError>(
            NinaError::ReleasePurchaseSoldOut,
        ),
        r matches Ok(plan) ==> {
            &&& amount == ctx.accounts.release.data.price
            &&& ctx.accounts.mint.data.supply < ctx.accounts.release.data.total_supply
            &&& plan.issued(ctx.accounts.mint.key) == 1
            &&& plan.credited(ctx.accounts.royalty_token_account.key) == ctx.accounts.release.data.price
        },
{
    match validate_purchase(&ctx.accounts.release, &ctx.accounts.mint, amount) {
        Ok(()) => {},
        Err(e) => {
            return Err(e);
        },
    }
    match check_delegated_payer(&ctx.accounts.payer, &ctx.accounts.receiver, &ctx.delegates.id_accounts) {
        Ok(()) => {},
        Err(e) => {
            return Err(e);
        },
    }
    let payment = transfer_payment(
        &ctx.accounts.payment_token_account,
        &ctx.accounts.royalty_token_account,
        &ctx.accounts.receiver,
        &ctx.accounts.token_program,
        amount,
    );
    let mint = mint_release_token(
        &ctx.accounts.mint,
        &ctx.accounts.receiver_release_token_account,
        &ctx.accounts.release_signer,
        &ctx.accounts.release,
        &ctx.accounts.token_2022_program,
        release_signer_bump,
    );
    Ok(PurchasePlan { payment, mint })
}

impl ReleasePurchase {
    /// The creation of the receiver's account for the release token, asked
    /// for exactly where the account holds nothing yet.
    pub open spec fn spec_create_receiver_account(self) -> Option<CreateAssociatedToken> {
        if self.receiver_release_token_account.data is None {
            Some(
                CreateAssociatedToken {
                    program: self.associated_token_program,
                    payer: self.payer,
                    associated_token: self.receiver_release_token_account.key,
                    authority: self.receiver,
                    mint: self.mint.key,
                    system_program: self.system_program,
                    token_program: self.token_2022_program,
                },
            )
        } else {
            None
        }
    }

    /// The verdict on the accounts, the first failure deciding:
    /// the receiver's account for the release token is the one that belongs
    /// to the receiver and the mint; the record is at the address derived
    /// from the mint and the signer at the address derived from the record;
    /// the mint and the payment mint are those of the record; the payment
    /// account holds the payment currency and belongs to the receiver; the
    /// royalty account is that of the record and holds the payment currency.
    pub open spec fn spec_verdict(self, program_id: Pubkey) -> Result<(), ErrorCode> {
        then(
            spec_check_init_associated_token(
                self.receiver_release_token_account,
                self.receiver,
                self.mint.key,
                self.token_2022_program,
            ),
            then(
                spec_check_release_address(self.release.key, self.mint.key, program_id),
                then(
                    spec_check_release_signer(self.release_signer, self.release.key, program_id),
                    then(
                        spec_check_same(self.mint.key, self.release.data.mint),
                        then(
                            spec_check_same(self.payment_mint, self.release.data.payment_mint),
                            then(
                                spec_check_same(
                                    self.payment_token_account.data.mint,
                                    self.release.data.payment_mint,
                                ),
                                then(
                                    spec_check_same(self.payment_token_account.data.owner, self.receiver),
                                    then(
                                        spec_check_same(
                                            self.royalty_token_account.key,
                                            self.release.data.royalty_token_account,
                                        ),
                                        spec_check_same(
                                            self.royalty_token_account.data.mint,
                                            self.release.data.payment_mint,
                                        ),
                                    ),
                                ),
                            ),
                        ),
                    ),
                ),
            ),
        )
    }

    /// The outcome of checking the accounts: the rejection, or the creation
    /// of the receiver's account where it is missing.
    pub open spec fn spec_try_accounts(self, program_id: Pubkey) -> Result<
        Option<CreateAssociatedToken>,
        ErrorCode,
    > {
        match self.spec_verdict(program_id) {
            Ok(()) => Ok(self.spec_create_receiver_account()),
            Err(e) => Err(e),
        }
    }

    /// Checks the accounts against each other, and says whether the
    /// receiver's account for the release token is to be created first.
    pub fn try_accounts(&self, program_id: &Pubkey) -> (r: Result<
        Option<CreateAssociatedToken>,
        ErrorCode,
    >)
        ensures
            r == self.spec_try_accounts(*program_id),
            r is Ok ==> {
                &&& self.mint.key == self.release.data.mint
                &&& self.royalty_token_account.key == self.release.data.royalty_token_account
                &&& is_found(spec_find_release_signer(self.release.key, *program_id), self.release_signer)
            },
    {
        match check_init_associated_token(
            &self.receiver_release_token_account,
            &self.receiver,
            &self.mint.key,
            &self.token_2022_program,
        ) {
            Ok(()) => {},
            Err(e) => {
                return Err(e);
            },
        }
        match check_release_address(&self.release.key, &self.mint.key, program_id) {
            Ok(()) => {},
            Err(e) => {
                return Err(e);
            },
        }
        match check_release_signer(&self.release_signer, &self.release.key, program_id) {
            Ok(()) => {},
            Err(e) => {
                return Err(e);
            },
        }
        match check_same(&self.mint.key, &self.release.data.mint) {
            Ok(()) => {},
            Err(e) => {
                return Err(e);
            },
        }
        match check_same(&self.payment_mint, &self.release.data.payment_mint) {
            Ok(()) => {},
            Err(e) => {
                return Err(e);
            },
        }
        match check_same(&self.payment_token_account.data.mint, &self.release.data.payment_mint) {
            Ok(()) => {},
            Err(e) => {
                return Err(e);
            },
        }
        match check_same(&self.payment_token_account.data.owner, &self.receiver) {
            Ok(()) => {},
            Err(e) => {
                return Err(e);
            },
        }
        match check_same(&self.royalty_token_account.key, &self.release.data.royalty_token_account) {
            Ok(()) => {},
            Err(e) => {
                return Err(e);
            },
        }
        match check_same(&self.royalty_token_account.data.mint, &self.release.data.payment_mint) {
            Ok(()) => {},
            Err(e) => {
                return Err(e);
            },
        }
        match self.receiver_release_token_account.data {
            Some(_) => Ok(None),
            None => Ok(
                Some(
                    CreateAssociatedToken {
                        program: self.associated_token_program,
                        payer: self.payer,
                        associated_token: self.receiver_release_token_account.key,
                        authority: self.receiver,
                        mint: self.mint.key,
                        system_program: self.system_program,
                        token_program: self.token_2022_program,
                    },
                ),
            ),
        }
    }
}

impl PurchasePlan {
    /// What the plan asks for, in order: the payment, then the issue.
    pub open spec fn spec_requests(self) -> Seq<Request> {
        seq![Request::Transfer(self.payment), Request::MintTo(self.mint)]
    }

    /// What the plan asks for, in the order in which it is to be done.
    pub fn requests(self) -> (requests: Vec<Request>)
        ensures
            requests@ == self.spec_requests(),
    {
        let mut requests: Vec<Request> = Vec::new();
        requests.push(Request::Transfer(self.payment));
        requests.push(Request::MintTo(self.mint));
        proof {
            assert(requests@ =~= self.spec_requests());
        }
        requests
    }
}

} // verus!
