//! What holds of a sale across its operations.

use vstd::prelude::*;
use crate::accounts::Context;
use crate::cpi::{CreateAssociatedToken, SignerSeeds};
use crate::errors::{Error, NinaError};
use crate::instructions::release_close;
use crate::instructions::release_close::ReleaseClose;
use crate::instructions::release_init_and_purchase;
use crate::instructions::release_init_and_purchase::{
    InitAndPurchaseAccounts, InitAndPurchasePlan, ReleaseInitAndPurchase,
};
use crate::instructions::release_init_v2;
use crate::instructions::release_init_v2::{spec_release, InitAccounts, InitPlan, ReleaseInitV2};
use crate::instructions::release_purchase;
use crate::instructions::release_purchase::{PurchasePlan, ReleasePurchase};
use crate::instructions::release_update;
use crate::instructions::release_update::{ReleaseUpdate, UpdatePlan};
use crate::instructions::release_update_metadata::ReleaseUpdateMetadata;
use crate::pubkey::Pubkey;
use crate::utils::payer_allowed;
use crate::{
    spec_release_close, spec_release_init_and_purchase, spec_release_init_v2, spec_release_purchase,
    spec_release_update,
};

verus! {

/// A purchase at the price while the supply issued is below the cap, paid
/// for by the receiver or a delegate, is accepted. It asks for exactly one
/// unit of the mint to be issued and for exactly the price to be credited to
/// the royalty account, and the supply then issued is still within the cap.
pub proof fn lemma_purchase_issues_one_unit(ctx: Context<ReleasePurchase>, release_signer_bump: u8)
    requires
        ctx.accounts.mint.data.supply < ctx.accounts.release.data.total_supply,
        payer_allowed(ctx.accounts.payer, ctx.accounts.receiver, ctx.delegates.id_accounts@),
    ensures
        release_purchase::spec_handler(ctx, ctx.accounts.release.data.price, release_signer_bump) matches Ok(plan)
            && plan.issued(ctx.accounts.mint.key) == 1 && plan.credited(ctx.accounts.royalty_token_account.key)
            == ctx.accounts.release.data.price && ctx.accounts.mint.data.supply + plan.issued(
            ctx.accounts.mint.key,
        ) <= ctx.accounts.release.data.total_supply,
{
}

/// A purchase at any amount but the price is rejected as a wrong amount,
/// whatever the supply, whoever pays and whatever the bump seed, and so
/// asks for nothing. Where the accounts pass, this is what the caller is
/// told.
pub proof fn lemma_wrong_amount_rejected(ctx: Context<ReleasePurchase>, amount: u64, release_signer_bump: u8)
    requires
        amount != ctx.accounts.release.data.price,
    ensures
        release_purchase::spec_handler(ctx, amount, release_signer_bump) == Err::<PurchasePlan, NinaError>(
            NinaError::ReleasePurchaseWrongAmount,
        ),
        ctx.accounts.spec_try_accounts(ctx.program_id) is Ok ==> spec_release_purchase(
            ctx,
            amount,
            release_signer_bump,
        ) == Err::<(Option<CreateAssociatedToken>, PurchasePlan), Error>(
            Error::Nina(NinaError::ReleasePurchaseWrongAmount),
        ),
{
}

/// A purchase at the price when the supply issued has reached the cap is
/// rejected as sold out, whoever pays and whatever the bump seed. Where the
/// accounts pass, this is what the caller is told.
pub proof fn lemma_sold_out_at_cap(ctx: Context<ReleasePurchase>, release_signer_bump: u8)
    requires
        ctx.accounts.mint.data.supply >= ctx.accounts.release.data.total_supply,
    ensures
        release_purchase::spec_handler(ctx, ctx.accounts.release.data.price, release_signer_bump) == Err::<
            PurchasePlan,
            NinaError,
        >(NinaError::ReleasePurchaseSoldOut),
        ctx.accounts.spec_try_accounts(ctx.program_id) is Ok ==> spec_release_purchase(
            ctx,
            ctx.accounts.release.data.price,
            release_signer_bump,
        ) == Err::<(Option<CreateAssociatedToken>, PurchasePlan), Error>(
            Error::Nina(NinaError::ReleasePurchaseSoldOut),
        ),
{
}

/// A purchase at the price below the cap, paid for by anyone but the
/// receiver or a delegate for purchases, is rejected as a payer mismatch,
/// whatever the bump seed. Where the accounts pass, this is what the caller
/// is told.
pub proof fn lemma_purchase_needs_receiver(ctx: Context<ReleasePurchase>, release_signer_bump: u8)
    requires
        ctx.accounts.mint.data.supply < ctx.accounts.release.data.total_supply,
        ctx.accounts.payer != ctx.accounts.receiver,
        !ctx.delegates.id_accounts@.contains(ctx.accounts.payer),
    ensures
        release_purchase::spec_handler(ctx, ctx.accounts.release.data.price, release_signer_bump) == Err::<
            PurchasePlan,
            NinaError,
        >(NinaError::DelegatedPayerMismatch),
        ctx.accounts.spec_try_accounts(ctx.program_id) is Ok ==> spec_release_purchase(
            ctx,
            ctx.accounts.release.data.price,
            release_signer_bump,
        ) == Err::<(Option<CreateAssociatedToken>, PurchasePlan), Error>(
            Error::Nina(NinaError::DelegatedPayerMismatch),
        ),
{
}

/// Opening a release, alone or with a first purchase, paid for by anyone but
/// the authority or a delegate of the file service is rejected as a payer
/// mismatch, whatever the bump seed. Where the accounts pass, this is what
/// the caller is told.
pub proof fn lemma_init_needs_authority(
    opening: Context<ReleaseInitV2>,
    both: Context<ReleaseInitAndPurchase>,
    uri: String,
    name: String,
    symbol: String,
    total_supply: u64,
    price: u64,
    release_signer_bump: u8,
)
    ensures
        !payer_allowed(opening.accounts.payer, opening.accounts.authority, opening.delegates.file_service_accounts@)
            ==> {
            &&& release_init_v2::spec_handler(opening, uri, name, symbol, total_supply, price, release_signer_bump)
                == Err::<(InitPlan, Context<ReleaseInitV2>), NinaError>(NinaError::DelegatedPayerMismatch)
            &&& opening.accounts.spec_try_accounts(opening.program_id) is Ok ==> spec_release_init_v2(
                opening,
                uri,
                name,
                symbol,
                total_supply,
                price,
                release_signer_bump,
            ) == Err::<((InitAccounts, InitPlan), Context<ReleaseInitV2>), Error>(
                Error::Nina(NinaError::DelegatedPayerMismatch),
            )
        },
        !payer_allowed(both.accounts.payer, both.accounts.authority, both.delegates.file_service_accounts@) ==> {
            &&& release_init_and_purchase::spec_handler(
                both,
                release_signer_bump,
                uri,
                name,
                symbol,
                total_supply,
                price,
            ) == Err::<(InitAndPurchasePlan, Context<ReleaseInitAndPurchase>), NinaError>(
                NinaError::DelegatedPayerMismatch,
            )
            &&& both.accounts.spec_try_accounts(both.program_id) is Ok ==> spec_release_init_and_purchase(
                both,
                release_signer_bump,
                uri,
                name,
                symbol,
                total_supply,
                price,
            ) == Err::<
                ((InitAndPurchaseAccounts, InitAndPurchasePlan), Context<ReleaseInitAndPurchase>),
                Error,
            >(Error::Nina(NinaError::DelegatedPayerMismatch))
        },
{
}

/// Opening a release with a first purchase, with a cap that allows one unit
/// and paid for by one who may open the release but is neither the receiver
/// nor a delegate for purchases, is rejected as a payer mismatch, as the
/// purchase alone would be. Where the accounts pass, this is what the caller
/// is told.
pub proof fn lemma_first_purchase_needs_receiver(
    ctx: Context<ReleaseInitAndPurchase>,
    release_signer_bump: u8,
    uri: String,
    name: String,
    symbol: String,
    total_supply: u64,
    price: u64,
)
    requires
        payer_allowed(ctx.accounts.payer, ctx.accounts.authority, ctx.delegates.file_service_accounts@),
        total_supply > 0,
        ctx.accounts.payer != ctx.accounts.receiver,
        !ctx.delegates.id_accounts@.contains(ctx.accounts.payer),
    ensures
        release_init_and_purchase::spec_handler(ctx, release_signer_bump, uri, name, symbol, total_supply, price)
            == Err::<(InitAndPurchasePlan, Context<ReleaseInitAndPurchase>), NinaError>(
            NinaError::DelegatedPayerMismatch,
        ),
        ctx.accounts.spec_try_accounts(ctx.program_id) is Ok ==> spec_release_init_and_purchase(
            ctx,
            release_signer_bump,
            uri,
            name,
            symbol,
            total_supply,
            price,
        ) == Err::<((InitAndPurchaseAccounts, InitAndPurchasePlan), Context<ReleaseInitAndPurchase>), Error>(
            Error::Nina(NinaError::DelegatedPayerMismatch),
        ),
{
}

/// An update paid for by anyone but the authority of the release or a
/// delegate of the file service is rejected as a payer mismatch, whatever
/// the bump seed. Where the accounts pass, this is what the caller is told.
pub proof fn lemma_update_needs_authority(
    ctx: Context<ReleaseUpdate>,
    uri: String,
    name: String,
    symbol: String,
    release_signer_bump: u8,
    price: u64,
    total_supply: u64,
)
    requires
        ctx.accounts.payer != ctx.accounts.release.data.authority,
        !ctx.delegates.file_service_accounts@.contains(ctx.accounts.payer),
    ensures
        release_update::spec_handler(ctx, uri, name, symbol, release_signer_bump, price, total_supply) == Err::<
            (UpdatePlan, Context<ReleaseUpdate>),
            NinaError,
        >(NinaError::DelegatedPayerMismatch),
        ctx.accounts.spec_try_accounts(ctx.program_id) is Ok ==> spec_release_update(
            ctx,
            uri,
            name,
            symbol,
            release_signer_bump,
            price,
            total_supply,
        ) == Err::<(UpdatePlan, Context<ReleaseUpdate>), Error>(Error::Nina(NinaError::DelegatedPayerMismatch)),
{
}

/// A close paid for by anyone but the authority of the release or a delegate
/// of the file service is rejected as a payer mismatch. Where the accounts
/// pass, this is what the caller is told.
pub proof fn lemma_close_needs_authority(ctx: Context<ReleaseClose>)
    requires
        ctx.accounts.payer != ctx.accounts.release.data.authority,
        !ctx.delegates.file_service_accounts@.contains(ctx.accounts.payer),
    ensures
        release_close::spec_handler(ctx) == Err::<Context<ReleaseClose>, NinaError>(
            NinaError::DelegatedPayerMismatch,
        ),
        ctx.accounts.spec_try_accounts(ctx.program_id) is Ok ==> spec_release_close(ctx) == Err::<
            Context<ReleaseClose>,
            Error,
        >(Error::Nina(NinaError::DelegatedPayerMismatch)),
{
}

/// Closing sets the cap to the supply issued at that time and leaves the
/// rest of the record alone. No later purchase of the closed release is
/// accepted as long as the supply issued has not gone down, whatever the
/// bump seed, and one at the price is rejected as sold out. Where the
/// accounts of the later purchase pass, this is what the caller is told.
pub proof fn lemma_close_ends_sale(
    ctx: Context<ReleaseClose>,
    later: Context<ReleasePurchase>,
    amount: u64,
    release_signer_bump: u8,
)
    requires
        release_close::spec_handler(ctx) matches Ok(after) && later.accounts.release == after.accounts.release,
        later.accounts.mint.data.supply >= ctx.accounts.mint.data.supply,
    ensures
        release_close::spec_handler(ctx) matches Ok(after) && after.accounts.release.data
            == release_close::closed(ctx.accounts.release.data, ctx.accounts.mint.data.supply)
            && after.accounts.release.data.total_supply == ctx.accounts.mint.data.supply,
        release_purchase::spec_handler(later, amount, release_signer_bump) is Err,
        spec_release_purchase(later, amount, release_signer_bump) is Err,
        amount == later.accounts.release.data.price ==> release_purchase::spec_handler(
            later,
            amount,
            release_signer_bump,
        ) == Err::<PurchasePlan, NinaError>(NinaError::ReleasePurchaseSoldOut),
        amount == later.accounts.release.data.price && later.accounts.spec_try_accounts(later.program_id) is Ok
            ==> spec_release_purchase(later, amount, release_signer_bump) == Err::<
            (Option<CreateAssociatedToken>, PurchasePlan),
            Error,
        >(Error::Nina(NinaError::ReleasePurchaseSoldOut)),
{
}

/// The identities of a release are set when it is opened and never change:
/// an update and a close leave the authority, the signer, the mint, the
/// royalty account and the payment mint of the record as they were, and the
/// record at its address. An update writes the price and the cap it is
/// given; a close leaves the price alone.
pub proof fn lemma_identities_never_change(
    updating: Context<ReleaseUpdate>,
    closing: Context<ReleaseClose>,
    uri: String,
    name: String,
    symbol: String,
    release_signer_bump: u8,
    price: u64,
    total_supply: u64,
)
    ensures
        release_update::spec_handler(updating, uri, name, symbol, release_signer_bump, price, total_supply)
            matches Ok((_, after)) ==> {
            let before = updating.accounts.release;
            let record = after.accounts.release;
            &&& record.key == before.key
            &&& record.data.authority == before.data.authority
            &&& record.data.release_signer == before.data.release_signer
            &&& record.data.mint == before.data.mint
            &&& record.data.royalty_token_account == before.data.royalty_token_account
            &&& record.data.payment_mint == before.data.payment_mint
            &&& record.data.price == price
            &&& record.data.total_supply == total_supply
        },
        release_close::spec_handler(closing) matches Ok(after) ==> {
            let before = closing.accounts.release;
            let record = after.accounts.release;
            &&& record.key == before.key
            &&& record.data.authority == before.data.authority
            &&& record.data.release_signer == before.data.release_signer
            &&& record.data.mint == before.data.mint
            &&& record.data.royalty_token_account == before.data.royalty_token_account
            &&& record.data.payment_mint == before.data.payment_mint
            &&& record.data.price == before.data.price
        },
{
}

/// The address that signs for a release is re-derived in every operation
/// that signs: an operation is accepted only where the record's address and
/// the bump seed given derive the signer among the accounts, which for an
/// existing release is the signer that the record names. A bump seed that
/// derives another address, or none, has the operation rejected, so that
/// nothing is asked for under it.
pub proof fn lemma_signer_is_rederived(
    release_signer_bump: u8,
    uri: String,
    name: String,
    symbol: String,
    total_supply: u64,
    price: u64,
    amount: u64,
    opening: Context<ReleaseInitV2>,
    purchase: Context<ReleasePurchase>,
    both: Context<ReleaseInitAndPurchase>,
    update: Context<ReleaseUpdate>,
    metadata: ReleaseUpdateMetadata,
    program_id: Pubkey,
)
    ensures
        spec_release_init_v2(opening, uri, name, symbol, total_supply, price, release_signer_bump) is Ok ==> (
        SignerSeeds { release: opening.accounts.release.key, bump: release_signer_bump }).spec_derive(
            opening.program_id,
        ) == Some(opening.accounts.release_signer@),
        spec_release_purchase(purchase, amount, release_signer_bump) is Ok ==> (SignerSeeds {
            release: purchase.accounts.release.key,
            bump: release_signer_bump,
        }).spec_derive(purchase.program_id) == Some(purchase.accounts.release_signer@),
        spec_release_init_and_purchase(both, release_signer_bump, uri, name, symbol, total_supply, price) is Ok
            ==> (SignerSeeds { release: both.accounts.release.key, bump: release_signer_bump }).spec_derive(
            both.program_id,
        ) == Some(both.accounts.release_signer@),
        spec_release_update(update, uri, name, symbol, release_signer_bump, price, total_supply) is Ok ==> (
        SignerSeeds { release: update.accounts.release.key, bump: release_signer_bump }).spec_derive(
            update.program_id,
        ) == Some(update.accounts.release.data.release_signer@),
        metadata.spec_try_accounts(program_id, release_signer_bump) is Ok ==> (SignerSeeds {
            release: metadata.release.key,
            bump: release_signer_bump,
        }).spec_derive(program_id) == Some(metadata.release.data.release_signer@),
{
}

/// Opening a release and selling its first unit in one operation is judged
/// as opening it and then selling one unit at the price from a mint that has
/// issued nothing. Where the opening alone is rejected, or the purchase
/// after it, the one operation is rejected with the same error. Where both
/// are accepted, the one operation asks for the same in the same order and
/// leaves the same record behind.
///
/// Where the purchase is rejected the one operation changes nothing, while
/// the opening alone, once done, has left the record behind.
pub proof fn lemma_init_and_purchase_is_init_then_purchase(
    ctx: Context<ReleaseInitAndPurchase>,
    release_signer_bump: u8,
    uri: String,
    name: String,
    symbol: String,
    total_supply: u64,
    price: u64,
)
    ensures
        ({
            let opening = Context {
                program_id: ctx.program_id,
                accounts: ctx.accounts.init_accounts(),
                delegates: ctx.delegates,
            };
            let record = spec_release(opening.accounts, total_supply, price);
            let buying = Context {
                program_id: ctx.program_id,
                accounts: ctx.accounts.purchase_accounts(record, 0),
                delegates: ctx.delegates,
            };
            let combined = release_init_and_purchase::spec_handler(
                ctx,
                release_signer_bump,
                uri,
                name,
                symbol,
                total_supply,
                price,
            );
            match release_init_v2::spec_handler(
                opening,
                uri,
                name,
                symbol,
                total_supply,
                price,
                release_signer_bump,
            ) {
                Err(e) => combined == Err::<(InitAndPurchasePlan, Context<ReleaseInitAndPurchase>), NinaError>(e),
                Ok((init, opened)) => opened.accounts.release.data == Some(record)
                    && match release_purchase::spec_handler(buying, price, release_signer_bump) {
                    Err(e) => combined == Err::<(InitAndPurchasePlan, Context<ReleaseInitAndPurchase>), NinaError>(
                        e,
                    ),
                    Ok(purchase) => {
                        &&& combined matches Ok((plan, after))
                        &&& plan == (InitAndPurchasePlan { init: init, purchase: purchase })
                        &&& plan.spec_requests() == init.spec_requests() + purchase.spec_requests()
                        &&& after.accounts.release == opened.accounts.release
                        &&& after.accounts.init_accounts() == opened.accounts
                    },
                },
            }
        }),
{
}

} // verus!
