//! Verified core of a capped-edition release sale.
//!
//! A release is a token with a price and a cap. Its record names who owns
//! it, which mint stands for it, where payments go and what a unit costs.
//! Each operation on a release is a function from the accounts it is given,
//! as plain values, to what it asks of the token programs and to the record
//! it leaves behind. Nothing here talks to the ledger: whoever runs an
//! operation makes the calls it asks for, in order, and gives up the whole
//! operation when one of them fails.

pub mod accounts;
pub mod constraints;
pub mod cpi;
pub mod errors;
pub mod instructions;
pub mod pubkey;
pub mod sale;
pub mod seeds;
pub mod state;
pub mod utils;

use vstd::prelude::*;
use crate::accounts::Context;
use crate::constraints::{check_signer_seeds, spec_check_signer_seeds};
use crate::cpi::{CreateAssociatedToken, Request};
use crate::errors::Error;
use crate::instructions::release_close::ReleaseClose;
use crate::instructions::release_init_and_purchase::{
    InitAndPurchaseAccounts, InitAndPurchasePlan, ReleaseInitAndPurchase,
};
use crate::instructions::release_init_v2::{InitAccounts, InitPlan, ReleaseInitV2};
use crate::instructions::release_purchase::{PurchasePlan, ReleasePurchase};
use crate::instructions::release_update::{ReleaseUpdate, UpdatePlan};

verus! {

/// The outcome of opening a release, judged in this order: the accounts
/// among themselves; the payer; the bump seed, which must derive the signer
/// from the record. An accepted opening gives what is to be created, what is
/// asked for after it, and the accounts with the filled record.
pub open spec fn spec_release_init_v2(
    ctx: Context<ReleaseInitV2>,
    uri: String,
    name: String,
    symbol: String,
    total_supply: u64,
    price: u64,
    release_signer_bump: u8,
) -> Result<((InitAccounts, InitPlan), Context<ReleaseInitV2>), Error> {
    match ctx.accounts.spec_try_accounts(ctx.program_id) {
        Err(code) => Err(Error::Accounts(code)),
        Ok(created) => match instructions::release_init_v2::spec_handler(
            ctx,
            uri,
            name,
            symbol,
            total_supply,
            price,
            release_signer_bump,
        ) {
            Err(e) => Err(Error::Nina(e)),
            Ok((plan, after)) => match spec_check_signer_seeds(
                ctx.accounts.release.key,
                release_signer_bump,
                ctx.accounts.release_signer,
                ctx.program_id,
            ) {
                Err(code) => Err(Error::Accounts(code)),
                Ok(()) => Ok(((created, plan), after)),
            },
        },
    }
}

/// Opens a release: checks the accounts, runs the operation, and checks that
/// the bump seed derives the signer that the operation signs with.
///
/// Returns what is to be created and what the operation asks for after it.
/// Where the opening is rejected, nothing is changed.
pub fn release_init_v2(
    ctx: &mut Context<ReleaseInitV2>,
    uri: String,
    name: String,
    symbol: String,
    total_supply: u64,
    price: u64,
    release_signer_bump: u8,
) -> (r: Result<(InitAccounts, InitPlan), Error>)
    ensures
        match spec_release_init_v2(*old(ctx), uri, name, symbol, total_supply, price, release_signer_bump) {
            Ok((accepted, after)) => r == Ok::<(InitAccounts, InitPlan), Error>(accepted) && *final(ctx) == after,
            Err(e) => r == Err::<(InitAccounts, InitPlan), Error>(e) && *final(ctx) == *old(ctx),
        },
        r matches Ok((_, plan)) ==> {
            &&& plan.metadata.signer_seeds.spec_verify(plan.metadata.update_authority, old(ctx).program_id)
            &&& final(ctx).accounts.release.data matches Some(record)
            &&& plan.metadata.update_authority == record.release_signer
        },
{
    let created = match ctx.accounts.try_accounts(&ctx.program_id) {
        Ok(created) => created,
        Err(code) => {
            return Err(Error::Accounts(code));
        },
    };
    let before = ctx.accounts;
    let plan = match instructions::release_init_v2::handler(
        ctx,
        uri,
        name,
        symbol,
        total_supply,
        price,
        release_signer_bump,
    ) {
        Ok(plan) => plan,
        Err(e) => {
            return Err(Error::Nina(e));
        },
    };
    match check_signer_seeds(&before.release.key, release_signer_bump, &before.release_signer, &ctx.program_id) {
        Ok(()) => Ok((created, plan)),
        Err(code) => {
            ctx.accounts = before;
            Err(Error::Accounts(code))
        },
    }
}

/// The outcome of a purchase, judged in this order: the accounts among
/// themselves; the amount, the supply and the payer; the bump seed, which
/// must derive the signer from the record. An accepted purchase gives the
/// creation of the receiver's account where it is missing, and what is
/// asked for after it.
pub open spec fn spec_release_purchase(ctx: Context<ReleasePurchase>, amount: u64, release_signer_bump: u8) -> Result<
    (Option<CreateAssociatedToken>, PurchasePlan),
    Error,
> {
    match ctx.accounts.spec_try_accounts(ctx.program_id) {
        Err(code) => Err(Error::Accounts(code)),
        Ok(created) => match instructions::release_purchase::spec_handler(ctx, amount, release_signer_bump) {
            Err(e) => Err(Error::Nina(e)),
            Ok(plan) => match spec_check_signer_seeds(
                ctx.accounts.release.key,
                release_signer_bump,
                ctx.accounts.release_signer,
                ctx.program_id,
            ) {
                Err(code) => Err(Error::Accounts(code)),
                Ok(()) => Ok((created, plan)),
            },
        },
    }
}

/// Sells one unit of a release: checks the accounts, runs the operation, and
/// checks that the bump seed derives the signer that the operation signs
/// with.
///
/// Returns the creation of the receiver's account where it is missing, and
/// what the operation asks for after it.
pub fn release_purchase(ctx: &Context<ReleasePurchase>, amount: u64, release_signer_bump: u8) -> (r: Result<
    (Option<CreateAssociatedToken>, PurchasePlan),
    Error,
>)
    ensures
        r == spec_release_purchase(*ctx, amount, release_signer_bump),
        r matches Ok((_, plan)) ==> {
            &&& plan.mint.signer_seeds.spec_verify(plan.mint.authority, ctx.program_id)
            &&& plan.mint.mint == ctx.accounts.release.data.mint
            &&& plan.mint.amount == 1
            &&& plan.payment.to == ctx.accounts.release.data.royalty_token_account
            &&& plan.payment.amount == ctx.accounts.release.data.price
        },
{
    let created = match ctx.accounts.try_accounts(&ctx.program_id) {
        Ok(created) => created,
        Err(code) => {
            return Err(Error::Accounts(code));
        },
    };
    let plan = match instructions::release_purchase::handler(ctx, amount, release_signer_bump) {
        Ok(plan) => plan,
        Err(e) => {
            return Err(Error::Nina(e));
        },
    };
    match check_signer_seeds(
        &ctx.accounts.release.key,
        release_signer_bump,
        &ctx.accounts.release_signer,
        &ctx.program_id,
    ) {
        Ok(()) => Ok((created, plan)),
        Err(code) => Err(Error::Accounts(code)),
    }
}

/// The outcome of opening a release and selling its first unit, judged in
/// this order: the accounts among themselves; the payer, the cap and the
/// payer as a buyer; the bump seed, which must derive the signer from the
/// record.
pub open spec fn spec_release_init_and_purchase(
    ctx: Context<ReleaseInitAndPurchase>,
    release_signer_bump: u8,
    uri: String,
    name: String,
    symbol: String,
    total_supply: u64,
    price: u64,
) -> Result<((InitAndPurchaseAccounts, InitAndPurchasePlan), Context<ReleaseInitAndPurchase>), Error> {
    match ctx.accounts.spec_try_accounts(ctx.program_id) {
        Err(code) => Err(Error::Accounts(code)),
        Ok(created) => match instructions::release_init_and_purchase::spec_handler(
            ctx,
            release_signer_bump,
            uri,
            name,
            symbol,
            total_supply,
            price,
        ) {
            Err(e) => Err(Error::Nina(e)),
            Ok((plan, after)) => match spec_check_signer_seeds(
                ctx.accounts.release.key,
                release_signer_bump,
                ctx.accounts.release_signer,
                ctx.program_id,
            ) {
                Err(code) => Err(Error::Accounts(code)),
                Ok(()) => Ok(((created, plan), after)),
            },
        },
    }
}

/// Opens a release and sells its first unit: checks the accounts, runs the
/// operation, and checks that the bump seed derives the signer that the
/// operation signs with.
///
/// Returns what is to be created and what the operation asks for after it.
/// Where the operation is rejected, nothing is changed.
pub fn release_init_and_purchase(
    ctx: &mut Context<ReleaseInitAndPurchase>,
    release_signer_bump: u8,
    uri: String,
    name: String,
    symbol: String,
    total_supply: u64,
    price: u64,
) -> (r: Result<(InitAndPurchaseAccounts, InitAndPurchasePlan), Error>)
    ensures
        match spec_release_init_and_purchase(
            *old(ctx),
            release_signer_bump,
            uri,
            name,
            symbol,
            total_supply,
            price,
        ) {
            Ok((accepted, after)) => r == Ok::<(InitAndPurchaseAccounts, InitAndPurchasePlan), Error>(accepted)
                && *final(ctx) == after,
            Err(e) => r == Err::<(InitAndPurchaseAccounts, InitAndPurchasePlan), Error>(e) && *final(ctx) == *old(
                ctx,
            ),
        },
        r matches Ok((_, plan)) ==> {
            &&& plan.init.metadata.signer_seeds.spec_verify(plan.init.metadata.update_authority, old(ctx).program_id)
            &&& plan.purchase.mint.signer_seeds.spec_verify(plan.purchase.mint.authority, old(ctx).program_id)
        },
{
    let created = match ctx.accounts.try_accounts(&ctx.program_id) {
        Ok(created) => created,
        Err(code) => {
            return Err(Error::Accounts(code));
        },
    };
    let before = ctx.accounts;
    let plan = match instructions::release_init_and_purchase::handler(
        ctx,
        release_signer_bump,
        uri,
        name,
        symbol,
        total_supply,
        price,
    ) {
        Ok(plan) => plan,
        Err(e) => {
            return Err(Error::Nina(e));
        },
    };
    match check_signer_seeds(&before.release.key, release_signer_bump, &before.release_signer, &ctx.program_id) {
        Ok(()) => Ok((created, plan)),
        Err(code) => {
            ctx.accounts = before;
            Err(Error::Accounts(code))
        },
    }
}

/// The outcome of updating a release, judged in this order: the accounts
/// among themselves; the payer; the bump seed, which must derive the signer
/// of the record from the record's address.
pub open spec fn spec_release_update(
    ctx: Context<ReleaseUpdate>,
    uri: String,
    name: String,
    symbol: String,
    release_signer_bump: u8,
    price: u64,
    total_supply: u64,
) -> Result<(UpdatePlan, Context<ReleaseUpdate>), Error> {
    match ctx.accounts.spec_try_accounts(ctx.program_id) {
        Err(code) => Err(Error::Accounts(code)),
        Ok(()) => match instructions::release_update::spec_handler(
            ctx,
            uri,
            name,
            symbol,
            release_signer_bump,
            price,
            total_supply,
        ) {
            Err(e) => Err(Error::Nina(e)),
            Ok((plan, after)) => match spec_check_signer_seeds(
                ctx.accounts.release.key,
                release_signer_bump,
                ctx.accounts.release_signer,
                ctx.program_id,
            ) {
                Err(code) => Err(Error::Accounts(code)),
                Ok(()) => Ok((plan, after)),
            },
        },
    }
}

/// Updates a release: checks the accounts, runs the operation, and checks
/// that the bump seed derives the signer that the operation signs with.
/// Where the update is rejected, nothing is changed.
pub fn release_update(
    ctx: &mut Context<ReleaseUpdate>,
    uri: String,
    name: String,
    symbol: String,
    release_signer_bump: u8,
    price: u64,
    total_supply: u64,
) -> (r: Result<UpdatePlan, Error>)
    ensures
        match spec_release_update(*old(ctx), uri, name, symbol, release_signer_bump, price, total_supply) {
            Ok((plan, after)) => r == Ok::<UpdatePlan, Error>(plan) && *final(ctx) == after,
            Err(e) => r == Err::<UpdatePlan, Error>(e) && *final(ctx) == *old(ctx),
        },
        r matches Ok(plan) ==> {
            &&& plan.uri.update_authority == old(ctx).accounts.release.data.release_signer
            &&& plan.uri.signer_seeds.spec_verify(plan.uri.update_authority, old(ctx).program_id)
            &&& plan.name.signer_seeds.spec_verify(plan.name.update_authority, old(ctx).program_id)
            &&& plan.symbol.signer_seeds.spec_verify(plan.symbol.update_authority, old(ctx).program_id)
        },
{
    match ctx.accounts.try_accounts(&ctx.program_id) {
        Ok(()) => {},
        Err(code) => {
            return Err(Error::Accounts(code));
        },
    }
    let before = ctx.accounts;
    let plan = match instructions::release_update::handler(
        ctx,
        uri,
        name,
        symbol,
        release_signer_bump,
        price,
        total_supply,
    ) {
        Ok(plan) => plan,
        Err(e) => {
            return Err(Error::Nina(e));
        },
    };
    match check_signer_seeds(&before.release.key, release_signer_bump, &before.release_signer, &ctx.program_id) {
        Ok(()) => Ok(plan),
        Err(code) => {
            ctx.accounts = before;
            Err(Error::Accounts(code))
        },
    }
}

/// The outcome of closing a release, judged in this order: the accounts
/// among themselves; the payer.
pub open spec fn spec_release_close(ctx: Context<ReleaseClose>) -> Result<Context<ReleaseClose>, Error> {
    match ctx.accounts.spec_try_accounts(ctx.program_id) {
        Err(code) => Err(Error::Accounts(code)),
        Ok(()) => match instructions::release_close::spec_handler(ctx) {
            Err(e) => Err(Error::Nina(e)),
            Ok(after) => Ok(after),
        },
    }
}

/// Closes a release: checks the accounts, then runs the operation. Where the
/// close is rejected, nothing is changed.
pub fn release_close(ctx: &mut Context<ReleaseClose>) -> (r: Result<(), Error>)
    ensures
        match spec_release_close(*old(ctx)) {
            Ok(after) => r == Ok::<(), Error>(()) && *final(ctx) == after,
            Err(e) => r == Err::<(), Error>(e) && *final(ctx) == *old(ctx),
        },
{
    match ctx.accounts.try_accounts(&ctx.program_id) {
        Ok(()) => {},
        Err(code) => {
            return Err(Error::Accounts(code));
        },
    }
    match instructions::release_close::handler(ctx) {
        Ok(()) => Ok(()),
        Err(e) => Err(Error::Nina(e)),
    }
}

/// The creation that comes before a purchase, as a sequence of requests.
pub open spec fn spec_created(created: Option<CreateAssociatedToken>) -> Seq<Request> {
    match created {
        Some(create) => seq![Request::CreateAssociatedToken(create)],
        None => seq![],
    }
}

/// All that an accepted opening asks for, in the order in which it is to be
/// done: what is created, then what the operation asks for.
pub fn init_requests(created: InitAccounts, plan: InitPlan) -> (requests: Vec<Request>)
    ensures
        requests@ == created.spec_requests() + plan.spec_requests(),
{
    let mut requests = created.requests();
    let mut rest = plan.requests();
    requests.append(&mut rest);
    requests
}

/// All that an accepted purchase asks for, in the order in which it is to be
/// done: the receiver's account where it is missing, the payment, the issue.
pub fn purchase_requests(created: Option<CreateAssociatedToken>, plan: PurchasePlan) -> (requests: Vec<Request>)
    ensures
        requests@ == spec_created(created) + plan.spec_requests(),
{
    let mut requests: Vec<Request> = Vec::new();
    match created {
        Some(create) => {
            requests.push(Request::CreateAssociatedToken(create));
        },
        None => {},
    }
    proof {
        assert(requests@ =~= spec_created(created));
    }
    let mut rest = plan.requests();
    requests.append(&mut rest);
    requests
}

/// All that an accepted opening with a first purchase asks for, in the order
/// in which it is to be done: what is created, then what the operation asks
/// for.
pub fn init_and_purchase_requests(created: InitAndPurchaseAccounts, plan: InitAndPurchasePlan) -> (requests: Vec<
    Request,
>)
    ensures
        requests@ == created.spec_requests() + plan.spec_requests(),
{
    let mut requests = created.requests();
    let mut rest = plan.requests();
    requests.append(&mut rest);
    requests
}

} // verus!
