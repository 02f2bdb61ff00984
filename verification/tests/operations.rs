use nina_v2::accounts::{Account, Context, Delegates, Mint, TokenAccount};
use nina_v2::cpi::{
    creation, missing_lamports, CreateAccount, CreateMint, Creation, Field, MintBalanceUpdate, MintTo, Request,
    SignerSeeds, SystemTransfer, TokenMetadataInitialize, TokenMetadataUpdateField, Transfer,
};
use nina_v2::errors::{ErrorCode, NinaError};
use nina_v2::instructions::release_close::{self, ReleaseClose};
use nina_v2::instructions::release_init_and_purchase::{self, InitAndPurchasePlan, ReleaseInitAndPurchase};
use nina_v2::instructions::release_init_v2::{
    self, initialize_token_metadata, set_release_data, update_mint_balance, InitPlan, ReleaseInitV2,
    ReleaseInitV2Args,
};
use nina_v2::instructions::release_purchase::{self, PurchasePlan, ReleasePurchase};
use nina_v2::instructions::release_update::{self, ReleaseUpdate, UpdatePlan};
use nina_v2::instructions::release_update_metadata::{self, ReleaseUpdateMetadata};
use nina_v2::pubkey::Pubkey;
use nina_v2::state::release::ReleaseV2;
use nina_v2::utils::{check_delegated_payer, contains_key};

fn id(n: u8) -> Pubkey {
    Pubkey::new_from_array([n; 32])
}

fn delegates() -> Delegates {
    Delegates { file_service_accounts: vec![id(40)], id_accounts: vec![id(41)] }
}

fn record(total_supply: u64, price: u64) -> ReleaseV2 {
    ReleaseV2 {
        authority: id(1),
        release_signer: id(2),
        mint: id(3),
        royalty_token_account: id(4),
        payment_mint: id(5),
        total_supply,
        price,
    }
}

fn init_ctx() -> Context<ReleaseInitV2> {
    Context {
        program_id: id(100),
        accounts: ReleaseInitV2 {
            payer: id(1),
            authority: id(1),
            release: Account { key: id(20), data: None },
            mint: id(3),
            release_signer: id(2),
            payment_mint: id(5),
            royalty_token_account: Account { key: id(4), data: TokenAccount { token_program: id(32), mint: id(5), owner: id(1), amount: 0 } },
            system_program: id(30),
            associated_token_program: id(31),
            token_program: id(32),
            token_2022_program: id(33),
        },
        delegates: delegates(),
    }
}

fn metadata(bump: u8) -> TokenMetadataInitialize {
    TokenMetadataInitialize {
        program_id: id(33),
        mint: id(3),
        metadata: id(3),
        mint_authority: id(2),
        update_authority: id(2),
        signer_seeds: SignerSeeds { release: id(20), bump },
        name: "Name".to_string(),
        symbol: "SYM".to_string(),
        uri: "https://example.org/a.json".to_string(),
    }
}

fn init_plan(bump: u8, payer: Pubkey) -> InitPlan {
    InitPlan { metadata: metadata(bump), balance: MintBalanceUpdate { mint: id(3), payer, system_program: id(30) } }
}

fn run_init(ctx: &mut Context<ReleaseInitV2>, total_supply: u64, price: u64, bump: u8) -> Result<InitPlan, NinaError> {
    release_init_v2::handler(
        ctx,
        "https://example.org/a.json".to_string(),
        "Name".to_string(),
        "SYM".to_string(),
        total_supply,
        price,
        bump,
    )
}

fn update_ctx(total_supply: u64, price: u64) -> Context<ReleaseUpdate> {
    Context {
        program_id: id(100),
        accounts: ReleaseUpdate {
            payer: id(1),
            authority: id(1),
            release_signer: id(2),
            release: Account { key: id(20), data: record(total_supply, price) },
            mint: Account { key: id(3), data: Mint { supply: 4 } },
            system_program: id(30),
            token_2022_program: id(33),
        },
        delegates: delegates(),
    }
}

fn update_field(field: Field, value: &str, bump: u8) -> TokenMetadataUpdateField {
    TokenMetadataUpdateField {
        program_id: id(33),
        metadata: id(3),
        update_authority: id(2),
        signer_seeds: SignerSeeds { release: id(20), bump },
        field,
        value: value.to_string(),
    }
}

fn close_ctx(total_supply: u64, supply: u64) -> Context<ReleaseClose> {
    Context {
        program_id: id(100),
        accounts: ReleaseClose {
            payer: id(1),
            authority: id(1),
            release_signer: id(2),
            release: Account { key: id(20), data: record(total_supply, 1000) },
            mint: Account { key: id(3), data: Mint { supply } },
        },
        delegates: delegates(),
    }
}

fn purchase_after(release: Account<ReleaseV2>, supply: u64) -> Context<ReleasePurchase> {
    Context {
        program_id: id(100),
        accounts: ReleasePurchase {
            payer: id(10),
            receiver: id(10),
            release,
            release_signer: id(2),
            mint: Account { key: id(3), data: Mint { supply } },
            payment_mint: id(5),
            payment_token_account: Account { key: id(11), data: TokenAccount { token_program: id(32), mint: id(5), owner: id(10), amount: 5000 } },
            royalty_token_account: Account { key: id(4), data: TokenAccount { token_program: id(32), mint: id(5), owner: id(1), amount: 0 } },
            receiver_release_token_account: Account { key: id(12), data: None },
            system_program: id(30),
            associated_token_program: id(31),
            token_program: id(32),
            token_2022_program: id(33),
        },
        delegates: delegates(),
    }
}

fn both_ctx() -> Context<ReleaseInitAndPurchase> {
    Context {
        program_id: id(100),
        accounts: ReleaseInitAndPurchase {
            payer: id(1),
            receiver: id(10),
            authority: id(1),
            release: Account { key: id(20), data: None },
            release_signer: id(2),
            mint: id(3),
            payment_mint: id(5),
            payment_token_account: Account { key: id(11), data: TokenAccount { token_program: id(32), mint: id(5), owner: id(10), amount: 5000 } },
            royalty_token_account: Account { key: id(4), data: TokenAccount { token_program: id(32), mint: id(5), owner: id(1), amount: 0 } },
            receiver_release_token_account: Account { key: id(12), data: None },
            system_program: id(30),
            associated_token_program: id(31),
            token_program: id(32),
            token_2022_program: id(33),
        },
        delegates: Delegates { file_service_accounts: vec![id(40)], id_accounts: vec![id(41), id(1)] },
    }
}

fn run_both(
    ctx: &mut Context<ReleaseInitAndPurchase>,
    total_supply: u64,
    price: u64,
    bump: u8,
) -> Result<InitAndPurchasePlan, NinaError> {
    release_init_and_purchase::handler(
        ctx,
        bump,
        "https://example.org/a.json".to_string(),
        "Name".to_string(),
        "SYM".to_string(),
        total_supply,
        price,
    )
}

#[test]
fn contains_key_finds_only_listed_keys() {
    let keys = vec![id(1), id(2), id(3)];
    assert!(contains_key(&keys, &id(1)));
    assert!(contains_key(&keys, &id(3)));
    assert!(!contains_key(&keys, &id(4)));
    assert!(!contains_key(&Vec::new(), &id(1)));
}

#[test]
fn delegated_payer_guard() {
    let allowed = vec![id(7), id(8)];
    assert_eq!(check_delegated_payer(&id(1), &id(1), &allowed), Ok(()));
    assert_eq!(check_delegated_payer(&id(8), &id(1), &allowed), Ok(()));
    assert_eq!(check_delegated_payer(&id(9), &id(1), &allowed), Err(NinaError::DelegatedPayerMismatch));
    assert_eq!(check_delegated_payer(&id(9), &id(1), &Vec::new()), Err(NinaError::DelegatedPayerMismatch));
    assert_eq!(check_delegated_payer(&id(1), &id(1), &Vec::new()), Ok(()));
}

#[test]
fn init_args_hold_what_they_are_given() {
    let args = ReleaseInitV2Args {
        uri: "u".to_string(),
        name: "n".to_string(),
        symbol: "s".to_string(),
        total_supply: 10,
        price: 1000,
        release_signer_bump: 255,
    };
    assert_eq!(args.clone(), args);
    assert_eq!(args.total_supply, 10);
    assert_eq!(args.price, 1000);
}

#[test]
fn initialize_token_metadata_is_signed_for_the_release() {
    let release = Account { key: id(20), data: None };
    let built = initialize_token_metadata(
        &id(33),
        &id(3),
        &release,
        &id(2),
        "Name".to_string(),
        "SYM".to_string(),
        "https://example.org/a.json".to_string(),
        253,
    );
    assert_eq!(built, metadata(253));
}

#[test]
fn update_mint_balance_names_mint_and_payer() {
    assert_eq!(
        update_mint_balance(&id(3), &id(1), &id(30)),
        MintBalanceUpdate { mint: id(3), payer: id(1), system_program: id(30) }
    );
}

#[test]
fn top_up_pays_what_is_missing() {
    let balance = MintBalanceUpdate { mint: id(3), payer: id(1), system_program: id(30) };
    assert_eq!(
        balance.top_up(1_000, 2_500),
        Some(SystemTransfer { program: id(30), from: id(1), to: id(3), lamports: 1_500 })
    );
    assert_eq!(
        balance.top_up(0, u64::MAX),
        Some(SystemTransfer { program: id(30), from: id(1), to: id(3), lamports: u64::MAX })
    );
    assert_eq!(balance.top_up(2_500, 2_500), None);
    assert_eq!(balance.top_up(2_501, 2_500), None);
    assert_eq!(balance.top_up(0, 0), None);
}

#[test]
fn set_release_data_fills_every_field() {
    let mut release = Account { key: id(20), data: None };
    let royalty = Account { key: id(4), data: TokenAccount { token_program: id(32), mint: id(5), owner: id(1), amount: 0 } };
    set_release_data(&mut release, &id(1), &id(2), &id(3), &royalty, &id(5), 10, 1000);
    assert_eq!(release, Account { key: id(20), data: Some(record(10, 1000)) });
}

#[test]
fn set_release_data_overwrites_a_record() {
    let mut release = Account { key: id(20), data: Some(record(1, 1)) };
    let royalty = Account { key: id(4), data: TokenAccount { token_program: id(32), mint: id(5), owner: id(1), amount: 0 } };
    set_release_data(&mut release, &id(1), &id(2), &id(3), &royalty, &id(5), 10, 1000);
    assert_eq!(release.data, Some(record(10, 1000)));
}

#[test]
fn init_by_the_authority_fills_the_record() {
    let mut ctx = init_ctx();
    assert_eq!(run_init(&mut ctx, 10, 1000, 255), Ok(init_plan(255, id(1))));
    let mut expected = init_ctx();
    expected.accounts.release.data = Some(record(10, 1000));
    assert_eq!(ctx, expected);
}

#[test]
fn init_by_a_delegate_is_accepted() {
    let mut ctx = init_ctx();
    ctx.accounts.payer = id(40);
    assert_eq!(run_init(&mut ctx, 10, 1000, 254), Ok(init_plan(254, id(40))));
    assert_eq!(ctx.accounts.release.data, Some(record(10, 1000)));
}

#[test]
fn init_by_another_payer_changes_nothing() {
    let mut ctx = init_ctx();
    ctx.accounts.payer = id(41);
    let before = ctx.clone();
    assert_eq!(run_init(&mut ctx, 10, 1000, 255), Err(NinaError::DelegatedPayerMismatch));
    assert_eq!(ctx, before);
    assert_eq!(ctx.accounts.release.data, None);
}

#[test]
fn update_by_the_authority_writes_the_new_terms() {
    let mut ctx = update_ctx(10, 1000);
    let plan = release_update::handler(
        &mut ctx,
        "uri2".to_string(),
        "name2".to_string(),
        "sym2".to_string(),
        252,
        2000,
        20,
    );
    assert_eq!(
        plan,
        Ok(UpdatePlan {
            uri: update_field(Field::Uri, "uri2", 252),
            name: update_field(Field::Name, "name2", 252),
            symbol: update_field(Field::Symbol, "sym2", 252),
            balance: MintBalanceUpdate { mint: id(3), payer: id(1), system_program: id(30) },
        })
    );
    let mut expected = update_ctx(10, 1000);
    expected.accounts.release.data = record(20, 2000);
    assert_eq!(ctx, expected);
    assert_eq!(ctx.accounts.release.data.price, 2000);
    assert_eq!(ctx.accounts.release.data.total_supply, 20);
}

#[test]
fn update_by_a_delegate_is_accepted() {
    let mut ctx = update_ctx(10, 1000);
    ctx.accounts.payer = id(40);
    let plan =
        release_update::handler(&mut ctx, "u".to_string(), "n".to_string(), "s".to_string(), 255, 1, 2).unwrap();
    assert_eq!(plan.balance.payer, id(40));
    assert_eq!(ctx.accounts.release.data, record(2, 1));
}

#[test]
fn update_by_another_payer_changes_nothing() {
    let mut ctx = update_ctx(10, 1000);
    ctx.accounts.payer = id(9);
    let before = ctx.clone();
    let plan = release_update::handler(&mut ctx, "u".to_string(), "n".to_string(), "s".to_string(), 255, 1, 2);
    assert_eq!(plan, Err(NinaError::DelegatedPayerMismatch));
    assert_eq!(ctx, before);
}

#[test]
fn update_is_judged_by_the_authority_of_the_record() {
    let mut ctx = update_ctx(10, 1000);
    ctx.accounts.authority = id(9);
    ctx.accounts.payer = id(9);
    let before = ctx.clone();
    let plan = release_update::handler(&mut ctx, "u".to_string(), "n".to_string(), "s".to_string(), 255, 1, 2);
    assert_eq!(plan, Err(NinaError::DelegatedPayerMismatch));
    assert_eq!(ctx, before);
}

#[test]
fn update_metadata_overwrites_the_uri() {
    let ctx = Context {
        program_id: id(100),
        accounts: ReleaseUpdateMetadata {
            payer: id(1),
            authority: id(1),
            release_signer: id(2),
            release: Account { key: id(20), data: record(10, 1000) },
            mint: Account { key: id(3), data: Mint { supply: 4 } },
            system_program: id(30),
            token_2022_program: id(33),
        },
        delegates: delegates(),
    };
    assert_eq!(
        release_update_metadata::handler(&ctx, "uri3".to_string(), 251),
        update_field(Field::Uri, "uri3", 251)
    );
}

#[test]
fn close_sets_the_cap_to_the_supply() {
    let mut ctx = close_ctx(10, 4);
    assert_eq!(release_close::handler(&mut ctx), Ok(()));
    let mut expected = close_ctx(10, 4);
    expected.accounts.release.data.total_supply = 4;
    assert_eq!(ctx, expected);
}

#[test]
fn close_of_an_unsold_release_sets_the_cap_to_zero() {
    let mut ctx = close_ctx(10, 0);
    assert_eq!(release_close::handler(&mut ctx), Ok(()));
    assert_eq!(ctx.accounts.release.data, record(0, 1000));
}

#[test]
fn close_by_a_delegate_is_accepted() {
    let mut ctx = close_ctx(10, 4);
    ctx.accounts.payer = id(40);
    assert_eq!(release_close::handler(&mut ctx), Ok(()));
    assert_eq!(ctx.accounts.release.data.total_supply, 4);
}

#[test]
fn close_by_another_payer_changes_nothing() {
    let mut ctx = close_ctx(10, 4);
    ctx.accounts.payer = id(41);
    let before = ctx.clone();
    assert_eq!(release_close::handler(&mut ctx), Err(NinaError::DelegatedPayerMismatch));
    assert_eq!(ctx, before);
    assert_eq!(ctx.accounts.release.data.total_supply, 10);
}

#[test]
fn purchase_after_close_is_sold_out() {
    let mut ctx = close_ctx(10, 4);
    assert_eq!(release_close::handler(&mut ctx), Ok(()));
    for supply in [4u64, 5, 10] {
        let later = purchase_after(ctx.accounts.release, supply);
        assert_eq!(release_purchase::handler(&later, 1000, 255), Err(NinaError::ReleasePurchaseSoldOut));
        assert!(release_purchase::handler(&later, 999, 255).is_err());
    }
}

#[test]
fn update_after_close_reopens_the_sale() {
    let mut closing = close_ctx(10, 4);
    assert_eq!(release_close::handler(&mut closing), Ok(()));
    let mut ctx = update_ctx(4, 1000);
    assert_eq!(ctx.accounts.release, closing.accounts.release);
    release_update::handler(&mut ctx, "u".to_string(), "n".to_string(), "s".to_string(), 255, 1000, 5).unwrap();
    let later = purchase_after(ctx.accounts.release, 4);
    assert!(release_purchase::handler(&later, 1000, 255).is_ok());
}

#[test]
fn init_and_purchase_opens_and_sells_one_unit() {
    let mut ctx = both_ctx();
    let plan = run_both(&mut ctx, 10, 1000, 255);
    assert_eq!(
        plan,
        Ok(InitAndPurchasePlan {
            init: init_plan(255, id(1)),
            purchase: PurchasePlan {
                payment: Transfer { program: id(32), from: id(11), to: id(4), authority: id(10), amount: 1000 },
                mint: MintTo {
                    program: id(33),
                    mint: id(3),
                    to: id(12),
                    authority: id(2),
                    signer_seeds: SignerSeeds { release: id(20), bump: 255 },
                    amount: 1,
                },
            },
        })
    );
    let mut expected = both_ctx();
    expected.accounts.release.data = Some(record(10, 1000));
    assert_eq!(ctx, expected);
}

#[test]
fn init_and_purchase_with_a_cap_of_zero_is_sold_out() {
    let mut ctx = both_ctx();
    let before = ctx.clone();
    assert_eq!(run_both(&mut ctx, 0, 1000, 255), Err(NinaError::ReleasePurchaseSoldOut));
    assert_eq!(ctx, before);
}

#[test]
fn init_and_purchase_by_another_payer_changes_nothing() {
    let mut ctx = both_ctx();
    ctx.accounts.payer = id(41);
    let before = ctx.clone();
    assert_eq!(run_both(&mut ctx, 10, 1000, 255), Err(NinaError::DelegatedPayerMismatch));
    assert_eq!(ctx, before);
    assert_eq!(run_both(&mut ctx, 0, 1000, 255), Err(NinaError::DelegatedPayerMismatch));
}

#[test]
fn init_and_purchase_equals_init_then_purchase() {
    let mut both = both_ctx();
    both.accounts.payer = id(10);
    both.accounts.authority = id(10);
    let combined = run_both(&mut both, 10, 1000, 255).unwrap();

    let mut opening = init_ctx();
    opening.accounts.payer = id(10);
    opening.accounts.authority = id(10);
    let init = run_init(&mut opening, 10, 1000, 255).unwrap();
    let opened = opening.accounts.release.data.unwrap();
    let later = purchase_after(Account { key: id(20), data: opened }, 0);
    let purchase = release_purchase::handler(&later, 1000, 255).unwrap();

    assert_eq!(combined, InitAndPurchasePlan { init, purchase });
    assert_eq!(both.accounts.release, opening.accounts.release);
}

#[test]
fn init_and_purchase_needs_a_payer_who_may_buy() {
    let mut ctx = both_ctx();
    ctx.delegates = delegates();
    let before = ctx.clone();
    assert_eq!(run_both(&mut ctx, 10, 1000, 255), Err(NinaError::DelegatedPayerMismatch));
    assert_eq!(run_both(&mut ctx, 1, 1000, 255), Err(NinaError::DelegatedPayerMismatch));
    assert_eq!(ctx, before);
    assert_eq!(ctx.accounts.release.data, None);
}

#[test]
fn init_and_purchase_judges_the_cap_before_the_buyer() {
    let mut ctx = both_ctx();
    ctx.delegates = delegates();
    assert_eq!(run_both(&mut ctx, 0, 1000, 255), Err(NinaError::ReleasePurchaseSoldOut));
}

#[test]
fn init_and_purchase_by_the_receiver_who_is_the_authority() {
    let mut ctx = both_ctx();
    ctx.delegates = Delegates { file_service_accounts: Vec::new(), id_accounts: Vec::new() };
    ctx.accounts.receiver = id(1);
    let plan = run_both(&mut ctx, 10, 1000, 255).unwrap();
    assert_eq!(plan.purchase.payment.authority, id(1));
    assert_eq!(plan.purchase.mint.amount, 1);
}

#[test]
fn init_and_purchase_by_a_delegate_of_both_kinds() {
    let mut ctx = both_ctx();
    ctx.accounts.payer = id(40);
    ctx.delegates = Delegates { file_service_accounts: vec![id(40)], id_accounts: vec![id(40)] };
    assert!(run_both(&mut ctx, 10, 1000, 255).is_ok());
    let mut ctx = both_ctx();
    ctx.accounts.payer = id(40);
    ctx.delegates = Delegates { file_service_accounts: vec![id(40)], id_accounts: vec![id(41)] };
    assert_eq!(run_both(&mut ctx, 10, 1000, 255), Err(NinaError::DelegatedPayerMismatch));
}

#[test]
fn purchase_plan_asks_for_the_payment_then_the_issue() {
    let plan = release_purchase::handler(&purchase_after(Account { key: id(20), data: record(10, 1000) }, 0), 1000, 255)
        .unwrap();
    assert_eq!(plan.requests(), vec![Request::Transfer(plan.payment), Request::MintTo(plan.mint)]);
}

#[test]
fn init_plan_asks_for_the_metadata_then_the_balance() {
    let plan = init_plan(255, id(1));
    assert_eq!(
        plan.clone().requests(),
        vec![Request::TokenMetadataInitialize(plan.metadata), Request::MintBalanceUpdate(plan.balance)]
    );
}

#[test]
fn update_plan_asks_for_uri_name_symbol_then_the_balance() {
    let mut ctx = update_ctx(10, 1000);
    let plan =
        release_update::handler(&mut ctx, "u".to_string(), "n".to_string(), "s".to_string(), 255, 1, 2).unwrap();
    assert_eq!(
        plan.requests(),
        vec![
            Request::TokenMetadataUpdateField(update_field(Field::Uri, "u", 255)),
            Request::TokenMetadataUpdateField(update_field(Field::Name, "n", 255)),
            Request::TokenMetadataUpdateField(update_field(Field::Symbol, "s", 255)),
            Request::MintBalanceUpdate(MintBalanceUpdate { mint: id(3), payer: id(1), system_program: id(30) }),
        ]
    );
}

#[test]
fn init_and_purchase_plan_asks_for_the_opening_then_the_purchase() {
    let mut ctx = both_ctx();
    let plan = run_both(&mut ctx, 10, 1000, 255).unwrap();
    let mut expected = plan.init.clone().requests();
    expected.extend(plan.purchase.requests());
    assert_eq!(expected.len(), 4);
    assert!(matches!(expected[0], Request::TokenMetadataInitialize(_)));
    assert!(matches!(expected[1], Request::MintBalanceUpdate(_)));
    assert!(matches!(expected[2], Request::Transfer(_)));
    assert!(matches!(expected[3], Request::MintTo(_)));
    assert_eq!(plan.requests(), expected);
}

#[test]
fn missing_lamports_pays_what_is_missing() {
    assert_eq!(
        missing_lamports(&id(30), &id(1), &id(3), 400, 1_000),
        Some(SystemTransfer { program: id(30), from: id(1), to: id(3), lamports: 600 })
    );
    assert_eq!(missing_lamports(&id(30), &id(1), &id(3), 1_000, 1_000), None);
    assert_eq!(missing_lamports(&id(30), &id(1), &id(3), u64::MAX, 0), None);
}

#[test]
fn creation_at_an_empty_address_creates_with_the_minimum() {
    assert_eq!(creation(&id(30), &id(1), &id(20), 0, 2_000), Ok(Creation::Create { lamports: 2_000 }));
    assert_eq!(creation(&id(30), &id(1), &id(1), 0, 2_000), Ok(Creation::Create { lamports: 2_000 }));
}

#[test]
fn creation_at_a_funded_address_pays_what_is_missing() {
    assert_eq!(
        creation(&id(30), &id(1), &id(20), 10, 2_000),
        Ok(Creation::Fund {
            transfer: Some(SystemTransfer { program: id(30), from: id(1), to: id(20), lamports: 1_990 })
        })
    );
    assert_eq!(creation(&id(30), &id(1), &id(20), 2_000, 2_000), Ok(Creation::Fund { transfer: None }));
    assert_eq!(creation(&id(30), &id(1), &id(20), 5_000, 2_000), Ok(Creation::Fund { transfer: None }));
}

#[test]
fn creation_of_the_payers_own_funded_account_fails() {
    assert_eq!(creation(&id(30), &id(1), &id(1), 1, 2_000), Err(ErrorCode::TryingToInitPayerAsProgramAccount));
}

#[test]
fn creation_of_record_and_mint_names_their_accounts() {
    let create = CreateAccount {
        program: id(30),
        payer: id(1),
        account: id(20),
        mint: id(3),
        bump: 255,
        space: 232,
        owner: id(100),
    };
    assert_eq!(create.creation(0, 2_000), Ok(Creation::Create { lamports: 2_000 }));
    assert_eq!(
        create.creation(10, 2_000),
        Ok(Creation::Fund {
            transfer: Some(SystemTransfer { program: id(30), from: id(1), to: id(20), lamports: 1_990 })
        })
    );
    let mint = CreateMint {
        program: id(33),
        system_program: id(30),
        payer: id(1),
        mint: id(3),
        decimals: 0,
        mint_authority: id(2),
        metadata_pointer_authority: id(2),
        metadata_address: id(3),
    };
    assert_eq!(mint.creation(0, 3_000), Ok(Creation::Create { lamports: 3_000 }));
    assert_eq!(
        mint.creation(1, 3_000),
        Ok(Creation::Fund {
            transfer: Some(SystemTransfer { program: id(30), from: id(1), to: id(3), lamports: 2_999 })
        })
    );
}
