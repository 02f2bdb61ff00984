//! What the accounts of an operation must satisfy among themselves.

use vstd::prelude::*;
use crate::accounts::{Account, TokenAccount};
use crate::cpi::SignerSeeds;
use crate::errors::ErrorCode;
use crate::pubkey::{lemma_pubkey_ext, Pubkey};
use crate::seeds::{
    find_release_address, find_release_signer, get_associated_token_address_with_program_id, is_found,
    spec_associated_token_address, spec_find_release_address, spec_find_release_signer,
};
use crate::state::release::ReleaseV2;

verus! {

/// The first of two verdicts that rejects, if either does.
pub open spec fn then(first: Result<(), ErrorCode>, second: Result<(), ErrorCode>) -> Result<(), ErrorCode> {
    if first is Err {
        first
    } else {
        second
    }
}

/// Two identities agree, or the verdict is `ConstraintRaw`.
pub open spec fn spec_check_same(left: Pubkey, right: Pubkey) -> Result<(), ErrorCode> {
    if left == right {
        Ok(())
    } else {
        Err(ErrorCode::ConstraintRaw)
    }
}

/// Checks that two identities agree.
pub fn check_same(left: &Pubkey, right: &Pubkey) -> (r: Result<(), ErrorCode>)
    ensures
        r == spec_check_same(*left, *right),
{
    if *left == *right {
        Ok(())
    } else {
        Err(ErrorCode::ConstraintRaw)
    }
}

/// The record is at the address derived from its mint, or the verdict is
/// `ConstraintSeeds`.
pub open spec fn spec_check_release_address(release: Pubkey, mint: Pubkey, program_id: Pubkey) -> Result<
    (),
    ErrorCode,
> {
    if is_found(spec_find_release_address(mint, program_id), release) {
        Ok(())
    } else {
        Err(ErrorCode::ConstraintSeeds)
    }
}

/// Checks that the record is at the address derived from its mint.
pub fn check_release_address(release: &Pubkey, mint: &Pubkey, program_id: &Pubkey) -> (r: Result<(), ErrorCode>)
    ensures
        r == spec_check_release_address(*release, *mint, *program_id),
{
    match find_release_address(mint, program_id) {
        Some((address, _)) => {
            proof {
                lemma_pubkey_ext(address, *release);
            }
            if address == *release {
                Ok(())
            } else {
                Err(ErrorCode::ConstraintSeeds)
            }
        },
        None => Err(ErrorCode::ConstraintSeeds),
    }
}

/// The signer is at the address derived from the record, or the verdict is
/// `ConstraintSeeds`.
pub open spec fn spec_check_release_signer(release_signer: Pubkey, release: Pubkey, program_id: Pubkey) -> Result<
    (),
    ErrorCode,
> {
    if is_found(spec_find_release_signer(release, program_id), release_signer) {
        Ok(())
    } else {
        Err(ErrorCode::ConstraintSeeds)
    }
}

/// Checks that the signer is at the address derived from the record.
pub fn check_release_signer(release_signer: &Pubkey, release: &Pubkey, program_id: &Pubkey) -> (r: Result<
    (),
    ErrorCode,
>)
    ensures
        r == spec_check_release_signer(*release_signer, *release, *program_id),
{
    match find_release_signer(release, program_id) {
        Some((address, _)) => {
            proof {
                lemma_pubkey_ext(address, *release_signer);
            }
            if address == *release_signer {
                Ok(())
            } else {
                Err(ErrorCode::ConstraintSeeds)
            }
        },
        None => Err(ErrorCode::ConstraintSeeds),
    }
}

/// The bump seed given derives the signer from the record, or the verdict is
/// `ConstraintSeeds`.
pub open spec fn spec_check_signer_seeds(
    release: Pubkey,
    release_signer_bump: u8,
    release_signer: Pubkey,
    program_id: Pubkey,
) -> Result<(), ErrorCode> {
    if (SignerSeeds { release: release, bump: release_signer_bump }).spec_verify(release_signer, program_id) {
        Ok(())
    } else {
        Err(ErrorCode::ConstraintSeeds)
    }
}

/// Checks that the bump seed given derives the signer from the record, so
/// that what is signed with it is signed by the signer and by no other.
pub fn check_signer_seeds(
    release: &Pubkey,
    release_signer_bump: u8,
    release_signer: &Pubkey,
    program_id: &Pubkey,
) -> (r: Result<(), ErrorCode>)
    ensures
        r == spec_check_signer_seeds(*release, release_signer_bump, *release_signer, *program_id),
{
    let seeds = SignerSeeds { release: *release, bump: release_signer_bump };
    if seeds.verify(release_signer, program_id) {
        Ok(())
    } else {
        Err(ErrorCode::ConstraintSeeds)
    }
}

/// An existing release agrees with the accounts it is worked on with: the
/// authority and the signer are those of the record, the record is at the
/// address derived from the mint, and the mint is that of the record. The
/// verdicts come in this order.
pub open spec fn spec_check_release(
    authority: Pubkey,
    release_signer: Pubkey,
    release: Account<ReleaseV2>,
    mint: Pubkey,
    program_id: Pubkey,
) -> Result<(), ErrorCode> {
    then(
        spec_check_same(authority, release.data.authority),
        then(
            spec_check_same(release_signer, release.data.release_signer),
            then(
                spec_check_release_address(release.key, mint, program_id),
                spec_check_same(mint, release.data.mint),
            ),
        ),
    )
}

/// Checks an existing release against the accounts it is worked on with.
pub fn check_release(
    authority: &Pubkey,
    release_signer: &Pubkey,
    release: &Account<ReleaseV2>,
    mint: &Pubkey,
    program_id: &Pubkey,
) -> (r: Result<(), ErrorCode>)
    ensures
        r == spec_check_release(*authority, *release_signer, *release, *mint, *program_id),
{
    match check_same(authority, &release.data.authority) {
        Ok(()) => {},
        Err(e) => {
            return Err(e);
        },
    }
    match check_same(release_signer, &release.data.release_signer) {
        Ok(()) => {},
        Err(e) => {
            return Err(e);
        },
    }
    match check_release_address(&release.key, mint, program_id) {
        Ok(()) => {},
        Err(e) => {
            return Err(e);
        },
    }
    check_same(mint, &release.data.mint)
}

/// A token account belongs to the token program and to `wallet`, and is at
/// the address that belongs to `wallet` and `mint`: else the verdict is
/// `ConstraintAssociatedTokenTokenProgram`, `ConstraintTokenOwner` or
/// `ConstraintAssociated`, in this order.
pub open spec fn spec_check_associated_token(
    account: Account<TokenAccount>,
    wallet: Pubkey,
    mint: Pubkey,
    token_program_id: Pubkey,
) -> Result<(), ErrorCode> {
    if account.data.token_program != token_program_id {
        Err(ErrorCode::ConstraintAssociatedTokenTokenProgram)
    } else if account.data.owner != wallet {
        Err(ErrorCode::ConstraintTokenOwner)
    } else if spec_associated_token_address(wallet, mint, token_program_id) != Some(account.key@) {
        Err(ErrorCode::ConstraintAssociated)
    } else {
        Ok(())
    }
}

/// Checks that a token account is the one that belongs to `wallet` and
/// `mint` under the token program.
pub fn check_associated_token(
    account: &Account<TokenAccount>,
    wallet: &Pubkey,
    mint: &Pubkey,
    token_program_id: &Pubkey,
) -> (r: Result<(), ErrorCode>)
    ensures
        r == spec_check_associated_token(*account, *wallet, *mint, *token_program_id),
{
    if account.data.token_program != *token_program_id {
        return Err(ErrorCode::ConstraintAssociatedTokenTokenProgram);
    }
    if account.data.owner != *wallet {
        return Err(ErrorCode::ConstraintTokenOwner);
    }
    match get_associated_token_address_with_program_id(wallet, mint, token_program_id) {
        Some(address) => {
            proof {
                lemma_pubkey_ext(address, account.key);
            }
            if address == account.key {
                Ok(())
            } else {
                Err(ErrorCode::ConstraintAssociated)
            }
        },
        None => Err(ErrorCode::ConstraintAssociated),
    }
}

/// A token account that is created where it is missing: where it exists it
/// holds tokens of `mint`, belongs to `wallet` and to the token program, and
/// either way it is at the address that belongs to `wallet` and `mint`. Else
/// the verdict is `ConstraintTokenMint`, `ConstraintTokenOwner`,
/// `ConstraintAssociatedTokenTokenProgram` or
/// `AccountNotAssociatedTokenAccount`, in this order.
pub open spec fn spec_check_init_associated_token(
    account: Account<Option<TokenAccount>>,
    wallet: Pubkey,
    mint: Pubkey,
    token_program_id: Pubkey,
) -> Result<(), ErrorCode> {
    if account.data matches Some(held) && held.mint != mint {
        Err(ErrorCode::ConstraintTokenMint)
    } else if account.data matches Some(held) && held.owner != wallet {
        Err(ErrorCode::ConstraintTokenOwner)
    } else if account.data matches Some(held) && held.token_program != token_program_id {
        Err(ErrorCode::ConstraintAssociatedTokenTokenProgram)
    } else if spec_associated_token_address(wallet, mint, token_program_id) != Some(account.key@) {
        Err(ErrorCode::AccountNotAssociatedTokenAccount)
    } else {
        Ok(())
    }
}

/// Checks a token account that is created where it is missing.
pub fn check_init_associated_token(
    account: &Account<Option<TokenAccount>>,
    wallet: &Pubkey,
    mint: &Pubkey,
    token_program_id: &Pubkey,
) -> (r: Result<(), ErrorCode>)
    ensures
        r == spec_check_init_associated_token(*account, *wallet, *mint, *token_program_id),
{
    match account.data {
        Some(held) => {
            if held.mint != *mint {
                return Err(ErrorCode::ConstraintTokenMint);
            }
            if held.owner != *wallet {
                return Err(ErrorCode::ConstraintTokenOwner);
            }
            if held.token_program != *token_program_id {
                return Err(ErrorCode::ConstraintAssociatedTokenTokenProgram);
            }
        },
        None => {},
    }
    match get_associated_token_address_with_program_id(wallet, mint, token_program_id) {
        Some(address) => {
            proof {
                lemma_pubkey_ext(address, account.key);
            }
            if address == account.key {
                Ok(())
            } else {
                Err(ErrorCode::AccountNotAssociatedTokenAccount)
            }
        },
        None => Err(ErrorCode::AccountNotAssociatedTokenAccount),
    }
}

} // verus!
