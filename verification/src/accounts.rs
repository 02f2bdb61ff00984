//! The accounts that an operation is given, as plain values.

use vstd::prelude::*;
use crate::pubkey::Pubkey;

verus! {

/// An account of the ledger: its address and what it holds.
#[derive(Clone, Copy, Debug, PartialEq, Eq)]
pub struct Account<T> {
    pub key: Pubkey,
    pub data: T,
}

/// A mint, as far as the sale reads it.
#[derive(Clone, Copy, Debug, PartialEq, Eq)]
pub struct Mint {
    /// The units issued so far: the live supply.
    pub supply: u64,
}

/// A token account, as far as the sale reads it.
#[derive(Clone, Copy, Debug, PartialEq, Eq)]
pub struct TokenAccount {
    /// The token program that the account belongs to.
    pub token_program: Pubkey,
    /// The mint whose tokens the account holds.
    pub mint: Pubkey,
    /// Who owns the tokens.
    pub owner: Pubkey,
    /// How many tokens the account holds.
    pub amount: u64,
}

/// The identities that may pay for an operation in place of the party that
/// the operation names.
#[derive(Clone, Debug, PartialEq, Eq)]
pub struct Delegates {
    /// Those that may pay for opening, updating and closing a release.
    pub file_service_accounts: Vec<Pubkey>,
    /// Those that may pay for a purchase.
    pub id_accounts: Vec<Pubkey>,
}

/// What an operation runs in: the program's own address, the accounts it was
/// given and the delegates that the deployment allows.
#[derive(Clone, Debug, PartialEq, Eq)]
pub struct Context<T> {
    pub program_id: Pubkey,
    pub accounts: T,
    pub delegates: Delegates,
}

} // verus!
