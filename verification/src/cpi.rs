//! What an operation asks of the programs it works with.
//!
//! An operation performs no call itself. It returns what is to be asked, as
//! plain values, and whoever runs it makes the calls in the order given and
//! gives up the whole operation at the first that fails.

use vstd::prelude::*;
use crate::errors::ErrorCode;
use crate::pubkey::{
    create_program_address, lemma_pubkey_ext, option_view, seeds_view, spec_create_program_address, Pubkey,
};

verus! {

/// The seeds that the signer of a release is derived from: the address of the
/// release record, then one bump byte.
#[derive(Clone, Copy, Debug, PartialEq, Eq)]
pub struct SignerSeeds {
    pub release: Pubkey,
    pub bump: u8,
}

impl View for SignerSeeds {
    type V = Seq<Seq<u8>>;

    open spec fn view(&self) -> Seq<Seq<u8>> {
        seq![self.release@, seq![self.bump]]
    }
}

impl SignerSeeds {
    /// The address that the seeds derive under the program, if any.
    pub open spec fn spec_derive(self, program_id: Pubkey) -> Option<Seq<u8>> {
        spec_create_program_address(self@, program_id@)
    }

    /// The seeds derive `claimed` under the program.
    pub open spec fn spec_verify(self, claimed: Pubkey, program_id: Pubkey) -> bool {
        self.spec_derive(program_id) == Some(claimed@)
    }

    /// The seeds, one byte string each.
    pub fn seeds(&self) -> (seeds: Vec<Vec<u8>>)
        ensures
            seeds_view(seeds@) == self@,
    {
        let mut seeds: Vec<Vec<u8>> = Vec::new();
        seeds.push(self.release.to_vec());
        let mut bump_seed: Vec<u8> = Vec::new();
        bump_seed.push(self.bump);
        seeds.push(bump_seed);
        proof {
            assert(bump_seed@ =~= seq![self.bump]);
            assert(seeds_view(seeds@) =~= self@);
        }
        seeds
    }

    /// Derives the address that may sign with these seeds under the program.
    pub fn derive(&self, program_id: &Pubkey) -> (signer: Option<Pubkey>)
        ensures
            option_view(signer) == self.spec_derive(*program_id),
    {
        let seeds = self.seeds();
        create_program_address(&seeds, program_id)
    }

    /// Whether `claimed` is the address that may sign with these seeds.
    pub fn verify(&self, claimed: &Pubkey, program_id: &Pubkey) -> (ok: bool)
        ensures
            ok == self.spec_verify(*claimed, *program_id),
    {
        match self.derive(program_id) {
            Some(signer) => {
                proof {
                    lemma_pubkey_ext(signer, *claimed);
                }
                signer == *claimed
            },
            None => false,
        }
    }
}

/// A transfer of tokens between two accounts of one mint.
#[derive(Clone, Copy, Debug, PartialEq, Eq)]
pub struct Transfer {
    /// The token program that is asked.
    pub program: Pubkey,
    pub from: Pubkey,
    pub to: Pubkey,
    /// Who allows the transfer: the owner of `from`.
    pub authority: Pubkey,
    pub amount: u64,
}

/// The issue of new tokens of a mint into an account.
#[derive(Clone, Copy, Debug, PartialEq, Eq)]
pub struct MintTo {
    /// The token program that is asked.
    pub program: Pubkey,
    pub mint: Pubkey,
    pub to: Pubkey,
    /// The mint authority, which signs by its seeds.
    pub authority: Pubkey,
    pub signer_seeds: SignerSeeds,
    pub amount: u64,
}

/// The creation of the token account that belongs to an owner and a mint.
#[derive(Clone, Copy, Debug, PartialEq, Eq)]
pub struct CreateAssociatedToken {
    /// The associated-account program that is asked.
    pub program: Pubkey,
    /// Who pays for the new account.
    pub payer: Pubkey,
    /// The account to create.
    pub associated_token: Pubkey,
    /// Who will own the tokens.
    pub authority: Pubkey,
    pub mint: Pubkey,
    pub system_program: Pubkey,
    /// The token program that the new account belongs to.
    pub token_program: Pubkey,
}

/// The creation of the account of a record at the address derived from the
/// mint of the release. The address signs for its own creation, by the tag
/// of a record, the mint and the bump seed.
#[derive(Clone, Copy, Debug, PartialEq, Eq)]
pub struct CreateAccount {
    /// The system program that is asked.
    pub program: Pubkey,
    /// Who pays for the new account.
    pub payer: Pubkey,
    /// The account to create.
    pub account: Pubkey,
    /// The mint that the address is derived from.
    pub mint: Pubkey,
    /// The bump seed that the address was found with.
    pub bump: u8,
    /// The bytes that the account is given.
    pub space: u64,
    /// The program that the account will belong to.
    pub owner: Pubkey,
}

/// The creation of the mint of a release.
#[derive(Clone, Copy, Debug, PartialEq, Eq)]
pub struct CreateMint {
    /// The token program that is asked, and that the mint will belong to.
    pub program: Pubkey,
    /// The system program, which makes the account of the mint.
    pub system_program: Pubkey,
    /// Who pays for the new account.
    pub payer: Pubkey,
    /// The mint to create.
    pub mint: Pubkey,
    pub decimals: u8,
    /// Who may issue units.
    pub mint_authority: Pubkey,
    /// Who may change where the metadata of the mint is found.
    pub metadata_pointer_authority: Pubkey,
    /// The account that holds the metadata of the mint.
    pub metadata_address: Pubkey,
}

/// The first writing of the name, symbol and address of a release into the
/// metadata of its mint.
#[derive(Clone, Debug, PartialEq, Eq)]
pub struct TokenMetadataInitialize {
    /// The token program that is asked.
    pub program_id: Pubkey,
    pub mint: Pubkey,
    /// The account that holds the metadata.
    pub metadata: Pubkey,
    pub mint_authority: Pubkey,
    /// Who may change the metadata later; it signs by its seeds.
    pub update_authority: Pubkey,
    pub signer_seeds: SignerSeeds,
    pub name: String,
    pub symbol: String,
    pub uri: String,
}

/// A field of the metadata of a mint.
#[derive(Clone, Copy, Debug, PartialEq, Eq, Structural)]
pub enum Field {
    Name,
    Symbol,
    Uri,
}

/// The overwriting of one field of the metadata of a mint.
#[derive(Clone, Debug, PartialEq, Eq)]
pub struct TokenMetadataUpdateField {
    /// The token program that is asked.
    pub program_id: Pubkey,
    /// The account that holds the metadata.
    pub metadata: Pubkey,
    /// Who may change the metadata; it signs by its seeds.
    pub update_authority: Pubkey,
    pub signer_seeds: SignerSeeds,
    pub field: Field,
    pub value: String,
}

/// A payment of lamports from one account to another.
#[derive(Clone, Copy, Debug, PartialEq, Eq)]
pub struct SystemTransfer {
    /// The system program that is asked.
    pub program: Pubkey,
    pub from: Pubkey,
    pub to: Pubkey,
    pub lamports: u64,
}

/// The raising of the balance of a mint to the least that an account of its
/// size must hold. Both the size and the balance are read when the time has
/// come, after what the plan asks for before.
#[derive(Clone, Copy, Debug, PartialEq, Eq)]
pub struct MintBalanceUpdate {
    pub mint: Pubkey,
    /// Who pays what is missing.
    pub payer: Pubkey,
    pub system_program: Pubkey,
}

/// The payment that raises a balance of `lamports` to `minimum_balance`:
/// what is missing, and none where nothing is missing.
pub open spec fn spec_missing_lamports(
    system_program: Pubkey,
    payer: Pubkey,
    account: Pubkey,
    lamports: u64,
    minimum_balance: u64,
) -> Option<SystemTransfer> {
    if lamports < minimum_balance {
        Some(
            SystemTransfer {
                program: system_program,
                from: payer,
                to: account,
                lamports: (minimum_balance - lamports) as u64,
            },
        )
    } else {
        None
    }
}

/// The payment by which `payer` raises the balance of `account` to the least
/// that it must hold.
pub fn missing_lamports(
    system_program: &Pubkey,
    payer: &Pubkey,
    account: &Pubkey,
    lamports: u64,
    minimum_balance: u64,
) -> (transfer: Option<SystemTransfer>)
    ensures
        transfer == spec_missing_lamports(*system_program, *payer, *account, lamports, minimum_balance),
        transfer matches Some(t) ==> lamports + t.lamports == minimum_balance,
        transfer is None ==> lamports >= minimum_balance,
{
    if lamports < minimum_balance {
        Some(
            SystemTransfer {
                program: *system_program,
                from: *payer,
                to: *account,
                lamports: minimum_balance - lamports,
            },
        )
    } else {
        None
    }
}

/// How an account comes to be at an address, given what the address holds.
#[derive(Clone, Copy, Debug, PartialEq, Eq)]
pub enum Creation {
    /// The address holds nothing: the account is created with this balance,
    /// its space and its owner at once.
    Create { lamports: u64 },
    /// The address holds lamports already: it is paid what is missing, if
    /// anything is, and then given its space and its owner.
    Fund { transfer: Option<SystemTransfer> },
}

/// How `payer` has an account made at `account`, which holds `lamports` and
/// must hold `minimum_balance`. An address that holds lamports cannot be
/// the payer's own.
pub open spec fn spec_creation(
    system_program: Pubkey,
    payer: Pubkey,
    account: Pubkey,
    lamports: u64,
    minimum_balance: u64,
) -> Result<Creation, ErrorCode> {
    if lamports == 0 {
        Ok(Creation::Create { lamports: minimum_balance })
    } else if payer == account {
        Err(ErrorCode::TryingToInitPayerAsProgramAccount)
    } else {
        Ok(
            Creation::Fund {
                transfer: spec_missing_lamports(system_program, payer, account, lamports, minimum_balance),
            },
        )
    }
}

/// Decides how `payer` has an account made at `account`.
pub fn creation(
    system_program: &Pubkey,
    payer: &Pubkey,
    account: &Pubkey,
    lamports: u64,
    minimum_balance: u64,
) -> (r: Result<Creation, ErrorCode>)
    ensures
        r == spec_creation(*system_program, *payer, *account, lamports, minimum_balance),
{
    if lamports == 0 {
        Ok(Creation::Create { lamports: minimum_balance })
    } else if *payer == *account {
        Err(ErrorCode::TryingToInitPayerAsProgramAccount)
    } else {
        Ok(
            Creation::Fund {
                transfer: missing_lamports(system_program, payer, account, lamports, minimum_balance),
            },
        )
    }
}

impl CreateAccount {
    /// How the account of the record comes to be, given the balance that
    /// its address holds and the least that the account must hold.
    pub fn creation(&self, lamports: u64, minimum_balance: u64) -> (r: Result<Creation, ErrorCode>)
        ensures
            r == spec_creation(self.program, self.payer, self.account, lamports, minimum_balance),
    {
        creation(&self.program, &self.payer, &self.account, lamports, minimum_balance)
    }
}

impl CreateMint {
    /// How the account of the mint comes to be, given the balance that its
    /// address holds and the least that the mint must hold.
    pub fn creation(&self, lamports: u64, minimum_balance: u64) -> (r: Result<Creation, ErrorCode>)
        ensures
            r == spec_creation(self.system_program, self.payer, self.mint, lamports, minimum_balance),
    {
        creation(&self.system_program, &self.payer, &self.mint, lamports, minimum_balance)
    }
}

impl MintBalanceUpdate {
    /// The payment that raises a balance of `lamports` to `minimum_balance`:
    /// what is missing, and none where nothing is missing.
    pub open spec fn spec_top_up(self, lamports: u64, minimum_balance: u64) -> Option<SystemTransfer> {
        spec_missing_lamports(self.system_program, self.payer, self.mint, lamports, minimum_balance)
    }

    /// The payment to ask for, given the balance that the mint holds and
    /// the least that it must hold.
    pub fn top_up(&self, lamports: u64, minimum_balance: u64) -> (transfer: Option<SystemTransfer>)
        ensures
            transfer == self.spec_top_up(lamports, minimum_balance),
            transfer matches Some(t) ==> lamports + t.lamports == minimum_balance,
            transfer is None ==> lamports >= minimum_balance,
    {
        missing_lamports(&self.system_program, &self.payer, &self.mint, lamports, minimum_balance)
    }
}

/// One thing that an operation asks for.
#[derive(Clone, Debug, PartialEq, Eq)]
pub enum Request {
    CreateAccount(CreateAccount),
    CreateMint(CreateMint),
    CreateAssociatedToken(CreateAssociatedToken),
    TokenMetadataInitialize(TokenMetadataInitialize),
    TokenMetadataUpdateField(TokenMetadataUpdateField),
    MintBalanceUpdate(MintBalanceUpdate),
    Transfer(Transfer),
    MintTo(MintTo),
}

} // verus!
