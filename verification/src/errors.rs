//! The ways in which an operation on a release is rejected.

use vstd::prelude::*;

verus! {

/// Why the sale rules reject an operation.
#[derive(Clone, Copy, Debug, PartialEq, Eq, Structural)]
pub enum NinaError {
    /// Reserved: the receiver of a purchase is not the expected one.
    ReleasePurchaseWrongReceiver,
    /// The payment offered differs from the price of the release.
    ReleasePurchaseWrongAmount,
    /// The issued supply has reached the cap of the release.
    ReleasePurchaseSoldOut,
    /// An amount does not fit in 64 bits.
    ArithmeticError,
    /// The payer is neither the expected party nor an allow-listed delegate.
    DelegatedPayerMismatch,
}

/// The first code that an error of the sale rules is reported under.
pub const ERROR_CODE_OFFSET: u32 = 6000;

impl NinaError {
    /// The position of the error in the list of errors.
    pub open spec fn index(self) -> nat {
        match self {
            NinaError::ReleasePurchaseWrongReceiver => 0,
            NinaError::ReleasePurchaseWrongAmount => 1,
            NinaError::ReleasePurchaseSoldOut => 2,
            NinaError::ArithmeticError => 3,
            NinaError::DelegatedPayerMismatch => 4,
        }
    }

    /// The code that the error is reported under.
    pub fn code(&self) -> (code: u32)
        ensures
            code == ERROR_CODE_OFFSET + self.index(),
    {
        match self {
            NinaError::ReleasePurchaseWrongReceiver => ERROR_CODE_OFFSET,
            NinaError::ReleasePurchaseWrongAmount => ERROR_CODE_OFFSET + 1,
            NinaError::ReleasePurchaseSoldOut => ERROR_CODE_OFFSET + 2,
            NinaError::ArithmeticError => ERROR_CODE_OFFSET + 3,
            NinaError::DelegatedPayerMismatch => ERROR_CODE_OFFSET + 4,
        }
    }

    /// The text of the error.
    pub open spec fn spec_message(self) -> Seq<char> {
        match self {
            NinaError::ReleasePurchaseWrongReceiver => "Release Purchase wrong receiver"@,
            NinaError::ReleasePurchaseWrongAmount => "Release Purchase wrong amount"@,
            NinaError::ReleasePurchaseSoldOut => "Release Purchase sold out"@,
            NinaError::ArithmeticError => "Arithmetic error"@,
            NinaError::DelegatedPayerMismatch => "Delegated Payer Mismatch"@,
        }
    }

    /// The text of the error.
    pub fn message(&self) -> (text: String)
        ensures
            text@ == self.spec_message(),
    {
        match self {
            NinaError::ReleasePurchaseWrongReceiver => "Release Purchase wrong receiver".to_owned(),
            NinaError::ReleasePurchaseWrongAmount => "Release Purchase wrong amount".to_owned(),
            NinaError::ReleasePurchaseSoldOut => "Release Purchase sold out".to_owned(),
            NinaError::ArithmeticError => "Arithmetic error".to_owned(),
            NinaError::DelegatedPayerMismatch => "Delegated Payer Mismatch".to_owned(),
        }
    }
}

/// Why the accounts given to an operation are rejected.
#[derive(Clone, Copy, Debug, PartialEq, Eq, Structural)]
pub enum ErrorCode {
    /// Two identities that must agree differ.
    ConstraintRaw,
    /// An address is not the one derived from its seeds, or the bump seed
    /// given does not derive the signer.
    ConstraintSeeds,
    /// A token account is not at the address that belongs to its owner and
    /// mint.
    ConstraintAssociated,
    /// A token account belongs to another token program.
    ConstraintAssociatedTokenTokenProgram,
    /// A token account holds tokens of another mint.
    ConstraintTokenMint,
    /// A token account has another owner.
    ConstraintTokenOwner,
    /// The account to issue into is not at the address that belongs to its
    /// owner and mint.
    AccountNotAssociatedTokenAccount,
    /// The record to create exists already.
    AccountAlreadyInUse,
    /// The account to create is the payer's own, which holds lamports.
    TryingToInitPayerAsProgramAccount,
}

/// Why an operation is rejected: its accounts, or the sale rules.
#[derive(Clone, Copy, Debug, PartialEq, Eq, Structural)]
pub enum Error {
    Accounts(ErrorCode),
    Nina(NinaError),
}

} // verus!
