//! Rules shared by the operations.

use vstd::prelude::*;
use crate::errors::NinaError;
use crate::pubkey::Pubkey;

verus! {

/// The payer is the party that the operation names, or one of the delegates.
pub open spec fn payer_allowed(payer: Pubkey, expected: Pubkey, delegates: Seq<Pubkey>) -> bool {
    payer == expected || delegates.contains(payer)
}

/// Whether `key` is one of `keys`.
pub fn contains_key(keys: &Vec<Pubkey>, key: &Pubkey) -> (found: bool)
    ensures
        found == keys@.contains(*key),
{
    let mut i: usize = 0;
    while i < keys.len()
        invariant
            i <= keys.len(),
            forall|j: int| 0 <= j < i ==> keys@[j] != *key,
        decreases keys.len() - i,
    {
        if keys[i] == *key {
            return true;
        }
        i += 1;
    }
    false
}

/// Rejects a payer that is neither the party that the operation names nor
/// one of the delegates.
pub fn check_delegated_payer(payer: &Pubkey, expected: &Pubkey, delegates: &Vec<Pubkey>) -> (r: Result<
    (),
    NinaError,
>)
    ensures
        payer_allowed(*payer, *expected, delegates@) ==> r == Ok::<(), NinaError>(()),
        !payer_allowed(*payer, *expected, delegates@) ==> r == Err::<(), NinaError>(
            NinaError::DelegatedPayerMismatch,
        ),
{
    if *payer == *expected {
        Ok(())
    } else if contains_key(delegates, payer) {
        Ok(())
    } else {
        Err(NinaError::DelegatedPayerMismatch)
    }
}

} // verus!
