//! The record of one release.

use vstd::prelude::*;
use vstd::bytes::{
    lemma_auto_spec_u64_to_from_le_bytes, spec_u64_from_le_bytes, spec_u64_to_le_bytes, u64_from_le_bytes,
    u64_to_le_bytes,
};
use vstd::slice::slice_subrange;
use crate::pubkey::{lemma_pubkey_ext, Pubkey};

verus! {

/// The bytes that the account of a record is given.
pub const RELEASE_SPACE: u64 = 232;

/// The bytes that a record fills: five addresses of 32 bytes, then the cap
/// and the price, 8 bytes each.
pub const RELEASE_LEN: usize = 176;

/// The sale terms and identities of one release.
///
/// `total_supply` is the cap of the sale, not a count: the units issued so
/// far are counted by the mint of the release.
#[derive(Clone, Copy, Debug, PartialEq, Eq)]
pub struct ReleaseV2 {
    /// Who may update and close the release.
    pub authority: Pubkey,
    /// The derived address that signs token operations for the release.
    pub release_signer: Pubkey,
    /// The mint of the token that stands for the release.
    pub mint: Pubkey,
    /// The token account that the payments of buyers are credited to.
    pub royalty_token_account: Pubkey,
    /// The mint of the currency that the release is paid in.
    pub payment_mint: Pubkey,
    /// The cap of the sale.
    pub total_supply: u64,
    /// The payment that one unit costs.
    pub price: u64,
}

/// Reads the address that starts at `offset`.
fn read_pubkey(bytes: &[u8], offset: usize) -> (key: Pubkey)
    requires
        offset + 32 <= bytes@.len(),
    ensures
        key@ == bytes@.subrange(offset as int, offset + 32),
{
    let len: usize = bytes.len();
    let mut array: [u8; 32] = [0u8; 32];
    let mut i: usize = 0;
    while i < 32
        invariant
            i <= 32,
            len == bytes@.len(),
            offset + 32 <= len,
            forall|j: int| 0 <= j < i ==> array[j] == bytes@[offset + j],
        decreases 32 - i,
    {
        array[i] = bytes[offset + i];
        i += 1;
    }
    let key = Pubkey { bytes: array };
    proof {
        assert(key@ =~= bytes@.subrange(offset as int, offset + 32));
    }
    key
}

impl ReleaseV2 {
    /// The bytes of the record: the authority, the signer, the mint, the
    /// royalty account and the payment mint, then the cap and the price,
    /// each with its lowest byte first.
    pub open spec fn spec_to_bytes(self) -> Seq<u8> {
        self.authority@ + self.release_signer@ + self.mint@ + self.royalty_token_account@ + self.payment_mint@
            + spec_u64_to_le_bytes(self.total_supply) + spec_u64_to_le_bytes(self.price)
    }

    /// Writes the record as the bytes that the ledger keeps.
    pub fn to_bytes(&self) -> (bytes: Vec<u8>)
        ensures
            bytes@ == self.spec_to_bytes(),
            bytes@.len() == RELEASE_LEN,
    {
        proof {
            lemma_pubkey_ext(self.authority, self.authority);
            lemma_pubkey_ext(self.release_signer, self.release_signer);
            lemma_pubkey_ext(self.mint, self.mint);
            lemma_pubkey_ext(self.royalty_token_account, self.royalty_token_account);
            lemma_pubkey_ext(self.payment_mint, self.payment_mint);
        }
        let mut bytes: Vec<u8> = self.authority.to_vec();
        let mut part: Vec<u8> = self.release_signer.to_vec();
        bytes.append(&mut part);
        let mut part: Vec<u8> = self.mint.to_vec();
        bytes.append(&mut part);
        let mut part: Vec<u8> = self.royalty_token_account.to_vec();
        bytes.append(&mut part);
        let mut part: Vec<u8> = self.payment_mint.to_vec();
        bytes.append(&mut part);
        let mut part: Vec<u8> = u64_to_le_bytes(self.total_supply);
        bytes.append(&mut part);
        let mut part: Vec<u8> = u64_to_le_bytes(self.price);
        bytes.append(&mut part);
        bytes
    }

    /// Reads a record from the bytes that the ledger keeps. What follows the
    /// record is passed over; fewer bytes than a record fills give none.
    pub fn from_bytes(bytes: &[u8]) -> (record: Option<ReleaseV2>)
        ensures
            bytes@.len() < RELEASE_LEN ==> record is None,
            bytes@.len() >= RELEASE_LEN ==> {
                &&& record matches Some(r)
                &&& r.spec_to_bytes() == bytes@.subrange(0, RELEASE_LEN as int)
            },
    {
        if bytes.len() < RELEASE_LEN {
            return None;
        }
        let record = ReleaseV2 {
            authority: read_pubkey(bytes, 0),
            release_signer: read_pubkey(bytes, 32),
            mint: read_pubkey(bytes, 64),
            royalty_token_account: read_pubkey(bytes, 96),
            payment_mint: read_pubkey(bytes, 128),
            total_supply: u64_from_le_bytes(slice_subrange(bytes, 160, 168)),
            price: u64_from_le_bytes(slice_subrange(bytes, 168, 176)),
        };
        proof {
            lemma_auto_spec_u64_to_from_le_bytes();
            assert(spec_u64_to_le_bytes(record.total_supply) == bytes@.subrange(160, 168));
            assert(spec_u64_to_le_bytes(record.price) == bytes@.subrange(168, 176));
            assert(record.spec_to_bytes() =~= bytes@.subrange(0, RELEASE_LEN as int));
        }
        Some(record)
    }
}

/// Two records with the same bytes are the same record, so that a record is
/// read back from its bytes as it was written.
pub proof fn lemma_bytes_determine_record(a: ReleaseV2, b: ReleaseV2)
    requires
        a.spec_to_bytes() == b.spec_to_bytes(),
    ensures
        a == b,
{
    lemma_auto_spec_u64_to_from_le_bytes();
    lemma_pubkey_ext(a.authority, b.authority);
    lemma_pubkey_ext(a.release_signer, b.release_signer);
    lemma_pubkey_ext(a.mint, b.mint);
    lemma_pubkey_ext(a.royalty_token_account, b.royalty_token_account);
    lemma_pubkey_ext(a.payment_mint, b.payment_mint);
    let x = a.spec_to_bytes();
    let y = b.spec_to_bytes();
    assert(a.authority@ =~= x.subrange(0, 32));
    assert(b.authority@ =~= y.subrange(0, 32));
    assert(a.release_signer@ =~= x.subrange(32, 64));
    assert(b.release_signer@ =~= y.subrange(32, 64));
    assert(a.mint@ =~= x.subrange(64, 96));
    assert(b.mint@ =~= y.subrange(64, 96));
    assert(a.royalty_token_account@ =~= x.subrange(96, 128));
    assert(b.royalty_token_account@ =~= y.subrange(96, 128));
    assert(a.payment_mint@ =~= x.subrange(128, 160));
    assert(b.payment_mint@ =~= y.subrange(128, 160));
    assert(spec_u64_to_le_bytes(a.total_supply) =~= x.subrange(160, 168));
    assert(spec_u64_to_le_bytes(b.total_supply) =~= y.subrange(160, 168));
    assert(spec_u64_to_le_bytes(a.price) =~= x.subrange(168, 176));
    assert(spec_u64_to_le_bytes(b.price) =~= y.subrange(168, 176));
    assert(a.total_supply == spec_u64_from_le_bytes(spec_u64_to_le_bytes(a.total_supply)));
    assert(b.total_supply == spec_u64_from_le_bytes(spec_u64_to_le_bytes(b.total_supply)));
    assert(a.price == spec_u64_from_le_bytes(spec_u64_to_le_bytes(a.price)));
    assert(b.price == spec_u64_from_le_bytes(spec_u64_to_le_bytes(b.price)));
}

} // verus!
