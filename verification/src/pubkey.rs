//! Account addresses and the derivation of program addresses.

use vstd::prelude::*;
use vstd::std_specs::cmp::PartialEqSpecImpl;

verus! {

/// A 32-byte account address.
#[derive(Clone, Copy, Debug, Eq, Hash)]
pub struct Pubkey {
    pub bytes: [u8; 32],
}

impl View for Pubkey {
    type V = Seq<u8>;

    open spec fn view(&self) -> Seq<u8> {
        self.bytes@
    }
}

impl PartialEq for Pubkey {
    fn eq(&self, other: &Pubkey) -> (r: bool) {
        let mut i: usize = 0;
        while i < 32
            invariant
                i <= 32,
                forall|j: int| 0 <= j < i ==> self.bytes[j] == other.bytes[j],
            decreases 32 - i,
        {
            if self.bytes[i] != other.bytes[i] {
                return false;
            }
            i += 1;
        }
        proof {
            assert(self.bytes =~= other.bytes);
        }
        true
    }
}

impl PartialEqSpecImpl for Pubkey {
    open spec fn obeys_eq_spec() -> bool {
        true
    }

    open spec fn eq_spec(&self, other: &Pubkey) -> bool {
        *self == *other
    }
}

/// Two addresses are the same exactly when their bytes are.
pub proof fn lemma_pubkey_ext(a: Pubkey, b: Pubkey)
    ensures
        (a == b) <==> (a@ == b@),
        a@.len() == 32,
{
    if a@ == b@ {
        assert(a.bytes =~= b.bytes);
    }
}

impl Pubkey {
    /// The address with the given bytes.
    pub fn new_from_array(bytes: [u8; 32]) -> (key: Pubkey)
        ensures
            key.bytes == bytes,
            key@ == bytes@,
    {
        Pubkey { bytes }
    }

    /// The bytes of the address.
    pub fn to_bytes(&self) -> (bytes: [u8; 32])
        ensures
            bytes == self.bytes,
    {
        self.bytes
    }

    /// The bytes of the address as a seed.
    pub fn to_vec(&self) -> (seed: Vec<u8>)
        ensures
            seed@ == self@,
    {
        let mut seed: Vec<u8> = Vec::new();
        let mut i: usize = 0;
        while i < 32
            invariant
                i <= 32,
                seed@.len() == i,
                forall|j: int| 0 <= j < i ==> seed@[j] == self.bytes[j],
            decreases 32 - i,
        {
            seed.push(self.bytes[i]);
            i += 1;
        }
        proof {
            assert(seed@ =~= self@);
        }
        seed
    }
}

/// Longest seed that an address can be derived from.
pub const MAX_SEED_LEN: usize = 32;

/// Largest number of seeds that an address can be derived from.
pub const MAX_SEEDS: usize = 16;

/// The seeds are few enough and short enough to derive an address from.
pub open spec fn seeds_within_limits(seeds: Seq<Seq<u8>>) -> bool {
    &&& seeds.len() <= MAX_SEEDS
    &&& forall|i: int| 0 <= i < seeds.len() ==> (#[trigger] seeds[i]).len() <= MAX_SEED_LEN
}

/// The seeds as byte sequences.
pub open spec fn seeds_view(seeds: Seq<Vec<u8>>) -> Seq<Seq<u8>> {
    Seq::new(seeds.len(), |i: int| seeds[i]@)
}

/// The bytes of an address that may be absent.
pub open spec fn option_view(key: Option<Pubkey>) -> Option<Seq<u8>> {
    match key {
        Some(k) => Some(k@),
        None => None,
    }
}

/// The bytes of an address found together with its bump seed.
pub open spec fn found_view(found: Option<(Pubkey, u8)>) -> Option<(Seq<u8>, u8)> {
    match found {
        Some((key, bump)) => Some((key@, bump)),
        None => None,
    }
}

/// What `Pubkey::create_program_address` returns for these seeds under this
/// program: the derived address, or `None` where it reports an error.
pub uninterp spec fn spec_create_program_address(seeds: Seq<Seq<u8>>, program_id: Seq<u8>) -> Option<Seq<u8>>;

/// Calls `anchor_lang::prelude::Pubkey::create_program_address`.
///
/// Trusted: the result is a function of the seeds and the program id alone,
/// and no address comes back where there are more than `MAX_SEEDS` seeds or
/// one of them is longer than `MAX_SEED_LEN`. Every error of the outside
/// function is handed on as `None`.
#[verifier::external_body]
pub(crate) fn create_program_address(seeds: &Vec<Vec<u8>>, program_id: &Pubkey) -> (r: Option<Pubkey>)
    ensures
        option_view(r) == spec_create_program_address(seeds_view(seeds@), program_id@),
        !seeds_within_limits(seeds_view(seeds@)) ==> r is None,
{
    let mut slices: Vec<&[u8]> = Vec::new();
    for seed in seeds.iter() {
        slices.push(seed.as_slice());
    }
    let program = anchor_lang::prelude::Pubkey::new_from_array(program_id.bytes);
    match anchor_lang::prelude::Pubkey::create_program_address(&slices, &program) {
        Ok(key) => Some(Pubkey { bytes: key.to_bytes() }),
        Err(_) => None,
    }
}

/// The seeds followed by a bump seed of one byte.
pub open spec fn with_bump(seeds: Seq<Seq<u8>>, bump: u8) -> Seq<Seq<u8>> {
    seeds.push(seq![bump])
}

/// The address and bump seed found when the bump seeds from `bump` down to 1
/// are tried in turn: the first that derives an address wins.
pub open spec fn spec_find_from(seeds: Seq<Seq<u8>>, program_id: Seq<u8>, bump: u8) -> Option<(Seq<u8>, u8)>
    decreases bump,
{
    if bump == 0 {
        None
    } else {
        match spec_create_program_address(with_bump(seeds, bump), program_id) {
            Some(key) => Some((key, bump)),
            None => spec_find_from(seeds, program_id, (bump - 1) as u8),
        }
    }
}

/// The canonical program address of the seeds: the one derived with the
/// greatest bump seed, from 255 down to 1, that derives any.
pub open spec fn spec_try_find_program_address(seeds: Seq<Seq<u8>>, program_id: Seq<u8>) -> Option<(Seq<u8>, u8)> {
    spec_find_from(seeds, program_id, 255)
}

/// Finds the canonical program address of the seeds and its bump seed. None
/// is found for more than `MAX_SEEDS - 1` seeds, or for a seed longer than
/// `MAX_SEED_LEN`.
pub fn try_find_program_address(seeds: Vec<Vec<u8>>, program_id: &Pubkey) -> (found: Option<(Pubkey, u8)>)
    ensures
        found_view(found) == spec_try_find_program_address(seeds_view(seeds@), program_id@),
        !seeds_within_limits(with_bump(seeds_view(seeds@), 255)) ==> found is None,
{
    let ghost base = seeds_view(seeds@);
    let mut work = seeds;
    let mut bump: u8 = 255;
    while bump > 0
        invariant
            base == seeds_view(seeds@),
            seeds_view(work@) == base,
            spec_find_from(base, program_id@, bump) == spec_try_find_program_address(base, program_id@),
        decreases bump,
    {
        let mut bump_seed: Vec<u8> = Vec::new();
        bump_seed.push(bump);
        work.push(bump_seed);
        proof {
            assert(bump_seed@ =~= seq![bump]);
            assert(seeds_view(work@) =~= with_bump(base, bump));
        }
        let derived = create_program_address(&work, program_id);
        work.pop();
        proof {
            assert(seeds_view(work@) =~= base);
        }
        match derived {
            Some(key) => {
                proof {
                    let long = with_bump(base, 255);
                    let tried = with_bump(base, bump);
                    if !seeds_within_limits(long) {
                        assert(tried.len() == long.len());
                        if long.len() <= MAX_SEEDS {
                            let i = choose|i: int|
                                0 <= i < long.len() && (#[trigger] long[i]).len() > MAX_SEED_LEN;
                            assert(tried[i].len() == long[i].len());
                        }
                        assert(!seeds_within_limits(tried));
                    }
                }
                return Some((key, bump));
            },
            None => {},
        }
        bump -= 1;
    }
    None
}

} // verus!
