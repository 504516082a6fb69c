use vstd::prelude::*;
use crate::address::Address;

verus! {

/// The address that `create_program_address` derives from a seed tuple (bump
/// included) and a program id, or `None` where it reports an error.
pub uninterp spec fn derived_address(seeds: Seq<Seq<u8>>, program_id: Seq<u8>) -> Option<Seq<u8>>;

/// The most seeds a derivation takes.
pub const MAX_SEEDS: usize = 16;

/// The longest seed a derivation takes.
pub const MAX_SEED_LEN: usize = 32;

/// The seed tuple as byte sequences.
pub open spec fn seeds_view(seeds: Seq<Vec<u8>>) -> Seq<Seq<u8>> {
    seeds.map_values(|s: Vec<u8>| s@)
}

/// The seed tuple with the one-byte bump seed appended.
pub open spec fn with_bump(seeds: Seq<Seq<u8>>, bump: u8) -> Seq<Seq<u8>> {
    seeds.push(seq![bump])
}

/// Whether a seed tuple breaks the limits on the number or length of seeds.
pub open spec fn seeds_too_long(seeds: Seq<Seq<u8>>) -> bool {
    seeds.len() > MAX_SEEDS || exists|i: int| 0 <= i < seeds.len() && seeds[i].len() > MAX_SEED_LEN
}

/// Whether `seeds` with `bump` appended derive `addr` under `program_id`.
pub open spec fn derives(seeds: Seq<Seq<u8>>, bump: u8, program_id: Seq<u8>, addr: Seq<u8>) -> bool {
    derived_address(with_bump(seeds, bump), program_id) == Some(addr)
}

/// Whether `bump` is the canonical bump of `seeds`, deriving `addr`: the
/// largest non-zero bump for which a derivation succeeds.
pub open spec fn is_canonical(seeds: Seq<Seq<u8>>, program_id: Seq<u8>, addr: Seq<u8>, bump: u8) -> bool {
    &&& 1 <= bump
    &&& derives(seeds, bump, program_id, addr)
    &&& forall|k: u8| bump < k ==> (#[trigger] derived_address(with_bump(seeds, k), program_id)) is None
}

/// Whether no non-zero bump yields a derivation of `seeds`.
pub open spec fn has_no_bump(seeds: Seq<Seq<u8>>, program_id: Seq<u8>) -> bool {
    forall|k: u8| 1 <= k ==> (#[trigger] derived_address(with_bump(seeds, k), program_id)) is None
}

/// Whether some bump is canonical for `seeds` and derives `addr`.
pub open spec fn canonical_key(seeds: Seq<Seq<u8>>, program_id: Seq<u8>, addr: Seq<u8>) -> bool {
    exists|b: u8| is_canonical(seeds, program_id, addr, b)
}

/// A seed tuple has at most one canonical bump, and so at most one canonical
/// address.
pub proof fn lemma_canonical_unique(seeds: Seq<Seq<u8>>, program_id: Seq<u8>, a1: Seq<u8>, b1: u8, a2: Seq<u8>, b2: u8)
    requires
        is_canonical(seeds, program_id, a1, b1),
        is_canonical(seeds, program_id, a2, b2),
    ensures
        a1 == a2,
        b1 == b2,
{
    if b1 < b2 {
        assert(derived_address(with_bump(seeds, b2), program_id) is None);
    } else if b2 < b1 {
        assert(derived_address(with_bump(seeds, b1), program_id) is None);
    }
}

pub open spec fn opt_address_view(a: Option<Address>) -> Option<Seq<u8>> {
    match a {
        Some(x) => Some(x@),
        None => None,
    }
}

/// Relies on `Pubkey::create_program_address` of solana-program: the address
/// derived from the seeds and the program id, or an error where there are more
/// than sixteen seeds, a seed longer than thirty-two bytes, or the hash lies on
/// the curve.
#[verifier::external_body]
pub(crate) fn create_program_address(seeds: &Vec<Vec<u8>>, program_id: &Address) -> (r: Option<Address>)
    ensures
        opt_address_view(r) == derived_address(seeds_view(seeds@), program_id@),
        seeds_too_long(seeds_view(seeds@)) ==> r is None,
{
    let refs: Vec<&[u8]> = seeds.iter().map(|s| s.as_slice()).collect();
    let pid = solana_program::pubkey::Pubkey::new_from_array(program_id.bytes);
    match solana_program::pubkey::Pubkey::create_program_address(&refs, &pid) {
        Ok(k) => Some(Address { bytes: k.to_bytes() }),
        Err(_) => None,
    }
}

/// Relies on `Pubkey::try_find_program_address` of solana-program: it tries the
/// bumps from 255 down to 1 with `create_program_address` and returns the first
/// address derived, with its bump, or `None` where no bump succeeds.
#[verifier::external_body]
pub(crate) fn try_find_program_address(seeds: &Vec<Vec<u8>>, program_id: &Address) -> (r: Option<(Address, u8)>)
    ensures
        match r {
            Some((a, b)) => is_canonical(seeds_view(seeds@), program_id@, a@, b),
            None => has_no_bump(seeds_view(seeds@), program_id@),
        },
{
    let refs: Vec<&[u8]> = seeds.iter().map(|s| s.as_slice()).collect();
    let pid = solana_program::pubkey::Pubkey::new_from_array(program_id.bytes);
    solana_program::pubkey::Pubkey::try_find_program_address(&refs, &pid)
        .map(|(k, b)| (Address { bytes: k.to_bytes() }, b))
}

} // verus!
