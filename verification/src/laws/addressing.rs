//! Laws of address derivation.

use vstd::prelude::*;
use crate::address::{
    derived_view, program_address, search, seeds_of, spec_claim, spec_derive, spec_verify, with_bump, Namespace, ID_BYTES,
};
use crate::pubkey::Pubkey;

verus! {

proof fn lemma_search_proves(seeds: Seq<Seq<u8>>, program_id: Seq<u8>, from: nat)
    ensures
        match search(seeds, program_id, from) {
            Some((address, bump)) => program_address(with_bump(seeds, bump), program_id) == Some(address),
            None => true,
        },
    decreases from,
{
    if from != 0 && from <= 255 {
        if program_address(with_bump(seeds, from as u8), program_id) is None {
            lemma_search_proves(seeds, program_id, (from - 1) as nat);
        }
    }
}

/// The bump that a derivation yields proves the address that it yields:
/// whoever holds the namespace, the parts and the bump can check the address
/// without trusting the party that derived it.
pub proof fn law_derived_address_verifies(namespace: Namespace, parts: Seq<Seq<u8>>)
    ensures
        match spec_derive(namespace, parts) {
            Some((address, bump)) => spec_verify(namespace, parts, bump, address),
            None => true,
        },
{
    lemma_search_proves(seeds_of(namespace, parts), ID_BYTES@, 255);
}

/// A derivation is a function of the namespace and the parts: two results
/// for the same inputs are the same address with the same bump.
pub proof fn law_derive_deterministic(
    namespace: Namespace,
    parts: Seq<Seq<u8>>,
    first: Option<(Pubkey, u8)>,
    second: Option<(Pubkey, u8)>,
)
    requires
        derived_view(first) == spec_derive(namespace, parts),
        derived_view(second) == spec_derive(namespace, parts),
    ensures
        first == second,
{
    match (first, second) {
        (Some((one, _)), Some((other, _))) => {
            crate::pubkey::lemma_view_injective(one, other);
        },
        _ => {},
    }
}

/// A bump proves at most one address: two candidates that the same bump
/// proves for the same namespace and parts are the same key.
pub proof fn law_proof_binds_address(namespace: Namespace, parts: Seq<Seq<u8>>, bump: u8, first: Pubkey, second: Pubkey)
    requires
        spec_verify(namespace, parts, bump, first@),
        spec_verify(namespace, parts, bump, second@),
    ensures
        first == second,
{
    crate::pubkey::lemma_view_injective(first, second);
}

/// Only the derived address can be claimed: a claim succeeds exactly for the
/// address that the derivation yields, and returns its bump.
pub proof fn law_claim_only_derived(namespace: Namespace, parts: Seq<Seq<u8>>, presented: Pubkey)
    ensures
        match spec_claim(spec_derive(namespace, parts), presented) {
            Ok(bump) => spec_derive(namespace, parts) == Some((presented@, bump)) && spec_verify(
                namespace,
                parts,
                bump,
                presented@,
            ),
            Err(_) => match spec_derive(namespace, parts) {
                Some((address, _)) => address != presented@,
                None => true,
            },
        },
{
    law_derived_address_verifies(namespace, parts);
}

} // verus!
