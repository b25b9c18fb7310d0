//! Deterministic addresses. The address of a record is derived from a namespace
//! tag and the record's identifying fields; the derivation also yields a bump
//! byte, which is stored in the record as the proof of its address.

use vstd::prelude::*;
use crate::error::ErrorCode;
use crate::pubkey::Pubkey;

verus! {

/// The bytes of the program's own key, under which every address is derived.
pub const ID_BYTES: [u8; 32] = [
    170, 205, 94, 159, 58, 206, 102, 147, 201, 145, 40, 93, 107, 15, 193, 238,
    102, 118, 62, 155, 124, 187, 74, 140, 47, 180, 121, 80, 123, 113, 121, 82,
];

/// The program's own key.
pub fn id() -> (key: Pubkey)
    ensures
        key.bytes == ID_BYTES,
{
    Pubkey { bytes: ID_BYTES }
}

/// The kind of record that an address belongs to. Its tag is the first seed
/// of the derivation.
#[derive(Clone, Copy, Debug, PartialEq, Eq, Structural)]
pub enum Namespace {
    User,
    Group,
    Member,
    Invite,
    Challenge,
    Submission,
    Voter,
    Escrow,
    Message,
}

impl Namespace {
    /// The tag of the namespace: its lower-case name in ASCII.
    pub open spec fn spec_tag(self) -> Seq<u8> {
        match self {
            Namespace::User => seq![117u8, 115, 101, 114],
            Namespace::Group => seq![103u8, 114, 111, 117, 112],
            Namespace::Member => seq![109u8, 101, 109, 98, 101, 114],
            Namespace::Invite => seq![105u8, 110, 118, 105, 116, 101],
            Namespace::Challenge => seq![99u8, 104, 97, 108, 108, 101, 110, 103, 101],
            Namespace::Submission => seq![115u8, 117, 98, 109, 105, 115, 115, 105, 111, 110],
            Namespace::Voter => seq![118u8, 111, 116, 101, 114],
            Namespace::Escrow => seq![101u8, 115, 99, 114, 111, 119],
            Namespace::Message => seq![109u8, 101, 115, 115, 97, 103, 101],
        }
    }

    /// The tag of the namespace: its lower-case name in ASCII.
    pub fn tag(&self) -> (tag: Vec<u8>)
        ensures
            tag@ == self.spec_tag(),
    {
        match self {
            Namespace::User => vec![117u8, 115, 101, 114],
            Namespace::Group => vec![103u8, 114, 111, 117, 112],
            Namespace::Member => vec![109u8, 101, 109, 98, 101, 114],
            Namespace::Invite => vec![105u8, 110, 118, 105, 116, 101],
            Namespace::Challenge => vec![99u8, 104, 97, 108, 108, 101, 110, 103, 101],
            Namespace::Submission => vec![115u8, 117, 98, 109, 105, 115, 115, 105, 111, 110],
            Namespace::Voter => vec![118u8, 111, 116, 101, 114],
            Namespace::Escrow => vec![101u8, 115, 99, 114, 111, 119],
            Namespace::Message => vec![109u8, 101, 115, 115, 97, 103, 101],
        }
    }
}

/// The address that the given seeds yield under the given program key, where
/// they yield one: a hash of the seeds and the key that does not lie on the
/// signature curve. `None` stands for every failure: too many seeds, a seed
/// that is too long, or a hash that lies on the curve.
pub uninterp spec fn program_address(seeds: Seq<Seq<u8>>, program_id: Seq<u8>) -> Option<Seq<u8>>;

/// The seeds with the bump byte added as the last seed.
pub open spec fn with_bump(seeds: Seq<Seq<u8>>, bump: u8) -> Seq<Seq<u8>> {
    seeds.push(seq![bump])
}

/// The seeds held by a vector of byte vectors.
pub open spec fn seeds_view(seeds: Vec<Vec<u8>>) -> Seq<Seq<u8>> {
    Seq::new(seeds@.len(), |i: int| seeds@[i]@)
}

/// The bytes of an address that may be absent.
pub open spec fn bytes_of(address: Option<Pubkey>) -> Option<Seq<u8>> {
    match address {
        Some(key) => Some(key@),
        None => None,
    }
}

/// `Pubkey::create_program_address` of the outside key type: the address of
/// the seeds as they stand, with no bump searched for. Not proved, but taken
/// from that function: its result is a function of the seeds and the program
/// key alone, which `program_address` names. An `Ok` of the outside function
/// is handed on as `Some` with the same bytes, every error as `None`.
#[verifier::external_body]
fn create_program_address(seeds: &Vec<Vec<u8>>, program_id: &Pubkey) -> (address: Option<Pubkey>)
    ensures
        bytes_of(address) == program_address(seeds_view(*seeds), program_id@),
{
    let parts: Vec<&[u8]> = seeds.iter().map(|seed| seed.as_slice()).collect();
    let program = anchor_lang::prelude::Pubkey::new_from_array(program_id.bytes);
    match anchor_lang::prelude::Pubkey::create_program_address(&parts, &program) {
        Ok(key) => Some(Pubkey { bytes: key.to_bytes() }),
        Err(_) => None,
    }
}

/// `Pubkey::try_find_program_address` of the outside key type. Not proved,
/// but taken from that function: it tries the bump bytes from 255 down to 1,
/// each as a last seed after the given ones, and returns the first for which
/// `create_program_address` yields an address, together with that address;
/// it returns `None` where none of them yields one. The bump 0 is never
/// tried.
#[verifier::external_body]
fn try_find_program_address(seeds: &Vec<Vec<u8>>, program_id: &Pubkey) -> (found: Option<(Pubkey, u8)>)
    ensures
        match found {
            Some((address, bump)) => {
                &&& 1 <= bump
                &&& program_address(with_bump(seeds_view(*seeds), bump), program_id@) == Some(address@)
                &&& forall|higher: u8| bump < higher ==>
                        program_address(#[trigger] with_bump(seeds_view(*seeds), higher), program_id@) is None
            },
            None => forall|bump: u8| 1 <= bump ==>
                        program_address(#[trigger] with_bump(seeds_view(*seeds), bump), program_id@) is None,
        },
{
    let parts: Vec<&[u8]> = seeds.iter().map(|seed| seed.as_slice()).collect();
    let program = anchor_lang::prelude::Pubkey::new_from_array(program_id.bytes);
    match anchor_lang::prelude::Pubkey::try_find_program_address(&parts, &program) {
        Some((key, bump)) => Some((Pubkey { bytes: key.to_bytes() }, bump)),
        None => None,
    }
}

/// The first bump, counting down from `bump`, for which the seeds yield an
/// address, with that address.
pub open spec fn search(seeds: Seq<Seq<u8>>, program_id: Seq<u8>, bump: nat) -> Option<(Seq<u8>, u8)>
    decreases bump,
{
    if bump == 0 || bump > 255 {
        None
    } else {
        match program_address(with_bump(seeds, bump as u8), program_id) {
            Some(address) => Some((address, bump as u8)),
            None => search(seeds, program_id, (bump - 1) as nat),
        }
    }
}

/// The seeds of a record: the tag of its namespace, then its identifying parts.
pub open spec fn seeds_of(namespace: Namespace, parts: Seq<Seq<u8>>) -> Seq<Seq<u8>> {
    seq![namespace.spec_tag()] + parts
}

/// The address and bump derived for a record of the namespace with the given
/// identifying parts, where there is one.
pub open spec fn spec_derive(namespace: Namespace, parts: Seq<Seq<u8>>) -> Option<(Seq<u8>, u8)> {
    search(seeds_of(namespace, parts), ID_BYTES@, 255)
}

/// Whether `bump` proves that `candidate` is the address of the record of the
/// namespace with the given identifying parts.
pub open spec fn spec_verify(namespace: Namespace, parts: Seq<Seq<u8>>, bump: u8, candidate: Seq<u8>) -> bool {
    program_address(with_bump(seeds_of(namespace, parts), bump), ID_BYTES@) == Some(candidate)
}

/// The view of a derivation's result.
pub open spec fn derived_view(derived: Option<(Pubkey, u8)>) -> Option<(Seq<u8>, u8)> {
    match derived {
        Some((address, bump)) => Some((address@, bump)),
        None => None,
    }
}

proof fn lemma_search_none(seeds: Seq<Seq<u8>>, program_id: Seq<u8>, bump: nat)
    requires
        bump <= 255,
        forall|b: u8| 1 <= b <= bump ==> program_address(#[trigger] with_bump(seeds, b), program_id) is None,
    ensures
        search(seeds, program_id, bump) is None,
    decreases bump,
{
    if bump > 0 {
        assert(program_address(with_bump(seeds, bump as u8), program_id) is None);
        lemma_search_none(seeds, program_id, (bump - 1) as nat);
    }
}

proof fn lemma_search_first(seeds: Seq<Seq<u8>>, program_id: Seq<u8>, from: nat, bump: u8, address: Seq<u8>)
    requires
        1 <= bump <= from <= 255,
        program_address(with_bump(seeds, bump), program_id) == Some(address),
        forall|higher: u8| bump < higher ==> program_address(#[trigger] with_bump(seeds, higher), program_id) is None,
    ensures
        search(seeds, program_id, from) == Some((address, bump)),
    decreases from,
{
    if from > bump {
        assert(program_address(with_bump(seeds, from as u8), program_id) is None);
        lemma_search_first(seeds, program_id, (from - 1) as nat, bump, address);
    }
}

/// The seeds of a record as bytes: the tag of its namespace, then its parts.
fn build_seeds(namespace: Namespace, parts: &Vec<Vec<u8>>) -> (seeds: Vec<Vec<u8>>)
    ensures
        seeds_view(seeds) == seeds_of(namespace, seeds_view(*parts)),
{
    let mut seeds: Vec<Vec<u8>> = Vec::new();
    seeds.push(namespace.tag());
    let mut i: usize = 0;
    while i < parts.len()
        invariant
            i <= parts.len(),
            seeds@.len() == i + 1,
            seeds@[0]@ == namespace.spec_tag(),
            forall|j: int| 0 <= j < i ==> seeds@[j + 1]@ == parts@[j]@,
        decreases parts.len() - i,
    {
        let mut part: Vec<u8> = Vec::new();
        part.extend_from_slice(parts[i].as_slice());
        seeds.push(part);
        i = i + 1;
    }
    assert(seeds_view(seeds) =~= seeds_of(namespace, seeds_view(*parts)));
    seeds
}

/// Derives the address of the record of a namespace from its identifying
/// parts, together with the bump that proves the derivation. The same inputs
/// always give the same pair.
pub fn derive(namespace: Namespace, parts: &Vec<Vec<u8>>) -> (derived: Option<(Pubkey, u8)>)
    ensures
        derived_view(derived) == spec_derive(namespace, seeds_view(*parts)),
{
    let seeds = build_seeds(namespace, parts);
    let program = id();
    let found = try_find_program_address(&seeds, &program);
    proof {
        match found {
            Some((address, bump)) => {
                lemma_search_first(seeds_view(seeds), program@, 255, bump, address@);
            },
            None => {
                lemma_search_none(seeds_view(seeds), program@, 255);
            },
        }
    }
    found
}

/// Whether a recomputed address is the candidate address.
pub fn agrees(recomputed: &Option<Pubkey>, candidate: &Pubkey) -> (same: bool)
    ensures
        same == (*recomputed == Some(*candidate)),
{
    match recomputed {
        Some(address) => *address == *candidate,
        None => false,
    }
}

/// Checks the proof of an address: recomputes the address of the record of
/// the namespace from its identifying parts and the stored bump, and compares
/// it with the candidate. The caller is not trusted: only the inputs count.
pub fn verify(namespace: Namespace, parts: &Vec<Vec<u8>>, bump: u8, candidate: &Pubkey) -> (proven: bool)
    ensures
        proven == spec_verify(namespace, seeds_view(*parts), bump, candidate@),
{
    let mut seeds = build_seeds(namespace, parts);
    let ghost before = seeds_view(seeds);
    let mut last: Vec<u8> = Vec::new();
    last.push(bump);
    seeds.push(last);
    assert(seeds_view(seeds) =~= with_bump(before, bump));
    let program = id();
    let recomputed = create_program_address(&seeds, &program);
    proof {
        if recomputed is Some && recomputed->0@ == candidate@ {
            crate::pubkey::lemma_view_injective(recomputed->0, *candidate);
        }
    }
    agrees(&recomputed, candidate)
}

/// The bump of a derivation whose address is the one presented;
/// `AddressMismatch` where nothing was derived or the addresses differ.
pub open spec fn spec_claim(derived: Option<(Seq<u8>, u8)>, presented: Pubkey) -> Result<u8, ErrorCode> {
    match derived {
        Some((address, bump)) if address == presented@ => Ok(bump),
        _ => Err(ErrorCode::AddressMismatch),
    }
}

/// Accepts a derived address for a record that is about to be created: the
/// address presented must be the derived one. Returns the bump to store.
pub fn claim(derived: &Option<(Pubkey, u8)>, presented: &Pubkey) -> (bump: Result<u8, ErrorCode>)
    ensures
        bump == spec_claim(derived_view(*derived), *presented),
{
    match derived {
        Some((address, b)) => {
            proof {
                if address@ == presented@ {
                    crate::pubkey::lemma_view_injective(*address, *presented);
                }
            }
            if *address == *presented {
                Ok(*b)
            } else {
                Err(ErrorCode::AddressMismatch)
            }
        },
        None => Err(ErrorCode::AddressMismatch),
    }
}

/// The seed that stands for a key: its bytes.
pub fn key_part(key: &Pubkey) -> (part: Vec<u8>)
    ensures
        part@ == key@,
{
    key.to_vec()
}

/// The seed that stands for a text: its bytes in UTF-8.
pub fn text_part(text: &String) -> (part: Vec<u8>)
    ensures
        part@ == vstd::utf8::encode_utf8(text@),
{
    crate::text::bytes_of(text)
}

/// The seed that stands for a time: its eight bytes in two's complement,
/// lowest byte first.
pub open spec fn spec_time_part(time: i64) -> Seq<u8> {
    vstd::bytes::spec_u64_to_le_bytes(time as u64)
}

/// The seed that stands for a time: its eight bytes in two's complement,
/// lowest byte first.
pub fn time_part(time: i64) -> (part: Vec<u8>)
    ensures
        part@ == spec_time_part(time),
{
    vstd::bytes::u64_to_le_bytes(#[verifier::truncate] (time as u64))
}

/// The identifying parts of a record that has one.
pub fn one_part(first: Vec<u8>) -> (parts: Vec<Vec<u8>>)
    ensures
        seeds_view(parts) == seq![first@],
{
    let mut parts: Vec<Vec<u8>> = Vec::new();
    parts.push(first);
    assert(seeds_view(parts) =~= seq![first@]);
    parts
}

/// The identifying parts of a record that has two.
pub fn two_parts(first: Vec<u8>, second: Vec<u8>) -> (parts: Vec<Vec<u8>>)
    ensures
        seeds_view(parts) == seq![first@, second@],
{
    let mut parts: Vec<Vec<u8>> = Vec::new();
    parts.push(first);
    parts.push(second);
    assert(seeds_view(parts) =~= seq![first@, second@]);
    parts
}

} // verus!
