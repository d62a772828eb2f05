use crate::pubkey::Pubkey;
use vstd::bytes::spec_u64_to_le_bytes;
use vstd::bytes::u64_to_le_bytes;
use vstd::prelude::*;

verus! {

/// The namespace tag of bounty records: the ASCII bytes of the word
/// "bounty".
pub open spec fn bounty_tag() -> Seq<u8> {
    seq![98u8, 111u8, 117u8, 110u8, 116u8, 121u8]
}

/// The namespace tag of the registry: the ASCII bytes of the word "config".
pub open spec fn config_tag() -> Seq<u8> {
    seq![99u8, 111u8, 110u8, 102u8, 105u8, 103u8]
}

/// The seeds of a bounty record's address: the tag, then the id as eight
/// bytes, least significant first.
pub open spec fn bounty_seeds(bounty_id: u64) -> Seq<Seq<u8>> {
    seq![bounty_tag(), spec_u64_to_le_bytes(bounty_id)]
}

/// The seeds of the registry's address: the tag alone.
pub open spec fn config_seeds() -> Seq<Seq<u8>> {
    seq![config_tag()]
}

/// The address that a program derives from seeds, with its bump seed, where
/// there is one. It depends on the seeds and on the program's identity
/// alone.
pub uninterp spec fn program_derived_address(seeds: Seq<Seq<u8>>, program_id: Seq<u8>) -> Option<
    (Seq<u8>, u8),
>;

/// The bytes of each seed.
pub open spec fn seeds_view(seeds: Seq<&[u8]>) -> Seq<Seq<u8>> {
    Seq::new(seeds.len(), |i: int| seeds[i]@)
}

/// The bytes of a derived address, beside its bump seed.
pub open spec fn derived_view(found: Option<(Pubkey, u8)>) -> Option<(Seq<u8>, u8)> {
    match found {
        Some((address, bump)) => Some((address@, bump)),
        None => None,
    }
}

/// Calls `Pubkey::try_find_program_address`, on the `Pubkey` that the
/// prelude of `anchor_lang` hands on from `solana_program`. The contract
/// claims only that what comes back is a function of the seeds' bytes and of
/// the program's bytes: it gives that function a name and says nothing of
/// its values.
#[verifier::external_body]
fn try_find_program_address(seeds: &[&[u8]], program_id: &Pubkey) -> (found: Option<(Pubkey, u8)>)
    ensures
        derived_view(found) == program_derived_address(seeds_view(seeds@), program_id@),
{
    let program = anchor_lang::prelude::Pubkey::new_from_array(program_id.bytes);
    match anchor_lang::prelude::Pubkey::try_find_program_address(seeds, &program) {
        Some((address, bump)) => Some((Pubkey { bytes: address.to_bytes() }, bump)),
        None => None,
    }
}

/// Finds the address and the bump seed of the registry of a program.
pub fn find_config_address(program_id: &Pubkey) -> (found: Option<(Pubkey, u8)>)
    ensures
        derived_view(found) == program_derived_address(config_seeds(), program_id@),
{
    let tag: [u8; 6] = [99, 111, 110, 102, 105, 103];
    let seeds: [&[u8]; 1] = [tag.as_slice()];
    assert(seeds_view(seeds@) =~= config_seeds());
    try_find_program_address(seeds.as_slice(), program_id)
}

/// Finds the address and the bump seed of the record of a bounty of a
/// program.
pub fn find_bounty_address(program_id: &Pubkey, bounty_id: u64) -> (found: Option<(Pubkey, u8)>)
    ensures
        derived_view(found) == program_derived_address(bounty_seeds(bounty_id), program_id@),
{
    let tag: [u8; 6] = [98, 111, 117, 110, 116, 121];
    let id_bytes = u64_to_le_bytes(bounty_id);
    let seeds: [&[u8]; 2] = [tag.as_slice(), id_bytes.as_slice()];
    assert(seeds_view(seeds@) =~= bounty_seeds(bounty_id));
    try_find_program_address(seeds.as_slice(), program_id)
}

} // verus!
