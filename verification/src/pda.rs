use vstd::prelude::*;
use anchor_lang::prelude::Pubkey;
use crate::address::Address;

verus! {

/// The program-derived address and bump seed that belong to a list of seeds
/// under a program, or `None` where there is none.
pub uninterp spec fn program_address(seeds: Seq<Seq<u8>>, program_id: Seq<u8>) -> Option<([u8; 32], u8)>;

/// The bytes of a derived address, with its bump seed.
pub open spec fn found_bytes(found: Option<(Address, u8)>) -> Option<([u8; 32], u8)> {
    match found {
        Some(f) => Some((f.0.bytes, f.1)),
        None => None,
    }
}

/// The address with the derived bytes, with its bump seed.
pub open spec fn found_address(found: Option<([u8; 32], u8)>) -> Option<(Address, u8)> {
    match found {
        Some(f) => Some((Address { bytes: f.0 }, f.1)),
        None => None,
    }
}

/// Calls `Pubkey::try_find_program_address` of `solana_program`, which hashes
/// the seeds, a bump seed and the program's address, and searches the bump
/// seeds from 255 downwards for the first hash that is off the curve. The
/// contract claims only that the outcome is a function of the seeds and the
/// program's address; that function is `program_address`.
#[verifier::external_body]
pub(crate) fn try_find_program_address(seeds: &Vec<Vec<u8>>, program_id: &Address) -> (found: Option<(Address, u8)>)
    ensures
        found_bytes(found) == program_address(seeds.deep_view(), program_id@),
{
    let parts: Vec<&[u8]> = seeds.iter().map(|s| s.as_slice()).collect();
    match Pubkey::try_find_program_address(&parts, &Pubkey::new_from_array(program_id.bytes)) {
        Some((key, bump)) => Some((Address { bytes: key.to_bytes() }, bump)),
        None => None,
    }
}

/// The address of the associated token program,
/// `ATokenGPvbdGVxr1b2hvZbsiqW5xWH25efTNsLJA8knL`.
pub open spec fn associated_token_program_id() -> Address {
    Address {
        bytes: [
            140u8, 151, 37, 143, 78, 36, 137, 241, 187, 61, 16, 41, 20, 142, 13, 131,
            11, 90, 19, 153, 218, 255, 16, 132, 4, 142, 123, 216, 219, 233, 248, 89,
        ],
    }
}

/// Reads `anchor_spl::associated_token::ID`, the address under which token
/// accounts are derived. The contract states its 32 bytes.
#[verifier::external_body]
pub(crate) fn associated_token_program() -> (id: Address)
    ensures
        id == associated_token_program_id(),
{
    Address { bytes: anchor_spl::associated_token::ID.to_bytes() }
}

/// The seeds of a competition's escrow address: the tag `token`, the
/// authority's address and the asset's address.
pub open spec fn competition_ata_seeds(authority: Seq<u8>, mint: Seq<u8>) -> Seq<Seq<u8>> {
    seq![seq![116u8, 111, 107, 101, 110], authority, mint]
}

/// The escrow address of the competitions of `authority` in the asset
/// `mint`, where one can be derived.
pub open spec fn competition_ata(authority: Seq<u8>, mint: Seq<u8>) -> Option<Address> {
    match program_address(competition_ata_seeds(authority, mint), associated_token_program_id()@) {
        Some(found) => Some(Address { bytes: found.0 }),
        None => None,
    }
}

/// Derives the address of the escrow token account from the competition's
/// authority and the asset, under the associated token program. The same
/// inputs always give the same address. `None` where no address can be
/// derived from them.
pub fn derive_competition_ata(competition_authority: Address, usdt_mint: Address) -> (ata: Option<Address>)
    ensures
        ata == competition_ata(competition_authority@, usdt_mint@),
{
    let tag: Vec<u8> = vec![116u8, 111, 107, 101, 110];
    let mut seeds: Vec<Vec<u8>> = Vec::new();
    seeds.push(tag);
    seeds.push(competition_authority.to_vec());
    seeds.push(usdt_mint.to_vec());
    assert(seeds.deep_view() =~~= competition_ata_seeds(competition_authority@, usdt_mint@));
    let program = associated_token_program();
    match try_find_program_address(&seeds, &program) {
        Some(found) => Some(found.0),
        None => None,
    }
}

/// This program's own address, under which its records are derived,
/// `1wSNjNqx37H5y3F9nA3JejzBDw3eCDE6hqpD6fEYg33`.
pub open spec fn spec_program_id() -> Address {
    Address {
        bytes: [
            0u8, 61, 141, 123, 216, 74, 111, 68, 47, 165, 161, 125, 245, 171, 237, 184,
            110, 2, 17, 31, 153, 181, 243, 196, 227, 56, 72, 6, 227, 78, 47, 154,
        ],
    }
}

/// This program's own address, under which its records are derived.
#[verifier::when_used_as_spec(spec_program_id)]
pub fn program_id() -> (id: Address)
    ensures
        id == spec_program_id(),
{
    Address {
        bytes: [
            0u8, 61, 141, 123, 216, 74, 111, 68, 47, 165, 161, 125, 245, 171, 237, 184,
            110, 2, 17, 31, 153, 181, 243, 196, 227, 56, 72, 6, 227, 78, 47, 154,
        ],
    }
}

/// The address and bump seed of the record of the competition `id`: its
/// one seed is the identifier in little-endian bytes.
pub open spec fn competition_address(id: u32) -> Option<(Address, u8)> {
    found_address(program_address(seq![vstd::bytes::spec_u32_to_le_bytes(id)], spec_program_id()@))
}

/// Derives the address and bump seed of the record of the competition
/// `id`. `None` where no address can be derived.
pub fn derive_competition_address(id: u32) -> (found: Option<(Address, u8)>)
    ensures
        found == competition_address(id),
{
    let mut seeds: Vec<Vec<u8>> = Vec::new();
    seeds.push(vstd::bytes::u32_to_le_bytes(id));
    assert(seeds.deep_view() =~~= seq![vstd::bytes::spec_u32_to_le_bytes(id)]);
    let program = program_id();
    try_find_program_address(&seeds, &program)
}

/// The address and bump seed of a participant's registration in a
/// competition: the seeds are the tag `player`, the address of the
/// competition's record and the participant's address.
pub open spec fn player_address(competition: Seq<u8>, player: Seq<u8>) -> Option<(Address, u8)> {
    found_address(
        program_address(
            seq![seq![112u8, 108, 97, 121, 101, 114], competition, player],
            spec_program_id()@,
        ),
    )
}

/// Derives the address and bump seed of a participant's registration in a
/// competition. `None` where no address can be derived.
pub fn derive_player_address(competition: Address, player: Address) -> (found: Option<(Address, u8)>)
    ensures
        found == player_address(competition@, player@),
{
    let tag: Vec<u8> = vec![112u8, 108, 97, 121, 101, 114];
    let mut seeds: Vec<Vec<u8>> = Vec::new();
    seeds.push(tag);
    seeds.push(competition.to_vec());
    seeds.push(player.to_vec());
    assert(seeds.deep_view() =~~= seq![seq![112u8, 108, 97, 121, 101, 114], competition@, player@]);
    let program = program_id();
    try_find_program_address(&seeds, &program)
}

} // verus!
