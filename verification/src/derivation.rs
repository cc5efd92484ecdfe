//! Derived addresses: an address that is a function of its seeds and a salt,
//! and that no private key can sign for.

use crate::address::Address;
use anchor_lang::prelude::Pubkey;
use vstd::prelude::*;
use vstd::slice::{slice_subrange, slice_to_vec};
use vstd::utf8::encode_utf8;

verus! {

/// The longest seed, in bytes, that an address can be derived from.
pub const MAX_SEED_LEN: usize = 32;

/// The most seeds, the salt counted, that an address can be derived from.
pub const MAX_SEEDS: usize = 16;

/// The address that `Pubkey::create_program_address` computes from the seeds
/// and the program's address, where it computes one.
pub uninterp spec fn program_address(seeds: Seq<Seq<u8>>, program_id: Seq<u8>) -> Option<Seq<u8>>;

/// The address and the salt that `Pubkey::try_find_program_address` finds for
/// the seeds and the program's address, where it finds any.
pub uninterp spec fn found_program_address(seeds: Seq<Seq<u8>>, program_id: Seq<u8>) -> Option<
    (Seq<u8>, u8),
>;

/// The seeds as sequences of bytes.
pub open spec fn seeds_of(parts: &Vec<Vec<u8>>) -> Seq<Seq<u8>> {
    Seq::new(parts@.len(), |i: int| parts@[i]@)
}

/// No more seeds than can be hashed, and none too long.
pub open spec fn seeds_fit(seeds: Seq<Seq<u8>>) -> bool {
    &&& seeds.len() <= MAX_SEEDS
    &&& forall|i: int| 0 <= i < seeds.len() ==> (#[trigger] seeds[i]).len() <= MAX_SEED_LEN
}

/// The seeds with the salt as one more seed of a single byte.
pub open spec fn salted(seeds: Seq<Seq<u8>>, bump: u8) -> Seq<Seq<u8>> {
    seeds.push(seq![bump])
}

/// An address, where there is one, as its bytes.
pub open spec fn address_bytes(address: Option<Address>) -> Option<Seq<u8>> {
    match address {
        Some(a) => Some(a@),
        None => None,
    }
}

/// An address and its salt, where there are any, with the address as its bytes.
pub open spec fn found_bytes(found: Option<(Address, u8)>) -> Option<(Seq<u8>, u8)> {
    match found {
        Some((a, bump)) => Some((a@, bump)),
        None => None,
    }
}

/// Calls `Pubkey::create_program_address`. The contract names what it
/// returns, an address or nothing, and states the one refusal that its source
/// decides on the seeds' sizes alone: more than sixteen seeds, or one longer
/// than thirty-two bytes, give no address.
#[verifier::external_body]
fn create_program_address(seeds: &Vec<Vec<u8>>, program_id: &Address) -> (r: Option<Address>)
    ensures
        address_bytes(r) == program_address(seeds_of(seeds), program_id@),
        !seeds_fit(seeds_of(seeds)) ==> r is None,
{
    let parts: Vec<&[u8]> = seeds.iter().map(|seed| seed.as_slice()).collect();
    let program = Pubkey::new_from_array(program_id.bytes);
    match Pubkey::create_program_address(&parts, &program) {
        Ok(key) => Some(Address { bytes: key.to_bytes() }),
        Err(_) => None,
    }
}

/// Calls `Pubkey::try_find_program_address`. The contract names what it
/// returns and states what its source shows of every result: the address it
/// hands out is the one that `Pubkey::create_program_address` computes from
/// the same seeds followed by the salt it hands out, and seeds that leave no
/// room for the salt, or hold one longer than thirty-two bytes, give nothing.
#[verifier::external_body]
fn try_find_program_address(seeds: &Vec<Vec<u8>>, program_id: &Address) -> (r: Option<
    (Address, u8),
>)
    ensures
        found_bytes(r) == found_program_address(seeds_of(seeds), program_id@),
        r matches Some((address, bump)) ==> program_address(
            salted(seeds_of(seeds), bump),
            program_id@,
        ) == Some(address@),
        !seeds_fit(salted(seeds_of(seeds), 0)) ==> r is None,
{
    let parts: Vec<&[u8]> = seeds.iter().map(|seed| seed.as_slice()).collect();
    let program = Pubkey::new_from_array(program_id.bytes);
    match Pubkey::try_find_program_address(&parts, &program) {
        Some((key, bump)) => Some((Address { bytes: key.to_bytes() }, bump)),
        None => None,
    }
}

/// The bytes of the program's own address.
pub open spec fn program_id() -> Seq<u8> {
    seq![
        110u8, 51, 113, 120, 119, 81, 0, 69, 83, 20, 69, 195, 223, 63, 254, 62,
        110, 130, 195, 109, 225, 32, 41, 111, 234, 250, 4, 87, 205, 30, 51, 174,
    ]
}

/// The program's own address, under which every address is derived.
pub fn id() -> (r: Address)
    ensures
        r@ == program_id(),
{
    let r = Address {
        bytes: [
            110u8, 51, 113, 120, 119, 81, 0, 69, 83, 20, 69, 195, 223, 63, 254, 62,
            110, 130, 195, 109, 225, 32, 41, 111, 234, 250, 4, 87, 205, 30, 51, 174,
        ],
    };
    assert(r@ =~= program_id());
    r
}

/// Finds the address and the salt that belong to the seeds.
pub fn derive(seeds: &Vec<Vec<u8>>) -> (r: Option<(Address, u8)>)
    ensures
        found_bytes(r) == found_program_address(seeds_of(seeds), program_id()),
        r matches Some((address, bump)) ==> program_address(
            salted(seeds_of(seeds), bump),
            program_id(),
        ) == Some(address@),
        !seeds_fit(salted(seeds_of(seeds), 0)) ==> r is None,
{
    let program = id();
    try_find_program_address(seeds, &program)
}

/// Computes again the address that belongs to the seeds and a salt kept from
/// an earlier derivation.
pub fn rederive(seeds: &Vec<Vec<u8>>, bump: u8) -> (r: Option<Address>)
    ensures
        address_bytes(r) == program_address(salted(seeds_of(seeds), bump), program_id()),
        !seeds_fit(salted(seeds_of(seeds), bump)) ==> r is None,
{
    let program = id();
    let mut parts: Vec<Vec<u8>> = seeds.clone();
    let mut salt: Vec<u8> = Vec::new();
    salt.push(bump);
    parts.push(salt);
    assert(seeds_of(&parts) =~= salted(seeds_of(seeds), bump));
    create_program_address(&parts, &program)
}

/// The tag that sets a treasury's seeds apart.
pub open spec fn treasury_tag() -> Seq<u8> {
    seq![116u8, 114, 101, 97, 115, 117, 114, 121]
}

/// The tag that sets a schedule's seeds apart.
pub open spec fn schedule_tag() -> Seq<u8> {
    seq![115u8, 99, 104, 101, 100, 117, 108, 101]
}

/// A name as seeds: the name itself where it fits one seed, and else its
/// first bytes, as many as a seed holds, followed by the rest. The seeds are
/// hashed one after the other, so that the pieces stand for the whole name.
pub open spec fn name_pieces(name: Seq<u8>) -> Seq<Seq<u8>> {
    if name.len() <= MAX_SEED_LEN {
        seq![name]
    } else {
        seq![
            name.subrange(0, MAX_SEED_LEN as int),
            name.subrange(MAX_SEED_LEN as int, name.len() as int),
        ]
    }
}

/// The seeds of a vesting program: the company's name.
pub open spec fn vesting_seeds(company_name: Seq<char>) -> Seq<Seq<u8>> {
    name_pieces(encode_utf8(company_name))
}

/// The seeds of a program's treasury: the tag, then the company's name.
pub open spec fn treasury_seeds(company_name: Seq<char>) -> Seq<Seq<u8>> {
    seq![treasury_tag()] + name_pieces(encode_utf8(company_name))
}

/// The seeds of a schedule: the tag, the beneficiary, the vesting program.
pub open spec fn employee_seeds(beneficiary: Seq<u8>, vesting_account: Seq<u8>) -> Seq<Seq<u8>> {
    seq![schedule_tag(), beneficiary, vesting_account]
}

/// Adds a name to the seeds, in pieces that each fit a seed.
fn push_name(seeds: &mut Vec<Vec<u8>>, name: &[u8])
    ensures
        seeds_of(final(seeds)) == seeds_of(old(seeds)) + name_pieces(name@),
{
    if name.len() <= MAX_SEED_LEN {
        seeds.push(slice_to_vec(name));
    } else {
        seeds.push(slice_to_vec(slice_subrange(name, 0, MAX_SEED_LEN)));
        seeds.push(slice_to_vec(slice_subrange(name, MAX_SEED_LEN, name.len())));
    }
    assert(seeds_of(seeds) =~= seeds_of(old(seeds)) + name_pieces(name@));
}

/// Builds the seeds of the vesting program of this name.
pub fn vesting_account_seeds(company_name: &str) -> (r: Vec<Vec<u8>>)
    ensures
        seeds_of(&r) == vesting_seeds(company_name@),
{
    let mut r: Vec<Vec<u8>> = Vec::new();
    push_name(&mut r, company_name.as_bytes());
    assert(seeds_of(&r) =~= vesting_seeds(company_name@));
    r
}

/// Builds the seeds of the treasury of the program of this name.
pub fn treasury_account_seeds(company_name: &str) -> (r: Vec<Vec<u8>>)
    ensures
        seeds_of(&r) == treasury_seeds(company_name@),
{
    let tag: Vec<u8> = vec![116u8, 114, 101, 97, 115, 117, 114, 121];
    assert(tag@ =~= treasury_tag());
    let mut r: Vec<Vec<u8>> = Vec::new();
    r.push(tag);
    assert(seeds_of(&r) =~= seq![treasury_tag()]);
    push_name(&mut r, company_name.as_bytes());
    r
}

/// Builds the seeds of a beneficiary's schedule under a vesting program.
pub fn employee_account_seeds(beneficiary: &Address, vesting_account: &Address) -> (r: Vec<Vec<u8>>)
    ensures
        seeds_of(&r) == employee_seeds(beneficiary@, vesting_account@),
{
    let tag: Vec<u8> = vec![115u8, 99, 104, 101, 100, 117, 108, 101];
    assert(tag@ =~= schedule_tag());
    let mut r: Vec<Vec<u8>> = Vec::new();
    r.push(tag);
    r.push(slice_to_vec(beneficiary.bytes.as_slice()));
    r.push(slice_to_vec(vesting_account.bytes.as_slice()));
    assert(seeds_of(&r) =~= employee_seeds(beneficiary@, vesting_account@));
    r
}

/// What a search finds for a vesting program of this name.
pub open spec fn found_vesting_account(company_name: Seq<char>) -> Option<(Seq<u8>, u8)> {
    found_program_address(vesting_seeds(company_name), program_id())
}

/// What a search finds for the treasury of the program of this name.
pub open spec fn found_treasury(company_name: Seq<char>) -> Option<(Seq<u8>, u8)> {
    found_program_address(treasury_seeds(company_name), program_id())
}

/// What a search finds for the schedule of a beneficiary under a program.
pub open spec fn found_employee_account(beneficiary: Seq<u8>, vesting_account: Seq<u8>) -> Option<
    (Seq<u8>, u8),
> {
    found_program_address(employee_seeds(beneficiary, vesting_account), program_id())
}

/// The address that seeds and a kept salt give under this program.
pub open spec fn rederived(seeds: Seq<Seq<u8>>, bump: u8) -> Option<Seq<u8>> {
    program_address(salted(seeds, bump), program_id())
}

/// Derivation is a function of the seeds: two searches on the same seeds
/// find the same address and the same salt, or both find nothing.
pub proof fn lemma_derive_deterministic(
    seeds: Seq<Seq<u8>>,
    first: Option<(Address, u8)>,
    second: Option<(Address, u8)>,
)
    requires
        found_bytes(first) == found_program_address(seeds, program_id()),
        found_bytes(second) == found_program_address(seeds, program_id()),
    ensures
        first is Some <==> second is Some,
        first is Some ==> first->Some_0.0@ == second->Some_0.0@ && first->Some_0.1
            == second->Some_0.1,
{
}

} // verus!
