use vstd::prelude::*;

use crate::address::Address;

verus! {

/// What the runtime's program-address function gives for a list of seeds
/// under a program id: the address when the seeds hash off the curve, else
/// nothing.
pub uninterp spec fn program_address(seeds: Seq<Seq<u8>>, program: Seq<u8>) -> Option<Seq<u8>>;

/// The views of a list of seeds.
pub open spec fn seeds_view(seeds: Seq<Vec<u8>>) -> Seq<Seq<u8>> {
    seeds.map_values(|s: Vec<u8>| s@)
}

/// The search for a salt: from `salt` down to 1, the first salt that,
/// appended as one more one-byte seed, yields a program address.
pub open spec fn salt_search(seeds: Seq<Seq<u8>>, program: Seq<u8>, salt: nat) -> Option<(Seq<u8>, u8)>
    decreases salt,
{
    if salt == 0 {
        None
    } else {
        match program_address(seeds.push(seq![salt as u8]), program) {
            Some(a) => Some((a, salt as u8)),
            None => salt_search(seeds, program, (salt - 1) as nat),
        }
    }
}

/// The derived address and salt of a list of seeds: the search from 255 down.
pub open spec fn derived(seeds: Seq<Seq<u8>>, program: Seq<u8>) -> Option<(Seq<u8>, u8)> {
    salt_search(seeds, program, 255)
}

/// Relies on `Pubkey::create_program_address`: hashes the seeds with the
/// program id and gives the address, or an error when it lies on the curve
/// or the seeds are too many or too long.
#[verifier::external_body]
fn create_program_address(seeds: &Vec<Vec<u8>>, program: &Address) -> (r: Option<Address>)
    ensures
        match r {
            Some(a) => program_address(seeds_view(seeds@), program@) == Some(a@),
            None => program_address(seeds_view(seeds@), program@) is None,
        },
{
    let slices: Vec<&[u8]> = seeds.iter().map(|s| s.as_slice()).collect();
    let id = anchor_lang::prelude::Pubkey::new_from_array(program.bytes);
    anchor_lang::prelude::Pubkey::create_program_address(&slices, &id).ok().map(
        |k| Address { bytes: k.to_bytes() },
    )
}

/// Relies on `Pubkey::try_find_program_address`: tries the salts 255 down
/// to 1 as a last seed and returns the first address found with its salt.
#[verifier::external_body]
fn try_find_program_address(seeds: &Vec<Vec<u8>>, program: &Address) -> (r: Option<(Address, u8)>)
    ensures
        match r {
            Some((a, salt)) => derived(seeds_view(seeds@), program@) == Some((a@, salt)),
            None => derived(seeds_view(seeds@), program@) is None,
        },
{
    let slices: Vec<&[u8]> = seeds.iter().map(|s| s.as_slice()).collect();
    let id = anchor_lang::prelude::Pubkey::new_from_array(program.bytes);
    anchor_lang::prelude::Pubkey::try_find_program_address(&slices, &id).map(
        |(k, salt)| (Address { bytes: k.to_bytes() }, salt),
    )
}

/// The label of a vault's own address: the bytes of "vault".
pub open spec fn vault_label() -> Seq<u8> {
    seq![118u8, 97u8, 117u8, 108u8, 116u8]
}

/// The label of the address that controls a vault's asset account: the
/// bytes of "authority".
pub open spec fn authority_label() -> Seq<u8> {
    seq![97u8, 117u8, 116u8, 104u8, 111u8, 114u8, 105u8, 116u8, 121u8]
}

/// Seeds of the vault owned by `authority`.
pub open spec fn vault_seeds(authority: Seq<u8>) -> Seq<Seq<u8>> {
    seq![vault_label(), authority]
}

/// Seeds of the delegate that signs for the vault at `vault`.
pub open spec fn authority_seeds(vault: Seq<u8>) -> Seq<Seq<u8>> {
    seq![authority_label(), vault]
}

/// The two kinds of derived address.
#[derive(Clone, Copy, Debug, PartialEq, Eq, Structural)]
pub enum Label {
    /// A vault's own address, seeded by its authority.
    Vault,
    /// The delegate that controls a vault's asset account, seeded by the vault.
    Authority,
}

/// Seeds of the address of kind `label` for `key`.
pub open spec fn seeds_of(label: Label, key: Seq<u8>) -> Seq<Seq<u8>> {
    match label {
        Label::Vault => vault_seeds(key),
        Label::Authority => authority_seeds(key),
    }
}

/// The seeds followed by the one-byte salt.
pub open spec fn salted(seeds: Seq<Seq<u8>>, salt: u8) -> Seq<Seq<u8>> {
    seeds.push(seq![salt])
}

fn label_seeds(label: Label, key: &Address) -> (r: Vec<Vec<u8>>)
    ensures
        seeds_view(r@) == seeds_of(label, key@),
{
    let first: Vec<u8> = match label {
        // "vault"
        Label::Vault => vec![118u8, 97u8, 117u8, 108u8, 116u8],
        // "authority"
        Label::Authority => vec![97u8, 117u8, 116u8, 104u8, 111u8, 114u8, 105u8, 116u8, 121u8],
    };
    let mut seeds: Vec<Vec<u8>> = Vec::new();
    seeds.push(first);
    seeds.push(key.to_vec());
    assert(seeds_view(seeds@) =~= seeds_of(label, key@));
    seeds
}

/// Derives the address of kind `label` for `key`, with its salt.
pub fn derive_address(program: &Address, label: Label, key: &Address) -> (r: Option<(Address, u8)>)
    ensures
        match r {
            Some((a, salt)) => derived(seeds_of(label, key@), program@) == Some((a@, salt)),
            None => derived(seeds_of(label, key@), program@) is None,
        },
{
    let seeds = label_seeds(label, key);
    try_find_program_address(&seeds, program)
}

/// The seeds of the address of kind `label` for `key`, followed by `salt`:
/// what a derived address presents to sign.
pub fn signer_seeds(label: Label, key: &Address, salt: u8) -> (r: Vec<Vec<u8>>)
    ensures
        seeds_view(r@) == salted(seeds_of(label, key@), salt),
{
    let mut seeds = label_seeds(label, key);
    let ghost before = seeds@;
    let tail: Vec<u8> = vec![salt];
    assert(tail@ =~= seq![salt]);
    seeds.push(tail);
    assert(seeds_view(seeds@) =~= seeds_view(before).push(seq![salt]));
    seeds
}

/// Recomputes the address of kind `label` for `key` under the recorded
/// `salt` and tells whether it is `claimed`.
pub fn verify_address(program: &Address, label: Label, key: &Address, salt: u8, claimed: &Address) -> (r: bool)
    ensures
        r == (program_address(
            salted(seeds_of(label, key@), salt),
            program@,
        ) == Some(claimed@)),
{
    let seeds = signer_seeds(label, key, salt);
    match create_program_address(&seeds, program) {
        Some(a) => a.same_as(claimed),
        None => false,
    }
}

} // verus!
