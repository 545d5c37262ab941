use vstd::prelude::*;

use crate::address::Address;

verus! {

/// The program-derived address (and its bump seed) that the runtime assigns
/// to a list of seeds under a program, or `None` where there is none.
pub uninterp spec fn program_address_of(seeds: Seq<Seq<u8>>, program: Seq<u8>) -> Option<(Seq<u8>, u8)>;

/// Relies on `Pubkey::try_find_program_address` (solana-pubkey): it searches
/// the bump seeds from 255 down for the first one whose hash is off the curve.
/// The outcome depends on the seeds and the program alone; it is `None` where
/// no bump seed gives such an address or the seeds are too many or too long.
#[verifier::external_body]
fn try_find_program_address(seeds: &Vec<Vec<u8>>, program: &Address) -> (r: Option<(Address, u8)>)
    ensures
        r matches Some((a, b)) ==> program_address_of(seeds.deep_view(), program@) == Some((a@, b)),
        r is None ==> program_address_of(seeds.deep_view(), program@) is None,
{
    let s: Vec<&[u8]> = seeds.iter().map(|v| v.as_slice()).collect();
    let p = anchor_lang::prelude::Pubkey::new_from_array(program.bytes);
    anchor_lang::prelude::Pubkey::try_find_program_address(&s, &p).map(
        |(k, b)| (Address { bytes: k.to_bytes() }, b),
    )
}

/// The namespace tag of per-user authorization records: `b"user"`.
pub open spec fn user_tag() -> Seq<u8> {
    seq![117u8, 115u8, 101u8, 114u8]
}

/// The namespace tag of the vault singleton: `b"vault"`.
pub open spec fn vault_tag() -> Seq<u8> {
    seq![118u8, 97u8, 117u8, 108u8, 116u8]
}

/// The seeds of a principal's authorization record.
pub open spec fn user_seeds(owner: Seq<u8>) -> Seq<Seq<u8>> {
    seq![user_tag(), owner]
}

/// The seeds of the vault singleton.
pub open spec fn vault_seeds() -> Seq<Seq<u8>> {
    seq![vault_tag()]
}

/// Where the authorization record of `owner` lives under `program`.
pub fn user_record_address(owner: &Address, program: &Address) -> (r: Option<(Address, u8)>)
    ensures
        r matches Some((a, b)) ==> program_address_of(user_seeds(owner@), program@) == Some((a@, b)),
        r is None ==> program_address_of(user_seeds(owner@), program@) is None,
{
    let seeds: Vec<Vec<u8>> = vec![vec![117u8, 115u8, 101u8, 114u8], owner.to_vec()];
    assert(seeds@[0].deep_view() =~= user_tag());
    assert(seeds@[1].deep_view() =~= owner@);
    assert(seeds.deep_view() =~= user_seeds(owner@));
    try_find_program_address(&seeds, program)
}

/// Where the vault singleton lives under `program`.
pub fn vault_address(program: &Address) -> (r: Option<(Address, u8)>)
    ensures
        r matches Some((a, b)) ==> program_address_of(vault_seeds(), program@) == Some((a@, b)),
        r is None ==> program_address_of(vault_seeds(), program@) is None,
{
    let seeds: Vec<Vec<u8>> = vec![vec![118u8, 97u8, 117u8, 108u8, 116u8]];
    assert(seeds@[0].deep_view() =~= vault_tag());
    assert(seeds.deep_view() =~= vault_seeds());
    try_find_program_address(&seeds, program)
}

} // verus!
