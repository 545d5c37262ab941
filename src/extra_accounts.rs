use anchor_lang::prelude::Pubkey;
use spl_tlv_account_resolution::account::ExtraAccountMeta;
use spl_tlv_account_resolution::seeds::Seed;
use vstd::prelude::*;

use crate::address::Address;
use crate::derivation::{program_address_of, user_tag, vault_address, vault_seeds};

verus! {

/// In the hook's `Execute` instruction, the position of the source account's
/// owner: the seed of the owner's authorization record.
pub const OWNER_ACCOUNT_INDEX: u8 = 3;

/// How one seed of an extra account's address is found at transfer time.
#[derive(Clone, Debug, PartialEq, Eq)]
pub enum SeedConfig {
    /// These bytes themselves.
    Literal(Vec<u8>),
    /// The key of the instruction's account at this position.
    AccountKey(u8),
}

/// One extra account that the transfer mechanism hands to the hook: a fixed
/// address (`discriminator` 0) or one derived from seed configurations
/// (`discriminator` 1), packed into `address_config`.
#[derive(Clone, Copy, Debug, PartialEq, Eq)]
pub struct ExtraMeta {
    pub discriminator: u8,
    pub address_config: [u8; 32],
    pub is_signer: bool,
    pub is_writable: bool,
}

/// The packed form of one seed configuration.
pub open spec fn seed_config_bytes(s: SeedConfig) -> Seq<u8> {
    match s {
        SeedConfig::Literal(b) => seq![1u8, b@.len() as u8] + b@,
        SeedConfig::AccountKey(i) => seq![3u8, i],
    }
}

/// The packed forms of seed configurations, one after the other.
pub open spec fn packed_seed_configs(ss: Seq<SeedConfig>) -> Seq<u8>
    decreases ss.len(),
{
    if ss.len() == 0 {
        Seq::empty()
    } else {
        seed_config_bytes(ss[0]) + packed_seed_configs(ss.drop_first())
    }
}

/// A literal seed takes at most 32 bytes.
pub open spec fn literal_fits(s: SeedConfig) -> bool {
    match s {
        SeedConfig::Literal(b) => b@.len() <= 32,
        SeedConfig::AccountKey(_) => true,
    }
}

/// Bytes filled up with zeros to 32.
pub open spec fn zero_padded(s: Seq<u8>) -> Seq<u8> {
    s + Seq::new((32 - s.len()) as nat, |i: int| 0u8)
}

/// Relies on `ExtraAccountMeta::new_with_pubkey` (spl-tlv-account-resolution):
/// it always succeeds, with discriminator 0 and the key's bytes as the
/// address configuration.
#[verifier::external_body]
fn meta_with_pubkey(key: &Address, is_signer: bool, is_writable: bool) -> (r: Option<ExtraMeta>)
    ensures
        r == Some(ExtraMeta { discriminator: 0, address_config: key.bytes, is_signer, is_writable }),
{
    let pubkey = Pubkey::new_from_array(key.bytes);
    ExtraAccountMeta::new_with_pubkey(&pubkey, is_signer, is_writable).ok().map(|m| ExtraMeta {
        discriminator: m.discriminator,
        address_config: m.address_config,
        is_signer: bool::from(m.is_signer),
        is_writable: bool::from(m.is_writable),
    })
}

/// Relies on `ExtraAccountMeta::new_with_seeds` (spl-tlv-account-resolution):
/// discriminator 1, and `Seed::pack_into_address_config`, which writes each
/// seed as `[1, length, bytes..]` (a literal) or `[3, index]` (an account
/// key) one after the other, fills the rest with zeros, and fails where they
/// take more than 32 bytes.
#[verifier::external_body]
fn meta_with_seeds(seeds: &Vec<SeedConfig>, is_signer: bool, is_writable: bool) -> (r: Option<
    ExtraMeta,
>)
    requires
        forall|i: int|
            0 <= i < seeds@.len() ==> literal_fits(#[trigger] seeds@[i]),
    ensures
        r is None <==> packed_seed_configs(seeds@).len() > 32,
        r matches Some(m) ==> m == (ExtraMeta {
            discriminator: 1,
            address_config: m.address_config,
            is_signer,
            is_writable,
        }) && m.address_config@ == zero_padded(packed_seed_configs(seeds@)),
{
    let seeds: Vec<Seed> = seeds.iter().map(|s| match s {
        SeedConfig::Literal(b) => Seed::Literal { bytes: b.clone() },
        SeedConfig::AccountKey(i) => Seed::AccountKey { index: *i },
    }).collect();
    ExtraAccountMeta::new_with_seeds(&seeds, is_signer, is_writable).ok().map(|m| ExtraMeta {
        discriminator: m.discriminator,
        address_config: m.address_config,
        is_signer: bool::from(m.is_signer),
        is_writable: bool::from(m.is_writable),
    })
}

/// The extra accounts that the hook needs: the vault, at its derived address,
/// and the source owner's authorization record, derived from the `b"user"`
/// tag and the owner's key. Neither signs nor is written. `None` where the
/// vault has no derived address under `program_id`.
pub fn extra_account_metas(program_id: &Address) -> (r: Option<Vec<ExtraMeta>>)
    ensures
        r is None <==> program_address_of(vault_seeds(), program_id@) is None,
        r matches Some(v) ==> {
            &&& v@.len() == 2
            &&& program_address_of(vault_seeds(), program_id@) matches Some((a, _)) && v@[0].address_config@ == a
            &&& v@[0].discriminator == 0 && !v@[0].is_signer && !v@[0].is_writable
            &&& v@[1].discriminator == 1 && !v@[1].is_signer && !v@[1].is_writable
            &&& v@[1].address_config@ == zero_padded(
                seq![1u8, 4u8] + user_tag() + seq![3u8, OWNER_ACCOUNT_INDEX],
            )
        },
{
    let (vault_pda, _bump) = match vault_address(program_id) {
        Some(d) => d,
        None => return None,
    };
    let vault_meta = match meta_with_pubkey(&vault_pda, false, false) {
        Some(m) => m,
        None => return None,
    };
    let seeds: Vec<SeedConfig> = vec![
        SeedConfig::Literal(vec![117u8, 115u8, 101u8, 114u8]),
        SeedConfig::AccountKey(OWNER_ACCOUNT_INDEX),
    ];
    proof {
        let ss = seeds@;
        assert(ss.drop_first().drop_first() =~= Seq::<SeedConfig>::empty());
        assert(packed_seed_configs(ss.drop_first().drop_first()) == Seq::<u8>::empty());
        assert(ss.drop_first()[0] == SeedConfig::AccountKey(OWNER_ACCOUNT_INDEX));
        assert(seed_config_bytes(ss[0]) =~= seq![1u8, 4u8] + user_tag());
        assert(packed_seed_configs(ss.drop_first()) =~= seq![3u8, OWNER_ACCOUNT_INDEX] + Seq::<u8>::empty());
        assert(packed_seed_configs(ss) =~= seq![1u8, 4u8] + user_tag() + seq![3u8, OWNER_ACCOUNT_INDEX]);
    }
    let user_meta = match meta_with_seeds(&seeds, false, false) {
        Some(m) => m,
        None => return None,
    };
    Some(vec![vault_meta, user_meta])
}

} // verus!
