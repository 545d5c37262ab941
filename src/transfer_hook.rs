use anchor_spl::token_2022::spl_token_2022::extension::transfer_hook::TransferHookAccount;
use anchor_spl::token_2022::spl_token_2022::extension::{BaseStateWithExtensions, PodStateWithExtensions};
use anchor_spl::token_2022::spl_token_2022::pod::PodAccount;
use vstd::prelude::*;

use crate::address::Address;
use crate::derivation::{
    program_address_of, user_record_address, user_seeds, vault_address, vault_seeds,
};
use crate::error::HookError;
use crate::ledger::User;
use crate::vault::Vault;

verus! {

/// The `transferring` flag of the transfer-hook extension in a token
/// account's raw data, or `None` where the data holds no initialized token
/// account with that extension.
pub uninterp spec fn transferring_flag_of(data: Seq<u8>) -> Option<bool>;

/// Relies on spl-token-2022's `PodStateWithExtensions::<PodAccount>::unpack`
/// and its `get_extension::<TransferHookAccount>`: they read the base account
/// and then the TLV extension entries out of the bytes alone, and fail where
/// the account is uninitialized, malformed or lacks the extension.
#[verifier::external_body]
fn transferring_flag(data: &[u8]) -> (r: Option<bool>)
    ensures
        r == transferring_flag_of(data@),
{
    let account = PodStateWithExtensions::<PodAccount>::unpack(data).ok()?;
    let extension = account.get_extension::<TransferHookAccount>().ok()?;
    Some(bool::from(extension.transferring))
}

/// A derived address (and bump seed) as byte sequences.
pub open spec fn derived_view(d: Option<(Address, u8)>) -> Option<(Seq<u8>, u8)> {
    match d {
        Some((a, b)) => Some((a@, b)),
        None => None,
    }
}

/// Whether a record found at `address`, holding the bump seed `bump` (`None`
/// where there is no record), is the one derived for it.
pub open spec fn resolves(derived: Option<(Seq<u8>, u8)>, address: Seq<u8>, bump: Option<u8>) -> bool {
    match (derived, bump) {
        (Some((a, b)), Some(c)) => a == address && b == c,
        _ => false,
    }
}

/// The hook's decision: reject unless the source account is in the middle of
/// a transfer; then approve exactly where both the vault and the owner's
/// authorization record resolve.
pub open spec fn hook_decision(
    transferring: Option<bool>,
    vault_resolves: bool,
    user_resolves: bool,
) -> Result<(), HookError> {
    if transferring != Some(true) {
        Err(HookError::NotInTransferContext)
    } else if vault_resolves && user_resolves {
        Ok(())
    } else {
        Err(HookError::NotWhitelisted)
    }
}

/// Whether a record at `address` with bump seed `bump` is the derived one.
pub fn record_resolves(derived: Option<(Address, u8)>, address: &Address, bump: Option<u8>) -> (r:
    bool)
    ensures
        r == resolves(derived_view(derived), address@, bump),
{
    match (derived, bump) {
        (Some((a, b)), Some(c)) => a == *address && b == c,
        _ => false,
    }
}

/// Decides a transfer from the source account's `transferring` flag, the
/// addresses derived for the vault and for the owner's record, and the
/// records found at `vault_address` and `user_address`, if any.
pub fn authorize_transfer(
    transferring: Option<bool>,
    derived_vault: Option<(Address, u8)>,
    vault_address: &Address,
    vault: &Option<Vault>,
    derived_user: Option<(Address, u8)>,
    user_address: &Address,
    user: &Option<User>,
) -> (r: Result<(), HookError>)
    ensures
        r == hook_decision(
            transferring,
            resolves(derived_view(derived_vault), vault_address@, bump_of_vault(*vault)),
            resolves(derived_view(derived_user), user_address@, bump_of_user(*user)),
        ),
{
    match transferring {
        Some(true) => {},
        _ => return Err(HookError::NotInTransferContext),
    }
    let vault_bump = match vault {
        Some(v) => Some(v.bump),
        None => None,
    };
    let user_bump = match user {
        Some(u) => Some(u.bump),
        None => None,
    };
    if record_resolves(derived_vault, vault_address, vault_bump) && record_resolves(
        derived_user,
        user_address,
        user_bump,
    ) {
        Ok(())
    } else {
        Err(HookError::NotWhitelisted)
    }
}

/// The bump seed that a vault record holds, if there is one.
pub open spec fn bump_of_vault(v: Option<Vault>) -> Option<u8> {
    match v {
        Some(x) => Some(x.bump),
        None => None,
    }
}

/// The bump seed that an authorization record holds, if there is one.
pub open spec fn bump_of_user(u: Option<User>) -> Option<u8> {
    match u {
        Some(x) => Some(x.bump),
        None => None,
    }
}

/// The accounts that the transfer mechanism hands to the hook: the source
/// token account's raw data and its owner, this program, the vault as found
/// at `vault_address`, and the owner's authorization record as found at
/// `user_address`.
#[derive(Clone, Debug)]
pub struct TransferHook {
    pub source_token: Vec<u8>,
    pub owner: Address,
    pub program_id: Address,
    pub vault_address: Address,
    pub vault: Option<Vault>,
    pub user_address: Address,
    pub user: Option<User>,
}

impl TransferHook {
    /// Approves or rejects a transfer of the controlled asset; it changes
    /// nothing either way.
    pub fn transfer_hook(&self, _amount: u64) -> (r: Result<(), HookError>)
        ensures
            r == hook_decision(
                transferring_flag_of(self.source_token@),
                resolves(
                    program_address_of(vault_seeds(), self.program_id@),
                    self.vault_address@,
                    bump_of_vault(self.vault),
                ),
                resolves(
                    program_address_of(user_seeds(self.owner@), self.program_id@),
                    self.user_address@,
                    bump_of_user(self.user),
                ),
            ),
    {
        let transferring = transferring_flag(self.source_token.as_slice());
        let derived_vault = vault_address(&self.program_id);
        let derived_user = user_record_address(&self.owner, &self.program_id);
        authorize_transfer(
            transferring,
            derived_vault,
            &self.vault_address,
            &self.vault,
            derived_user,
            &self.user_address,
            &self.user,
        )
    }

    /// Succeeds exactly where the source account is marked as in the middle
    /// of a transfer, which proves that the hook runs inside a genuine one.
    pub fn check_is_transferring(&self) -> (r: Result<(), HookError>)
        ensures
            r is Ok <==> transferring_flag_of(self.source_token@) == Some(true),
            r is Err ==> r == Err::<(), HookError>(HookError::NotInTransferContext),
    {
        match transferring_flag(self.source_token.as_slice()) {
            Some(true) => Ok(()),
            _ => Err(HookError::NotInTransferContext),
        }
    }
}

} // verus!
