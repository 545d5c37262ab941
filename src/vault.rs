use vstd::prelude::*;

use crate::address::Address;
use crate::error::HookError;

verus! {

/// The custodial vault singleton: who administers it, which asset it holds,
/// and the token account that holds the pooled balance.
#[derive(Clone, Copy, Debug, PartialEq, Eq)]
pub struct Vault {
    pub admin: Address,
    pub mint: Address,
    pub vault_token_account: Address,
    /// The bump seed of the vault's derived address, with which it signs.
    pub bump: u8,
}

/// The bump seeds found while the accounts of `InitializeVault` were derived.
#[derive(Clone, Copy, Debug, PartialEq, Eq, Structural)]
pub struct InitializeVaultBumps {
    pub vault: u8,
}

/// Creating the vault: the signing administrator, the asset, the holding
/// account, and the vault record if one exists already.
#[derive(Clone, Copy, Debug)]
pub struct InitializeVault {
    pub admin: Address,
    pub mint: Address,
    pub vault_token_account: Address,
    pub vault: Option<Vault>,
}

impl InitializeVault {
    /// Records the administrator, the asset and the holding account; refuses
    /// where the vault exists already.
    pub fn initialize_vault(&mut self, bumps: InitializeVaultBumps) -> (r: Result<(), HookError>)
        ensures
            final(self).admin == old(self).admin,
            final(self).mint == old(self).mint,
            final(self).vault_token_account == old(self).vault_token_account,
            old(self).vault is Some ==> r == Err::<(), HookError>(HookError::AlreadyInitialized)
                && final(self).vault == old(self).vault,
            old(self).vault is None ==> r is Ok && final(self).vault == Some(
                (Vault {
                    admin: old(self).admin,
                    mint: old(self).mint,
                    vault_token_account: old(self).vault_token_account,
                    bump: bumps.vault,
                }),
            ),
    {
        if self.vault.is_some() {
            return Err(HookError::AlreadyInitialized);
        }
        self.vault = Some(
            Vault {
                admin: self.admin,
                mint: self.mint,
                vault_token_account: self.vault_token_account,
                bump: bumps.vault,
            },
        );
        Ok(())
    }
}

} // verus!
