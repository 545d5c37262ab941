use vstd::prelude::*;

use crate::address::Address;
use crate::error::HookError;
use crate::vault::Vault;

verus! {

/// Bytes of the registry account besides its entries: an 8-byte account
/// discriminator and a 4-byte length prefix.
pub const WHITELIST_BASE_SIZE: usize = 12;

/// Bytes that one entry (one address) takes in the registry account.
pub const ENTRY_WIDTH: usize = 32;

/// The largest account the runtime allows: 10 MiB.
pub const MAX_ACCOUNT_SIZE: usize = 10485760;

/// The registry of whitelisted principals.
#[derive(Clone, Debug)]
pub struct Whitelist {
    pub address: Vec<Address>,
}

/// The entries of a registry, as byte sequences.
pub open spec fn entries_of(w: Whitelist) -> Seq<Seq<u8>> {
    w.address@.map_values(|a: Address| a@)
}

impl Whitelist {
    pub fn new() -> (r: Whitelist)
        ensures
            entries_of(r) == Seq::<Seq<u8>>::empty(),
    {
        let r = Whitelist { address: Vec::new() };
        assert(entries_of(r) =~= Seq::<Seq<u8>>::empty());
        r
    }

    /// Whether `principal` is in the registry.
    pub fn is_authorized(&self, principal: &Address) -> (r: bool)
        ensures
            r == entries_of(*self).contains(principal@),
    {
        match self.position(principal) {
            Some(_) => true,
            None => false,
        }
    }

    /// Where `principal` stands in the registry, if it does.
    pub fn position(&self, principal: &Address) -> (r: Option<usize>)
        ensures
            r matches Some(i) ==> i < self.address@.len() && entries_of(*self)[i as int]
                == principal@,
            r is None ==> !entries_of(*self).contains(principal@),
    {
        let mut i: usize = 0;
        while i < self.address.len()
            invariant
                0 <= i <= self.address@.len(),
                forall|j: int| 0 <= j < i ==> entries_of(*self)[j] != principal@,
            decreases self.address@.len() - i,
        {
            if self.address[i] == *principal {
                return Some(i);
            }
            i = i + 1;
        }
        assert(!entries_of(*self).contains(principal@)) by {
            if entries_of(*self).contains(principal@) {
                let j = choose|j: int| 0 <= j < entries_of(*self).len() && entries_of(*self)[j] == principal@;
                assert(entries_of(*self)[j] != principal@);
            }
        }
        None
    }
}

/// What the registry's operations see: its entries, the size and funding of
/// its account, the administrator's funds, and whether the signer is the
/// vault's administrator.
pub struct RegistryState {
    pub entries: Seq<Seq<u8>>,
    pub data_len: int,
    pub lamports: int,
    pub admin_lamports: int,
    pub authorized: bool,
}

/// What the registry account lacks of the funding that its size requires.
pub open spec fn funding_deficit(lamports: int, required: int) -> int {
    if required > lamports {
        required - lamports
    } else {
        0
    }
}

/// What the registry account holds beyond the funding that its size
/// requires.
pub open spec fn funding_surplus(lamports: int, required: int) -> int {
    if lamports > required {
        lamports - required
    } else {
        0
    }
}

/// The index of `p` in `s` (meaningful where `s` holds it).
pub open spec fn index_in(s: Seq<Seq<u8>>, p: Seq<u8>) -> int {
    choose|i: int| 0 <= i < s.len() && s[i] == p
}

impl RegistryState {
    /// No principal twice; the account's size is exactly the base size plus
    /// one entry's width per entry, within the runtime's limit; the funds of
    /// the account and of the administrator fit together in a `u64`.
    pub open spec fn wf(self) -> bool {
        &&& self.entries.no_duplicates()
        &&& self.data_len == WHITELIST_BASE_SIZE + ENTRY_WIDTH * self.entries.len()
        &&& self.data_len <= MAX_ACCOUNT_SIZE
        &&& 0 <= self.lamports
        &&& 0 <= self.admin_lamports
        &&& self.lamports + self.admin_lamports <= u64::MAX
    }

    /// Whether the account can grow by one entry, `required` being the funding
    /// that the grown size requires.
    pub open spec fn grow_result(self, required: int) -> Result<(), HookError> {
        if self.data_len + ENTRY_WIDTH > MAX_ACCOUNT_SIZE {
            Err(HookError::StorageLimitExceeded)
        } else if self.admin_lamports < funding_deficit(self.lamports, required) {
            Err(HookError::InsufficientFunding)
        } else {
            Ok(())
        }
    }

    /// The account grown by one entry, its deficit paid by the administrator.
    pub open spec fn grown(self, required: int) -> RegistryState {
        let d = funding_deficit(self.lamports, required);
        RegistryState {
            data_len: self.data_len + ENTRY_WIDTH,
            lamports: self.lamports + d,
            admin_lamports: self.admin_lamports - d,
            ..self
        }
    }

    /// The account shrunk by one entry, its surplus refunded to the
    /// administrator.
    pub open spec fn shrunk(self, required: int) -> RegistryState {
        let s = funding_surplus(self.lamports, required);
        RegistryState {
            data_len: self.data_len - ENTRY_WIDTH,
            lamports: self.lamports - s,
            admin_lamports: self.admin_lamports + s,
            ..self
        }
    }

    /// The outcome of adding `p`, `required` being the funding that the grown
    /// size requires.
    pub open spec fn add_result(self, p: Seq<u8>, required: int) -> Result<(), HookError> {
        if !self.authorized {
            Err(HookError::Unauthorized)
        } else if self.entries.contains(p) {
            Ok(())
        } else {
            self.grow_result(required)
        }
    }

    /// The registry after adding `p`.
    pub open spec fn add(self, p: Seq<u8>, required: int) -> RegistryState {
        if !self.authorized || self.entries.contains(p) || self.grow_result(required) is Err {
            self
        } else {
            RegistryState { entries: self.entries.push(p), ..self.grown(required) }
        }
    }

    /// The outcome of removing `p`, `required` being the funding that the
    /// shrunk size requires.
    pub open spec fn remove_result(self, p: Seq<u8>, required: int) -> Result<(), HookError> {
        if !self.authorized {
            Err(HookError::Unauthorized)
        } else {
            Ok(())
        }
    }

    /// The registry after removing `p`.
    pub open spec fn remove(self, p: Seq<u8>, required: int) -> RegistryState {
        if !self.authorized || !self.entries.contains(p) {
            self
        } else {
            RegistryState {
                entries: self.entries.remove(index_in(self.entries, p)),
                ..self.shrunk(required)
            }
        }
    }
}

/// An administrative operation on the registry: the signer and its funds,
/// the vault, and the registry with its account's size and funding.
#[derive(Clone, Debug)]
pub struct WhitelistOperations {
    pub admin: Address,
    pub admin_lamports: u64,
    pub vault: Vault,
    pub whitelist: Whitelist,
    pub whitelist_data_len: usize,
    pub whitelist_lamports: u64,
}

impl View for WhitelistOperations {
    type V = RegistryState;

    open spec fn view(&self) -> RegistryState {
        RegistryState {
            entries: entries_of(self.whitelist),
            data_len: self.whitelist_data_len as int,
            lamports: self.whitelist_lamports as int,
            admin_lamports: self.admin_lamports as int,
            authorized: self.admin@ == self.vault.admin@,
        }
    }
}

impl WhitelistOperations {
    /// Adds `address` unless it is there already. The account grows by one
    /// entry, and the administrator first pays what the account then lacks
    /// of `lamports_required`, the funding that the grown size requires.
    /// Refused, changing nothing, where the signer is not the administrator,
    /// the account would outgrow the runtime's limit, or the administrator
    /// cannot pay.
    pub fn add_to_whitelist(&mut self, address: Address, lamports_required: u64) -> (r: Result<
        (),
        HookError,
    >)
        requires
            old(self)@.wf(),
        ensures
            final(self).admin == old(self).admin,
            final(self).vault == old(self).vault,
            final(self)@ == old(self)@.add(address@, lamports_required as int),
            r == old(self)@.add_result(address@, lamports_required as int),
            final(self)@.wf(),
    {
        if !(self.admin == self.vault.admin) {
            return Err(HookError::Unauthorized);
        }
        if self.whitelist.is_authorized(&address) {
            return Ok(());
        }
        match self.realloc_whitelist(true, lamports_required) {
            Ok(()) => {},
            Err(e) => return Err(e),
        }
        self.whitelist.address.push(address);
        assert(entries_of(self.whitelist) =~= entries_of(old(self).whitelist).push(address@));
        proof {
            let e = entries_of(self.whitelist);
            assert forall|i: int, j: int| 0 <= i < e.len() && 0 <= j < e.len() && i != j implies e[i]
                != e[j] by {
                let e0 = entries_of(old(self).whitelist);
                if i == e.len() - 1 {
                    assert(e[j] == e0[j]);
                    if e[i] == e[j] {
                        assert(e0.contains(address@));
                    }
                } else if j == e.len() - 1 {
                    assert(e[i] == e0[i]);
                    if e[i] == e[j] {
                        assert(e0.contains(address@));
                    }
                }
            }
        }
        Ok(())
    }

    /// Removes `address` if it is there, keeping the order of the others. The
    /// account shrinks by one entry and refunds to the administrator what it
    /// then holds beyond `lamports_required`, the funding that the shrunk
    /// size requires. Refused, changing nothing, where the signer is not the
    /// administrator. The principal's authorization record, and the balance
    /// it holds, are left as they are: what was deposited stays withdrawable.
    pub fn remove_from_whitelist(&mut self, address: Address, lamports_required: u64) -> (r: Result<
        (),
        HookError,
    >)
        requires
            old(self)@.wf(),
        ensures
            final(self).admin == old(self).admin,
            final(self).vault == old(self).vault,
            final(self)@ == old(self)@.remove(address@, lamports_required as int),
            r == old(self)@.remove_result(address@, lamports_required as int),
            final(self)@.wf(),
    {
        if !(self.admin == self.vault.admin) {
            return Err(HookError::Unauthorized);
        }
        match self.whitelist.position(&address) {
            None => Ok(()),
            Some(pos) => {
                let ghost e0 = entries_of(self.whitelist);
                proof {
                    let k = index_in(e0, address@);
                    assert(e0.contains(address@));
                    assert(0 <= k < e0.len() && e0[k] == address@);
                    assert(k == pos as int);
                }
                self.whitelist.address.remove(pos);
                assert(entries_of(self.whitelist) =~= e0.remove(pos as int));
                proof {
                    let e = entries_of(self.whitelist);
                    assert forall|i: int, j: int|
                        0 <= i < e.len() && 0 <= j < e.len() && i != j implies e[i] != e[j] by {
                        let i0 = if i < pos { i } else { i + 1 };
                        let j0 = if j < pos { j } else { j + 1 };
                        assert(e[i] == e0[i0] && e[j] == e0[j0]);
                    }
                    assert(e0.len() >= 1);
                }
                match self.realloc_whitelist(false, lamports_required) {
                    Ok(()) => Ok(()),
                    Err(e) => Err(e),
                }
            },
        }
    }

    /// Grows (`is_adding`) or shrinks the registry account by one entry. On
    /// growth the administrator first pays what the account lacks of
    /// `lamports_required`, the funding that the new size requires; on
    /// shrinking the account refunds what it holds beyond it. Growth is
    /// refused, changing nothing, past the runtime's size limit or where the
    /// administrator cannot pay.
    pub fn realloc_whitelist(&mut self, is_adding: bool, lamports_required: u64) -> (r: Result<
        (),
        HookError,
    >)
        requires
            !is_adding ==> old(self).whitelist_data_len >= ENTRY_WIDTH,
            old(self).whitelist_lamports + old(self).admin_lamports <= u64::MAX,
        ensures
            final(self).admin == old(self).admin,
            final(self).vault == old(self).vault,
            final(self).whitelist == old(self).whitelist,
            is_adding ==> r == old(self)@.grow_result(lamports_required as int),
            is_adding && r is Ok ==> final(self)@ == old(self)@.grown(lamports_required as int),
            is_adding && r is Err ==> final(self)@ == old(self)@,
            !is_adding ==> r is Ok && final(self)@ == old(self)@.shrunk(lamports_required as int),
    {
        if is_adding {
            if self.whitelist_data_len > MAX_ACCOUNT_SIZE - ENTRY_WIDTH {
                return Err(HookError::StorageLimitExceeded);
            }
            let new_account_size = self.whitelist_data_len + ENTRY_WIDTH;
            let rent_diff: u64 = if lamports_required > self.whitelist_lamports {
                lamports_required - self.whitelist_lamports
            } else {
                0
            };
            if self.admin_lamports < rent_diff {
                return Err(HookError::InsufficientFunding);
            }
            self.admin_lamports = self.admin_lamports - rent_diff;
            self.whitelist_lamports = self.whitelist_lamports + rent_diff;
            self.whitelist_data_len = new_account_size;
        } else {
            let new_account_size = self.whitelist_data_len - ENTRY_WIDTH;
            let rent_diff: u64 = if self.whitelist_lamports > lamports_required {
                self.whitelist_lamports - lamports_required
            } else {
                0
            };
            self.whitelist_data_len = new_account_size;
            self.whitelist_lamports = self.whitelist_lamports - rent_diff;
            self.admin_lamports = self.admin_lamports + rent_diff;
        }
        Ok(())
    }
}

/// Adding keeps the registry well formed.
pub proof fn lemma_add_keeps_wf(m: RegistryState, p: Seq<u8>, required: int)
    requires
        m.wf(),
        0 <= required <= u64::MAX,
    ensures
        m.add(p, required).wf(),
{
    if m.authorized && !m.entries.contains(p) && m.grow_result(required) is Ok {
        let e = m.add(p, required).entries;
        assert forall|i: int, j: int| 0 <= i < e.len() && 0 <= j < e.len() && i != j implies e[i]
            != e[j] by {
            if i == e.len() - 1 && e[i] == e[j] {
                assert(m.entries[j] == e[j]);
                assert(m.entries.contains(p));
            }
            if j == e.len() - 1 && e[i] == e[j] {
                assert(m.entries[i] == e[i]);
                assert(m.entries.contains(p));
            }
        }
    }
}

/// Removing a principal that is there leaves it out altogether, and keeps the
/// registry well formed.
pub proof fn lemma_remove_keeps_wf(m: RegistryState, p: Seq<u8>, required: int)
    requires
        m.wf(),
        0 <= required <= u64::MAX,
    ensures
        m.remove(p, required).wf(),
        m.authorized ==> !m.remove(p, required).entries.contains(p),
{
    if m.authorized && m.entries.contains(p) {
        let e0 = m.entries;
        let k = index_in(e0, p);
        let e = m.remove(p, required).entries;
        assert(0 <= k < e0.len() && e0[k] == p);
        assert forall|i: int, j: int| 0 <= i < e.len() && 0 <= j < e.len() && i != j implies e[i]
            != e[j] by {
            let i0 = if i < k { i } else { i + 1 };
            let j0 = if j < k { j } else { j + 1 };
            assert(e[i] == e0[i0] && e[j] == e0[j0]);
        }
        if e.contains(p) {
            let j = choose|j: int| 0 <= j < e.len() && e[j] == p;
            let j0 = if j < k { j } else { j + 1 };
            assert(e0[j0] == p);
        }
    }
}

/// Adding a principal twice is adding it once: after the first add it stands
/// in the registry exactly once, and the second add succeeds and changes
/// nothing.
pub proof fn lemma_add_twice(m: RegistryState, p: Seq<u8>, first: u64, second: u64)
    requires
        m.wf(),
        m.add_result(p, first as int) is Ok,
    ensures
        ({
            let e = m.add(p, first as int).entries;
            &&& e.contains(p)
            &&& forall|i: int, j: int|
                0 <= i < e.len() && 0 <= j < e.len() && e[i] == p && e[j] == p ==> i == j
        }),
        m.add(p, first as int).add_result(p, second as int) is Ok,
        m.add(p, first as int).add(p, second as int) == m.add(p, first as int),
{
    lemma_add_keeps_wf(m, p, first as int);
    let e = m.add(p, first as int).entries;
    if !m.entries.contains(p) {
        assert(e[e.len() - 1] == p);
    }
}

/// Removing a principal twice is removing it once: the second removal
/// succeeds and changes nothing.
pub proof fn lemma_remove_twice(m: RegistryState, p: Seq<u8>, first: u64, second: u64)
    requires
        m.wf(),
        m.remove_result(p, first as int) is Ok,
    ensures
        !m.remove(p, first as int).entries.contains(p),
        m.remove(p, first as int).remove_result(p, second as int) is Ok,
        m.remove(p, first as int).remove(p, second as int) == m.remove(p, first as int),
{
    lemma_remove_keeps_wf(m, p, first as int);
}

/// Adding a principal that was absent and removing it again gives back the
/// registry as it was: same entries, same size, same funding on both sides,
/// where the account held exactly the funding that its size requires.
pub proof fn lemma_add_remove_round_trip(
    m: RegistryState,
    p: Seq<u8>,
    grown_required: u64,
    required: u64,
)
    requires
        m.wf(),
        !m.entries.contains(p),
        m.lamports == required,
    ensures
        m.add(p, grown_required as int).remove(p, required as int) == m,
{
    let m1 = m.add(p, grown_required as int);
    if m1 != m {
        let e1 = m1.entries;
        assert(e1[e1.len() - 1] == p);
        assert(e1.contains(p));
        let k = index_in(e1, p);
        if k != e1.len() - 1 {
            assert(m.entries[k] == p);
            assert(m.entries.contains(p));
        }
        assert(e1.remove(k) =~= m.entries);
    }
}

} // verus!
