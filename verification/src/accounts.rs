//! On-chain accounts, and the snapshot of them that an adapter is refreshed from.
use crate::error::AmmError;
use crate::pubkey::Pubkey;
use vstd::prelude::*;

verus! {

/// Offset of the decimals in a mint account, under both token programs.
pub const MINT_DECIMALS_OFFSET: usize = 44;

/// An account: the program that owns it, and its bytes.
#[derive(Debug, PartialEq, Eq)]
pub struct Account {
    pub owner: Pubkey,
    pub data: Vec<u8>,
}

/// An account, as plain values.
pub struct AccountView {
    pub owner: Seq<u8>,
    pub data: Seq<u8>,
}

impl View for Account {
    type V = AccountView;

    open spec fn view(&self) -> AccountView {
        AccountView { owner: self.owner@, data: self.data@ }
    }
}

/// An account and its address.
#[derive(Debug, PartialEq, Eq)]
pub struct KeyedAccount {
    pub key: Pubkey,
    pub account: Account,
}

/// A snapshot of accounts by address. No address occurs twice.
pub struct AccountMap {
    entries: Vec<(Pubkey, Account)>,
}

impl View for AccountMap {
    type V = Map<Seq<u8>, AccountView>;

    closed spec fn view(&self) -> Map<Seq<u8>, AccountView> {
        Self::contents(self.entries@)
    }
}

impl AccountMap {
    /// Entry `i` is about address `k`.
    spec fn at(entries: Seq<(Pubkey, Account)>, i: int, k: Seq<u8>) -> bool {
        0 <= i < entries.len() && entries[i].0@ == k
    }

    /// Some entry is about address `k`.
    spec fn has(entries: Seq<(Pubkey, Account)>, k: Seq<u8>) -> bool {
        exists|i: int| Self::at(entries, i, k)
    }

    /// The entry that is about address `k`.
    spec fn index_of(entries: Seq<(Pubkey, Account)>, k: Seq<u8>) -> int {
        choose|i: int| Self::at(entries, i, k)
    }

    /// No two entries are about one address.
    spec fn distinct(entries: Seq<(Pubkey, Account)>) -> bool {
        forall|i: int, j: int|
            0 <= i < entries.len() && 0 <= j < entries.len() && #[trigger] entries[i].0@
                == #[trigger] entries[j].0@ ==> i == j
    }

    /// What the entries hold, by address.
    spec fn contents(entries: Seq<(Pubkey, Account)>) -> Map<Seq<u8>, AccountView> {
        Map::new(|k: Seq<u8>| Self::has(entries, k), |k: Seq<u8>| entries[Self::index_of(entries, k)].1@)
    }

    /// Writing the one entry about an address, or appending it where there was none,
    /// is an insertion.
    proof fn lemma_insert(before: Seq<(Pubkey, Account)>, i: int, entry: (Pubkey, Account), after: Seq<(Pubkey, Account)>)
        requires
            Self::distinct(before),
            ({
                ||| Self::at(before, i, entry.0@) && after == before.update(i, entry)
                ||| i == before.len() && !Self::has(before, entry.0@) && after == before.push(entry)
            }),
        ensures
            Self::distinct(after),
            Self::contents(after) == Self::contents(before).insert(entry.0@, entry.1@),
    {
        assert forall|j: int| 0 <= j < before.len() && j != i implies #[trigger] after[j] == before[j]
            && before[j].0@ != entry.0@ by {
            if before[j].0@ == entry.0@ {
                assert(Self::at(before, j, entry.0@));
            }
        }
        assert(after[i] == entry);
        assert forall|k: Seq<u8>| Self::has(after, k) == (Self::has(before, k) || k == entry.0@) by {
            if Self::has(after, k) && k != entry.0@ {
                assert(Self::at(before, Self::index_of(after, k), k));
            }
            if Self::has(before, k) && k != entry.0@ {
                assert(Self::at(after, Self::index_of(before, k), k));
            }
            assert(Self::at(after, i, entry.0@));
        }
        assert forall|k: Seq<u8>| Self::has(after, k) implies #[trigger] Self::contents(after)[k]
            == Self::contents(before).insert(entry.0@, entry.1@)[k] by {
            if k == entry.0@ {
                assert(Self::at(after, i, k));
            } else {
                assert(Self::at(after, Self::index_of(before, k), k));
            }
        }
        assert(Self::contents(after) =~= Self::contents(before).insert(entry.0@, entry.1@));
    }

    #[verifier::type_invariant]
    spec fn no_address_twice(self) -> bool {
        Self::distinct(self.entries@)
    }

    /// The snapshot without accounts.
    pub fn new() -> (r: AccountMap)
        ensures
            r@ == Map::<Seq<u8>, AccountView>::empty(),
    {
        let r = AccountMap { entries: Vec::new() };
        assert(r@ =~= Map::<Seq<u8>, AccountView>::empty());
        r
    }

    /// Position of the entry that is about `address`.
    fn position(&self, address: &Pubkey) -> (r: Option<usize>)
        ensures
            match r {
                Some(i) => Self::at(self.entries@, i as int, address@),
                None => !Self::has(self.entries@, address@),
            },
    {
        let mut i: usize = 0;
        while i < self.entries.len()
            invariant
                i <= self.entries.len(),
                forall|j: int| 0 <= j < i ==> !Self::at(self.entries@, j, address@),
            decreases self.entries.len() - i,
        {
            if self.entries[i].0 == *address {
                return Some(i);
            }
            i += 1;
        }
        None
    }

    /// The account at `address`, where the snapshot has it.
    pub fn get(&self, address: &Pubkey) -> (r: Option<&Account>)
        ensures
            match r {
                Some(account) => self@.contains_key(address@) && self@[address@] == account@,
                None => !self@.contains_key(address@),
            },
    {
        proof {
            use_type_invariant(self);
        }
        match self.position(address) {
            Some(i) => {
                assert(Self::index_of(self.entries@, address@) == i);
                Some(&self.entries[i].1)
            },
            None => None,
        }
    }

    /// Puts an account into the snapshot, in place of any that was at its address.
    pub fn insert(&mut self, address: Pubkey, account: Account)
        ensures
            final(self)@ == old(self)@.insert(address@, account@),
    {
        proof {
            use_type_invariant(&*self);
        }
        let ghost before = self.entries@;
        let ghost entry = (address, account);
        let found = self.position(&address);
        let mut entries: Vec<(Pubkey, Account)> = Vec::new();
        std::mem::swap(&mut entries, &mut self.entries);
        match found {
            Some(i) => {
                entries[i] = (address, account);
                proof {
                    Self::lemma_insert(before, i as int, entry, entries@);
                }
            },
            None => {
                entries.push((address, account));
                proof {
                    Self::lemma_insert(before, before.len() as int, entry, entries@);
                }
            },
        }
        self.entries = entries;
    }
}

/// Bytes of the account at `address`; that it was not supplied is an error.
pub fn try_get_account_data<'a>(accounts: &'a AccountMap, address: &Pubkey) -> (r: Result<&'a Vec<u8>, AmmError>)
    ensures
        match r {
            Ok(data) => accounts@.contains_key(address@) && accounts@[address@].data == data@,
            Err(e) => !accounts@.contains_key(address@) && e == (AmmError::AccountMissing { address: *address }),
        },
{
    match accounts.get(address) {
        Some(account) => Ok(&account.data),
        None => Err(AmmError::AccountMissing { address: *address }),
    }
}

/// Why a mint cannot be read, or `None` where it can: it was not supplied, or it is
/// too short to hold its decimals.
pub open spec fn mint_failure(accounts: Map<Seq<u8>, AccountView>, mint: Pubkey) -> Option<AmmError> {
    if !accounts.contains_key(mint@) {
        Some(AmmError::MintMissing { mint })
    } else if accounts[mint@].data.len() <= MINT_DECIMALS_OFFSET {
        Some(AmmError::MintTooShort { mint, len: accounts[mint@].data.len() as usize })
    } else {
        None
    }
}

/// Token program and decimals of a mint. A missing or truncated mint is an error:
/// stale decimals or a wrong token program would misprice the venue.
///
/// Token extensions are not looked at. The program registers no mint with other
/// than metadata extensions, and the extensions of a mint are fixed at its creation.
pub fn read_mint(accounts: &AccountMap, mint: &Pubkey) -> (r: Result<(Pubkey, u8), AmmError>)
    ensures
        match r {
            Ok((owner, decimals)) => {
                &&& mint_failure(accounts@, *mint) is None
                &&& owner@ == accounts@[mint@].owner
                &&& decimals == accounts@[mint@].data[MINT_DECIMALS_OFFSET as int]
            },
            Err(e) => mint_failure(accounts@, *mint) == Some(e),
        },
        r is Ok <==> accounts@.contains_key(mint@) && accounts@[mint@].data.len() > 44,
        r matches Ok((owner, decimals)) ==> owner@ == accounts@[mint@].owner && decimals == accounts@[mint@].data[44],
{
    match accounts.get(mint) {
        Some(account) => if account.data.len() <= MINT_DECIMALS_OFFSET {
            Err(AmmError::MintTooShort { mint: *mint, len: account.data.len() })
        } else {
            Ok((account.owner, account.data[MINT_DECIMALS_OFFSET]))
        },
        None => Err(AmmError::MintMissing { mint: *mint }),
    }
}

} // verus!
