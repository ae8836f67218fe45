use vstd::prelude::*;

use crate::state::FeeAccount;

verus! {

/// The fee ledger of one asset: at most one [`FeeAccount`] per owner
/// identifier, addressed by owner.  Entries are created lazily, the first
/// time a transfer or a correction touches an owner, and are never removed.
///
/// Contracts speak of the ledger through [`FeeLedger::entries`], its view as
/// a finite map from owner identifier to entry.
pub struct FeeLedger {
    mint: u64,
    owners: Vec<u64>,
    accounts: Vec<FeeAccount>,
}

/// The map that a pair of owner and account columns spells out, later rows
/// shadowing earlier ones.
spec fn map_of(owners: Seq<u64>, accounts: Seq<FeeAccount>) -> Map<u64, FeeAccount>
    decreases owners.len(),
{
    if owners.len() == 0 || accounts.len() == 0 {
        Map::empty()
    } else {
        map_of(owners.drop_last(), accounts.drop_last()).insert(owners.last(), accounts.last())
    }
}

/// No owner appears in two rows.
spec fn distinct(owners: Seq<u64>) -> bool {
    forall|i: int, j: int| 0 <= i < j < owners.len() ==> owners[i] != owners[j]
}

proof fn lemma_map_of_domain(owners: Seq<u64>, accounts: Seq<FeeAccount>, k: u64)
    requires
        owners.len() == accounts.len(),
    ensures
        map_of(owners, accounts).contains_key(k) <==> owners.contains(k),
    decreases owners.len(),
{
    if owners.len() > 0 {
        lemma_map_of_domain(owners.drop_last(), accounts.drop_last(), k);
        if owners.last() != k {
            if owners.drop_last().contains(k) {
                let i = choose|i: int|
                    0 <= i < owners.drop_last().len() && owners.drop_last()[i] == k;
                assert(owners[i] == k);
            }
            if owners.contains(k) {
                let i = choose|i: int| 0 <= i < owners.len() && owners[i] == k;
                assert(owners.drop_last()[i] == k);
            }
        }
    }
}

proof fn lemma_map_of_index(owners: Seq<u64>, accounts: Seq<FeeAccount>, i: int)
    requires
        owners.len() == accounts.len(),
        distinct(owners),
        0 <= i < owners.len(),
    ensures
        map_of(owners, accounts).contains_key(owners[i]),
        map_of(owners, accounts)[owners[i]] == accounts[i],
    decreases owners.len(),
{
    if i == owners.len() - 1 {
        lemma_map_of_domain(owners, accounts, owners[i]);
    } else {
        lemma_map_of_index(owners.drop_last(), accounts.drop_last(), i);
        assert(owners.drop_last()[i] == owners[i]);
        assert(accounts.drop_last()[i] == accounts[i]);
    }
}

proof fn lemma_map_of_update(owners: Seq<u64>, accounts: Seq<FeeAccount>, i: int, v: FeeAccount)
    requires
        owners.len() == accounts.len(),
        distinct(owners),
        0 <= i < owners.len(),
    ensures
        map_of(owners, accounts.update(i, v)) =~= map_of(owners, accounts).insert(owners[i], v),
    decreases owners.len(),
{
    let n = owners.len() as int;
    if i == n - 1 {
        assert(accounts.update(i, v).drop_last() =~= accounts.drop_last());
    } else {
        lemma_map_of_update(owners.drop_last(), accounts.drop_last(), i, v);
        assert(accounts.update(i, v).drop_last() =~= accounts.drop_last().update(i, v));
        assert(accounts.update(i, v).last() == accounts.last());
        // The final insert of the last row commutes with the insert at row i
        // because the owners differ.
        assert(owners.last() != owners[i]);
    }
}

impl FeeLedger {
    /// The asset this ledger belongs to.
    pub closed spec fn mint_spec(self) -> u64 {
        self.mint
    }

    /// The asset this ledger belongs to.
    pub fn mint(&self) -> (m: u64)
        ensures
            m == self.mint_spec(),
    {
        self.mint
    }

    /// The ledger as a map from owner identifier to that owner's entry.
    pub closed spec fn entries(self) -> Map<u64, FeeAccount> {
        map_of(self.owners@, self.accounts@)
    }

    /// Internal shape: one account per owner row, owners pairwise distinct.
    pub closed spec fn wf(self) -> bool {
        self.owners@.len() == self.accounts@.len() && distinct(self.owners@)
    }

    /// An empty ledger for `mint`.
    pub fn new(mint: u64) -> (ledger: FeeLedger)
        ensures
            ledger.wf(),
            ledger.mint_spec() == mint,
            ledger.entries() == Map::<u64, FeeAccount>::empty(),
    {
        FeeLedger { mint, owners: Vec::new(), accounts: Vec::new() }
    }

    /// The row holding `owner`, if any.
    fn position(&self, owner: u64) -> (r: Option<usize>)
        requires
            self.wf(),
        ensures
            match r {
                Some(i) => {
                    &&& i < self.owners@.len()
                    &&& self.owners@[i as int] == owner
                    &&& self.entries().contains_key(owner)
                    &&& self.entries()[owner] == self.accounts@[i as int]
                },
                None => !self.entries().contains_key(owner),
            },
    {
        let n = self.owners.len();
        let mut i: usize = 0;
        while i < n
            invariant
                n == self.owners@.len(),
                self.wf(),
                forall|j: int| 0 <= j < i ==> self.owners@[j] != owner,
            decreases n - i,
        {
            if self.owners[i] == owner {
                proof {
                    lemma_map_of_index(self.owners@, self.accounts@, i as int);
                }
                return Some(i);
            }
            i = i + 1;
        }
        proof {
            lemma_map_of_domain(self.owners@, self.accounts@, owner);
        }
        None
    }

    /// The entry of `owner`, if one exists.
    pub fn get(&self, owner: u64) -> (r: Option<FeeAccount>)
        requires
            self.wf(),
        ensures
            match r {
                Some(account) => self.entries().contains_key(owner) && self.entries()[owner]
                    == account,
                None => !self.entries().contains_key(owner),
            },
    {
        match self.position(owner) {
            Some(i) => Some(self.accounts[i]),
            None => None,
        }
    }

    /// Whether `owner` already has an entry.
    pub fn contains(&self, owner: u64) -> (r: bool)
        requires
            self.wf(),
        ensures
            r == self.entries().contains_key(owner),
    {
        self.position(owner).is_some()
    }

    /// Writes `owner`'s entry, creating the row if it is new.
    pub fn set(&mut self, owner: u64, account: FeeAccount)
        requires
            old(self).wf(),
        ensures
            final(self).wf(),
            final(self).mint_spec() == old(self).mint_spec(),
            final(self).entries() == old(self).entries().insert(owner, account),
    {
        match self.position(owner) {
            Some(i) => {
                proof {
                    lemma_map_of_update(self.owners@, self.accounts@, i as int, account);
                }
                self.accounts.set(i, account);
            },
            None => {
                proof {
                    lemma_map_of_domain(self.owners@, self.accounts@, owner);
                    assert(self.owners@.push(owner).drop_last() =~= self.owners@);
                    assert(self.accounts@.push(account).drop_last() =~= self.accounts@);
                }
                self.owners.push(owner);
                self.accounts.push(account);
                proof {
                    assert forall|i: int, j: int|
                        0 <= i < j < self.owners@.len() implies self.owners@[i]
                        != self.owners@[j] by {
                        if j == self.owners@.len() - 1 {
                            assert(!old(self).owners@.contains(owner));
                            assert(old(self).owners@[i] == self.owners@[i]);
                        }
                    }
                }
            },
        }
    }
}

} // verus!
