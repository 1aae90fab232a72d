//! The ledger schema: typed, verified access to the two authenticated tables
//! of the store — the accounts map and the per-account history lists. Every
//! mutation appends one history entry, recomputes the history root, derives
//! the next account version and replaces the map entry, so a committed
//! account always agrees with its history list.

use vstd::prelude::*;

use crate::account::{
    account_created, account_credited, account_debited, account_signed_in, Account, AccountView,
};
use crate::crypto::{hash_bytes, sha256_of};
use crate::mapping::{
    lemma_map_of_domain, lemma_map_of_get, lemma_map_of_push, lemma_map_of_update, map_of,
    unique_keys,
};
use crate::merkle::{accounts_root, compute_accounts_root, lemma_list_root_push, list_root};
use crate::types::{append_bytes, HashVal, PubKey};
use crate::INITIAL_BALANCE;

verus! {

/// One account's append-only history: the hashes of the transactions that
/// touched the account, in commit order, with the list's current Merkle root
/// kept alongside so a push recomputes it in one digest.
pub struct HistoryList {
    key: PubKey,
    hashes: Vec<HashVal>,
    root: HashVal,
}

/// The byte sequences of a sequence of digests.
pub open spec fn hash_views(s: Seq<HashVal>) -> Seq<Seq<u8>> {
    s.map_values(|h: HashVal| h@)
}

impl HistoryList {
    /// The owning account's key.
    pub closed spec fn key_view(&self) -> Seq<u8> {
        self.key@
    }

    /// The entries as mathematical sequences of bytes.
    pub closed spec fn entries(&self) -> Seq<Seq<u8>> {
        hash_views(self.hashes@)
    }

    /// The kept root is the Merkle root of the entries, and every stored
    /// value has digest width.
    pub closed spec fn wf(&self) -> bool {
        &&& self.key@.len() == 32
        &&& self.root@ == list_root(self.entries())
        &&& self.root.wf()
        &&& forall|i: int| 0 <= i < self.hashes@.len() ==> (#[trigger] self.hashes@[i]).wf()
    }

    /// Starts a history with its first entry.
    fn singleton(key: &PubKey, h: &HashVal) -> (r: HistoryList)
        requires
            key.wf(),
            h.wf(),
        ensures
            r.wf(),
            r.key_view() == key@,
            r.entries() == Seq::<Seq<u8>>::empty().push(h@),
    {
        let mut buf = HashVal::zero().byte_vec().clone();
        append_bytes(&mut buf, h.byte_vec().as_slice());
        let root = hash_bytes(buf.as_slice());
        let mut hashes: Vec<HashVal> = Vec::new();
        hashes.push(h.dup());
        let r = HistoryList { key: key.dup(), hashes, root };
        proof {
            lemma_list_root_push(Seq::<Seq<u8>>::empty(), h@);
            assert(buf@ =~= list_root(Seq::<Seq<u8>>::empty()) + h@);
            assert(r.entries() =~= Seq::<Seq<u8>>::empty().push(h@));
        }
        r
    }

    /// The history extended by one entry, with the root moved along the chain.
    fn pushed(&self, h: &HashVal) -> (r: HistoryList)
        requires
            self.wf(),
            h.wf(),
        ensures
            r.wf(),
            r.key_view() == self.key_view(),
            r.entries() == self.entries().push(h@),
    {
        let mut buf = self.root.byte_vec().clone();
        append_bytes(&mut buf, h.byte_vec().as_slice());
        let root = hash_bytes(buf.as_slice());
        let mut hashes: Vec<HashVal> = Vec::new();
        let mut i: usize = 0;
        while i < self.hashes.len()
            invariant
                i <= self.hashes@.len(),
                hashes@.len() == i,
                hash_views(hashes@) == self.entries().subrange(0, i as int),
                forall|j: int| 0 <= j < hashes@.len() ==> (#[trigger] hashes@[j]).wf(),
                forall|j: int| 0 <= j < self.hashes@.len() ==> (#[trigger] self.hashes@[j]).wf(),
            decreases self.hashes@.len() - i,
        {
            hashes.push(self.hashes[i].dup());
            i = i + 1;
            proof {
                assert(hash_views(hashes@) =~= self.entries().subrange(0, i as int));
            }
        }
        hashes.push(h.dup());
        let r = HistoryList { key: self.key.dup(), hashes, root };
        proof {
            assert(self.entries().subrange(0, self.hashes@.len() as int) =~= self.entries());
            assert(r.entries() =~= self.entries().push(h@));
            lemma_list_root_push(self.entries(), h@);
            assert(buf@ =~= list_root(self.entries()) + h@);
        }
        r
    }

    /// A copy of the entries.
    fn entries_vec(&self) -> (r: Vec<HashVal>)
        requires
            self.wf(),
        ensures
            hash_views(r@) == self.entries(),
            forall|j: int| 0 <= j < r@.len() ==> (#[trigger] r@[j]).wf(),
    {
        let mut hashes: Vec<HashVal> = Vec::new();
        let mut i: usize = 0;
        while i < self.hashes.len()
            invariant
                i <= self.hashes@.len(),
                hashes@.len() == i,
                hash_views(hashes@) == self.entries().subrange(0, i as int),
                forall|j: int| 0 <= j < hashes@.len() ==> (#[trigger] hashes@[j]).wf(),
                forall|j: int| 0 <= j < self.hashes@.len() ==> (#[trigger] self.hashes@[j]).wf(),
            decreases self.hashes@.len() - i,
        {
            hashes.push(self.hashes[i].dup());
            i = i + 1;
            proof {
                assert(hash_views(hashes@) =~= self.entries().subrange(0, i as int));
            }
        }
        proof {
            assert(self.entries().subrange(0, self.hashes@.len() as int) =~= self.entries());
        }
        hashes
    }

    /// The current Merkle root of the list.
    pub fn merkle_root(&self) -> (r: &HashVal)
        requires
            self.wf(),
        ensures
            r@ == list_root(self.entries()),
            r.wf(),
    {
        &self.root
    }

    /// The number of entries.
    pub fn len(&self) -> (r: usize)
        ensures
            r == self.entries().len(),
    {
        self.hashes.len()
    }
}

/// The mutable, exclusive view of the store for one block's worth of
/// sequential writes: the accounts table and the history table family.
pub struct Fork {
    accounts: Vec<Account>,
    histories: Vec<HistoryList>,
}

impl Fork {
    /// The account records in table order.
    pub closed spec fn accounts_views(&self) -> Seq<AccountView> {
        self.accounts@.map_values(|a: Account| a@)
    }

    /// The accounts table as (key, record) pairs.
    pub closed spec fn account_pairs(&self) -> Seq<(Seq<u8>, AccountView)> {
        self.accounts@.map_values(|a: Account| (a@.pub_key, a@))
    }

    /// The history tables as (key, entries) pairs.
    pub closed spec fn history_pairs(&self) -> Seq<(Seq<u8>, Seq<Seq<u8>>)> {
        self.histories@.map_values(|h: HistoryList| (h.key_view(), h.entries()))
    }

    /// The authenticated accounts map: public key to account record.
    pub open spec fn accounts_map(&self) -> Map<Seq<u8>, AccountView> {
        map_of(self.account_pairs())
    }

    /// The history table family: public key to that account's entry sequence.
    pub open spec fn histories_map(&self) -> Map<Seq<u8>, Seq<Seq<u8>>> {
        map_of(self.history_pairs())
    }

    /// The history of a key; empty when no entry was ever appended for it.
    pub open spec fn history_of(&self, k: Seq<u8>) -> Seq<Seq<u8>> {
        if self.histories_map().contains_key(k) {
            self.histories_map()[k]
        } else {
            Seq::empty()
        }
    }

    /// Well-formedness of the store: keys are unique in both tables, every
    /// stored value is well formed, every account is stored under its own
    /// key with `history_len` and `history_hash` agreeing with its history
    /// list, and history lists exist only for existing accounts.
    pub closed spec fn wf(&self) -> bool {
        &&& unique_keys(self.account_pairs())
        &&& unique_keys(self.history_pairs())
        &&& forall|i: int| 0 <= i < self.accounts@.len() ==> (#[trigger] self.accounts@[i]).wf()
        &&& forall|i: int| 0 <= i < self.histories@.len() ==> (#[trigger] self.histories@[i]).wf()
        &&& forall|i: int|
            0 <= i < self.accounts@.len() ==> {
                let a = (#[trigger] self.accounts@[i])@;
                &&& self.histories_map().contains_key(a.pub_key)
                &&& self.histories_map()[a.pub_key].len() == a.history_len
                &&& list_root(self.histories_map()[a.pub_key]) == a.history_hash
            }
        &&& forall|i: int|
            0 <= i < self.histories@.len() ==> self.accounts_map().contains_key(
                (#[trigger] self.histories@[i]).key_view(),
            )
    }

    /// An empty store.
    pub fn new() -> (r: Fork)
        ensures
            r.wf(),
            r.accounts_map() == Map::<Seq<u8>, AccountView>::empty(),
            r.histories_map() == Map::<Seq<u8>, Seq<Seq<u8>>>::empty(),
            r.accounts_views() == Seq::<AccountView>::empty(),
    {
        let r = Fork { accounts: Vec::new(), histories: Vec::new() };
        proof {
            assert(r.accounts_views() =~= Seq::<AccountView>::empty());
            assert(r.account_pairs() =~= Seq::<(Seq<u8>, AccountView)>::empty());
            assert(r.history_pairs() =~= Seq::<(Seq<u8>, Seq<Seq<u8>>)>::empty());
        }
        r
    }

    /// Index of the account stored under `key`, if any.
    fn find_account(&self, key: &PubKey) -> (r: Option<usize>)
        ensures
            match r {
                Some(i) => i < self.accounts@.len() && self.accounts@[i as int]@.pub_key == key@,
                None => forall|i: int|
                    0 <= i < self.accounts@.len() ==> (#[trigger] self.accounts@[i])@.pub_key
                        != key@,
            },
    {
        let mut i: usize = 0;
        while i < self.accounts.len()
            invariant
                i <= self.accounts@.len(),
                forall|j: int| 0 <= j < i ==> (#[trigger] self.accounts@[j])@.pub_key != key@,
            decreases self.accounts@.len() - i,
        {
            if self.accounts[i].pub_key().equals(key) {
                return Some(i);
            }
            i = i + 1;
        }
        None
    }

    /// Index of the history list stored under `key`, if any.
    fn find_history(&self, key: &PubKey) -> (r: Option<usize>)
        ensures
            match r {
                Some(i) => i < self.histories@.len() && self.histories@[i as int].key_view()
                    == key@,
                None => forall|i: int|
                    0 <= i < self.histories@.len() ==> (#[trigger] self.histories@[i]).key_view()
                        != key@,
            },
    {
        let mut i: usize = 0;
        while i < self.histories.len()
            invariant
                i <= self.histories@.len(),
                forall|j: int| 0 <= j < i ==> (#[trigger] self.histories@[j]).key_view() != key@,
            decreases self.histories@.len() - i,
        {
            if crate::types::bytes_eq(self.histories[i].key.byte_vec(), key.byte_vec()) {
                return Some(i);
            }
            i = i + 1;
        }
        None
    }

    /// Appends one entry to `key`'s history (starting the list if needed) and
    /// returns the list's new Merkle root.
    fn push_history(&mut self, key: &PubKey, h: &HashVal) -> (root: HashVal)
        requires
            key.wf(),
            h.wf(),
            unique_keys(old(self).history_pairs()),
            forall|i: int|
                0 <= i < old(self).histories@.len() ==> (#[trigger] old(self).histories@[i]).wf(),
        ensures
            final(self).accounts == old(self).accounts,
            unique_keys(final(self).history_pairs()),
            forall|i: int|
                0 <= i < final(self).histories@.len() ==> (#[trigger] final(self).histories@[i]).wf(),
            final(self).histories_map() == old(self).histories_map().insert(
                key@,
                old(self).history_of(key@).push(h@),
            ),
            forall|i: int|
                0 <= i < final(self).histories@.len() ==> (#[trigger] final(self).histories@[i]).key_view() == key@ || exists|j: int|
                    0 <= j < old(self).histories@.len() && final(self).histories@[i]
                        == old(self).histories@[j],
            root@ == list_root(old(self).history_of(key@).push(h@)),
            root.wf(),
    {
        let idx = self.find_history(key);
        match idx {
            Some(i) => {
                proof {
                    lemma_map_of_get(self.history_pairs(), i as int);
                    assert(self.history_pairs()[i as int].0 == key@);
                    assert(self.histories_map().contains_key(key@));
                    assert(self.histories_map()[key@] == self.histories@[i as int].entries());
                }
                let new_list = self.histories[i].pushed(h);
                let root = new_list.root.dup();
                proof {
                    lemma_map_of_update(
                        self.history_pairs(),
                        i as int,
                        self.histories@[i as int].entries().push(h@),
                    );
                }
                self.histories.set(i, new_list);
                proof {
                    assert(self.history_pairs() =~= old(self).history_pairs().update(
                        i as int,
                        (key@, old(self).histories@[i as int].entries().push(h@)),
                    ));
                }
                root
            },
            None => {
                proof {
                    lemma_map_of_domain(self.history_pairs(), key@);
                    assert(forall|i: int|
                        0 <= i < self.history_pairs().len() ==> #[trigger] self.history_pairs()[i].0
                            != key@);
                    assert(!self.histories_map().contains_key(key@));
                    lemma_map_of_push(
                        self.history_pairs(),
                        key@,
                        Seq::<Seq<u8>>::empty().push(h@),
                    );
                }
                let new_list = HistoryList::singleton(key, h);
                let root = new_list.root.dup();
                self.histories.push(new_list);
                proof {
                    assert(self.history_pairs() =~= old(self).history_pairs().push(
                        (key@, Seq::<Seq<u8>>::empty().push(h@)),
                    ));
                    assert(old(self).history_of(key@) =~= Seq::<Seq<u8>>::empty());
                    assert forall|x: int, y: int|
                        0 <= x < y < self.history_pairs().len() implies self.history_pairs()[x].0
                        != self.history_pairs()[y].0 by {
                        if y == self.history_pairs().len() - 1 {
                            assert(self.history_pairs()[x].0 == old(self).history_pairs()[x].0);
                        }
                    }
                }
                root
            },
        }
    }

    /// Writes `a` into the accounts table under its own key, replacing any
    /// previous version.
    fn put_account(&mut self, a: Account)
        requires
            a.wf(),
            unique_keys(old(self).account_pairs()),
            forall|i: int|
                0 <= i < old(self).accounts@.len() ==> (#[trigger] old(self).accounts@[i]).wf(),
        ensures
            final(self).histories == old(self).histories,
            unique_keys(final(self).account_pairs()),
            forall|i: int|
                0 <= i < final(self).accounts@.len() ==> (#[trigger] final(self).accounts@[i]).wf(),
            final(self).accounts_map() == old(self).accounts_map().insert(a@.pub_key, a@),
            forall|i: int|
                0 <= i < final(self).accounts@.len() ==> (#[trigger] final(self).accounts@[i])@ == a@ || exists|j: int|
                    0 <= j < old(self).accounts@.len() && final(self).accounts@[i]
                        == old(self).accounts@[j] && old(self).accounts@[j]@.pub_key != a@.pub_key,
    {
        let idx = self.find_account(a.pub_key());
        match idx {
            Some(i) => {
                proof {
                    lemma_map_of_update(self.account_pairs(), i as int, a@);
                    assert(self.account_pairs()[i as int].0 == a@.pub_key);
                }
                self.accounts.set(i, a);
                proof {
                    assert(self.account_pairs() =~= old(self).account_pairs().update(
                        i as int,
                        (a@.pub_key, a@),
                    ));
                    assert forall|i2: int|
                        0 <= i2 < self.accounts@.len() implies (#[trigger] self.accounts@[i2])@
                        == a@ || exists|j: int|
                        0 <= j < old(self).accounts@.len() && self.accounts@[i2]
                            == old(self).accounts@[j] && old(self).accounts@[j]@.pub_key
                            != a@.pub_key by {
                        if i2 != i as int {
                            assert(self.accounts@[i2] == old(self).accounts@[i2]);
                            assert(old(self).account_pairs()[i2].0 != old(self).account_pairs()[i as int].0);
                        }
                    }
                }
            },
            None => {
                proof {
                    lemma_map_of_domain(self.account_pairs(), a@.pub_key);
                    assert(forall|i: int|
                        0 <= i < self.account_pairs().len() ==> #[trigger] self.account_pairs()[i].0
                            != a@.pub_key);
                    lemma_map_of_push(self.account_pairs(), a@.pub_key, a@);
                }
                self.accounts.push(a);
                proof {
                    assert(self.account_pairs() =~= old(self).account_pairs().push(
                        (a@.pub_key, a@),
                    ));
                    assert forall|x: int, y: int|
                        0 <= x < y < self.account_pairs().len() implies self.account_pairs()[x].0
                        != self.account_pairs()[y].0 by {
                        if y == self.account_pairs().len() - 1 {
                            assert(self.account_pairs()[x].0 == old(self).account_pairs()[x].0);
                        }
                    }
                }
            },
        }
    }
}

/// The ledger's committed-state facts for one key, as the well-formedness
/// invariant guarantees them: the account sits under its own key, and its
/// `history_len` and `history_hash` agree with its history list.
pub proof fn lemma_account_history_consistent(f: &Fork, k: Seq<u8>)
    requires
        f.wf(),
        f.accounts_map().contains_key(k),
    ensures
        f.accounts_map()[k].pub_key == k,
        f.histories_map().contains_key(k),
        f.accounts_map()[k].history_len == f.history_of(k).len(),
        f.accounts_map()[k].history_hash == list_root(f.history_of(k)),
        f.accounts_map()[k].pub_key.len() == 32,
        f.accounts_map()[k].history_hash.len() == 32,
        f.accounts_map()[k].access_token_hash.len() == 32,
{
    lemma_map_of_domain(f.account_pairs(), k);
    let i = choose|i: int| 0 <= i < f.account_pairs().len() && f.account_pairs()[i].0 == k;
    lemma_map_of_get(f.account_pairs(), i);
}

/// A key that was never created has no history: its history list is empty.
pub proof fn lemma_absent_account_no_history(f: &Fork, k: Seq<u8>)
    requires
        f.wf(),
        !f.accounts_map().contains_key(k),
    ensures
        !f.histories_map().contains_key(k),
        f.history_of(k) == Seq::<Seq<u8>>::empty(),
{
    lemma_map_of_domain(f.history_pairs(), k);
    if f.histories_map().contains_key(k) {
        let i = choose|i: int| 0 <= i < f.history_pairs().len() && f.history_pairs()[i].0 == k;
        assert(f.accounts_map().contains_key(k));
    }
}

/// The ledger schema: typed access to the accounts map and the history table
/// family over one store view. Read operations take `&self`; mutating
/// operations take `&mut self`, so they are only reachable through the
/// exclusive per-block fork.
pub struct CoreSchema {
    view: Fork,
}

impl CoreSchema {
    /// The account records in table order.
    pub closed spec fn accounts_views(&self) -> Seq<AccountView> {
        self.view.accounts_views()
    }

    /// The authenticated accounts map: public key to account record.
    pub closed spec fn accounts_map(&self) -> Map<Seq<u8>, AccountView> {
        self.view.accounts_map()
    }

    /// The history table family: public key to that account's entry sequence.
    pub closed spec fn histories_map(&self) -> Map<Seq<u8>, Seq<Seq<u8>>> {
        self.view.histories_map()
    }

    /// The history of a key; empty when no entry was ever appended for it.
    pub open spec fn history_of(&self, k: Seq<u8>) -> Seq<Seq<u8>> {
        if self.histories_map().contains_key(k) {
            self.histories_map()[k]
        } else {
            Seq::empty()
        }
    }

    /// The store behind the schema is well formed.
    pub closed spec fn wf(&self) -> bool {
        self.view.wf()
    }

    /// Constructs the schema from the store view.
    pub fn new(view: Fork) -> (r: CoreSchema)
        ensures
            r.accounts_views() == view.accounts_views(),
            r.accounts_map() == view.accounts_map(),
            r.histories_map() == view.histories_map(),
            r.wf() == view.wf(),
    {
        CoreSchema { view }
    }

    /// Read handle to the accounts table.
    pub fn accounts(&self) -> (r: &Vec<Account>)
        ensures
            crate::merkle::account_views(r@) == self.accounts_views(),
    {
        proof {
            assert(crate::merkle::account_views(self.view.accounts@) =~= self.accounts_views());
        }
        &self.view.accounts
    }

    /// Returns account data for the given public key.
    pub fn account(&self, pub_key: &PubKey) -> (r: Option<Account>)
        requires
            self.wf(),
        ensures
            match r {
                Some(a) => self.accounts_map().contains_key(pub_key@)
                    && a@ == self.accounts_map()[pub_key@] && a.wf(),
                None => !self.accounts_map().contains_key(pub_key@),
            },
    {
        let idx = self.view.find_account(pub_key);
        match idx {
            Some(i) => {
                proof {
                    lemma_map_of_get(self.view.account_pairs(), i as int);
                }
                Some(self.view.accounts[i].dup())
            },
            None => {
                proof {
                    lemma_map_of_domain(self.view.account_pairs(), pub_key@);
                }
                None
            },
        }
    }

    /// Returns the history of the account with the given public key: the
    /// hashes of the transactions that touched it, in commit order.
    pub fn account_history(&self, pub_key: &PubKey) -> (r: Vec<HashVal>)
        requires
            self.wf(),
        ensures
            hash_views(r@) == self.history_of(pub_key@),
            forall|j: int| 0 <= j < r@.len() ==> (#[trigger] r@[j]).wf(),
    {
        let idx = self.view.find_history(pub_key);
        match idx {
            Some(i) => {
                proof {
                    lemma_map_of_get(self.view.history_pairs(), i as int);
                }
                self.view.histories[i].entries_vec()
            },
            None => {
                proof {
                    lemma_map_of_domain(self.view.history_pairs(), pub_key@);
                    assert(hash_views(Seq::<HashVal>::empty()) =~= Seq::<Seq<u8>>::empty());
                }
                Vec::new()
            },
        }
    }

    /// Returns the store's state-commitment contribution: the Merkle root of
    /// the accounts table, as the one element of the service's hash list.
    pub fn state_hash(&self) -> (r: Vec<HashVal>)
        ensures
            hash_views(r@) == seq![accounts_root(self.accounts_views())],
    {
        let root = compute_accounts_root(&self.view.accounts);
        let mut r: Vec<HashVal> = Vec::new();
        r.push(root);
        proof {
            assert(self.view.accounts@.map_values(|a: Account| a@) =~= self.accounts_views());
            assert(hash_views(r@) =~= seq![accounts_root(self.accounts_views())]);
        }
        r
    }

    /// Increases the balance of the account and appends one record to its
    /// history. `account` must be the currently committed version for its
    /// key; the caller has already checked existence and that the sum fits.
    pub fn increase_account_balance(&mut self, account: Account, amount: u64, transaction: &HashVal)
        requires
            old(self).wf(),
            transaction.wf(),
            old(self).accounts_map().contains_key(account@.pub_key),
            old(self).accounts_map()[account@.pub_key] == account@,
            account@.balance + amount <= u64::MAX,
            account@.history_len < u64::MAX,
        ensures
            final(self).wf(),
            final(self).accounts_map() == old(self).accounts_map().insert(
                account@.pub_key,
                account_credited(account@, amount, transaction@),
            ),
            final(self).histories_map() == old(self).histories_map().insert(
                account@.pub_key,
                old(self).history_of(account@.pub_key).push(transaction@),
            ),
            final(self).accounts_map().contains_key(account@.pub_key),
    {
        let ghost pre = self.view;
        let ghost k = account@.pub_key;
        proof {
            lemma_account_history_consistent(&self.view, k);
        }
        let key = account.pub_key().dup();
        let new_root = self.view.push_history(&key, transaction);
        proof {
            lemma_list_root_push(pre.history_of(k), transaction@);
        }
        let balance = account.balance();
        let new_acc = account.set_balance(balance + amount, &new_root);
        proof {
            assert(new_acc@ == account_credited(old(self).accounts_map()[k], amount, transaction@));
        }
        self.view.put_account(new_acc);
        proof {
            lemma_wf_after_write(
                &pre,
                &self.view,
                k,
                account_credited(pre.accounts_map()[k], amount, transaction@),
                pre.history_of(k).push(transaction@),
            );
        }
    }

    /// Decreases the balance of the account and appends one record to its
    /// history. `account` must be the currently committed version for its
    /// key; the caller has already checked sufficiency — an unchecked
    /// decrease below zero is a contract violation, not a recoverable error.
    pub fn decrease_account_balance(&mut self, account: Account, amount: u64, transaction: &HashVal)
        requires
            old(self).wf(),
            transaction.wf(),
            old(self).accounts_map().contains_key(account@.pub_key),
            old(self).accounts_map()[account@.pub_key] == account@,
            account@.balance >= amount,
            account@.history_len < u64::MAX,
        ensures
            final(self).wf(),
            final(self).accounts_map() == old(self).accounts_map().insert(
                account@.pub_key,
                account_debited(account@, amount, transaction@),
            ),
            final(self).histories_map() == old(self).histories_map().insert(
                account@.pub_key,
                old(self).history_of(account@.pub_key).push(transaction@),
            ),
            final(self).accounts_map().contains_key(account@.pub_key),
    {
        let ghost pre = self.view;
        let ghost k = account@.pub_key;
        proof {
            lemma_account_history_consistent(&self.view, k);
        }
        let key = account.pub_key().dup();
        let new_root = self.view.push_history(&key, transaction);
        proof {
            lemma_list_root_push(pre.history_of(k), transaction@);
        }
        let balance = account.balance();
        let new_acc = account.set_balance(balance - amount, &new_root);
        proof {
            assert(new_acc@ == account_debited(old(self).accounts_map()[k], amount, transaction@));
        }
        self.view.put_account(new_acc);
        proof {
            lemma_wf_after_write(
                &pre,
                &self.view,
                k,
                account_debited(pre.accounts_map()[k], amount, transaction@),
                pre.history_of(k).push(transaction@),
            );
        }
    }

    /// Creates a new account with the fixed initial balance and appends the
    /// first record to its history. The caller has already checked, via
    /// `account`, that no entry exists for `key`.
    pub fn create_account(&mut self, key: &PubKey, name: &str, transaction: &HashVal)
        requires
            old(self).wf(),
            key.wf(),
            transaction.wf(),
            !old(self).accounts_map().contains_key(key@),
        ensures
            final(self).wf(),
            final(self).accounts_map() == old(self).accounts_map().insert(
                key@,
                account_created(key@, name@, INITIAL_BALANCE, transaction@),
            ),
            final(self).histories_map() == old(self).histories_map().insert(
                key@,
                old(self).history_of(key@).push(transaction@),
            ),
            final(self).accounts_map().contains_key(key@),
    {
        let ghost pre = self.view;
        proof {
            lemma_absent_account_no_history(&self.view, key@);
        }
        let new_root = self.view.push_history(key, transaction);
        proof {
            lemma_list_root_push(pre.history_of(key@), transaction@);
        }
        let account = Account::new(
            key.dup(),
            name.to_owned(),
            crate::INITIAL_BALANCE,
            HashVal::zero(),
            1u64,
            new_root,
        );
        proof {
            assert(account@ == account_created(key@, name@, INITIAL_BALANCE, transaction@));
        }
        self.view.put_account(account);
        proof {
            lemma_wf_after_write(
                &pre,
                &self.view,
                key@,
                account_created(key@, name@, INITIAL_BALANCE, transaction@),
                pre.history_of(key@).push(transaction@),
            );
        }
    }

    /// Records a sign-in: appends one record to the account's history and
    /// stores the hash of the freshly issued session token; the balance is
    /// untouched. `account` must be the currently committed version.
    pub fn sign_into_account(&mut self, account: Account, token: &Vec<u8>, transaction: &HashVal)
        requires
            old(self).wf(),
            transaction.wf(),
            old(self).accounts_map().contains_key(account@.pub_key),
            old(self).accounts_map()[account@.pub_key] == account@,
            account@.history_len < u64::MAX,
        ensures
            final(self).wf(),
            final(self).accounts_map() == old(self).accounts_map().insert(
                account@.pub_key,
                account_signed_in(account@, sha256_of(token@), transaction@),
            ),
            final(self).histories_map() == old(self).histories_map().insert(
                account@.pub_key,
                old(self).history_of(account@.pub_key).push(transaction@),
            ),
            final(self).accounts_map().contains_key(account@.pub_key),
    {
        let ghost pre = self.view;
        let ghost k = account@.pub_key;
        proof {
            lemma_account_history_consistent(&self.view, k);
        }
        let key = account.pub_key().dup();
        let new_root = self.view.push_history(&key, transaction);
        proof {
            lemma_list_root_push(pre.history_of(k), transaction@);
        }
        let token_hash = hash_bytes(token.as_slice());
        let new_acc = account.set_access_token(&token_hash, &new_root);
        proof {
            assert(new_acc@ == account_signed_in(
                old(self).accounts_map()[k],
                sha256_of(token@),
                transaction@,
            ));
        }
        self.view.put_account(new_acc);
        proof {
            lemma_wf_after_write(
                &pre,
                &self.view,
                k,
                account_signed_in(pre.accounts_map()[k], sha256_of(token@), transaction@),
                pre.history_of(k).push(transaction@),
            );
        }
    }
}

/// The committed-state facts for one key of the schema: the account sits
/// under its own key, and its `history_len` and `history_hash` agree with
/// its history list.
pub proof fn lemma_schema_account_consistent(s: CoreSchema, k: Seq<u8>)
    requires
        s.wf(),
        s.accounts_map().contains_key(k),
    ensures
        s.accounts_map()[k].pub_key == k,
        s.histories_map().contains_key(k),
        s.accounts_map()[k].history_len == s.history_of(k).len(),
        s.accounts_map()[k].history_hash == list_root(s.history_of(k)),
        s.accounts_map()[k].pub_key.len() == 32,
        s.accounts_map()[k].history_hash.len() == 32,
        s.accounts_map()[k].access_token_hash.len() == 32,
{
    lemma_account_history_consistent(&s.view, k);
}

/// A key that was never created has no history in the schema.
pub proof fn lemma_schema_absent_no_history(s: CoreSchema, k: Seq<u8>)
    requires
        s.wf(),
        !s.accounts_map().contains_key(k),
    ensures
        !s.histories_map().contains_key(k),
        s.history_of(k) == Seq::<Seq<u8>>::empty(),
{
    lemma_absent_account_no_history(&s.view, k);
}

/// A key absent from the accounts map matches no stored record.
pub proof fn lemma_absent_key_not_in_views(s: CoreSchema, k: Seq<u8>)
    requires
        !s.accounts_map().contains_key(k),
    ensures
        forall|i: int|
            0 <= i < s.accounts_views().len() ==> (#[trigger] s.accounts_views()[i]).pub_key != k,
{
    lemma_map_of_domain(s.view.account_pairs(), k);
    assert forall|i: int|
        0 <= i < s.accounts_views().len() implies (#[trigger] s.accounts_views()[i]).pub_key
        != k by {
        assert(s.view.account_pairs()[i].0 == s.accounts_views()[i].pub_key);
    }
}

/// Re-establishes store well-formedness after one mutation: the account `a`
/// was written under key `k` and that key's history became `newhist`, while
/// every other table entry was kept.
proof fn lemma_wf_after_write(pre: &Fork, post: &Fork, k: Seq<u8>, a: AccountView, newhist: Seq<Seq<u8>>)
    requires
        pre.wf(),
        a.pub_key == k,
        unique_keys(post.account_pairs()),
        unique_keys(post.history_pairs()),
        forall|i: int| 0 <= i < post.accounts@.len() ==> (#[trigger] post.accounts@[i]).wf(),
        forall|i: int| 0 <= i < post.histories@.len() ==> (#[trigger] post.histories@[i]).wf(),
        post.accounts_map() == pre.accounts_map().insert(k, a),
        post.histories_map() == pre.histories_map().insert(k, newhist),
        forall|i: int|
            0 <= i < post.accounts@.len() ==> (#[trigger] post.accounts@[i])@ == a || exists|j: int|
                0 <= j < pre.accounts@.len() && post.accounts@[i] == pre.accounts@[j]
                    && pre.accounts@[j]@.pub_key != k,
        forall|i: int|
            0 <= i < post.histories@.len() ==> (#[trigger] post.histories@[i]).key_view() == k
                || exists|j: int|
                0 <= j < pre.histories@.len() && post.histories@[i] == pre.histories@[j],
        a.history_len == newhist.len(),
        a.history_hash == list_root(newhist),
    ensures
        post.wf(),
{
    assert forall|i: int| 0 <= i < post.accounts@.len() implies {
        let v = (#[trigger] post.accounts@[i])@;
        &&& post.histories_map().contains_key(v.pub_key)
        &&& post.histories_map()[v.pub_key].len() == v.history_len
        &&& list_root(post.histories_map()[v.pub_key]) == v.history_hash
    } by {
        let v = post.accounts@[i]@;
        if v == a {
            assert(post.histories_map().contains_key(k));
            assert(post.histories_map()[k] == newhist);
        } else {
            let j = choose|j: int|
                0 <= j < pre.accounts@.len() && post.accounts@[i] == pre.accounts@[j]
                    && pre.accounts@[j]@.pub_key != k;
            assert(pre.accounts@[j].wf());
            assert(v == pre.accounts@[j]@);
            assert(v.pub_key != k);
            assert(pre.histories_map().contains_key(v.pub_key));
            assert(post.histories_map()[v.pub_key] == pre.histories_map()[v.pub_key]);
        }
    }
    assert forall|i: int| 0 <= i < post.histories@.len() implies post.accounts_map().contains_key(
        (#[trigger] post.histories@[i]).key_view(),
    ) by {
        if post.histories@[i].key_view() == k {
            assert(post.accounts_map().contains_key(k));
        } else {
            let j = choose|j: int|
                0 <= j < pre.histories@.len() && post.histories@[i] == pre.histories@[j];
            assert(pre.accounts_map().contains_key(pre.histories@[j].key_view()));
        }
    }
}

} // verus!
