use vstd::prelude::*;

use crate::crypto::sha256_of;
use crate::types::{zero_hash, HashVal, PubKey};

verus! {

/// The mathematical value of an [`Account`].
pub ghost struct AccountView {
    pub pub_key: Seq<u8>,
    pub name: Seq<char>,
    pub balance: u64,
    pub history_len: u64,
    pub history_hash: Seq<u8>,
    pub access_token_hash: Seq<u8>,
}

/// The account after a credit of `amount`, tagged with transaction hash `tx`:
/// one history entry appended (the history root moves along the hash chain),
/// the balance raised, everything else kept.
pub open spec fn account_credited(a: AccountView, amount: u64, tx: Seq<u8>) -> AccountView {
    AccountView {
        balance: (a.balance + amount) as u64,
        history_len: (a.history_len + 1) as u64,
        history_hash: sha256_of(a.history_hash + tx),
        ..a
    }
}

/// The account after a debit of `amount`, tagged with transaction hash `tx`.
pub open spec fn account_debited(a: AccountView, amount: u64, tx: Seq<u8>) -> AccountView {
    AccountView {
        balance: (a.balance - amount) as u64,
        history_len: (a.history_len + 1) as u64,
        history_hash: sha256_of(a.history_hash + tx),
        ..a
    }
}

/// The account after a sign-in that stored the token hash `token_hash`,
/// tagged with transaction hash `tx`; the balance is untouched.
pub open spec fn account_signed_in(a: AccountView, token_hash: Seq<u8>, tx: Seq<u8>) -> AccountView {
    AccountView {
        history_len: (a.history_len + 1) as u64,
        history_hash: sha256_of(a.history_hash + tx),
        access_token_hash: token_hash,
        ..a
    }
}

/// The freshly created account for key `k` and name `name`, whose single
/// history entry is the creating transaction's hash `tx`.
pub open spec fn account_created(k: Seq<u8>, name: Seq<char>, balance: u64, tx: Seq<u8>) -> AccountView {
    AccountView {
        pub_key: k,
        name: name,
        balance: balance,
        history_len: 1u64,
        history_hash: sha256_of(zero_hash() + tx),
        access_token_hash: zero_hash(),
    }
}

/// An account record: an immutable value, replaced wholesale on each
/// mutation. `history_hash` is always the Merkle root of the account's
/// history list at length `history_len`; a zero `access_token_hash` means no
/// session is established.
#[derive(Debug, Clone, PartialEq, Eq)]
pub struct Account {
    pub_key: PubKey,
    name: String,
    balance: u64,
    history_len: u64,
    history_hash: HashVal,
    access_token_hash: HashVal,
}

impl View for Account {
    type V = AccountView;

    closed spec fn view(&self) -> AccountView {
        AccountView {
            pub_key: self.pub_key@,
            name: self.name@,
            balance: self.balance,
            history_len: self.history_len,
            history_hash: self.history_hash@,
            access_token_hash: self.access_token_hash@,
        }
    }
}

impl Account {
    /// The key and the two digests carry their fixed widths.
    pub open spec fn wf(&self) -> bool {
        &&& self@.pub_key.len() == 32
        &&& self@.history_hash.len() == 32
        &&& self@.access_token_hash.len() == 32
    }

    /// Builds an account record from its parts.
    pub fn new(
        pub_key: PubKey,
        name: String,
        balance: u64,
        access_token_hash: HashVal,
        history_len: u64,
        history_hash: HashVal,
    ) -> (r: Account)
        ensures
            r@ == (AccountView {
                pub_key: pub_key@,
                name: name@,
                balance: balance,
                history_len: history_len,
                history_hash: history_hash@,
                access_token_hash: access_token_hash@,
            }),
            pub_key.wf() && history_hash.wf() && access_token_hash.wf() ==> r.wf(),
    {
        Account { pub_key, name, balance, history_len, history_hash, access_token_hash }
    }

    /// The account's permanent identity.
    pub fn pub_key(&self) -> (r: &PubKey)
        ensures
            r@ == self@.pub_key,
    {
        &self.pub_key
    }

    /// The display name set at creation.
    pub fn name(&self) -> (r: &String)
        ensures
            r@ == self@.name,
    {
        &self.name
    }

    /// The current balance.
    pub fn balance(&self) -> (r: u64)
        ensures
            r == self@.balance,
    {
        self.balance
    }

    /// The number of history entries behind this version.
    pub fn history_len(&self) -> (r: u64)
        ensures
            r == self@.history_len,
    {
        self.history_len
    }

    /// The Merkle root of the account's history list.
    pub fn history_hash(&self) -> (r: &HashVal)
        ensures
            r@ == self@.history_hash,
    {
        &self.history_hash
    }

    /// The hash of the most recently issued session token.
    pub fn access_token_hash(&self) -> (r: &HashVal)
        ensures
            r@ == self@.access_token_hash,
    {
        &self.access_token_hash
    }

    /// Returns a copy of this account with an updated balance, one more
    /// history entry, and the recomputed history root.
    pub fn set_balance(self, balance: u64, history_hash: &HashVal) -> (r: Account)
        requires
            self@.history_len < u64::MAX,
        ensures
            r@ == (AccountView {
                balance: balance,
                history_len: (self@.history_len + 1) as u64,
                history_hash: history_hash@,
                ..self@
            }),
            self.wf() && history_hash.wf() ==> r.wf(),
    {
        Account {
            balance: balance,
            history_len: self.history_len + 1,
            history_hash: history_hash.dup(),
            ..self
        }
    }

    /// Returns a copy of this account with the hash of a freshly issued
    /// session token, one more history entry, and the recomputed history
    /// root; the balance is untouched.
    pub fn set_access_token(self, token_hash: &HashVal, history_hash: &HashVal) -> (r: Account)
        requires
            self@.history_len < u64::MAX,
        ensures
            r@ == (AccountView {
                history_len: (self@.history_len + 1) as u64,
                history_hash: history_hash@,
                access_token_hash: token_hash@,
                ..self@
            }),
            self.wf() && history_hash.wf() && token_hash.wf() ==> r.wf(),
    {
        Account {
            history_len: self.history_len + 1,
            history_hash: history_hash.dup(),
            access_token_hash: token_hash.dup(),
            ..self
        }
    }

    /// A field-by-field copy.
    pub fn dup(&self) -> (r: Account)
        ensures
            r@ == self@,
    {
        Account {
            pub_key: self.pub_key.dup(),
            name: self.name.clone(),
            balance: self.balance,
            history_len: self.history_len,
            history_hash: self.history_hash.dup(),
            access_token_hash: self.access_token_hash.dup(),
        }
    }
}

} // verus!
