//! The proof assembler and the read API: given a public key, builds a bundle
//! that proves, to a client holding the table's Merkle root, the account's
//! state — or its absence. Absence is provable, not an error, so a client
//! can tell "never created" from a withholding server.

use vstd::prelude::*;

use crate::account::{Account, AccountView};
use crate::merkle::{account_views, accounts_root, compute_accounts_root};
use crate::schema::{hash_views, lemma_absent_key_not_in_views, CoreSchema};
use crate::transactions::CoreTransactions;
use crate::types::{HashVal, PubKey};

verus! {

/// Query parameters of the account endpoints.
#[derive(Debug, Clone, PartialEq, Eq)]
pub struct AccountQuery {
    /// Public key of the queried account.
    pub pub_key: PubKey,
}

/// The synchronous answer to a posted transaction.
#[derive(Debug, Clone, PartialEq, Eq)]
pub struct TransactionResponse {
    /// Hash of the transaction, under which its outcome will be recorded.
    pub tx_hash: HashVal,
}

/// Proof of existence or absence for a specific account: the authenticated
/// map's records, checkable against the table's Merkle root. The proof
/// anchoring that root in the chain's global state commitment comes from the
/// consensus host and travels alongside this bundle.
#[derive(Debug, Clone, PartialEq, Eq)]
pub struct AccountProof {
    /// Records proving the account's presence in (or absence from) the table.
    pub to_account: Vec<Account>,
}

/// An account's history, resolved to the original transaction records.
#[derive(Debug, Clone, PartialEq, Eq)]
pub struct AccountHistory {
    /// The full range of the history list: one hash per mutation, in order.
    pub proof: Vec<HashVal>,
    /// The transaction records the hashes resolve to, in the same order.
    pub transactions: Vec<CoreTransactions>,
}

/// The full bundle for one account query.
#[derive(Debug, Clone, PartialEq, Eq)]
pub struct AccountInfo {
    /// Proof of the account's state in the accounts table.
    pub account_proof: AccountProof,
    /// The account's resolved history; absent when the account was never
    /// created.
    pub account_history: Option<AccountHistory>,
}

/// A checked proof accounts for the claimed table root.
pub open spec fn proof_accepts(entries: Seq<AccountView>, root: Seq<u8>) -> bool {
    accounts_root(entries) == root
}

/// The key appears among the proof's records.
pub open spec fn proof_member(entries: Seq<AccountView>, k: Seq<u8>) -> bool {
    exists|i: int| 0 <= i < entries.len() && entries[i].pub_key == k
}

/// The outcome of checking an account proof.
#[derive(Debug, Clone, PartialEq, Eq)]
pub enum ProofOutcome {
    /// The proof checks and contains this account for the queried key.
    Present(Account),
    /// The proof checks and shows the key was never created.
    Absent,
    /// The proof does not account for the claimed root.
    Invalid,
}

/// Client-side check of an account proof against the expected table root:
/// recomputes the root from the records and looks the key up.
pub fn check_account_proof(proof: &AccountProof, root: &HashVal, pub_key: &PubKey) -> (r:
    ProofOutcome)
    ensures
        r is Invalid <==> !proof_accepts(account_views(proof.to_account@), root@),
        proof_accepts(account_views(proof.to_account@), root@) ==> ((r is Absent) <==> !proof_member(
            account_views(proof.to_account@),
            pub_key@,
        )),
        r matches ProofOutcome::Present(a) ==> exists|i: int|
            0 <= i < proof.to_account@.len() && account_views(proof.to_account@)[i] == a@
                && a@.pub_key == pub_key@,
{
    let computed = compute_accounts_root(&proof.to_account);
    if !computed.equals(root) {
        return ProofOutcome::Invalid;
    }
    let mut i: usize = 0;
    while i < proof.to_account.len()
        invariant
            i <= proof.to_account@.len(),
            proof_accepts(account_views(proof.to_account@), root@),
            forall|j: int|
                0 <= j < i ==> (#[trigger] account_views(proof.to_account@)[j]).pub_key != pub_key@,
        decreases proof.to_account@.len() - i,
    {
        if proof.to_account[i].pub_key().equals(pub_key) {
            proof {
                assert(account_views(proof.to_account@)[i as int] == proof.to_account@[i as int]@);
                assert(proof_member(account_views(proof.to_account@), pub_key@));
            }
            return ProofOutcome::Present(proof.to_account[i].dup());
        }
        i = i + 1;
    }
    proof {
        assert(!proof_member(account_views(proof.to_account@), pub_key@));
    }
    ProofOutcome::Absent
}

/// Querying a key that was never created yields a valid non-membership
/// proof: the full table checks against its own root and the key appears
/// nowhere — and this holds of every snapshot in which the key is still
/// absent, so the answer repeats until a CreateAccount for the key commits.
pub proof fn lemma_absence_provable(s: CoreSchema, k: Seq<u8>)
    requires
        !s.accounts_map().contains_key(k),
    ensures
        proof_accepts(s.accounts_views(), accounts_root(s.accounts_views())),
        !proof_member(s.accounts_views(), k),
{
    lemma_absent_key_not_in_views(s, k);
}

/// Client-side check of a history proof against an account's committed
/// `history_hash` and `history_len`: recomputes the list's Merkle root over
/// the full range and compares both values.
pub fn check_history_proof(range: &Vec<HashVal>, expected_root: &HashVal, expected_len: u64) -> (r:
    bool)
    ensures
        r == (crate::merkle::list_root(hash_views(range@)) == expected_root@ && range@.len()
            == expected_len),
{
    let mut root = HashVal::zero();
    let mut i: usize = 0;
    while i < range.len()
        invariant
            i <= range@.len(),
            root@ == crate::merkle::list_root(hash_views(range@).subrange(0, i as int)),
        decreases range@.len() - i,
    {
        let mut buf = root.byte_vec().clone();
        crate::types::append_bytes(&mut buf, range[i].byte_vec().as_slice());
        proof {
            crate::merkle::lemma_list_root_push(
                hash_views(range@).subrange(0, i as int),
                range@[i as int]@,
            );
            assert(buf@ =~= crate::merkle::list_root(hash_views(range@).subrange(0, i as int))
                + range@[i as int]@);
            assert(hash_views(range@).subrange(0, i + 1 as int).drop_last() =~= hash_views(
                range@,
            ).subrange(0, i as int));
            assert(hash_views(range@).subrange(0, i + 1 as int).last() == range@[i as int]@);
        }
        root = crate::crypto::hash_bytes(buf.as_slice());
        i = i + 1;
    }
    proof {
        assert(hash_views(range@).subrange(0, range@.len() as int) =~= hash_views(range@));
    }
    if !root.equals(expected_root) {
        return false;
    }
    let len: usize = range.len();
    (len as u64) == expected_len
}

/// An error of the read API.
#[derive(Debug, Clone, PartialEq, Eq)]
pub enum ApiError {
    /// No account exists under the queried key.
    NotFound,
}

/// Some record of the transaction index hashes to `h`.
pub open spec fn resolvable(index: Seq<CoreTransactions>, h: Seq<u8>) -> bool {
    exists|i: int| 0 <= i < index.len() && (#[trigger] index[i]).hash_spec() == h
}

/// Resolves one history entry to its transaction record in the given index.
fn find_transaction(tx_index: &Vec<CoreTransactions>, h: &HashVal) -> (r: Option<CoreTransactions>)
    ensures
        r matches Some(t) ==> t.hash_spec() == h@,
        r is None ==> forall|i: int|
            0 <= i < tx_index@.len() ==> (#[trigger] tx_index@[i]).hash_spec() != h@,
{
    let mut i: usize = 0;
    while i < tx_index.len()
        invariant
            i <= tx_index@.len(),
            forall|j: int| 0 <= j < i ==> (#[trigger] tx_index@[j]).hash_spec() != h@,
        decreases tx_index@.len() - i,
    {
        let tx_hash = tx_index[i].hash();
        if tx_hash.equals(h) {
            return Some(tx_index[i].dup());
        }
        i = i + 1;
    }
    None
}

/// Copies the accounts table into a proof bundle.
fn dup_accounts(entries: &Vec<Account>) -> (r: Vec<Account>)
    ensures
        account_views(r@) == account_views(entries@),
{
    let mut out: Vec<Account> = Vec::new();
    let mut i: usize = 0;
    while i < entries.len()
        invariant
            i <= entries@.len(),
            out@.len() == i,
            account_views(out@) == account_views(entries@).subrange(0, i as int),
        decreases entries@.len() - i,
    {
        out.push(entries[i].dup());
        i = i + 1;
        proof {
            assert(account_views(out@) =~= account_views(entries@).subrange(0, i as int));
        }
    }
    proof {
        assert(account_views(entries@).subrange(0, entries@.len() as int) =~= account_views(
            entries@,
        ));
    }
    out
}

/// Public service API over a committed snapshot of the store.
#[derive(Debug, Clone, Copy)]
pub struct CoreApi;

impl CoreApi {
    /// Builds the proof bundle for one account: the membership (or
    /// non-membership) proof against the accounts table, and, when the
    /// account exists, its full history resolved through `tx_index`, the
    /// chain's record of committed transactions. Fails only when a history
    /// entry cannot be resolved there.
    pub fn get_account_info(
        schema: &CoreSchema,
        tx_index: &Vec<CoreTransactions>,
        query: &AccountQuery,
    ) -> (r: Result<AccountInfo, crate::error::Error>)
        requires
            schema.wf(),
        ensures
            !schema.accounts_map().contains_key(query.pub_key@) ==> r is Ok,
            (schema.accounts_map().contains_key(query.pub_key@) && (forall|j: int|
                0 <= j < schema.history_of(query.pub_key@).len() ==> resolvable(
                    tx_index@,
                    #[trigger] schema.history_of(query.pub_key@)[j],
                ))) ==> r is Ok,
            r matches Ok(info) ==> {
                &&& account_views(info.account_proof.to_account@) == schema.accounts_views()
                &&& (info.account_history is Some <==> schema.accounts_map().contains_key(
                    query.pub_key@,
                ))
                &&& info.account_history matches Some(h) ==> {
                    &&& hash_views(h.proof@) == schema.history_of(query.pub_key@)
                    &&& h.transactions@.len() == h.proof@.len()
                    &&& forall|i: int|
                        0 <= i < h.proof@.len() ==> (#[trigger] h.transactions@[i]).hash_spec()
                            == h.proof@[i]@
                }
            },
    {
        let to_account = dup_accounts(schema.accounts());
        let account_proof = AccountProof { to_account };
        let account = schema.account(&query.pub_key);
        let account_history = match account {
            Some(_) => {
                let hashes = schema.account_history(&query.pub_key);
                let mut transactions: Vec<CoreTransactions> = Vec::new();
                let mut i: usize = 0;
                while i < hashes.len()
                    invariant
                        i <= hashes@.len(),
                        schema.accounts_map().contains_key(query.pub_key@),
                        hash_views(hashes@) == schema.history_of(query.pub_key@),
                        transactions@.len() == i,
                        forall|j: int|
                            0 <= j < i ==> (#[trigger] transactions@[j]).hash_spec()
                                == hashes@[j]@,
                    decreases hashes@.len() - i,
                {
                    match find_transaction(tx_index, &hashes[i]) {
                        Some(t) => {
                            transactions.push(t);
                        },
                        None => {
                            proof {
                                let hist = schema.history_of(query.pub_key@);
                                assert(hist[i as int] == hashes@[i as int]@);
                                assert(!resolvable(tx_index@, hist[i as int]));
                            }
                            return Err(
                                crate::error::Error::ArbitraryFailure(
                                    "history entry missing from the transaction index".to_owned(),
                                ),
                            );
                        },
                    }
                    i = i + 1;
                }
                Some(AccountHistory { proof: hashes, transactions })
            },
            None => None,
        };
        Ok(AccountInfo { account_proof, account_history })
    }

    /// Hands a validated transaction on and answers with its hash; the
    /// submission channel itself belongs to the transport host.
    pub fn post_transaction(query: &CoreTransactions) -> (r: TransactionResponse)
        ensures
            r.tx_hash@ == query.hash_spec(),
            r.tx_hash.wf(),
    {
        TransactionResponse { tx_hash: query.hash() }
    }

    /// Endpoint for getting a single account.
    pub fn get_account(schema: &CoreSchema, query: &AccountQuery) -> (r: Result<Account, ApiError>)
        requires
            schema.wf(),
        ensures
            match r {
                Ok(a) => schema.accounts_map().contains_key(query.pub_key@) && a@
                    == schema.accounts_map()[query.pub_key@],
                Err(e) => e == ApiError::NotFound && !schema.accounts_map().contains_key(
                    query.pub_key@,
                ),
            },
    {
        match schema.account(&query.pub_key) {
            Some(a) => Ok(a),
            None => Err(ApiError::NotFound),
        }
    }
}

} // verus!
