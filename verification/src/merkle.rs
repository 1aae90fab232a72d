//! The authenticated-structure model: the Merkle root of an append-only list
//! is a hash chain over its entries, and the root of the accounts table is a
//! hash chain over the serialized account records. Pushing an entry moves a
//! root along the chain in one digest, which keeps recomputation incremental.

use vstd::prelude::*;

use crate::account::{Account, AccountView};
use crate::crypto::{hash_bytes, sha256_of};
use crate::types::{append_bytes, append_u64_le, u64_le, zero_hash, HashVal};

verus! {

/// The Merkle root of an append-only list of digests: the zero digest for the
/// empty list, and each appended entry chained in with one digest.
pub open spec fn list_root(s: Seq<Seq<u8>>) -> Seq<u8>
    decreases s.len(),
{
    if s.len() == 0 {
        zero_hash()
    } else {
        sha256_of(list_root(s.drop_last()) + s.last())
    }
}

/// Appending an entry moves the list root one step along the hash chain.
pub proof fn lemma_list_root_push(s: Seq<Seq<u8>>, h: Seq<u8>)
    ensures
        list_root(s.push(h)) == sha256_of(list_root(s) + h),
{
    assert(s.push(h).drop_last() =~= s);
}

/// The fixed serialization of an account record, the unit the accounts
/// table's root is computed over.
pub open spec fn account_bytes(a: AccountView) -> Seq<u8> {
    a.pub_key + u64_le(a.balance) + u64_le(a.history_len) + a.history_hash
        + a.access_token_hash + u64_le(vstd::utf8::encode_utf8(a.name).len() as u64)
        + vstd::utf8::encode_utf8(a.name)
}

/// Serializes an account record.
pub fn encode_account(a: &Account) -> (r: Vec<u8>)
    ensures
        r@ == account_bytes(a@),
{
    let mut out: Vec<u8> = Vec::new();
    append_bytes(&mut out, a.pub_key().byte_vec().as_slice());
    append_u64_le(&mut out, a.balance());
    append_u64_le(&mut out, a.history_len());
    append_bytes(&mut out, a.history_hash().byte_vec().as_slice());
    append_bytes(&mut out, a.access_token_hash().byte_vec().as_slice());
    let name_bytes = a.name().as_str().as_bytes();
    append_u64_le(&mut out, name_bytes.len() as u64);
    append_bytes(&mut out, name_bytes);
    proof {
        assert(out@ =~= account_bytes(a@));
    }
    out
}

/// The mathematical records of a sequence of accounts.
pub open spec fn account_views(s: Seq<Account>) -> Seq<AccountView> {
    s.map_values(|a: Account| a@)
}

/// The Merkle root of the accounts table: a hash chain over the serialized
/// records, in table order.
pub open spec fn accounts_root(s: Seq<AccountView>) -> Seq<u8>
    decreases s.len(),
{
    if s.len() == 0 {
        zero_hash()
    } else {
        sha256_of(accounts_root(s.drop_last()) + account_bytes(s.last()))
    }
}

/// Recomputes the accounts-table root from the records themselves.
pub fn compute_accounts_root(entries: &Vec<Account>) -> (r: HashVal)
    ensures
        r@ == accounts_root(account_views(entries@)),
        r.wf(),
{
    let ghost views = account_views(entries@);
    let mut root = HashVal::zero();
    let mut i: usize = 0;
    while i < entries.len()
        invariant
            i <= entries.len(),
            views == account_views(entries@),
            views.len() == entries@.len(),
            root@ == accounts_root(views.subrange(0, i as int)),
            root.wf(),
        decreases entries.len() - i,
    {
        let mut buf = root.byte_vec().clone();
        let enc = encode_account(&entries[i]);
        append_bytes(&mut buf, enc.as_slice());
        proof {
            assert(buf@ =~= accounts_root(views.subrange(0, i as int)) + account_bytes(views[i as int]));
            assert(views.subrange(0, i + 1 as int).drop_last() =~= views.subrange(0, i as int));
            assert(views.subrange(0, i + 1 as int).last() == views[i as int]);
        }
        root = hash_bytes(buf.as_slice());
        i = i + 1;
    }
    proof {
        assert(views.subrange(0, entries@.len() as int) =~= views);
    }
    root
}

} // verus!
