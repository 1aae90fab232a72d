//! The transaction state machine: four signed, hashable transaction kinds,
//! each with a stateless signature-verification predicate and a
//! deterministic, atomic execution function against a mutable ledger view.

use vstd::prelude::*;

use crate::account::{account_created, account_credited, account_debited, account_signed_in};
use crate::crypto::{hash_bytes, mint_token, sha256_of, sig_of, sig_valid, token_of, verify_sig};
use crate::schema::CoreSchema;
use crate::types::{append_bytes, append_u64_le, u64_le, HashVal, PubKey, SecretKey};
use crate::{INITIAL_BALANCE, SERVICE_ID};

verus! {

/// Message tag of a Transfer inside this service's wire format.
pub const TAG_TRANSFER: u8 = 0;

/// Message tag of an Issue.
pub const TAG_ISSUE: u8 = 1;

/// Message tag of a CreateAccount.
pub const TAG_CREATE_ACCOUNT: u8 = 2;

/// Message tag of a SignIn.
pub const TAG_SIGN_IN: u8 = 3;

/// The secret the service signs session tokens with.
pub open spec fn servant_secret() -> Seq<char> {
    "secretsecret"@
}

/// Returns the token-signing secret.
fn secret_str() -> (r: &'static str)
    ensures
        r@ == servant_secret(),
{
    "secretsecret"
}

/// The two little-endian bytes of the service identifier, the prefix of
/// every message of this service.
pub open spec fn service_prefix() -> Seq<u8> {
    seq![(SERVICE_ID & 0xff) as u8, ((SERVICE_ID >> 8) & 0xff) as u8]
}

/// Starts a message buffer: service identifier, then the message tag.
fn start_message(tag: u8) -> (r: Vec<u8>)
    ensures
        r@ == service_prefix().push(tag),
{
    let mut out: Vec<u8> = Vec::new();
    out.push((SERVICE_ID & 0xff) as u8);
    out.push(((SERVICE_ID >> 8) & 0xff) as u8);
    out.push(tag);
    proof {
        assert(out@ =~= service_prefix().push(tag));
    }
    out
}

/// Error codes emitted by core service transactions during execution.
#[derive(Debug, Clone, PartialEq, Eq)]
pub enum Error {
    /// CreateAccount on an existing key.
    AccountAlreadyExists,
    /// Transfer whose sender was never created.
    SenderNotFound,
    /// Transfer or Issue whose receiver was never created.
    ReceiverNotFound,
    /// Transfer amount exceeds the sender's balance.
    InsufficientCurrencyAmount,
    /// SignIn on a missing account, a name mismatch, or a token-minting
    /// failure.
    AuthenticationFailed,
}

impl Error {
    /// The stable numeric code recorded against the transaction's hash.
    pub open spec fn code_spec(&self) -> u8 {
        match self {
            Error::AccountAlreadyExists => 0u8,
            Error::SenderNotFound => 1u8,
            Error::ReceiverNotFound => 2u8,
            Error::InsufficientCurrencyAmount => 3u8,
            Error::AuthenticationFailed => 4u8,
        }
    }

    /// The human-readable description recorded with the code.
    pub open spec fn description_spec(&self) -> Seq<char> {
        match self {
            Error::AccountAlreadyExists => "Account already exists"@,
            Error::SenderNotFound => "Sender doesn't exist"@,
            Error::ReceiverNotFound => "Receiver doesn't exist"@,
            Error::InsufficientCurrencyAmount => "Insufficient currency amount"@,
            Error::AuthenticationFailed => "Sign in failed"@,
        }
    }

    /// Returns the numeric code.
    pub fn code(&self) -> (r: u8)
        ensures
            r == self.code_spec(),
    {
        match self {
            Error::AccountAlreadyExists => 0,
            Error::SenderNotFound => 1,
            Error::ReceiverNotFound => 2,
            Error::InsufficientCurrencyAmount => 3,
            Error::AuthenticationFailed => 4,
        }
    }

    /// Returns the description.
    pub fn description(&self) -> (r: String)
        ensures
            r@ == self.description_spec(),
    {
        match self {
            Error::AccountAlreadyExists => "Account already exists".to_owned(),
            Error::SenderNotFound => "Sender doesn't exist".to_owned(),
            Error::ReceiverNotFound => "Receiver doesn't exist".to_owned(),
            Error::InsufficientCurrencyAmount => "Insufficient currency amount".to_owned(),
            Error::AuthenticationFailed => "Sign in failed".to_owned(),
        }
    }
}

/// The mathematical value of a [`Transfer`].
pub ghost struct TransferView {
    pub from: Seq<u8>,
    pub to: Seq<u8>,
    pub amount: u64,
    pub seed: u64,
    pub signature: Seq<u8>,
}

/// The signed portion of a Transfer message.
pub open spec fn transfer_body(from: Seq<u8>, to: Seq<u8>, amount: u64, seed: u64) -> Seq<u8> {
    service_prefix().push(TAG_TRANSFER) + from + to + u64_le(amount) + u64_le(seed)
}

/// Transfer `amount` of the currency from one account to another. `seed`
/// only makes otherwise-identical transfers distinguishable by hash.
#[derive(Debug, Clone, PartialEq, Eq)]
pub struct Transfer {
    from: PubKey,
    to: PubKey,
    amount: u64,
    seed: u64,
    signature: Vec<u8>,
}

impl View for Transfer {
    type V = TransferView;

    closed spec fn view(&self) -> TransferView {
        TransferView {
            from: self.from@,
            to: self.to@,
            amount: self.amount,
            seed: self.seed,
            signature: self.signature@,
        }
    }
}

impl Transfer {
    /// Keys and signature carry their fixed widths.
    pub open spec fn wf(&self) -> bool {
        &&& self@.from.len() == 32
        &&& self@.to.len() == 32
        &&& self@.signature.len() == 64
    }

    /// The signed portion of this message.
    pub open spec fn body_spec(&self) -> Seq<u8> {
        transfer_body(self@.from, self@.to, self@.amount, self@.seed)
    }

    /// The hash identifying this transaction.
    pub open spec fn hash_spec(&self) -> Seq<u8> {
        sha256_of(self.body_spec() + self@.signature)
    }

    /// Builds and signs a Transfer.
    pub fn new(from: &PubKey, to: &PubKey, amount: u64, seed: u64, sk: &SecretKey) -> (r: Transfer)
        requires
            from.wf(),
            to.wf(),
            sk.wf(),
        ensures
            r.wf(),
            r@.from == from@,
            r@.to == to@,
            r@.amount == amount,
            r@.seed == seed,
            r@.signature == sig_of(transfer_body(from@, to@, amount, seed), sk@),
    {
        let body = Self::encode_body_parts(from, to, amount, seed);
        let signature = crate::crypto::sign_msg(body.as_slice(), sk.byte_vec().as_slice());
        Transfer { from: from.dup(), to: to.dup(), amount, seed, signature }
    }

    /// Serializes the signed portion.
    fn encode_body_parts(from: &PubKey, to: &PubKey, amount: u64, seed: u64) -> (r: Vec<u8>)
        ensures
            r@ == transfer_body(from@, to@, amount, seed),
    {
        let mut out = start_message(TAG_TRANSFER);
        append_bytes(&mut out, from.byte_vec().as_slice());
        append_bytes(&mut out, to.byte_vec().as_slice());
        append_u64_le(&mut out, amount);
        append_u64_le(&mut out, seed);
        proof {
            assert(out@ =~= transfer_body(from@, to@, amount, seed));
        }
        out
    }

    /// The sender.
    pub fn from(&self) -> (r: &PubKey)
        ensures
            r@ == self@.from,
    {
        &self.from
    }

    /// The receiver.
    pub fn to(&self) -> (r: &PubKey)
        ensures
            r@ == self@.to,
    {
        &self.to
    }

    /// The transferred amount.
    pub fn amount(&self) -> (r: u64)
        ensures
            r == self@.amount,
    {
        self.amount
    }

    /// The replay discriminator.
    pub fn seed(&self) -> (r: u64)
        ensures
            r == self@.seed,
    {
        self.seed
    }

    /// Stateless signature check: the message must be signed by the sender.
    pub fn verify(&self) -> (r: bool)
        requires
            self.wf(),
        ensures
            r == sig_valid(self.body_spec(), self@.signature, self@.from),
    {
        let body = Self::encode_body_parts(&self.from, &self.to, self.amount, self.seed);
        verify_sig(body.as_slice(), self.signature.as_slice(), self.from.byte_vec().as_slice())
    }

    /// The hash identifying this transaction.
    pub fn hash(&self) -> (r: HashVal)
        ensures
            r@ == self.hash_spec(),
            r.wf(),
    {
        let mut bytes = Self::encode_body_parts(&self.from, &self.to, self.amount, self.seed);
        append_bytes(&mut bytes, self.signature.as_slice());
        hash_bytes(bytes.as_slice())
    }
}

/// The machine-limit bounds a Transfer execution needs: history counters and
/// the receiving balance must not overflow their 64-bit fields.
pub open spec fn transfer_bounds(schema: CoreSchema, v: TransferView) -> bool {
    let m = schema.accounts_map();
    &&& (m.contains_key(v.from) ==> m[v.from].history_len + 2 <= u64::MAX)
    &&& (m.contains_key(v.to) ==> m[v.to].history_len + 2 <= u64::MAX)
    &&& (m.contains_key(v.to) && v.from != v.to ==> m[v.to].balance + v.amount <= u64::MAX)
}

/// What a Transfer execution does: it fails with `SenderNotFound` when the
/// sender was never created, with `ReceiverNotFound` when the receiver was
/// never created, with `InsufficientCurrencyAmount` when the sender's
/// balance is short — in that order of precedence, touching nothing — and
/// otherwise debits the sender and credits the receiver atomically, both
/// tagged with this transaction's hash.
pub open spec fn transfer_post(
    v: TransferView,
    tx_hash: Seq<u8>,
    pre: CoreSchema,
    post: CoreSchema,
    r: Result<(), Error>,
) -> bool {
    let m = pre.accounts_map();
    match r {
        Result::Ok(()) => {
            &&& m.contains_key(v.from)
            &&& m.contains_key(v.to)
            &&& m[v.from].balance >= v.amount
            &&& if v.from != v.to {
                &&& post.accounts_map() == m.insert(
                    v.from,
                    account_debited(m[v.from], v.amount, tx_hash),
                ).insert(v.to, account_credited(m[v.to], v.amount, tx_hash))
                &&& post.histories_map() == pre.histories_map().insert(
                    v.from,
                    pre.history_of(v.from).push(tx_hash),
                ).insert(v.to, pre.history_of(v.to).push(tx_hash))
            } else {
                &&& post.accounts_map() == m.insert(
                    v.from,
                    account_credited(account_debited(m[v.from], v.amount, tx_hash), v.amount, tx_hash),
                )
                &&& post.histories_map() == pre.histories_map().insert(
                    v.from,
                    pre.history_of(v.from).push(tx_hash).push(tx_hash),
                )
            }
        },
        Result::Err(e) => match e {
            Error::SenderNotFound => !m.contains_key(v.from) && post == pre,
            Error::ReceiverNotFound => m.contains_key(v.from) && !m.contains_key(v.to) && post
                == pre,
            Error::InsufficientCurrencyAmount => m.contains_key(v.from) && m.contains_key(v.to)
                && m[v.from].balance < v.amount && post == pre,
            _ => false,
        },
    }
}

impl Transfer {
    /// Executes the transfer against the fork behind `schema`.
    pub fn execute(&self, schema: &mut CoreSchema) -> (r: Result<(), Error>)
        requires
            old(schema).wf(),
            self.wf(),
            transfer_bounds(*old(schema), self@),
        ensures
            final(schema).wf(),
            transfer_post(self@, self.hash_spec(), *old(schema), *final(schema), r),
    {
        let hash = self.hash();
        proof {
            if old(schema).accounts_map().contains_key(self@.from) {
                crate::schema::lemma_schema_account_consistent(*old(schema), self@.from);
            }
            if old(schema).accounts_map().contains_key(self@.to) {
                crate::schema::lemma_schema_account_consistent(*old(schema), self@.to);
            }
        }
        let sender = match schema.account(&self.from) {
            Some(a) => a,
            None => {
                return Err(Error::SenderNotFound);
            },
        };
        let receiver = match schema.account(&self.to) {
            Some(a) => a,
            None => {
                return Err(Error::ReceiverNotFound);
            },
        };
        if sender.balance() < self.amount {
            return Err(Error::InsufficientCurrencyAmount);
        }
        schema.decrease_account_balance(sender, self.amount, &hash);
        proof {
            crate::schema::lemma_schema_account_consistent(*schema, self@.to);
        }
        // Re-read the receiver, so a self-transfer credits the debited version.
        let receiver = match schema.account(&self.to) {
            Some(a) => a,
            None => {
                proof {
                    assert(false);
                }
                return Err(Error::ReceiverNotFound);
            },
        };
        schema.increase_account_balance(receiver, self.amount, &hash);
        proof {
            let m = old(schema).accounts_map();
            let mh = old(schema).histories_map();
            let v = self@;
            let h = self.hash_spec();
            if v.from != v.to {
                assert(schema.accounts_map() =~= m.insert(
                    v.from,
                    account_debited(m[v.from], v.amount, h),
                ).insert(v.to, account_credited(m[v.to], v.amount, h)));
                assert(schema.histories_map() =~= mh.insert(
                    v.from,
                    old(schema).history_of(v.from).push(h),
                ).insert(v.to, old(schema).history_of(v.to).push(h)));
            } else {
                assert(schema.accounts_map() =~= m.insert(
                    v.from,
                    account_credited(account_debited(m[v.from], v.amount, h), v.amount, h),
                ));
                assert(schema.histories_map() =~= mh.insert(
                    v.from,
                    old(schema).history_of(v.from).push(h).push(h),
                ));
            }
        }
        Ok(())
    }
}

/// The mathematical value of an [`Issue`].
pub ghost struct IssueView {
    pub pub_key: Seq<u8>,
    pub amount: u64,
    pub seed: u64,
    pub signature: Seq<u8>,
}

/// The signed portion of an Issue message.
pub open spec fn issue_body(pub_key: Seq<u8>, amount: u64, seed: u64) -> Seq<u8> {
    service_prefix().push(TAG_ISSUE) + pub_key + u64_le(amount) + u64_le(seed)
}

/// Issue `amount` of the currency to the account. `seed` only makes
/// otherwise-identical issues distinguishable by hash.
#[derive(Debug, Clone, PartialEq, Eq)]
pub struct Issue {
    pub_key: PubKey,
    amount: u64,
    seed: u64,
    signature: Vec<u8>,
}

impl View for Issue {
    type V = IssueView;

    closed spec fn view(&self) -> IssueView {
        IssueView {
            pub_key: self.pub_key@,
            amount: self.amount,
            seed: self.seed,
            signature: self.signature@,
        }
    }
}

/// The machine-limit bounds an Issue execution needs.
pub open spec fn issue_bounds(schema: CoreSchema, v: IssueView) -> bool {
    let m = schema.accounts_map();
    m.contains_key(v.pub_key) ==> m[v.pub_key].history_len < u64::MAX && m[v.pub_key].balance
        + v.amount <= u64::MAX
}

/// What an Issue execution does: it credits the existing account with
/// `amount`, tagged with this transaction's hash, and fails with
/// `ReceiverNotFound`, touching nothing, when the account was never created.
pub open spec fn issue_post(
    v: IssueView,
    tx_hash: Seq<u8>,
    pre: CoreSchema,
    post: CoreSchema,
    r: Result<(), Error>,
) -> bool {
    let m = pre.accounts_map();
    match r {
        Result::Ok(()) => {
            &&& m.contains_key(v.pub_key)
            &&& post.accounts_map() == m.insert(
                v.pub_key,
                account_credited(m[v.pub_key], v.amount, tx_hash),
            )
            &&& post.histories_map() == pre.histories_map().insert(
                v.pub_key,
                pre.history_of(v.pub_key).push(tx_hash),
            )
        },
        Result::Err(e) => match e {
            Error::ReceiverNotFound => !m.contains_key(v.pub_key) && post == pre,
            _ => false,
        },
    }
}

impl Issue {
    /// Key and signature carry their fixed widths.
    pub open spec fn wf(&self) -> bool {
        &&& self@.pub_key.len() == 32
        &&& self@.signature.len() == 64
    }

    /// The signed portion of this message.
    pub open spec fn body_spec(&self) -> Seq<u8> {
        issue_body(self@.pub_key, self@.amount, self@.seed)
    }

    /// The hash identifying this transaction.
    pub open spec fn hash_spec(&self) -> Seq<u8> {
        sha256_of(self.body_spec() + self@.signature)
    }

    /// Builds and signs an Issue.
    pub fn new(pub_key: &PubKey, amount: u64, seed: u64, sk: &SecretKey) -> (r: Issue)
        requires
            pub_key.wf(),
            sk.wf(),
        ensures
            r.wf(),
            r@.pub_key == pub_key@,
            r@.amount == amount,
            r@.seed == seed,
            r@.signature == sig_of(issue_body(pub_key@, amount, seed), sk@),
    {
        let body = Self::encode_body_parts(pub_key, amount, seed);
        let signature = crate::crypto::sign_msg(body.as_slice(), sk.byte_vec().as_slice());
        Issue { pub_key: pub_key.dup(), amount, seed, signature }
    }

    /// Serializes the signed portion.
    fn encode_body_parts(pub_key: &PubKey, amount: u64, seed: u64) -> (r: Vec<u8>)
        ensures
            r@ == issue_body(pub_key@, amount, seed),
    {
        let mut out = start_message(TAG_ISSUE);
        append_bytes(&mut out, pub_key.byte_vec().as_slice());
        append_u64_le(&mut out, amount);
        append_u64_le(&mut out, seed);
        proof {
            assert(out@ =~= issue_body(pub_key@, amount, seed));
        }
        out
    }

    /// The credited account's key.
    pub fn pub_key(&self) -> (r: &PubKey)
        ensures
            r@ == self@.pub_key,
    {
        &self.pub_key
    }

    /// The issued amount.
    pub fn amount(&self) -> (r: u64)
        ensures
            r == self@.amount,
    {
        self.amount
    }

    /// The replay discriminator.
    pub fn seed(&self) -> (r: u64)
        ensures
            r == self@.seed,
    {
        self.seed
    }

    /// Stateless signature check: the message must be signed by the account
    /// it credits.
    pub fn verify(&self) -> (r: bool)
        requires
            self.wf(),
        ensures
            r == sig_valid(self.body_spec(), self@.signature, self@.pub_key),
    {
        let body = Self::encode_body_parts(&self.pub_key, self.amount, self.seed);
        verify_sig(body.as_slice(), self.signature.as_slice(), self.pub_key.byte_vec().as_slice())
    }

    /// The hash identifying this transaction.
    pub fn hash(&self) -> (r: HashVal)
        ensures
            r@ == self.hash_spec(),
            r.wf(),
    {
        let mut bytes = Self::encode_body_parts(&self.pub_key, self.amount, self.seed);
        append_bytes(&mut bytes, self.signature.as_slice());
        hash_bytes(bytes.as_slice())
    }

    /// Executes the issue against the fork behind `schema`.
    pub fn execute(&self, schema: &mut CoreSchema) -> (r: Result<(), Error>)
        requires
            old(schema).wf(),
            self.wf(),
            issue_bounds(*old(schema), self@),
        ensures
            final(schema).wf(),
            issue_post(self@, self.hash_spec(), *old(schema), *final(schema), r),
    {
        let hash = self.hash();
        proof {
            if old(schema).accounts_map().contains_key(self@.pub_key) {
                crate::schema::lemma_schema_account_consistent(*old(schema), self@.pub_key);
            }
        }
        match schema.account(&self.pub_key) {
            Some(account) => {
                schema.increase_account_balance(account, self.amount, &hash);
                Ok(())
            },
            None => Err(Error::ReceiverNotFound),
        }
    }
}

/// The mathematical value of a [`CreateAccount`].
pub ghost struct CreateAccountView {
    pub pub_key: Seq<u8>,
    pub name: Seq<char>,
    pub signature: Seq<u8>,
}

/// The signed portion of a CreateAccount message.
pub open spec fn create_account_body(pub_key: Seq<u8>, name: Seq<char>) -> Seq<u8> {
    service_prefix().push(TAG_CREATE_ACCOUNT) + pub_key + u64_le(
        vstd::utf8::encode_utf8(name).len() as u64,
    ) + vstd::utf8::encode_utf8(name)
}

/// Create an account with the given name.
#[derive(Debug, Clone, PartialEq, Eq)]
pub struct CreateAccount {
    pub_key: PubKey,
    name: String,
    signature: Vec<u8>,
}

impl View for CreateAccount {
    type V = CreateAccountView;

    closed spec fn view(&self) -> CreateAccountView {
        CreateAccountView { pub_key: self.pub_key@, name: self.name@, signature: self.signature@ }
    }
}

/// What a CreateAccount execution does: it creates the account with the
/// fixed initial balance and a one-entry history, and fails with
/// `AccountAlreadyExists`, touching nothing, when the key is taken.
pub open spec fn create_account_post(
    v: CreateAccountView,
    tx_hash: Seq<u8>,
    pre: CoreSchema,
    post: CoreSchema,
    r: Result<(), Error>,
) -> bool {
    let m = pre.accounts_map();
    match r {
        Result::Ok(()) => {
            &&& !m.contains_key(v.pub_key)
            &&& post.accounts_map() == m.insert(
                v.pub_key,
                account_created(v.pub_key, v.name, INITIAL_BALANCE, tx_hash),
            )
            &&& post.histories_map() == pre.histories_map().insert(
                v.pub_key,
                Seq::<Seq<u8>>::empty().push(tx_hash),
            )
        },
        Result::Err(e) => match e {
            Error::AccountAlreadyExists => m.contains_key(v.pub_key) && post == pre,
            _ => false,
        },
    }
}

impl CreateAccount {
    /// Key and signature carry their fixed widths.
    pub open spec fn wf(&self) -> bool {
        &&& self@.pub_key.len() == 32
        &&& self@.signature.len() == 64
    }

    /// The signed portion of this message.
    pub open spec fn body_spec(&self) -> Seq<u8> {
        create_account_body(self@.pub_key, self@.name)
    }

    /// The hash identifying this transaction.
    pub open spec fn hash_spec(&self) -> Seq<u8> {
        sha256_of(self.body_spec() + self@.signature)
    }

    /// Builds and signs a CreateAccount.
    pub fn new(pub_key: &PubKey, name: &str, sk: &SecretKey) -> (r: CreateAccount)
        requires
            pub_key.wf(),
            sk.wf(),
        ensures
            r.wf(),
            r@.pub_key == pub_key@,
            r@.name == name@,
            r@.signature == sig_of(create_account_body(pub_key@, name@), sk@),
    {
        let body = Self::encode_body_parts(pub_key, name);
        let signature = crate::crypto::sign_msg(body.as_slice(), sk.byte_vec().as_slice());
        CreateAccount { pub_key: pub_key.dup(), name: name.to_owned(), signature }
    }

    /// Serializes the signed portion.
    fn encode_body_parts(pub_key: &PubKey, name: &str) -> (r: Vec<u8>)
        ensures
            r@ == create_account_body(pub_key@, name@),
    {
        let mut out = start_message(TAG_CREATE_ACCOUNT);
        append_bytes(&mut out, pub_key.byte_vec().as_slice());
        let name_bytes = name.as_bytes();
        append_u64_le(&mut out, name_bytes.len() as u64);
        append_bytes(&mut out, name_bytes);
        proof {
            assert(out@ =~= create_account_body(pub_key@, name@));
        }
        out
    }

    /// The created account's key.
    pub fn pub_key(&self) -> (r: &PubKey)
        ensures
            r@ == self@.pub_key,
    {
        &self.pub_key
    }

    /// The display name.
    pub fn name(&self) -> (r: &String)
        ensures
            r@ == self@.name,
    {
        &self.name
    }

    /// Stateless signature check: the message must be signed by the key it
    /// creates an account for.
    pub fn verify(&self) -> (r: bool)
        requires
            self.wf(),
        ensures
            r == sig_valid(self.body_spec(), self@.signature, self@.pub_key),
    {
        let body = Self::encode_body_parts(&self.pub_key, self.name.as_str());
        verify_sig(body.as_slice(), self.signature.as_slice(), self.pub_key.byte_vec().as_slice())
    }

    /// The hash identifying this transaction.
    pub fn hash(&self) -> (r: HashVal)
        ensures
            r@ == self.hash_spec(),
            r.wf(),
    {
        let mut bytes = Self::encode_body_parts(&self.pub_key, self.name.as_str());
        append_bytes(&mut bytes, self.signature.as_slice());
        hash_bytes(bytes.as_slice())
    }

    /// Executes the account creation against the fork behind `schema`.
    pub fn execute(&self, schema: &mut CoreSchema) -> (r: Result<(), Error>)
        requires
            old(schema).wf(),
            self.wf(),
        ensures
            final(schema).wf(),
            create_account_post(self@, self.hash_spec(), *old(schema), *final(schema), r),
    {
        let hash = self.hash();
        match schema.account(&self.pub_key) {
            Some(_) => Err(Error::AccountAlreadyExists),
            None => {
                proof {
                    crate::schema::lemma_schema_absent_no_history(*schema, self@.pub_key);
                }
                schema.create_account(&self.pub_key, self.name.as_str(), &hash);
                Ok(())
            },
        }
    }
}

/// The mathematical value of a [`SignIn`].
pub ghost struct SignInView {
    pub pub_key: Seq<u8>,
    pub name: Seq<char>,
    pub signature: Seq<u8>,
}

/// The signed portion of a SignIn message.
pub open spec fn sign_in_body(pub_key: Seq<u8>, name: Seq<char>) -> Seq<u8> {
    service_prefix().push(TAG_SIGN_IN) + pub_key + u64_le(
        vstd::utf8::encode_utf8(name).len() as u64,
    ) + vstd::utf8::encode_utf8(name)
}

/// Sign into an account: after authentication, mint a signed session token
/// and record its hash in the account.
#[derive(Debug, Clone, PartialEq, Eq)]
pub struct SignIn {
    pub_key: PubKey,
    name: String,
    signature: Vec<u8>,
}

impl View for SignIn {
    type V = SignInView;

    closed spec fn view(&self) -> SignInView {
        SignInView { pub_key: self.pub_key@, name: self.name@, signature: self.signature@ }
    }
}

/// The machine-limit bound a SignIn execution needs.
pub open spec fn sign_in_bounds(schema: CoreSchema, v: SignInView) -> bool {
    let m = schema.accounts_map();
    m.contains_key(v.pub_key) ==> m[v.pub_key].history_len < u64::MAX
}

/// What a SignIn execution does: exactly when the account exists under the
/// supplied name, it mints the deterministic session token for (key, name),
/// stores the token's hash and appends this transaction's hash to the
/// history; a missing account or a name mismatch gives
/// `AuthenticationFailed` — one code for both — and touches nothing.
pub open spec fn sign_in_post(
    v: SignInView,
    tx_hash: Seq<u8>,
    pre: CoreSchema,
    post: CoreSchema,
    r: Result<(), Error>,
) -> bool {
    let m = pre.accounts_map();
    match r {
        Result::Ok(()) => {
            &&& m.contains_key(v.pub_key)
            &&& m[v.pub_key].name == v.name
            &&& post.accounts_map() == m.insert(
                v.pub_key,
                account_signed_in(
                    m[v.pub_key],
                    sha256_of(token_of(servant_secret(), v.pub_key, v.name)),
                    tx_hash,
                ),
            )
            &&& post.histories_map() == pre.histories_map().insert(
                v.pub_key,
                pre.history_of(v.pub_key).push(tx_hash),
            )
        },
        Result::Err(e) => match e {
            Error::AuthenticationFailed => (!m.contains_key(v.pub_key) || m[v.pub_key].name
                != v.name) && post == pre,
            _ => false,
        },
    }
}

impl SignIn {
    /// Key and signature carry their fixed widths.
    pub open spec fn wf(&self) -> bool {
        &&& self@.pub_key.len() == 32
        &&& self@.signature.len() == 64
    }

    /// The signed portion of this message.
    pub open spec fn body_spec(&self) -> Seq<u8> {
        sign_in_body(self@.pub_key, self@.name)
    }

    /// The hash identifying this transaction.
    pub open spec fn hash_spec(&self) -> Seq<u8> {
        sha256_of(self.body_spec() + self@.signature)
    }

    /// Builds and signs a SignIn.
    pub fn new(pub_key: &PubKey, name: &str, sk: &SecretKey) -> (r: SignIn)
        requires
            pub_key.wf(),
            sk.wf(),
        ensures
            r.wf(),
            r@.pub_key == pub_key@,
            r@.name == name@,
            r@.signature == sig_of(sign_in_body(pub_key@, name@), sk@),
    {
        let body = Self::encode_body_parts(pub_key, name);
        let signature = crate::crypto::sign_msg(body.as_slice(), sk.byte_vec().as_slice());
        SignIn { pub_key: pub_key.dup(), name: name.to_owned(), signature }
    }

    /// Serializes the signed portion.
    fn encode_body_parts(pub_key: &PubKey, name: &str) -> (r: Vec<u8>)
        ensures
            r@ == sign_in_body(pub_key@, name@),
    {
        let mut out = start_message(TAG_SIGN_IN);
        append_bytes(&mut out, pub_key.byte_vec().as_slice());
        let name_bytes = name.as_bytes();
        append_u64_le(&mut out, name_bytes.len() as u64);
        append_bytes(&mut out, name_bytes);
        proof {
            assert(out@ =~= sign_in_body(pub_key@, name@));
        }
        out
    }

    /// The signing account's key.
    pub fn pub_key(&self) -> (r: &PubKey)
        ensures
            r@ == self@.pub_key,
    {
        &self.pub_key
    }

    /// The supplied display name.
    pub fn name(&self) -> (r: &String)
        ensures
            r@ == self@.name,
    {
        &self.name
    }

    /// Stateless signature check: the message must be signed by the account
    /// it signs into.
    pub fn verify(&self) -> (r: bool)
        requires
            self.wf(),
        ensures
            r == sig_valid(self.body_spec(), self@.signature, self@.pub_key),
    {
        let body = Self::encode_body_parts(&self.pub_key, self.name.as_str());
        verify_sig(body.as_slice(), self.signature.as_slice(), self.pub_key.byte_vec().as_slice())
    }

    /// The hash identifying this transaction.
    pub fn hash(&self) -> (r: HashVal)
        ensures
            r@ == self.hash_spec(),
            r.wf(),
    {
        let mut bytes = Self::encode_body_parts(&self.pub_key, self.name.as_str());
        append_bytes(&mut bytes, self.signature.as_slice());
        hash_bytes(bytes.as_slice())
    }

    /// Executes the sign-in against the fork behind `schema`.
    pub fn execute(&self, schema: &mut CoreSchema) -> (r: Result<(), Error>)
        requires
            old(schema).wf(),
            self.wf(),
            sign_in_bounds(*old(schema), self@),
        ensures
            final(schema).wf(),
            sign_in_post(self@, self.hash_spec(), *old(schema), *final(schema), r),
    {
        let hash = self.hash();
        proof {
            if old(schema).accounts_map().contains_key(self@.pub_key) {
                crate::schema::lemma_schema_account_consistent(*old(schema), self@.pub_key);
            }
        }
        let account = match schema.account(&self.pub_key) {
            Some(a) => a,
            None => {
                return Err(Error::AuthenticationFailed);
            },
        };
        // Check authenticity of the sender before minting anything.
        if !account.name().eq(&self.name) {
            return Err(Error::AuthenticationFailed);
        }
        // Mint the deterministic session token for further authentication;
        // the minting capability's contract rules a failure out here.
        let token = match mint_token(
            secret_str(),
            self.pub_key.byte_vec().as_slice(),
            &self.name,
        ) {
            Ok(t) => t,
            Err(_) => {
                proof {
                    assert(false);
                }
                return Err(Error::AuthenticationFailed);
            },
        };
        schema.sign_into_account(account, &token, &hash);
        Ok(())
    }
}

/// The exhaustive family of this service's transactions, as handed to the
/// consensus engine for deterministic replay.
#[derive(Debug, Clone, PartialEq, Eq)]
pub enum CoreTransactions {
    Transfer(Transfer),
    Issue(Issue),
    CreateAccount(CreateAccount),
    SignIn(SignIn),
}

impl CoreTransactions {
    /// The carried transaction is well formed.
    pub open spec fn wf(&self) -> bool {
        match self {
            CoreTransactions::Transfer(t) => t.wf(),
            CoreTransactions::Issue(t) => t.wf(),
            CoreTransactions::CreateAccount(t) => t.wf(),
            CoreTransactions::SignIn(t) => t.wf(),
        }
    }

    /// The hash identifying the carried transaction.
    pub open spec fn hash_spec(&self) -> Seq<u8> {
        match self {
            CoreTransactions::Transfer(t) => t.hash_spec(),
            CoreTransactions::Issue(t) => t.hash_spec(),
            CoreTransactions::CreateAccount(t) => t.hash_spec(),
            CoreTransactions::SignIn(t) => t.hash_spec(),
        }
    }

    /// Whether the carried message is correctly signed by its author.
    pub open spec fn verify_spec(&self) -> bool {
        match self {
            CoreTransactions::Transfer(t) => sig_valid(t.body_spec(), t@.signature, t@.from),
            CoreTransactions::Issue(t) => sig_valid(t.body_spec(), t@.signature, t@.pub_key),
            CoreTransactions::CreateAccount(t) => sig_valid(
                t.body_spec(),
                t@.signature,
                t@.pub_key,
            ),
            CoreTransactions::SignIn(t) => sig_valid(t.body_spec(), t@.signature, t@.pub_key),
        }
    }

    /// The machine-limit bounds the carried execution needs.
    pub open spec fn bounds(&self, schema: CoreSchema) -> bool {
        match self {
            CoreTransactions::Transfer(t) => transfer_bounds(schema, t@),
            CoreTransactions::Issue(t) => issue_bounds(schema, t@),
            CoreTransactions::CreateAccount(t) => true,
            CoreTransactions::SignIn(t) => sign_in_bounds(schema, t@),
        }
    }

    /// What executing the carried transaction does, by kind.
    pub open spec fn post(&self, pre: CoreSchema, post: CoreSchema, r: Result<(), Error>) -> bool {
        match self {
            CoreTransactions::Transfer(t) => transfer_post(t@, t.hash_spec(), pre, post, r),
            CoreTransactions::Issue(t) => issue_post(t@, t.hash_spec(), pre, post, r),
            CoreTransactions::CreateAccount(t) => create_account_post(
                t@,
                t.hash_spec(),
                pre,
                post,
                r,
            ),
            CoreTransactions::SignIn(t) => sign_in_post(t@, t.hash_spec(), pre, post, r),
        }
    }

    /// Stateless signature check of the carried message.
    pub fn verify(&self) -> (r: bool)
        requires
            self.wf(),
        ensures
            r == self.verify_spec(),
    {
        match self {
            CoreTransactions::Transfer(t) => t.verify(),
            CoreTransactions::Issue(t) => t.verify(),
            CoreTransactions::CreateAccount(t) => t.verify(),
            CoreTransactions::SignIn(t) => t.verify(),
        }
    }

    /// The hash identifying the carried transaction.
    pub fn hash(&self) -> (r: HashVal)
        ensures
            r@ == self.hash_spec(),
            r.wf(),
    {
        match self {
            CoreTransactions::Transfer(t) => t.hash(),
            CoreTransactions::Issue(t) => t.hash(),
            CoreTransactions::CreateAccount(t) => t.hash(),
            CoreTransactions::SignIn(t) => t.hash(),
        }
    }

    /// Executes the carried transaction against the fork behind `schema`:
    /// deterministic, and atomic — a failed execution touches nothing.
    pub fn execute(&self, schema: &mut CoreSchema) -> (r: Result<(), Error>)
        requires
            old(schema).wf(),
            self.wf(),
            self.bounds(*old(schema)),
        ensures
            final(schema).wf(),
            self.post(*old(schema), *final(schema), r),
    {
        match self {
            CoreTransactions::Transfer(t) => t.execute(schema),
            CoreTransactions::Issue(t) => t.execute(schema),
            CoreTransactions::CreateAccount(t) => t.execute(schema),
            CoreTransactions::SignIn(t) => t.execute(schema),
        }
    }
}

impl Transfer {
    /// A field-by-field copy.
    pub fn dup(&self) -> (r: Transfer)
        ensures
            r@ == self@,
    {
        Transfer {
            from: self.from.dup(),
            to: self.to.dup(),
            amount: self.amount,
            seed: self.seed,
            signature: crate::types::copy_bytes(&self.signature),
        }
    }
}

impl Issue {
    /// A field-by-field copy.
    pub fn dup(&self) -> (r: Issue)
        ensures
            r@ == self@,
    {
        Issue {
            pub_key: self.pub_key.dup(),
            amount: self.amount,
            seed: self.seed,
            signature: crate::types::copy_bytes(&self.signature),
        }
    }
}

impl CreateAccount {
    /// A field-by-field copy.
    pub fn dup(&self) -> (r: CreateAccount)
        ensures
            r@ == self@,
    {
        CreateAccount {
            pub_key: self.pub_key.dup(),
            name: self.name.clone(),
            signature: crate::types::copy_bytes(&self.signature),
        }
    }
}

impl SignIn {
    /// A field-by-field copy.
    pub fn dup(&self) -> (r: SignIn)
        ensures
            r@ == self@,
    {
        SignIn {
            pub_key: self.pub_key.dup(),
            name: self.name.clone(),
            signature: crate::types::copy_bytes(&self.signature),
        }
    }
}

impl CoreTransactions {
    /// A field-by-field copy: same kind, same hash.
    pub fn dup(&self) -> (r: CoreTransactions)
        ensures
            r.hash_spec() == self.hash_spec(),
            r.wf() == self.wf(),
    {
        match self {
            CoreTransactions::Transfer(t) => CoreTransactions::Transfer(t.dup()),
            CoreTransactions::Issue(t) => CoreTransactions::Issue(t.dup()),
            CoreTransactions::CreateAccount(t) => CoreTransactions::CreateAccount(t.dup()),
            CoreTransactions::SignIn(t) => CoreTransactions::SignIn(t.dup()),
        }
    }
}

/// Atomicity of Transfer: a transfer that fails any check — missing sender,
/// missing receiver, or a balance short of the amount — leaves the whole
/// ledger exactly as it was, so both parties' balances and history lengths
/// are unchanged; and no transfer mutates state unless the sender's balance
/// covered the amount at decision time. Balances themselves can never go
/// negative: they are unsigned, and a debit is only ever applied under this
/// sufficiency check. When several checks fail at once, the reported error
/// follows the fixed precedence sender-missing, then receiver-missing, then
/// insufficient balance.
pub proof fn lemma_transfer_atomic(
    v: TransferView,
    tx_hash: Seq<u8>,
    pre: CoreSchema,
    post: CoreSchema,
    r: Result<(), Error>,
)
    requires
        transfer_post(v, tx_hash, pre, post, r),
    ensures
        r is Err ==> post == pre,
        pre.accounts_map().contains_key(v.from) && pre.accounts_map()[v.from].balance < v.amount
            ==> r is Err,
        !pre.accounts_map().contains_key(v.from) ==> r == Result::<(), Error>::Err(
            Error::SenderNotFound,
        ),
        pre.accounts_map().contains_key(v.from) && !pre.accounts_map().contains_key(v.to) ==> r
            == Result::<(), Error>::Err(Error::ReceiverNotFound),
        pre.accounts_map().contains_key(v.from) && pre.accounts_map().contains_key(v.to)
            && pre.accounts_map()[v.from].balance < v.amount ==> r == Result::<(), Error>::Err(
            Error::InsufficientCurrencyAmount,
        ),
{
}

/// The outcome a Transfer is bound to have against a given pre-state, in the
/// fixed precedence sender-missing, receiver-missing, insufficient balance.
pub open spec fn transfer_outcome(pre: CoreSchema, v: TransferView) -> Result<(), Error> {
    let m = pre.accounts_map();
    if !m.contains_key(v.from) {
        Result::Err(Error::SenderNotFound)
    } else if !m.contains_key(v.to) {
        Result::Err(Error::ReceiverNotFound)
    } else if m[v.from].balance < v.amount {
        Result::Err(Error::InsufficientCurrencyAmount)
    } else {
        Result::Ok(())
    }
}

/// The outcome an Issue is bound to have against a given pre-state.
pub open spec fn issue_outcome(pre: CoreSchema, v: IssueView) -> Result<(), Error> {
    if !pre.accounts_map().contains_key(v.pub_key) {
        Result::Err(Error::ReceiverNotFound)
    } else {
        Result::Ok(())
    }
}

/// The outcome a CreateAccount is bound to have against a given pre-state.
pub open spec fn create_account_outcome(pre: CoreSchema, v: CreateAccountView) -> Result<
    (),
    Error,
> {
    if pre.accounts_map().contains_key(v.pub_key) {
        Result::Err(Error::AccountAlreadyExists)
    } else {
        Result::Ok(())
    }
}

/// The outcome a SignIn is bound to have against a given pre-state.
pub open spec fn sign_in_outcome(pre: CoreSchema, v: SignInView) -> Result<(), Error> {
    let m = pre.accounts_map();
    if m.contains_key(v.pub_key) && m[v.pub_key].name == v.name {
        Result::Ok(())
    } else {
        Result::Err(Error::AuthenticationFailed)
    }
}

/// A Transfer's result is exactly its outcome against the pre-state.
pub proof fn lemma_transfer_outcome(
    v: TransferView,
    tx_hash: Seq<u8>,
    pre: CoreSchema,
    post: CoreSchema,
    r: Result<(), Error>,
)
    requires
        transfer_post(v, tx_hash, pre, post, r),
    ensures
        r == transfer_outcome(pre, v),
{
    match r {
        Result::Ok(()) => {
            assert(r is Ok);
            assert(r->Ok_0 == ());
            assert(r == Result::<(), Error>::Ok(()));
            assert(transfer_outcome(pre, v) == Result::<(), Error>::Ok(()));
        },
        Result::Err(e) => {
            match e {
                Error::SenderNotFound => {
                    assert(r == Result::<(), Error>::Err(Error::SenderNotFound));
                    assert(transfer_outcome(pre, v) == Result::<(), Error>::Err(
                        Error::SenderNotFound,
                    ));
                },
                Error::ReceiverNotFound => {
                    assert(r == Result::<(), Error>::Err(Error::ReceiverNotFound));
                    assert(transfer_outcome(pre, v) == Result::<(), Error>::Err(
                        Error::ReceiverNotFound,
                    ));
                },
                Error::InsufficientCurrencyAmount => {
                    assert(r == Result::<(), Error>::Err(Error::InsufficientCurrencyAmount));
                    assert(transfer_outcome(pre, v) == Result::<(), Error>::Err(
                        Error::InsufficientCurrencyAmount,
                    ));
                },
                Error::AccountAlreadyExists => {
                    assert(false);
                },
                Error::AuthenticationFailed => {
                    assert(false);
                },
            }
        },
    }
}

/// An Issue's result is exactly its outcome against the pre-state.
pub proof fn lemma_issue_outcome(
    v: IssueView,
    tx_hash: Seq<u8>,
    pre: CoreSchema,
    post: CoreSchema,
    r: Result<(), Error>,
)
    requires
        issue_post(v, tx_hash, pre, post, r),
    ensures
        r == issue_outcome(pre, v),
{
    match r {
        Result::Ok(()) => {
            assert(r is Ok);
            assert(r->Ok_0 == ());
            assert(r == Result::<(), Error>::Ok(()));
            assert(issue_outcome(pre, v) == Result::<(), Error>::Ok(()));
        },
        Result::Err(e) => {
            match e {
                Error::ReceiverNotFound => {
                    assert(r == Result::<(), Error>::Err(Error::ReceiverNotFound));
                    assert(issue_outcome(pre, v) == Result::<(), Error>::Err(
                        Error::ReceiverNotFound,
                    ));
                },
                _ => {
                    assert(false);
                },
            }
        },
    }
}

/// A CreateAccount's result is exactly its outcome against the pre-state.
pub proof fn lemma_create_account_outcome(
    v: CreateAccountView,
    tx_hash: Seq<u8>,
    pre: CoreSchema,
    post: CoreSchema,
    r: Result<(), Error>,
)
    requires
        create_account_post(v, tx_hash, pre, post, r),
    ensures
        r == create_account_outcome(pre, v),
{
    match r {
        Result::Ok(()) => {
            assert(r is Ok);
            assert(r->Ok_0 == ());
            assert(r == Result::<(), Error>::Ok(()));
            assert(create_account_outcome(pre, v) == Result::<(), Error>::Ok(()));
        },
        Result::Err(e) => {
            match e {
                Error::AccountAlreadyExists => {
                    assert(r == Result::<(), Error>::Err(Error::AccountAlreadyExists));
                    assert(create_account_outcome(pre, v) == Result::<(), Error>::Err(
                        Error::AccountAlreadyExists,
                    ));
                },
                _ => {
                    assert(false);
                },
            }
        },
    }
}

/// A SignIn's result is exactly its outcome against the pre-state.
pub proof fn lemma_sign_in_outcome(
    v: SignInView,
    tx_hash: Seq<u8>,
    pre: CoreSchema,
    post: CoreSchema,
    r: Result<(), Error>,
)
    requires
        sign_in_post(v, tx_hash, pre, post, r),
    ensures
        r == sign_in_outcome(pre, v),
{
    match r {
        Result::Ok(()) => {
            assert(r is Ok);
            assert(r->Ok_0 == ());
            assert(r == Result::<(), Error>::Ok(()));
            assert(sign_in_outcome(pre, v) == Result::<(), Error>::Ok(()));
        },
        Result::Err(e) => {
            match e {
                Error::AuthenticationFailed => {
                    assert(r == Result::<(), Error>::Err(Error::AuthenticationFailed));
                    assert(sign_in_outcome(pre, v) == Result::<(), Error>::Err(
                        Error::AuthenticationFailed,
                    ));
                },
                _ => {
                    assert(false);
                },
            }
        },
    }
}

/// Execution is deterministic: two executions of the same transaction from
/// equal fork states yield the same outcome, the same accounts map and the
/// same history table — no clock, randomness or environment is consulted.
pub proof fn lemma_execute_deterministic(
    tx: &CoreTransactions,
    pre: CoreSchema,
    post1: CoreSchema,
    post2: CoreSchema,
    r1: Result<(), Error>,
    r2: Result<(), Error>,
)
    requires
        tx.post(pre, post1, r1),
        tx.post(pre, post2, r2),
    ensures
        r1 == r2,
        post1.accounts_map() == post2.accounts_map(),
        post1.histories_map() == post2.histories_map(),
{
    match tx {
        CoreTransactions::Transfer(t) => {
            lemma_transfer_outcome(t@, t.hash_spec(), pre, post1, r1);
            lemma_transfer_outcome(t@, t.hash_spec(), pre, post2, r2);
        },
        CoreTransactions::Issue(t) => {
            lemma_issue_outcome(t@, t.hash_spec(), pre, post1, r1);
            lemma_issue_outcome(t@, t.hash_spec(), pre, post2, r2);
        },
        CoreTransactions::CreateAccount(t) => {
            lemma_create_account_outcome(t@, t.hash_spec(), pre, post1, r1);
            lemma_create_account_outcome(t@, t.hash_spec(), pre, post2, r2);
        },
        CoreTransactions::SignIn(t) => {
            lemma_sign_in_outcome(t@, t.hash_spec(), pre, post1, r1);
            lemma_sign_in_outcome(t@, t.hash_spec(), pre, post2, r2);
        },
    }
}

} // verus!
