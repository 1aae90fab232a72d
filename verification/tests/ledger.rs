//! Tests of the ledger's stated properties on concrete values: history
//! consistency, atomicity of failed transfers, provable absence, error
//! codes, token determinism, and the signature and hashing boundary.

use simple_mining_pool::api::{
    check_account_proof, check_history_proof, AccountQuery, CoreApi, ProofOutcome,
};
use simple_mining_pool::crypto::{derive_pub_key, hash_bytes};
use simple_mining_pool::transactions::{
    CoreTransactions, CreateAccount, Error, Issue, SignIn, Transfer,
};
use simple_mining_pool::types::{HashVal, PubKey, SecretKey};
use simple_mining_pool::{CoreSchema, CoreService, Fork, ServiceFactory};

fn keypair(seed: u8) -> (PubKey, SecretKey) {
    let bytes = vec![seed; 32];
    (derive_pub_key(&bytes), SecretKey::from_bytes(bytes))
}

fn schema_with_alice() -> (CoreSchema, Vec<CoreTransactions>, PubKey, SecretKey) {
    let mut schema = CoreSchema::new(Fork::new());
    let (pk, sk) = keypair(7);
    let tx = CreateAccount::new(&pk, "alice", &sk);
    assert!(tx.execute(&mut schema).is_ok());
    let index = vec![CoreTransactions::CreateAccount(tx)];
    (schema, index, pk, sk)
}

/// Every committed account's `history_hash` and `history_len` agree with the
/// full range of its history list, checked the way a client would.
#[test]
fn test_history_consistent_after_mutations() {
    let (mut schema, mut index, pk_alice, sk_alice) = schema_with_alice();
    let (pk_bob, sk_bob) = keypair(8);
    let tx = CreateAccount::new(&pk_bob, "bob", &sk_bob);
    assert!(tx.execute(&mut schema).is_ok());
    index.push(CoreTransactions::CreateAccount(tx));

    let tx = Issue::new(&pk_alice, 25, 0, &sk_alice);
    assert!(tx.execute(&mut schema).is_ok());
    index.push(CoreTransactions::Issue(tx));

    let tx = Transfer::new(&pk_alice, &pk_bob, 40, 0, &sk_alice);
    assert!(tx.execute(&mut schema).is_ok());
    index.push(CoreTransactions::Transfer(tx));

    for pk in [&pk_alice, &pk_bob] {
        let info = CoreApi::get_account_info(&schema, &index, &AccountQuery {
            pub_key: pk.dup(),
        })
        .unwrap();
        let roots = schema.state_hash();
        let account = match check_account_proof(&info.account_proof, &roots[0], pk) {
            ProofOutcome::Present(a) => a,
            _ => panic!("expected a membership proof"),
        };
        let history = info.account_history.expect("existing account has a history");
        assert!(check_history_proof(&history.proof, account.history_hash(), account.history_len()));
        assert_eq!(history.transactions.len(), history.proof.len());
        for (tx, h) in history.transactions.iter().zip(history.proof.iter()) {
            assert_eq!(&tx.hash(), h);
        }
    }

    let alice = schema.account(&pk_alice).unwrap();
    assert_eq!(alice.balance(), 85);
    assert_eq!(alice.history_len(), 3);
    let bob = schema.account(&pk_bob).unwrap();
    assert_eq!(bob.balance(), 140);
    assert_eq!(bob.history_len(), 2);
}

/// Scenario: two committed accounts at 100 each, a transfer of 10 moves the
/// balances to 90 and 110 and both histories grow to two entries.
#[test]
fn test_transfer_updates_both_histories() {
    let (mut schema, _, pk_alice, sk_alice) = schema_with_alice();
    let (pk_bob, sk_bob) = keypair(8);
    assert!(CreateAccount::new(&pk_bob, "bob", &sk_bob).execute(&mut schema).is_ok());

    let tx = Transfer::new(&pk_alice, &pk_bob, 10, 0, &sk_alice);
    assert!(tx.execute(&mut schema).is_ok());

    let alice = schema.account(&pk_alice).unwrap();
    let bob = schema.account(&pk_bob).unwrap();
    assert_eq!(alice.balance(), 90);
    assert_eq!(bob.balance(), 110);
    assert_eq!(alice.history_len(), 2);
    assert_eq!(bob.history_len(), 2);
}

/// A failed transfer leaves balances and history lengths exactly as they
/// were, whichever check failed.
#[test]
fn test_failed_transfer_is_atomic() {
    let (mut schema, _, pk_alice, sk_alice) = schema_with_alice();
    let (pk_bob, _) = keypair(8);

    // Receiver does not exist.
    let tx = Transfer::new(&pk_alice, &pk_bob, 10, 0, &sk_alice);
    assert_eq!(tx.execute(&mut schema).unwrap_err(), Error::ReceiverNotFound);
    let alice = schema.account(&pk_alice).unwrap();
    assert_eq!((alice.balance(), alice.history_len()), (100, 1));

    // Balance is short.
    let (pk_bob, sk_bob) = keypair(8);
    assert!(CreateAccount::new(&pk_bob, "bob", &sk_bob).execute(&mut schema).is_ok());
    let tx = Transfer::new(&pk_alice, &pk_bob, 101, 1, &sk_alice);
    assert_eq!(tx.execute(&mut schema).unwrap_err(), Error::InsufficientCurrencyAmount);
    let alice = schema.account(&pk_alice).unwrap();
    let bob = schema.account(&pk_bob).unwrap();
    assert_eq!((alice.balance(), alice.history_len()), (100, 1));
    assert_eq!((bob.balance(), bob.history_len()), (100, 1));
}

/// Issue on a missing account is `ReceiverNotFound`; on an existing one it
/// credits the amount.
#[test]
fn test_issue() {
    let (mut schema, _, pk_alice, sk_alice) = schema_with_alice();
    let (pk_ghost, sk_ghost) = keypair(9);

    let tx = Issue::new(&pk_ghost, 5, 0, &sk_ghost);
    let err = tx.execute(&mut schema).unwrap_err();
    assert_eq!(err, Error::ReceiverNotFound);
    assert_eq!(err.code(), 2);

    let tx = Issue::new(&pk_alice, 5, 0, &sk_alice);
    assert!(tx.execute(&mut schema).is_ok());
    assert_eq!(schema.account(&pk_alice).unwrap().balance(), 105);
}

/// Creating the same account twice fails with `AccountAlreadyExists` and
/// changes nothing.
#[test]
fn test_create_account_twice() {
    let (mut schema, _, pk_alice, sk_alice) = schema_with_alice();
    let tx = CreateAccount::new(&pk_alice, "someone else", &sk_alice);
    let err = tx.execute(&mut schema).unwrap_err();
    assert_eq!(err, Error::AccountAlreadyExists);
    assert_eq!(err.code(), 0);
    assert_eq!(err.description(), "Account already exists");
    let alice = schema.account(&pk_alice).unwrap();
    assert_eq!(alice.name(), "alice");
    assert_eq!(alice.balance(), 100);
    assert_eq!(alice.history_len(), 1);
}

/// Sign-in with the right name stores a token hash that is neither the
/// default nor the hash of the name itself, and minting is deterministic: a
/// second sign-in stores the same hash. A wrong name fails and changes
/// nothing.
#[test]
fn test_sign_in_token() {
    let (mut schema, _, pk_alice, sk_alice) = schema_with_alice();

    let tx = SignIn::new(&pk_alice, "alice", &sk_alice);
    assert!(tx.execute(&mut schema).is_ok());
    let first = schema.account(&pk_alice).unwrap().access_token_hash().dup();
    assert_ne!(&first, &HashVal::zero());
    assert_ne!(&first, &hash_bytes("alice".as_bytes()));

    // Wrong name: authentication fails, the stored hash stays.
    let tx = SignIn::new(&pk_alice, "bob", &sk_alice);
    let err = tx.execute(&mut schema).unwrap_err();
    assert_eq!(err, Error::AuthenticationFailed);
    assert_eq!(err.code(), 4);
    assert_eq!(err.description(), "Sign in failed");
    assert_eq!(schema.account(&pk_alice).unwrap().access_token_hash(), &first);

    // Same inputs mint the same token, so the stored hash repeats.
    let tx = SignIn::new(&pk_alice, "alice", &sk_alice);
    assert!(tx.execute(&mut schema).is_ok());
    assert_eq!(schema.account(&pk_alice).unwrap().access_token_hash(), &first);

    // Sign-in on a missing account fails too.
    let (pk_ghost, sk_ghost) = keypair(9);
    let tx = SignIn::new(&pk_ghost, "ghost", &sk_ghost);
    assert_eq!(tx.execute(&mut schema).unwrap_err(), Error::AuthenticationFailed);
}

/// Signatures verify under the signing key and under no other; distinct
/// transactions have distinct hashes.
#[test]
fn test_signatures_and_hashes() {
    let (pk_alice, sk_alice) = keypair(1);
    let (pk_bob, sk_bob) = keypair(2);
    assert_ne!(pk_alice, pk_bob);

    let good = Transfer::new(&pk_alice, &pk_bob, 10, 0, &sk_alice);
    assert!(good.verify());

    // Signed with the wrong key: the message claims alice, bob signed it.
    let forged = Transfer::new(&pk_alice, &pk_bob, 10, 0, &sk_bob);
    assert!(!forged.verify());

    // A different seed gives a different hash.
    let other = Transfer::new(&pk_alice, &pk_bob, 10, 1, &sk_alice);
    assert_ne!(good.hash(), other.hash());
}

/// The posted transaction is answered with its own hash.
#[test]
fn test_post_transaction_response() {
    let (pk, sk) = keypair(3);
    let tx = CoreTransactions::CreateAccount(CreateAccount::new(&pk, "carol", &sk));
    let response = CoreApi::post_transaction(&tx);
    assert_eq!(response.tx_hash, tx.hash());
}

/// The table root moves when the table changes, and a proof checked against
/// a stale root is invalid.
#[test]
fn test_state_hash_and_stale_proof() {
    let mut schema = CoreSchema::new(Fork::new());
    let empty_roots = schema.state_hash();
    assert_eq!(empty_roots.len(), 1);

    let (pk, sk) = keypair(4);
    let create = CreateAccount::new(&pk, "dave", &sk);
    assert!(create.execute(&mut schema).is_ok());
    let index = vec![CoreTransactions::CreateAccount(create)];
    let roots = schema.state_hash();
    assert_ne!(empty_roots[0], roots[0]);

    let info = CoreApi::get_account_info(&schema, &index, &AccountQuery { pub_key: pk.dup() })
        .unwrap();
    assert!(matches!(
        check_account_proof(&info.account_proof, &roots[0], &pk),
        ProofOutcome::Present(_)
    ));
    assert!(matches!(
        check_account_proof(&info.account_proof, &empty_roots[0], &pk),
        ProofOutcome::Invalid
    ));
}

/// Absence is provable and repeatable: the same non-membership answer comes
/// back until the account is created.
#[test]
fn test_absence_is_provable_until_creation() {
    let mut schema = CoreSchema::new(Fork::new());
    let index: Vec<CoreTransactions> = Vec::new();
    let (pk, sk) = keypair(5);

    for _ in 0..2 {
        let info = CoreApi::get_account_info(&schema, &index, &AccountQuery { pub_key: pk.dup() })
            .unwrap();
        assert!(info.account_history.is_none());
        let roots = schema.state_hash();
        assert!(matches!(
            check_account_proof(&info.account_proof, &roots[0], &pk),
            ProofOutcome::Absent
        ));
    }

    assert!(CreateAccount::new(&pk, "eve", &sk).execute(&mut schema).is_ok());
    let info = CoreApi::get_account_info(&schema, &index, &AccountQuery { pub_key: pk.dup() });
    // The single history entry is not in the (empty) index: resolution fails.
    let err = info.unwrap_err();
    assert_eq!(err.message(), "history entry missing from the transaction index");
}

/// The transaction family dispatches verification and execution by kind.
#[test]
fn test_transaction_family_dispatch() {
    let mut schema = CoreSchema::new(Fork::new());
    let (pk_alice, sk_alice) = keypair(1);
    let (pk_bob, sk_bob) = keypair(2);

    let txs = vec![
        CoreTransactions::CreateAccount(CreateAccount::new(&pk_alice, "alice", &sk_alice)),
        CoreTransactions::CreateAccount(CreateAccount::new(&pk_bob, "bob", &sk_bob)),
        CoreTransactions::Issue(Issue::new(&pk_bob, 50, 0, &sk_bob)),
        CoreTransactions::Transfer(Transfer::new(&pk_alice, &pk_bob, 30, 0, &sk_alice)),
        CoreTransactions::SignIn(SignIn::new(&pk_alice, "alice", &sk_alice)),
    ];
    for tx in &txs {
        assert!(tx.verify());
        assert!(tx.execute(&mut schema).is_ok());
    }

    let alice = schema.account(&pk_alice).unwrap();
    let bob = schema.account(&pk_bob).unwrap();
    assert_eq!(alice.balance(), 70);
    assert_eq!(bob.balance(), 180);
    assert_eq!(alice.history_len(), 3);
    assert_eq!(bob.history_len(), 3);
}

/// The service exposes its registered name and identifier.
#[test]
fn test_service_descriptors() {
    let mut factory = ServiceFactory;
    assert_eq!(factory.service_name(), "simple");
    let service: CoreService = factory.make_service();
    assert_eq!(service.service_name(), "simple");
    assert_eq!(service.service_id(), 128);

    let schema = CoreSchema::new(Fork::new());
    let roots = service.state_hash(&schema);
    assert_eq!(roots, schema.state_hash());
}

/// A transfer from an account to itself moves no money but still commits two
/// history entries, and the account stays consistent with its history.
#[test]
fn test_self_transfer() {
    let (mut schema, mut index, pk_alice, sk_alice) = schema_with_alice();
    let tx = Transfer::new(&pk_alice, &pk_alice, 10, 0, &sk_alice);
    assert!(tx.execute(&mut schema).is_ok());
    index.push(CoreTransactions::Transfer(tx));

    let alice = schema.account(&pk_alice).unwrap();
    assert_eq!(alice.balance(), 100);
    assert_eq!(alice.history_len(), 3);

    let info = CoreApi::get_account_info(&schema, &index, &AccountQuery {
        pub_key: pk_alice.dup(),
    })
    .unwrap();
    let history = info.account_history.unwrap();
    assert!(check_history_proof(&history.proof, alice.history_hash(), alice.history_len()));
}

/// Executing the same transaction against equal forks yields the same
/// outcome and the same resulting state.
#[test]
fn test_execution_deterministic() {
    let build = || {
        let (mut schema, _, pk_alice, sk_alice) = schema_with_alice();
        let (pk_bob, sk_bob) = keypair(8);
        assert!(CreateAccount::new(&pk_bob, "bob", &sk_bob).execute(&mut schema).is_ok());
        let tx = Transfer::new(&pk_alice, &pk_bob, 10, 0, &sk_alice);
        let r = tx.execute(&mut schema);
        (schema, r, pk_alice, pk_bob)
    };
    let (s1, r1, pk_alice, pk_bob) = build();
    let (s2, r2, _, _) = build();
    assert_eq!(r1, r2);
    assert_eq!(s1.state_hash(), s2.state_hash());
    assert_eq!(
        s1.account(&pk_alice).unwrap().history_hash(),
        s2.account(&pk_alice).unwrap().history_hash()
    );
    assert_eq!(
        s1.account(&pk_bob).unwrap().history_hash(),
        s2.account(&pk_bob).unwrap().history_hash()
    );
}
