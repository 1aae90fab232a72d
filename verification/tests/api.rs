//! Tests of the account endpoints: transactions are executed against a fresh
//! fork and the resulting state is read back through the proof-carrying API,
//! the way an external client would check it.

use simple_mining_pool::account::Account;
use simple_mining_pool::api::{check_account_proof, AccountQuery, CoreApi, ProofOutcome};
use simple_mining_pool::crypto::derive_pub_key;
use simple_mining_pool::transactions::{CoreTransactions, CreateAccount, SignIn, Transfer};
use simple_mining_pool::types::{HashVal, PubKey, SecretKey};
use simple_mining_pool::{CoreSchema, Fork};

const ALICE_NAME: &str = "Alice";
const BOB_NAME: &str = "Bob";

fn keypair(seed: u8) -> (PubKey, SecretKey) {
    let bytes = vec![seed; 32];
    (derive_pub_key(&bytes), SecretKey::from_bytes(bytes))
}

struct Net {
    schema: CoreSchema,
    tx_index: Vec<CoreTransactions>,
}

fn create_testkit() -> Net {
    Net { schema: CoreSchema::new(Fork::new()), tx_index: Vec::new() }
}

impl Net {
    /// Builds a signed account-creation transaction with a fresh key pair
    /// and commits it.
    fn create_account(&mut self, name: &str, seed: u8) -> (CreateAccount, SecretKey) {
        let (pubkey, key) = keypair(seed);
        let tx = CreateAccount::new(&pubkey, name, &key);
        assert!(tx.verify());
        let r = tx.execute(&mut self.schema);
        assert!(r.is_ok());
        self.tx_index.push(CoreTransactions::CreateAccount(tx.dup()));
        (tx, key)
    }

    /// Reads an account back through the proof bundle, checking the
    /// membership proof against the table root as a client would.
    fn get_account(&self, pub_key: &PubKey) -> Option<Account> {
        let info = CoreApi::get_account_info(
            &self.schema,
            &self.tx_index,
            &AccountQuery { pub_key: pub_key.dup() },
        )
        .unwrap();
        let roots = self.schema.state_hash();
        match check_account_proof(&info.account_proof, &roots[0], pub_key) {
            ProofOutcome::Present(a) => Some(a),
            ProofOutcome::Absent => None,
            ProofOutcome::Invalid => panic!("account proof did not check"),
        }
    }

    /// Asserts that an account with the given key is unknown: the proof
    /// bundle must carry a checkable non-membership proof.
    fn assert_no_account(&self, pub_key: &PubKey) {
        assert!(self.get_account(pub_key).is_none());
    }
}

#[test]
fn test_create_account() {
    let mut testkit = create_testkit();
    let (tx, _) = testkit.create_account(ALICE_NAME, 1);

    // Check that the user indeed is persisted by the service.
    let account = testkit.get_account(tx.pub_key()).unwrap();
    assert_eq!(account.pub_key(), tx.pub_key());
    assert_eq!(account.name(), tx.name());
    assert_eq!(account.balance(), 100);
}

#[test]
fn test_sing_into_account() {
    let mut testkit = create_testkit();
    let (tx, key) = testkit.create_account(ALICE_NAME, 1);

    // Check that the user indeed is persisted by the service.
    let account = testkit.get_account(tx.pub_key()).unwrap();
    assert_eq!(account.pub_key(), tx.pub_key());
    assert_eq!(account.name(), tx.name());
    assert_eq!(account.balance(), 100);
    assert_eq!(account.access_token_hash(), &HashVal::zero());

    // Sign into the account with the right name.
    let pubkey = account.pub_key().dup();
    let tx = SignIn::new(&pubkey, ALICE_NAME, &key);
    assert!(tx.verify());
    let r = tx.execute(&mut testkit.schema);
    assert!(r.is_ok());
    testkit.tx_index.push(CoreTransactions::SignIn(tx.dup()));

    // The stored token hash moved off the default.
    let account = testkit.get_account(tx.pub_key()).unwrap();
    assert_eq!(account.pub_key(), tx.pub_key());
    assert_eq!(account.name(), tx.name());
    assert_ne!(account.access_token_hash(), &HashVal::zero());
}

#[test]
fn test_transfer() {
    // Create 2 accounts.
    let mut testkit = create_testkit();
    let (tx_alice, key_alice) = testkit.create_account(ALICE_NAME, 1);
    let (tx_bob, _) = testkit.create_account(BOB_NAME, 2);

    // Check that the initial Alice's and Bob's balances persisted by the service.
    let account = testkit.get_account(tx_alice.pub_key()).unwrap();
    assert_eq!(account.balance(), 100);
    let account = testkit.get_account(tx_bob.pub_key()).unwrap();
    assert_eq!(account.balance(), 100);

    // Transfer funds.
    let tx = Transfer::new(
        tx_alice.pub_key(),
        tx_bob.pub_key(),
        10, // transferred amount
        0,  // seed
        &key_alice,
    );
    assert!(tx.verify());
    let r = tx.execute(&mut testkit.schema);
    assert!(r.is_ok());
    testkit.tx_index.push(CoreTransactions::Transfer(tx.dup()));

    // After the transfer is committed, check the new balances.
    let account = testkit.get_account(tx_alice.pub_key()).unwrap();
    assert_eq!(account.balance(), 90);
    let account = testkit.get_account(tx_bob.pub_key()).unwrap();
    assert_eq!(account.balance(), 110);
}

#[test]
fn test_transfer_from_nonexisting_account() {
    let mut testkit = create_testkit();

    // Do not commit Alice's transaction, so Alice's account does not exist
    // when the transfer occurs.
    let (pk_alice, key_alice) = keypair(1);
    let tx_alice = CreateAccount::new(&pk_alice, ALICE_NAME, &key_alice);
    let (tx_bob, _) = testkit.create_account(BOB_NAME, 2);

    testkit.assert_no_account(tx_alice.pub_key());
    let account = testkit.get_account(tx_bob.pub_key()).unwrap();
    assert_eq!(account.balance(), 100);

    let tx = Transfer::new(
        tx_alice.pub_key(),
        tx_bob.pub_key(),
        10, // transfer amount
        0,  // seed
        &key_alice,
    );
    let err = tx.execute(&mut testkit.schema).unwrap_err();
    assert_eq!(err.code(), 1);
    assert_eq!(err.description(), "Sender doesn't exist");

    // Check that Bob's balance doesn't change.
    let account = testkit.get_account(tx_bob.pub_key()).unwrap();
    assert_eq!(account.balance(), 100);
}

#[test]
fn test_transfer_to_nonexisting_account() {
    let mut testkit = create_testkit();

    // Do not commit Bob's transaction, so Bob's account does not exist when
    // the transfer occurs.
    let (tx_alice, key_alice) = testkit.create_account(ALICE_NAME, 1);
    let (pk_bob, key_bob) = keypair(2);
    let tx_bob = CreateAccount::new(&pk_bob, BOB_NAME, &key_bob);

    let account = testkit.get_account(tx_alice.pub_key()).unwrap();
    assert_eq!(account.balance(), 100);
    testkit.assert_no_account(tx_bob.pub_key());

    let tx = Transfer::new(
        tx_alice.pub_key(),
        tx_bob.pub_key(),
        10, // transfer amount
        0,  // seed
        &key_alice,
    );
    let err = tx.execute(&mut testkit.schema).unwrap_err();
    assert_eq!(err.code(), 2);
    assert_eq!(err.description(), "Receiver doesn't exist");

    // Check that Alice's balance doesn't change.
    let account = testkit.get_account(tx_alice.pub_key()).unwrap();
    assert_eq!(account.balance(), 100);
}

#[test]
fn test_transfer_overcharge() {
    let mut testkit = create_testkit();

    let (tx_alice, key_alice) = testkit.create_account(ALICE_NAME, 1);
    let (tx_bob, _) = testkit.create_account(BOB_NAME, 2);

    // Transfer funds. The transfer amount (110) is more than Alice has (100).
    let tx = Transfer::new(
        tx_alice.pub_key(),
        tx_bob.pub_key(),
        110, // transfer amount
        0,   // seed
        &key_alice,
    );
    let err = tx.execute(&mut testkit.schema).unwrap_err();
    assert_eq!(err.code(), 3);
    assert_eq!(err.description(), "Insufficient currency amount");

    let account = testkit.get_account(tx_alice.pub_key()).unwrap();
    assert_eq!(account.balance(), 100);
    let account = testkit.get_account(tx_bob.pub_key()).unwrap();
    assert_eq!(account.balance(), 100);
}

#[test]
fn test_unknown_account_request() {
    let testkit = create_testkit();

    // The transaction is built but never committed.
    let (pk, key) = keypair(1);
    let tx = CreateAccount::new(&pk, ALICE_NAME, &key);

    testkit.assert_no_account(tx.pub_key());
}
