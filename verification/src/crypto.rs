//! Trusted boundary to the cryptographic capabilities the ledger consumes:
//! hashing, signature checking and session-token minting. Each outside call
//! sits behind one wrapper whose contract names its result; everything that
//! reasons about those results is verified against these contracts.

use vstd::prelude::*;

use crate::error::Error;
use crate::types::{HashVal, PubKey};

verus! {

/// The 32-byte SHA-256 digest of `data`; a function of `data` alone.
pub uninterp spec fn sha256_of(data: Seq<u8>) -> Seq<u8>;

/// Whether `sig` is a signature of `msg` that the curve accepts under `pk`;
/// a function of the three arguments alone.
pub uninterp spec fn sig_valid(msg: Seq<u8>, sig: Seq<u8>, pk: Seq<u8>) -> bool;

/// The deterministic signature of `msg` under the signing seed `sk`.
pub uninterp spec fn sig_of(msg: Seq<u8>, sk: Seq<u8>) -> Seq<u8>;

/// The public key derived from the signing seed `sk`.
pub uninterp spec fn pub_key_of(sk: Seq<u8>) -> Seq<u8>;

/// The serialized session token minted for subject `sub` (a public key) and
/// display name `name` under the signing secret `secret`.
pub uninterp spec fn token_of(secret: Seq<char>, sub: Seq<u8>, name: Seq<char>) -> Seq<u8>;

/// Relies on sha2::Sha256::digest: the 32-byte SHA-256 digest, a pure
/// function of the input bytes.
#[verifier::external_body]
pub fn hash_bytes(data: &[u8]) -> (r: HashVal)
    ensures
        r@ == sha256_of(data@),
        r@.len() == 32,
{
    let digest = <sha2::Sha256 as sha2::Digest>::digest(data);
    HashVal::from_bytes(digest.as_slice().to_vec())
}

/// Relies on ed25519_dalek::VerifyingKey::verify: it accepts exactly the
/// valid Ed25519 signatures of `msg` under `pk`, a pure function of the
/// arguments (a malformed key accepts nothing).
#[verifier::external_body]
pub fn verify_sig(msg: &[u8], sig: &[u8], pk: &[u8]) -> (r: bool)
    requires
        sig@.len() == 64,
        pk@.len() == 32,
    ensures
        r == sig_valid(msg@, sig@, pk@),
{
    let key_bytes: [u8; 32] = match pk.try_into() {
        Ok(a) => a,
        Err(_) => return false,
    };
    let vk = match ed25519_dalek::VerifyingKey::from_bytes(&key_bytes) {
        Ok(k) => k,
        Err(_) => return false,
    };
    let s = match ed25519_dalek::Signature::from_slice(sig) {
        Ok(s) => s,
        Err(_) => return false,
    };
    ed25519_dalek::Verifier::verify(&vk, msg, &s).is_ok()
}

/// Relies on ed25519_dalek::SigningKey::sign: the RFC 8032 signature is
/// deterministic in the message and the seed, is 64 bytes long, and verifies
/// under the seed's public key.
#[verifier::external_body]
pub fn sign_msg(msg: &[u8], sk: &[u8]) -> (r: Vec<u8>)
    requires
        sk@.len() == 32,
    ensures
        r@ == sig_of(msg@, sk@),
        r@.len() == 64,
        sig_valid(msg@, r@, pub_key_of(sk@)),
{
    let seed: [u8; 32] = sk.try_into().unwrap();
    let key = ed25519_dalek::SigningKey::from_bytes(&seed);
    ed25519_dalek::Signer::sign(&key, msg).to_bytes().to_vec()
}

/// Relies on ed25519_dalek::SigningKey::verifying_key: the 32-byte public
/// half, a pure function of the seed.
#[verifier::external_body]
pub fn derive_pub_key(sk: &[u8]) -> (r: PubKey)
    requires
        sk@.len() == 32,
    ensures
        r@ == pub_key_of(sk@),
        r@.len() == 32,
{
    let seed: [u8; 32] = sk.try_into().unwrap();
    let key = ed25519_dalek::SigningKey::from_bytes(&seed);
    PubKey::from_bytes(key.verifying_key().to_bytes().to_vec())
}

/// Relies on frank_jwt::encode with Algorithm::HS256: the token is an
/// HMAC-signed JWT whose bytes are a function of the secret, the subject and
/// the name alone (the payload map serializes with sorted keys, and HS256
/// signing is deterministic), and the call succeeds: the HS256 branch only
/// serializes JSON object values and computes an HMAC over them, and neither
/// step has an input-dependent failure path. The error arm is kept for the
/// boundary's sake, but this contract makes it unreachable.
#[verifier::external_body]
pub fn mint_token(secret: &str, sub: &[u8], name: &String) -> (r: Result<Vec<u8>, Error>)
    ensures
        r is Ok,
        r matches Ok(t) ==> t@ == token_of(secret@, sub@, name@),
{
    let sub_hex: String = sub.iter().map(|b| format!("{:02x}", b)).collect();
    let mut payload = serde_json::Map::new();
    payload.insert("sub".to_string(), serde_json::Value::String(sub_hex));
    payload.insert("name".to_string(), serde_json::Value::String(name.clone()));
    payload.insert("rank".to_string(), serde_json::Value::Bool(true));
    let header = serde_json::Value::Object(serde_json::Map::new());
    let body = serde_json::Value::Object(payload);
    match frank_jwt::encode(header, &secret.to_string(), &body, frank_jwt::Algorithm::HS256) {
        Ok(token) => Ok(token.into_bytes()),
        Err(e) => Err(Error::ArbitraryFailure(format!("{:?}", e))),
    }
}

} // verus!
