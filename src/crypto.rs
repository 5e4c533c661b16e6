use vstd::prelude::*;

verus! {

/// The SHA-256 digest of a byte string.
pub uninterp spec fn sha256_of(data: Seq<u8>) -> Seq<u8>;

/// Whether `sig` (64-byte compact form) is a valid ECDSA signature over the
/// 32-byte `digest` under the public key encoded by `pubkey`.
pub uninterp spec fn ecdsa_verifies(digest: Seq<u8>, sig: Seq<u8>, pubkey: Seq<u8>) -> bool;

/// Whether `bytes` encode a point of secp256k1.
pub uninterp spec fn valid_pubkey(bytes: Seq<u8>) -> bool;

/// Whether `bytes` are a valid 32-byte secret key.
pub uninterp spec fn valid_secret(bytes: Seq<u8>) -> bool;

/// The compressed public key (33 bytes) of a secret key.
pub uninterp spec fn pubkey_of(secret: Seq<u8>) -> Seq<u8>;

/// The ECDH secret of a secret key and a point: SHA-256 of the compressed
/// shared point.
pub uninterp spec fn ecdh_of(secret: Seq<u8>, point: Seq<u8>) -> Seq<u8>;

#[verifier::external_type_specification]
#[verifier::external_body]
pub struct ExPublicKey(secp256k1::PublicKey);

#[verifier::external_type_specification]
#[verifier::external_body]
pub struct ExThreadRng(secp256k1::rand::rngs::ThreadRng);

/// Relies on `bitcoin_hashes::sha256::Hash::hash` (re-exported by secp256k1):
/// the 32-byte SHA-256 digest of `data`.
#[verifier::external_body]
pub(crate) fn sha256(data: &[u8]) -> (r: Vec<u8>)
    ensures
        r@ == sha256_of(data@),
        r@.len() == 32,
{
    let h = <secp256k1::hashes::sha256::Hash as secp256k1::hashes::Hash>::hash(data);
    <secp256k1::hashes::sha256::Hash as secp256k1::hashes::Hash>::to_byte_array(h).to_vec()
}

/// Relies on `secp256k1::PublicKey::from_slice`: the bytes parse as a point
/// of the curve exactly when they are a valid encoding; an empty slice never is.
#[verifier::external_body]
fn parse_pubkey(bytes: &[u8]) -> (r: Option<secp256k1::PublicKey>)
    ensures
        r is Some <==> valid_pubkey(bytes@),
        bytes@.len() == 0 ==> r is None,
{
    secp256k1::PublicKey::from_slice(bytes).ok()
}

/// Whether the bytes encode a point of secp256k1.
pub fn pubkey_is_valid(bytes: &[u8]) -> (r: bool)
    ensures
        r == valid_pubkey(bytes@),
        bytes@.len() == 0 ==> !r,
{
    parse_pubkey(bytes).is_some()
}

/// The compressed key (33 bytes) recovered from a compact recoverable
/// signature with recovery id `recid` over a 32-byte digest.
pub uninterp spec fn recovered_key(digest: Seq<u8>, sig: Seq<u8>, recid: u8) -> Seq<u8>;

/// Whether a key can be recovered from a compact signature with recovery id
/// `recid` over a digest (the id is 0 to 3, the signature parses, the digest
/// has 32 bytes and recovery succeeds).
pub uninterp spec fn recoverable(digest: Seq<u8>, sig: Seq<u8>, recid: u8) -> bool;

/// Relies on `ecdsa::RecoveryId::from_i32`, `RecoverableSignature::from_compact`,
/// `Message::from_slice`, `RecoverableSignature::recover` and
/// `PublicKey::serialize`: the key that made the signature, exactly when it
/// can be recovered.
#[verifier::external_body]
pub(crate) fn recover_key(digest: &[u8], sig: &[u8], recid: u8) -> (r: Option<Vec<u8>>)
    requires
        digest@.len() == 32,
    ensures
        r is Some <==> recoverable(digest@, sig@, recid),
        r matches Some(k) ==> k@ == recovered_key(digest@, sig@, recid) && k@.len() == 33,
{
    let id = secp256k1::ecdsa::RecoveryId::from_i32(recid as i32).ok()?;
    let rsig = secp256k1::ecdsa::RecoverableSignature::from_compact(sig, id).ok()?;
    let msg = secp256k1::Message::from_slice(digest).ok()?;
    Some(rsig.recover(&msg).ok()?.serialize().to_vec())
}

/// A card's own key: 33 bytes, compressed, a point of the curve.
pub open spec fn card_key_ok(bytes: Seq<u8>) -> bool {
    bytes.len() == 33 && valid_pubkey(bytes)
}

/// Tests for a well-formed card key.
pub fn card_key_is_ok(bytes: &[u8]) -> (r: bool)
    ensures
        r == card_key_ok(bytes@),
{
    bytes.len() == 33 && pubkey_is_valid(bytes)
}

/// Relies on `secp256k1::PublicKey::from_slice`, `ecdsa::Signature::from_compact`,
/// `Message::from_slice` and `ecdsa::Signature::verify`: parses the key and the
/// compact signature and checks the signature over the digest. A signature
/// that is not 64 bytes, or a key that does not parse, never verifies.
#[verifier::external_body]
pub(crate) fn ecdsa_verify(digest: &[u8], sig: &[u8], pubkey: &[u8]) -> (r: bool)
    requires
        digest@.len() == 32,
    ensures
        r == ecdsa_verifies(digest@, sig@, pubkey@),
        r ==> sig@.len() == 64,
        r ==> valid_pubkey(pubkey@),
{
    let (Ok(k), Ok(s), Ok(m)) = (
        secp256k1::PublicKey::from_slice(pubkey),
        secp256k1::ecdsa::Signature::from_compact(sig),
        secp256k1::Message::from_slice(digest),
    ) else {
        return false;
    };
    s.verify(&m, &k).is_ok()
}

/// Relies on `secp256k1::SecretKey::new` over the thread RNG, which draws
/// until the bytes pass the same check as `SecretKey::from_slice`, and on
/// `SecretKey::secret_bytes`: 32 random bytes that form a valid secret key.
#[verifier::external_body]
fn fresh_secret_key() -> (r: Vec<u8>)
    ensures
        r@.len() == 32,
        valid_secret(r@),
{
    secp256k1::SecretKey::new(&mut secp256k1::rand::thread_rng()).secret_bytes().to_vec()
}

/// Relies on `secp256k1::SecretKey::from_slice`, `PublicKey::from_secret_key_global`
/// and `PublicKey::serialize`: the compressed public key of a valid secret key.
#[verifier::external_body]
fn public_key_of(secret: &[u8]) -> (r: Option<Vec<u8>>)
    ensures
        r is Some <==> valid_secret(secret@),
        r matches Some(p) ==> p@ == pubkey_of(secret@) && p@.len() == 33,
{
    let sk = secp256k1::SecretKey::from_slice(secret).ok()?;
    Some(secp256k1::PublicKey::from_secret_key_global(&sk).serialize().to_vec())
}

/// Relies on `secp256k1::SecretKey::from_slice`, `PublicKey::from_slice`,
/// `ecdh::SharedSecret::new` and `SharedSecret::secret_bytes`: the 32-byte
/// ECDH secret, when both keys parse.
#[verifier::external_body]
fn ecdh(secret: &[u8], point: &[u8]) -> (r: Option<Vec<u8>>)
    ensures
        r is Some <==> (valid_secret(secret@) && valid_pubkey(point@)),
        r matches Some(s) ==> s@ == ecdh_of(secret@, point@) && s@.len() == 32,
{
    let sk = secp256k1::SecretKey::from_slice(secret).ok()?;
    let pk = secp256k1::PublicKey::from_slice(point).ok()?;
    Some(secp256k1::ecdh::SharedSecret::new(&pk, &sk).secret_bytes().to_vec())
}

/// A fresh ephemeral key pair and its ECDH secret with the card's key.
/// Returns the ephemeral public key and the secret, or `None` when the card
/// key does not parse. The ephemeral secret key never leaves.
pub fn ephemeral_session(card_pubkey: &[u8]) -> (r: Option<(Vec<u8>, Vec<u8>)>)
    ensures
        r is Some <==> valid_pubkey(card_pubkey@),
        r matches Some((e, s)) ==> e@.len() == 33 && s@.len() == 32 && exists|sk: Seq<u8>|
            #[trigger] pubkey_of(sk) == e@ && s@ == ecdh_of(sk, card_pubkey@),
{
    let sk = fresh_secret_key();
    let e = match public_key_of(sk.as_slice()) {
        Some(p) => p,
        None => return None,
    };
    match ecdh(sk.as_slice(), card_pubkey) {
        None => None,
        Some(s) => {
            assert(pubkey_of(sk@) == e@ && s@ == ecdh_of(sk@, card_pubkey@));
            Some((e, s))
        },
    }
}

/// Relies on `rand::Rng::fill` over the thread RNG: sixteen random bytes, used
/// as the app nonce of a command.
#[verifier::external_body]
pub fn rand_nonce() -> (r: Vec<u8>)
    ensures
        r@.len() == 16,
{
    let mut nonce = [0u8; 16];
    secp256k1::rand::Rng::fill(&mut secp256k1::rand::thread_rng(), &mut nonce);
    nonce.to_vec()
}

/// Relies on `rand::Rng::fill`: thirty-two random bytes from `rng`, used as a
/// fresh chain code.
#[verifier::external_body]
pub fn rand_chaincode(rng: &mut secp256k1::rand::rngs::ThreadRng) -> (r: [u8; 32]) {
    let mut chain_code = [0u8; 32];
    secp256k1::rand::Rng::fill(rng, &mut chain_code);
    chain_code
}

} // verus!
