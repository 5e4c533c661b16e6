use vstd::prelude::*;

use crate::apdu::Error;
use crate::bytes::append_bytes;
use crate::crypto::{
    ecdh_of, ecdsa_verifies, ecdsa_verify, ephemeral_session, pubkey_of, sha256, sha256_of,
    valid_pubkey,
};

verus! {

/// The bit that marks a hardened derivation step.
pub const HARDENED: u32 = 0x8000_0000;

/// The CVC masked with the first `cvc.len()` bytes of the session secret.
pub open spec fn xor_prefix(cvc: Seq<u8>, secret: Seq<u8>) -> Seq<u8> {
    Seq::new(cvc.len(), |i: int| cvc[i] ^ secret[i])
}

/// The bytes of a CVC as sent: its UTF-8 encoding.
pub open spec fn cvc_bytes(cvc: Seq<char>) -> Seq<u8> {
    vstd::utf8::encode_utf8(cvc)
}

/// A path with the hardened bit set in every step.
pub open spec fn hardened(path: Seq<u32>) -> Seq<u32> {
    Seq::new(path.len(), |i: int| path[i] | HARDENED)
}

/// The eight ASCII bytes "OPENDIME" that start every signed message.
pub open spec fn opendime_tag() -> Seq<u8> {
    seq![0x4fu8, 0x50u8, 0x45u8, 0x4eu8, 0x44u8, 0x49u8, 0x4du8, 0x45u8]
}

/// What the card signs: the tag, the card nonce the client held before the
/// command, the app nonce it sent, and the command's response data.
pub open spec fn signed_preimage(card_nonce: Seq<u8>, app_nonce: Seq<u8>, data: Seq<u8>) -> Seq<u8> {
    opendime_tag() + card_nonce + app_nonce + data
}

/// Whether `sig` is the card's signature, under `pubkey`, of the message made
/// from the two nonces and the response data.
pub open spec fn response_signed(
    card_nonce: Seq<u8>,
    app_nonce: Seq<u8>,
    data: Seq<u8>,
    sig: Seq<u8>,
    pubkey: Seq<u8>,
) -> bool {
    ecdsa_verifies(sha256_of(signed_preimage(card_nonce, app_nonce, data)), sig, pubkey)
}

/// Masks a CVC with the session secret: byte `i` of the result is
/// `cvc[i] ^ secret[i]`.
pub fn xcvc(cvc: &[u8], secret: &[u8]) -> (r: Vec<u8>)
    requires
        cvc@.len() <= secret@.len(),
    ensures
        r@ == xor_prefix(cvc@, secret@),
{
    let mut r: Vec<u8> = Vec::new();
    let mut i: usize = 0;
    while i < cvc.len()
        invariant
            i <= cvc@.len(),
            cvc@.len() <= secret@.len(),
            r@ == xor_prefix(cvc@.subrange(0, i as int), secret@),
        decreases cvc@.len() - i,
    {
        r.push(cvc[i] ^ secret[i]);
        i = i + 1;
        assert(r@ =~= xor_prefix(cvc@.subrange(0, i as int), secret@));
    }
    assert(cvc@.subrange(0, i as int) =~= cvc@);
    r
}

/// Masking twice with the same secret gives the CVC back.
pub proof fn lemma_xcvc_round_trip(cvc: Seq<u8>, secret: Seq<u8>)
    requires
        cvc.len() <= secret.len(),
    ensures
        xor_prefix(xor_prefix(cvc, secret), secret) == cvc,
{
    let twice = xor_prefix(xor_prefix(cvc, secret), secret);
    assert forall|i: int| 0 <= i < cvc.len() implies twice[i] == cvc[i] by {
        let a = cvc[i];
        let b = secret[i];
        assert((a ^ b) ^ b == a) by (bit_vector);
    }
    assert(twice =~= cvc);
}

/// Sets the hardened bit in every step of a derivation path.
pub fn harden_path(path: &[u32]) -> (r: Vec<u32>)
    ensures
        r@ == hardened(path@),
{
    let mut r: Vec<u32> = Vec::new();
    let mut i: usize = 0;
    while i < path.len()
        invariant
            i <= path@.len(),
            r@ == hardened(path@.subrange(0, i as int)),
        decreases path@.len() - i,
    {
        r.push(path[i] | HARDENED);
        i = i + 1;
        assert(r@ =~= hardened(path@.subrange(0, i as int)));
    }
    assert(path@.subrange(0, i as int) =~= path@);
    r
}

/// Builds the bytes the card signs for a response.
pub fn message_preimage(card_nonce: &[u8], app_nonce: &[u8], data: &[u8]) -> (r: Vec<u8>)
    ensures
        r@ == signed_preimage(card_nonce@, app_nonce@, data@),
{
    let mut m: Vec<u8> = vec![0x4f, 0x50, 0x45, 0x4e, 0x44, 0x49, 0x4d, 0x45];
    assert(m@ =~= opendime_tag());
    append_bytes(&mut m, card_nonce);
    append_bytes(&mut m, app_nonce);
    append_bytes(&mut m, data);
    m
}

/// The SHA-256 digest of the signed message.
pub fn message_digest(card_nonce: &[u8], app_nonce: &[u8], data: &[u8]) -> (r: Vec<u8>)
    ensures
        r@ == sha256_of(signed_preimage(card_nonce@, app_nonce@, data@)),
        r@.len() == 32,
{
    let m = message_preimage(card_nonce, app_nonce, data);
    sha256(m.as_slice())
}

/// Checks a response signature against the message built from the nonce the
/// client held before the command, its app nonce and the response data.
pub fn verify_response(
    card_nonce: &[u8],
    app_nonce: &[u8],
    data: &[u8],
    sig: &[u8],
    pubkey: &[u8],
) -> (r: bool)
    ensures
        r == response_signed(card_nonce@, app_nonce@, data@, sig@, pubkey@),
        r ==> sig@.len() == 64 && valid_pubkey(pubkey@),
{
    let digest = message_digest(card_nonce, app_nonce, data);
    ecdsa_verify(digest.as_slice(), sig, pubkey)
}

/// The authentication part of a privileged command: the ephemeral public key
/// and the masked CVC.
pub struct Envelope {
    pub epubkey: Vec<u8>,
    pub xcvc: Vec<u8>,
}

/// Longest CVC that the 32-byte session secret can mask.
pub const MAX_CVC_LEN: usize = 32;

/// Masks `cvc` with a given session secret and pairs it with the ephemeral
/// key that produced the secret.
pub fn seal_cvc(epubkey: Vec<u8>, secret: &[u8], cvc: &[u8]) -> (r: Result<Envelope, Error>)
    ensures
        r is Ok <==> cvc@.len() <= secret@.len(),
        r matches Ok(e) ==> e.epubkey == epubkey && e.xcvc@ == xor_prefix(cvc@, secret@),
        r matches Err(e) ==> e == Error::State,
{
    if cvc.len() > secret.len() {
        return Err(Error::State);
    }
    let x = xcvc(cvc, secret);
    Ok(Envelope { epubkey, xcvc: x })
}

/// Builds the envelope for one command: a fresh ephemeral key, and the CVC
/// masked with its ECDH secret with the card key. Fails on a CVC longer than
/// the secret and on a card key that is not a curve point.
pub fn authenticate(card_pubkey: &[u8], cvc: &[u8]) -> (r: Result<Envelope, Error>)
    ensures
        r is Ok <==> (cvc@.len() <= MAX_CVC_LEN && valid_pubkey(card_pubkey@)),
        r matches Ok(e) ==> e.epubkey@.len() == 33 && e.xcvc@.len() == cvc@.len(),
        r matches Ok(e) ==> exists|sk: Seq<u8>|
            #[trigger] pubkey_of(sk) == e.epubkey@ && e.xcvc@ == xor_prefix(
                cvc@,
                ecdh_of(sk, card_pubkey@),
            ),
        cvc@.len() > MAX_CVC_LEN ==> r == Err::<Envelope, Error>(Error::State),
        cvc@.len() <= MAX_CVC_LEN && !valid_pubkey(card_pubkey@) ==> r == Err::<
            Envelope,
            Error,
        >(Error::InvalidPoint),
{
    if cvc.len() > MAX_CVC_LEN {
        return Err(Error::State);
    }
    match ephemeral_session(card_pubkey) {
        None => Err(Error::InvalidPoint),
        Some((epubkey, secret)) => seal_cvc(epubkey, secret.as_slice(), cvc),
    }
}

} // verus!
