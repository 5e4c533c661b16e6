use vstd::prelude::*;

use crate::apdu::Error;
use crate::crypto::{
    ecdsa_verifies, ecdsa_verify, recover_key, recoverable, recovered_key, sha256, sha256_of,
};
use crate::session::{response_signed, verify_response};

verus! {

/// A trust anchor: a factory root public key (33 bytes, compressed) and its name.
pub struct RootKey {
    pub name: String,
    pub pubkey: Vec<u8>,
}

/// One level of a certificate chain: the key of the signer at this level and
/// its compact signature over the SHA-256 of the key one level down.
pub struct Cert {
    pub pubkey: Vec<u8>,
    pub sig: Vec<u8>,
}

/// The key that level `i` of the chain signs: the card key for the first
/// level, the previous level's key after that.
pub open spec fn signed_key(start: Seq<u8>, certs: Seq<Cert>, i: int) -> Seq<u8> {
    if i == 0 {
        start
    } else {
        certs[i - 1].pubkey@
    }
}

/// The key at the top of the chain.
pub open spec fn terminal_key(start: Seq<u8>, certs: Seq<Cert>) -> Seq<u8> {
    signed_key(start, certs, certs.len() as int)
}

/// Every level's signature verifies over the key below it.
pub open spec fn links_verify(start: Seq<u8>, certs: Seq<Cert>) -> bool {
    forall|i: int|
        0 <= i < certs.len() ==> #[trigger] ecdsa_verifies(
            sha256_of(signed_key(start, certs, i)),
            certs[i].sig@,
            certs[i].pubkey@,
        )
}

/// Whether `key` is registered in `roots`.
pub open spec fn is_root(key: Seq<u8>, roots: Seq<RootKey>) -> bool {
    exists|i: int| 0 <= i < roots.len() && #[trigger] roots[i].pubkey@ == key
}

/// A chain is accepted when it is not empty, every link verifies and it ends
/// at a registered root.
pub open spec fn chain_accepted(start: Seq<u8>, certs: Seq<Cert>, roots: Seq<RootKey>) -> bool {
    certs.len() > 0 && links_verify(start, certs) && is_root(terminal_key(start, certs), roots)
}

/// The production factory root key.
pub open spec fn production_root_key() -> Seq<u8> {
    seq![
        0x03u8, 0x02u8, 0x8au8, 0x0eu8, 0x89u8, 0xe7u8, 0x0du8, 0x0eu8,
        0xc0u8, 0xd9u8, 0x32u8, 0x05u8, 0x3au8, 0x89u8, 0xabu8, 0x1du8,
        0xa7u8, 0xd9u8, 0x18u8, 0x2bu8, 0xdcu8, 0x6du8, 0x2fu8, 0x03u8,
        0xe7u8, 0x06u8, 0xeeu8, 0x99u8, 0x51u8, 0x7du8, 0x05u8, 0xd9u8,
        0xe1u8,
    ]
}

/// The factory root key of test cards.
pub open spec fn testing_root_key() -> Seq<u8> {
    seq![
        0x02u8, 0x77u8, 0x22u8, 0xefu8, 0x20u8, 0x8eu8, 0x68u8, 0x1bu8,
        0xacu8, 0x05u8, 0xf1u8, 0xb4u8, 0xb3u8, 0xccu8, 0x47u8, 0x8du8,
        0x6bu8, 0xf3u8, 0x53u8, 0xacu8, 0x9au8, 0x09u8, 0xffu8, 0x0cu8,
        0x84u8, 0x34u8, 0x30u8, 0x13u8, 0x8fu8, 0x65u8, 0xc2u8, 0x7bu8,
        0xabu8,
    ]
}

/// The factory root keys that genuine cards chain up to.
pub fn factory_roots() -> (r: Vec<RootKey>)
    ensures
        r@.len() == 2,
        r@[0].name@ == "Root-2021"@ && r@[0].pubkey@ == production_root_key(),
        r@[1].name@ == "Root-2021 (testing only)"@ && r@[1].pubkey@ == testing_root_key(),
{
    let mut r: Vec<RootKey> = Vec::new();
    r.push(
        RootKey {
            name: "Root-2021".to_owned(),
            pubkey: vec![
                0x03, 0x02, 0x8a, 0x0e, 0x89, 0xe7, 0x0d, 0x0e, 0xc0, 0xd9, 0x32, 0x05, 0x3a, 0x89,
                0xab, 0x1d, 0xa7, 0xd9, 0x18, 0x2b, 0xdc, 0x6d, 0x2f, 0x03, 0xe7, 0x06, 0xee, 0x99,
                0x51, 0x7d, 0x05, 0xd9, 0xe1,
            ],
        },
    );
    r.push(
        RootKey {
            name: "Root-2021 (testing only)".to_owned(),
            pubkey: vec![
                0x02, 0x77, 0x22, 0xef, 0x20, 0x8e, 0x68, 0x1b, 0xac, 0x05, 0xf1, 0xb4, 0xb3, 0xcc,
                0x47, 0x8d, 0x6b, 0xf3, 0x53, 0xac, 0x9a, 0x09, 0xff, 0x0c, 0x84, 0x34, 0x30, 0x13,
                0x8f, 0x65, 0xc2, 0x7b, 0xab,
            ],
        },
    );
    assert(r@[0].pubkey@ =~= production_root_key());
    assert(r@[1].pubkey@ =~= testing_root_key());
    r
}

/// Looks a key up in the registry by byte equality; the first match wins.
pub fn find_root(key: &[u8], roots: &Vec<RootKey>) -> (r: Option<usize>)
    ensures
        r is Some <==> is_root(key@, roots@),
        r matches Some(i) ==> i < roots@.len() && roots@[i as int].pubkey@ == key@ && forall|
            j: int,
        |
            0 <= j < i ==> (#[trigger] roots@[j]).pubkey@ != key@,
{
    let mut i: usize = 0;
    while i < roots.len()
        invariant
            i <= roots@.len(),
            forall|j: int| 0 <= j < i ==> (#[trigger] roots@[j]).pubkey@ != key@,
        decreases roots@.len() - i,
    {
        if crate::bytes::bytes_eq(roots[i].pubkey.as_slice(), key) {
            return Some(i);
        }
        i = i + 1;
    }
    assert(!is_root(key@, roots@)) by {
        assert forall|j: int| 0 <= j < roots@.len() implies #[trigger] roots@[j].pubkey@ != key@ by {}
    }
    None
}

/// Length of a recoverable signature on the wire: a header byte, then the
/// 64-byte compact signature.
pub const RECOVERABLE_SIG_LEN: usize = 65;

/// The recovery id that a signature's header byte (27 to 34) carries.
pub open spec fn recid_of(header: u8) -> u8 {
    ((header as int + 256 - 27) % 4) as u8
}

/// The certificate levels the card sends as recoverable signatures, each
/// over the SHA-256 of the key one level down: level `i` holds the key
/// recovered from signature `i` and that signature's compact part.
pub open spec fn recovered_levels(start: Seq<u8>, sigs: Seq<Vec<u8>>, certs: Seq<Cert>) -> bool {
    certs.len() == sigs.len() && forall|i: int|
        0 <= i < certs.len() ==> sigs[i]@.len() == RECOVERABLE_SIG_LEN && (#[trigger] certs[i]).sig@
            == sigs[i]@.subrange(1, 65) && certs[i].pubkey@ == recovered_key(
            sha256_of(signed_key(start, certs, i)),
            sigs[i]@.subrange(1, 65),
            recid_of(sigs[i]@[0]),
        )
}

/// One more recovered level keeps the levels in step with the signatures.
proof fn lemma_levels_push(start: Seq<u8>, sigs: Seq<Vec<u8>>, certs: Seq<Cert>, sig: Vec<u8>, cert: Cert)
    requires
        recovered_levels(start, sigs, certs),
        sig@.len() == RECOVERABLE_SIG_LEN,
        cert.sig@ == sig@.subrange(1, 65),
        cert.pubkey@ == recovered_key(
            sha256_of(signed_key(start, certs, certs.len() as int)),
            sig@.subrange(1, 65),
            recid_of(sig@[0]),
        ),
    ensures
        recovered_levels(start, sigs.push(sig), certs.push(cert)),
{
    let cs = certs.push(cert);
    let ss = sigs.push(sig);
    assert forall|k: int| 0 <= k < cs.len() implies signed_key(start, cs, k) == signed_key(
        start,
        certs,
        k,
    ) by {}
    assert forall|k: int| 0 <= k < cs.len() implies ss[k]@.len() == RECOVERABLE_SIG_LEN && (
    #[trigger] cs[k]).sig@ == ss[k]@.subrange(1, 65) && cs[k].pubkey@ == recovered_key(
        sha256_of(signed_key(start, cs, k)),
        ss[k]@.subrange(1, 65),
        recid_of(ss[k]@[0]),
    ) by {
        assert(signed_key(start, cs, k) == signed_key(start, certs, k));
        if k < certs.len() {
            assert(cs[k] == certs[k]);
            assert(ss[k] == sigs[k]);
        }
    }
}

/// Turns the card's recoverable certificate signatures into chain levels,
/// recovering each level's key from its signature over the key below. A
/// signature of the wrong length is a decoding error; one from which no key
/// can be recovered breaks the chain.
pub fn chain_from_signatures(start: &[u8], sigs: &Vec<Vec<u8>>) -> (r: Result<Vec<Cert>, Error>)
    ensures
        r matches Ok(certs) ==> recovered_levels(start@, sigs@, certs@),
        (exists|i: int| 0 <= i < sigs@.len() && #[trigger] sigs@[i]@.len() != RECOVERABLE_SIG_LEN)
            ==> r is Err,
        r matches Err(e) ==> e == Error::Decode || e == Error::CertChain,
        r matches Err(e) && e == Error::Decode ==> exists|i: int|
            0 <= i < sigs@.len() && #[trigger] sigs@[i]@.len() != RECOVERABLE_SIG_LEN,
        r matches Err(e) && e == Error::CertChain ==> exists|certs: Seq<Cert>|
            #[trigger] recovered_levels(start@, sigs@.subrange(0, certs.len() as int), certs)
                && certs.len() < sigs@.len() && sigs@[certs.len() as int]@.len()
                == RECOVERABLE_SIG_LEN && !recoverable(
                sha256_of(signed_key(start@, certs, certs.len() as int)),
                sigs@[certs.len() as int]@.subrange(1, 65),
                recid_of(sigs@[certs.len() as int]@[0]),
            ),
{
    let mut certs: Vec<Cert> = Vec::new();
    let mut i: usize = 0;
    while i < sigs.len()
        invariant
            i <= sigs@.len(),
            certs@.len() == i,
            recovered_levels(start@, sigs@.subrange(0, i as int), certs@),
        decreases sigs@.len() - i,
    {
        let sig = &sigs[i];
        if sig.len() != RECOVERABLE_SIG_LEN {
            return Err(Error::Decode);
        }
        let digest = if i == 0 {
            sha256(start)
        } else {
            sha256(certs[i - 1].pubkey.as_slice())
        };
        let mut compact: Vec<u8> = Vec::new();
        let mut j: usize = 1;
        while j < RECOVERABLE_SIG_LEN
            invariant
                1 <= j <= RECOVERABLE_SIG_LEN,
                sig@.len() == RECOVERABLE_SIG_LEN,
                compact@ == sig@.subrange(1, j as int),
            decreases RECOVERABLE_SIG_LEN - j,
        {
            compact.push(sig[j]);
            j = j + 1;
            assert(compact@ =~= sig@.subrange(1, j as int));
        }
        let recid: u8 = ((sig[0] as u16 + 256 - 27) % 4) as u8;
        assert(digest@ == sha256_of(signed_key(start@, certs@, i as int)));
        assert(recid == recid_of(sig@[0]));
        let key = match recover_key(digest.as_slice(), compact.as_slice(), recid) {
            Some(k) => k,
            None => {
                assert(recovered_levels(start@, sigs@.subrange(0, certs@.len() as int), certs@));
                return Err(Error::CertChain);
            },
        };
        let ghost prev = certs@;
        let ghost cert = Cert { pubkey: key, sig: compact };
        assert(digest@ == sha256_of(signed_key(start@, prev, i as int)));
        proof {
            lemma_levels_push(start@, sigs@.subrange(0, i as int), prev, sigs@[i as int], cert);
            assert(sigs@.subrange(0, i as int).push(sigs@[i as int]) =~= sigs@.subrange(
                0,
                i as int + 1,
            ));
        }
        certs.push(Cert { pubkey: key, sig: compact });
        i = i + 1;
    }
    assert(sigs@.subrange(0, i as int) =~= sigs@);
    assert(forall|k: int| 0 <= k < sigs@.len() ==> (#[trigger] sigs@[k])@.len() == RECOVERABLE_SIG_LEN) by {
        assert forall|k: int| 0 <= k < sigs@.len() implies (#[trigger] sigs@[k])@.len()
            == RECOVERABLE_SIG_LEN by {
            assert(recovered_levels(start@, sigs@, certs@));
            let c = certs@[k];
            assert(c.sig@ == sigs@[k]@.subrange(1, 65));
        }
    }
    Ok(certs)
}

/// Checks a certificate chain that starts at `start` (the card key) and
/// returns the name of the root it ends at.
pub fn verify_chain(start: &[u8], certs: &Vec<Cert>, roots: &Vec<RootKey>) -> (r: Result<
    String,
    Error,
>)
    ensures
        r is Ok <==> chain_accepted(start@, certs@, roots@),
        r matches Ok(name) ==> exists|i: int|
            0 <= i < roots@.len() && roots@[i].pubkey@ == terminal_key(start@, certs@)
                && #[trigger] roots@[i].name@ == name@,
        r matches Err(e) ==> e == Error::CertChain,
{
    if certs.len() == 0 {
        return Err(Error::CertChain);
    }
    let mut i: usize = 0;
    while i < certs.len()
        invariant
            i <= certs@.len(),
            forall|j: int|
                0 <= j < i ==> #[trigger] ecdsa_verifies(
                    sha256_of(signed_key(start@, certs@, j)),
                    certs@[j].sig@,
                    certs@[j].pubkey@,
                ),
        decreases certs@.len() - i,
    {
        let digest = if i == 0 {
            sha256(start)
        } else {
            sha256(certs[i - 1].pubkey.as_slice())
        };
        assert(digest@ == sha256_of(signed_key(start@, certs@, i as int)));
        if !ecdsa_verify(digest.as_slice(), certs[i].sig.as_slice(), certs[i].pubkey.as_slice()) {
            assert(!links_verify(start@, certs@));
            return Err(Error::CertChain);
        }
        i = i + 1;
    }
    let top = certs[certs.len() - 1].pubkey.as_slice();
    match find_root(top, roots) {
        None => Err(Error::CertChain),
        Some(k) => {
            let name = roots[k].name.clone();
            assert(roots@[k as int].name@ == name@);
            Ok(name)
        },
    }
}

/// Checks that a card is genuine: its signature over the nonces (and `extra`,
/// the data the card type adds) verifies under its key, and its certificate
/// chain leads from that key to a registered root. Returns the root's name.
pub fn verify_certificate(
    card_pubkey: &[u8],
    card_nonce: &[u8],
    app_nonce: &[u8],
    extra: &[u8],
    auth_sig: &[u8],
    certs: &Vec<Cert>,
    roots: &Vec<RootKey>,
) -> (r: Result<String, Error>)
    ensures
        r is Ok <==> response_signed(card_nonce@, app_nonce@, extra@, auth_sig@, card_pubkey@)
            && chain_accepted(card_pubkey@, certs@, roots@),
        !response_signed(card_nonce@, app_nonce@, extra@, auth_sig@, card_pubkey@) ==> r
            == Err::<String, Error>(Error::BadSignature),
        response_signed(card_nonce@, app_nonce@, extra@, auth_sig@, card_pubkey@)
            && !chain_accepted(card_pubkey@, certs@, roots@) ==> r == Err::<String, Error>(
            Error::CertChain,
        ),
        r matches Ok(name) ==> exists|i: int|
            0 <= i < roots@.len() && roots@[i].pubkey@ == terminal_key(card_pubkey@, certs@)
                && #[trigger] roots@[i].name@ == name@,
{
    if !verify_response(card_nonce, app_nonce, extra, auth_sig, card_pubkey) {
        return Err(Error::BadSignature);
    }
    verify_chain(card_pubkey, certs, roots)
}

} // verus!
