use rust_cktap::apdu::{chained_response, unwrap_response, wrap_command, Error, BAD_AUTH};
use rust_cktap::card::CkTapCard;
use rust_cktap::certs::{
    chain_from_signatures, factory_roots, find_root, verify_certificate, verify_chain, Cert, RootKey,
};
use rust_cktap::commands::{
    CertsResponse, CheckResponse, CkTransport, Command, DeriveResponse, DumpResponse, NewResponse,
    ReadResponse, Response, StatusResponse, UnsealResponse, WaitResponse,
};
use rust_cktap::crypto::{pubkey_is_valid, rand_chaincode, rand_nonce};
use rust_cktap::exchange::{
    accept_derive, accept_new, accept_unseal, accept_wait, check_command, signer_derive_command,
    wait_command,
};
use rust_cktap::satscard::{certificate_extra, SatsCard};
use rust_cktap::session::{
    authenticate, harden_path, message_digest, message_preimage, verify_response, xcvc,
};
use rust_cktap::signer::TapSigner;

#[derive(Debug, Clone, PartialEq)]
enum Sent {
    Status,
    Read(Vec<u8>, bool),
    Derive(Vec<u8>, Option<Vec<u32>>, bool),
    Certs,
    Check(Vec<u8>),
    New(usize, Option<Vec<u8>>, Vec<u8>, Vec<u8>),
    Unseal(usize, Vec<u8>, Vec<u8>),
    Dump(usize, bool),
    Wait,
}

struct Mock {
    replies: Vec<Result<Response, Error>>,
    sent: Vec<Sent>,
}

impl Mock {
    fn new(replies: Vec<Result<Response, Error>>) -> Mock {
        Mock { replies, sent: Vec::new() }
    }
}

impl CkTransport for Mock {
    fn transmit(&mut self, cmd: &Command) -> Result<Response, Error> {
        let s = match cmd {
            Command::Status => Sent::Status,
            Command::Read { nonce, epubkey, .. } => Sent::Read(nonce.clone(), epubkey.is_some()),
            Command::Derive { nonce, path, epubkey, .. } => {
                Sent::Derive(nonce.clone(), path.clone(), epubkey.is_some())
            }
            Command::Certs => Sent::Certs,
            Command::Check { nonce } => Sent::Check(nonce.clone()),
            Command::New { slot, chain_code, epubkey, xcvc } => {
                Sent::New(*slot, chain_code.clone(), epubkey.clone(), xcvc.clone())
            }
            Command::Unseal { slot, epubkey, xcvc } => {
                Sent::Unseal(*slot, epubkey.clone(), xcvc.clone())
            }
            Command::Dump { slot, epubkey, .. } => Sent::Dump(*slot, epubkey.is_some()),
            Command::Wait { .. } => Sent::Wait,
        };
        self.sent.push(s);
        if self.replies.is_empty() {
            return Err(Error::Transport);
        }
        self.replies.remove(0)
    }
}

fn secret(seed: u8) -> secp256k1::SecretKey {
    secp256k1::SecretKey::from_slice(&[seed; 32]).unwrap()
}

fn public(seed: u8) -> Vec<u8> {
    secp256k1::PublicKey::from_secret_key_global(&secret(seed)).serialize().to_vec()
}

fn hash(data: &[u8]) -> Vec<u8> {
    let h = <secp256k1::hashes::sha256::Hash as secp256k1::hashes::Hash>::hash(data);
    <secp256k1::hashes::sha256::Hash as secp256k1::hashes::Hash>::to_byte_array(h).to_vec()
}

fn sign(seed: u8, data: &[u8]) -> Vec<u8> {
    let msg = secp256k1::Message::from_slice(&hash(data)).unwrap();
    secp256k1::SECP256K1.sign_ecdsa(&msg, &secret(seed)).serialize_compact().to_vec()
}

fn signed_bytes(card_nonce: &[u8], app_nonce: &[u8], data: &[u8]) -> Vec<u8> {
    let mut m = b"OPENDIME".to_vec();
    m.extend_from_slice(card_nonce);
    m.extend_from_slice(app_nonce);
    m.extend_from_slice(data);
    m
}

fn nonce(b: u8) -> Vec<u8> {
    vec![b; 16]
}

fn low_card_nonce() -> Vec<u8> {
    let mut n = vec![0u8; 16];
    n[15] = 0x0F;
    n
}

const CARD: u8 = 1;
const INTERMEDIATE: u8 = 2;
const ROOT: u8 = 3;
const MASTER: u8 = 4;
const SLOT: u8 = 5;

fn status_for(pubkey: Vec<u8>, card_nonce: Vec<u8>) -> StatusResponse {
    StatusResponse {
        proto: 1,
        ver: "1.0.2".to_string(),
        birth: 700_000,
        slots: Some((0, 10)),
        addr: Some("bc1qexample".to_string()),
        tapsigner: None,
        satschip: None,
        path: None,
        num_backups: None,
        pubkey,
        card_nonce,
        auth_delay: None,
    }
}

fn signer_status(card_nonce: Vec<u8>) -> StatusResponse {
    let mut st = status_for(public(CARD), card_nonce);
    st.slots = None;
    st.addr = None;
    st.tapsigner = Some(true);
    st.num_backups = Some(0);
    st
}

fn signer(replies: Vec<Result<Response, Error>>, card_nonce: Vec<u8>) -> TapSigner<Mock> {
    TapSigner::from_status(Mock::new(replies), signer_status(card_nonce)).unwrap()
}

fn satscard(replies: Vec<Result<Response, Error>>, ver: &str) -> SatsCard<Mock> {
    let mut st = status_for(public(CARD), low_card_nonce());
    st.ver = ver.to_string();
    SatsCard::from_status(Mock::new(replies), st).unwrap()
}

fn chain() -> Vec<Cert> {
    vec![
        Cert { pubkey: public(INTERMEDIATE), sig: sign(INTERMEDIATE, &public(CARD)) },
        Cert { pubkey: public(ROOT), sig: sign(ROOT, &public(INTERMEDIATE)) },
    ]
}

fn test_roots() -> Vec<RootKey> {
    vec![
        RootKey { name: "Other".to_string(), pubkey: public(9) },
        RootKey { name: "Root-2021".to_string(), pubkey: public(ROOT) },
    ]
}

fn derive_reply(card_nonce: &[u8], app_nonce: &[u8], chain_code: &[u8], next: Vec<u8>) -> Response {
    Response::Derive(DeriveResponse {
        sig: sign(MASTER, &signed_bytes(card_nonce, app_nonce, chain_code)),
        chain_code: chain_code.to_vec(),
        master_pubkey: public(MASTER),
        pubkey: Some(public(SLOT)),
        card_nonce: next,
    })
}

fn unmask(epubkey: &[u8], xcvc_bytes: &[u8]) -> Vec<u8> {
    let e = secp256k1::PublicKey::from_slice(epubkey).unwrap();
    let s = secp256k1::ecdh::SharedSecret::new(&e, &secret(CARD)).secret_bytes();
    xcvc_bytes.iter().zip(s.iter()).map(|(a, b)| a ^ b).collect()
}

// ---- hardened paths and CVC masking ----

#[test]
fn hardened_path_transform() {
    assert_eq!(harden_path(&[84, 0, 0]), vec![0x80000054, 0x80000000, 0x80000000]);
}

#[test]
fn hardened_path_keeps_hardened_steps() {
    assert_eq!(harden_path(&[0x80000001, 7]), vec![0x80000001, 0x80000007]);
    assert_eq!(harden_path(&[]), Vec::<u32>::new());
}

#[test]
fn xcvc_masks_each_byte() {
    let s: Vec<u8> = (0u8..32).collect();
    assert_eq!(xcvc(b"123456", &s), vec![0x31, 0x33, 0x31, 0x37, 0x31, 0x33]);
}

#[test]
fn xcvc_round_trip() {
    let s = hash(b"session");
    for cvc in [&b"123456"[..], &b"12345678"[..], &b""[..]] {
        assert_eq!(xcvc(&xcvc(cvc, &s), &s), cvc.to_vec());
    }
}

#[test]
fn authenticate_masks_with_ecdh_secret() {
    let env = authenticate(&public(CARD), b"123456").ok().unwrap();
    assert_eq!(env.epubkey.len(), 33);
    assert_ne!(env.xcvc, b"123456".to_vec());
    assert_eq!(unmask(&env.epubkey, &env.xcvc), b"123456".to_vec());
}

#[test]
fn authenticate_rejects_bad_inputs() {
    assert!(matches!(authenticate(&[1, 2, 3], b"123456"), Err(Error::InvalidPoint)));
    assert!(matches!(authenticate(&public(CARD), &[b'1'; 33]), Err(Error::State)));
}

// ---- digests and signatures ----

#[test]
fn preimage_layout() {
    let m = message_preimage(&[1, 2], &[3], &[4, 5]);
    assert_eq!(m, vec![b'O', b'P', b'E', b'N', b'D', b'I', b'M', b'E', 1, 2, 3, 4, 5]);
}

#[test]
fn digest_is_sha256_of_preimage() {
    let d = message_digest(&nonce(1), &nonce(2), &[7; 32]);
    assert_eq!(d, hash(&signed_bytes(&nonce(1), &nonce(2), &[7; 32])));
}

#[test]
fn response_signature_key_and_length() {
    let (cn, an, data) = (nonce(1), nonce(2), b"payload".to_vec());
    let sig = sign(MASTER, &signed_bytes(&cn, &an, &data));
    assert!(verify_response(&cn, &an, &data, &sig, &public(MASTER)));
    assert!(!verify_response(&cn, &an, &data, &sig, &public(SLOT)));
    assert!(!verify_response(&cn, &an, &data, &sig[..63], &public(MASTER)));
    assert!(!verify_response(&cn, &an, &data, &sig, &[]));
    assert!(pubkey_is_valid(&public(MASTER)));
    assert!(!pubkey_is_valid(&[]));
    assert!(!pubkey_is_valid(&[2; 33][..5]));
}

#[test]
fn signature_binding() {
    let cn = nonce(1);
    let an = nonce(2);
    let cc = vec![7u8; 32];
    let sig = sign(MASTER, &signed_bytes(&cn, &an, &cc));
    assert!(verify_response(&cn, &an, &cc, &sig, &public(MASTER)));
    for i in 0..16 {
        let mut t = cn.clone();
        t[i] ^= 1;
        assert!(!verify_response(&t, &an, &cc, &sig, &public(MASTER)));
        let mut t = an.clone();
        t[i] ^= 0x80;
        assert!(!verify_response(&cn, &t, &cc, &sig, &public(MASTER)));
    }
    for i in 0..32 {
        let mut t = cc.clone();
        t[i] ^= 1;
        assert!(!verify_response(&cn, &an, &t, &sig, &public(MASTER)));
    }
}

// ---- APDU framing ----

#[test]
fn apdu_short_payload() {
    assert_eq!(wrap_command(&[0xA1, 0x01]), Ok(vec![0x00, 0xCB, 0x00, 0x00, 0x02, 0xA1, 0x01]));
}

#[test]
fn apdu_extended_payload() {
    let p = vec![9u8; 300];
    let v = wrap_command(&p).unwrap();
    assert_eq!(v[0..7].to_vec(), vec![0x00, 0xCB, 0x00, 0x00, 0x00, 0x01, 0x2C]);
    assert_eq!(v.len(), 307);
    let v = wrap_command(&[1u8; 255]).unwrap();
    assert_eq!(v[4], 255);
    assert_eq!(v.len(), 260);
}

#[test]
fn apdu_framing_errors() {
    assert_eq!(wrap_command(&[]), Err(Error::Framing));
    assert_eq!(wrap_command(&vec![0u8; 65536]), Err(Error::Framing));
    assert!(wrap_command(&vec![0u8; 65535]).is_ok());
}

#[test]
fn apdu_response_status_words() {
    assert_eq!(unwrap_response(&[1, 2, 0x90, 0x00]), Ok(vec![1, 2]));
    assert_eq!(unwrap_response(&[0x90, 0x00]), Ok(vec![]));
    assert_eq!(unwrap_response(&[1, 0x6A, 0x82]), Err(Error::CardStatus(0x6A82)));
    assert_eq!(unwrap_response(&[0x90]), Err(Error::Framing));
}

// ---- certificate chain ----

#[test]
fn chain_accepted_at_registered_root() {
    assert_eq!(verify_chain(&public(CARD), &chain(), &test_roots()), Ok("Root-2021".to_string()));
}

#[test]
fn chain_rejected_on_bad_link() {
    let mut c = chain();
    c[0].sig = sign(INTERMEDIATE, &public(SLOT));
    assert_eq!(verify_chain(&public(CARD), &c, &test_roots()), Err(Error::CertChain));
    let mut c = chain();
    c[1].sig[10] ^= 1;
    assert_eq!(verify_chain(&public(CARD), &c, &test_roots()), Err(Error::CertChain));
}

#[test]
fn chain_rejected_at_unknown_root() {
    assert_eq!(verify_chain(&public(CARD), &chain(), &factory_roots()), Err(Error::CertChain));
    let short = vec![Cert { pubkey: public(INTERMEDIATE), sig: sign(INTERMEDIATE, &public(CARD)) }];
    assert_eq!(verify_chain(&public(CARD), &short, &test_roots()), Err(Error::CertChain));
    assert_eq!(verify_chain(&public(CARD), &vec![], &test_roots()), Err(Error::CertChain));
}

#[test]
fn factory_registry() {
    let roots = factory_roots();
    assert_eq!(roots.len(), 2);
    assert_eq!(roots[0].name, "Root-2021");
    assert!(roots.iter().all(|r| pubkey_is_valid(&r.pubkey)));
    assert_eq!(find_root(&roots[1].pubkey, &roots), Some(1));
    assert_eq!(find_root(&public(CARD), &roots), None);
}

#[test]
fn sealed_card_genuine_check() {
    let cn = low_card_nonce();
    let an = vec![0xAA; 16];
    let extra = certificate_extra(&"1.0.2".to_string(), public(SLOT));
    assert_eq!(extra, public(SLOT));
    let sig = sign(CARD, &signed_bytes(&cn, &an, &public(SLOT)));
    let r = verify_certificate(&public(CARD), &cn, &an, &extra, &sig, &chain(), &test_roots());
    assert_eq!(r, Ok("Root-2021".to_string()));
    let r = verify_certificate(&public(CARD), &cn, &an, &[], &sig, &chain(), &test_roots());
    assert_eq!(r, Err(Error::BadSignature));
}

#[test]
fn legacy_firmware_omits_slot_key() {
    let cn = low_card_nonce();
    let an = vec![0xAA; 16];
    let extra = certificate_extra(&"0.9.0".to_string(), public(SLOT));
    assert!(extra.is_empty());
    let sig = sign(CARD, &signed_bytes(&cn, &an, &[]));
    let r = verify_certificate(&public(CARD), &cn, &an, &extra, &sig, &chain(), &test_roots());
    assert_eq!(r, Ok("Root-2021".to_string()));
}

#[test]
fn sealed_card_check_through_transport() {
    let an = vec![0xAA; 16];
    let n1 = nonce(0x21);
    let replies = vec![
        Ok(Response::Read(ReadResponse {
            sig: sign(SLOT, &signed_bytes(&low_card_nonce(), &an, &[0])),
            pubkey: public(SLOT),
            card_nonce: n1.clone(),
        })),
        Ok(Response::Certs(CertsResponse { cert_chain: chain() })),
        Ok(Response::Check(CheckResponse {
            auth_sig: sign(CARD, &signed_bytes(&n1, &an, &public(SLOT))),
            card_nonce: nonce(0x22),
        })),
    ];
    let mut card = satscard(replies, "1.0.2");
    assert_eq!(card.check_certificate_with(an.clone(), &test_roots()), Ok("Root-2021".to_string()));
    assert_eq!(card.card_nonce, nonce(0x22));
    assert_eq!(card.transport.sent[2], Sent::Check(an));
}

#[test]
fn signer_check_rejects_unknown_root() {
    let an = nonce(0x31);
    let cn = nonce(0x30);
    let replies = vec![
        Ok(Response::Certs(CertsResponse { cert_chain: chain() })),
        Ok(Response::Check(CheckResponse {
            auth_sig: sign(CARD, &signed_bytes(&cn, &an, &[])),
            card_nonce: nonce(0x32),
        })),
    ];
    let mut card = signer(replies, cn.clone());
    assert_eq!(card.check_certificate_with(an, &factory_roots()), Err(Error::CertChain));
    assert_eq!(card.card_nonce, cn);
}

// ---- signer card ----

#[test]
fn signer_derive_verified() {
    let n1 = nonce(0x11);
    let n2 = nonce(0x12);
    let an = nonce(0x55);
    let cc = vec![0xCC; 32];
    let mut card = signer(vec![Ok(derive_reply(&n1, &an, &cc, n2.clone()))], n1.clone());
    let d = card.derive_with_nonce(vec![84, 0, 0], "123456".to_string(), an.clone()).ok().unwrap();
    assert_eq!(d.chain_code, cc);
    assert_eq!(card.card_nonce, n2);
    assert_eq!(card.path, Some(vec![0x80000054, 0x80000000, 0x80000000]));
    assert_eq!(
        card.transport.sent[0],
        Sent::Derive(an, Some(vec![0x80000054, 0x80000000, 0x80000000]), true)
    );
}

#[test]
fn signer_derive_bad_signature_keeps_nonce() {
    let n1 = nonce(0x11);
    let an = nonce(0x55);
    let cc = vec![0xCC; 32];
    let reply = derive_reply(&nonce(0x99), &an, &cc, nonce(0x12));
    let mut card = signer(vec![Ok(reply)], n1.clone());
    let r = card.derive_with_nonce(vec![84, 0, 0], "123456".to_string(), an);
    assert!(matches!(r, Err(Error::BadSignature)));
    assert_eq!(card.card_nonce, n1);
    assert_eq!(card.path, None);
}

#[test]
fn nonce_chains_across_commands() {
    let n1 = nonce(1);
    let n2 = nonce(2);
    let n3 = nonce(3);
    let (a1, a2) = (nonce(0x41), nonce(0x42));
    let cc = vec![0xCC; 32];
    let replies = vec![
        Ok(derive_reply(&n1, &a1, &cc, n2.clone())),
        Ok(derive_reply(&n2, &a2, &cc, n3.clone())),
    ];
    let mut card = signer(replies, n1);
    assert!(card.derive_with_nonce(vec![84], "123456".to_string(), a1).is_ok());
    assert_eq!(card.card_nonce, n2);
    assert!(card.derive_with_nonce(vec![84], "123456".to_string(), a2).is_ok());
    assert_eq!(card.card_nonce, n3);
}

#[test]
fn signer_derive_random_nonce() {
    let mut card = signer(vec![], nonce(1));
    assert!(matches!(card.derive(vec![84, 0, 0], "123456".to_string()), Err(Error::Transport)));
    match &card.transport.sent[0] {
        Sent::Derive(an, _, _) => assert_eq!(an.len(), 16),
        other => panic!("unexpected command {:?}", other),
    }
}

#[test]
fn auth_delay_enforced() {
    let mut st = signer_status(nonce(1));
    st.auth_delay = Some(3);
    let replies = vec![
        Ok(Response::Wait(WaitResponse { success: true, auth_delay: Some(2) })),
        Ok(Response::Wait(WaitResponse { success: true, auth_delay: Some(1) })),
        Ok(Response::Wait(WaitResponse { success: true, auth_delay: Some(0) })),
    ];
    let mut card = TapSigner::from_status(Mock::new(replies), st).ok().unwrap();
    assert!(matches!(card.read(Some("123456".to_string())), Err(Error::AuthDelay)));
    assert!(card.transport.sent.is_empty());
    assert_eq!(card.wait(), Ok(Some(2)));
    assert!(matches!(card.read(Some("123456".to_string())), Err(Error::AuthDelay)));
    assert_eq!(card.wait(), Ok(Some(1)));
    assert_eq!(card.wait(), Ok(Some(0)));
    assert_eq!(card.transport.sent, vec![Sent::Wait, Sent::Wait, Sent::Wait]);
    assert!(matches!(card.read(Some("123456".to_string())), Err(Error::Transport)));
}

#[test]
fn signer_read_needs_cvc() {
    let an = nonce(0x77);
    let replies = vec![Ok(Response::Read(ReadResponse {
        sig: sign(SLOT, &signed_bytes(&nonce(1), &an, &[0])),
        pubkey: public(SLOT),
        card_nonce: nonce(2),
    }))];
    let mut card = signer(replies, nonce(1));
    assert!(matches!(card.read(None), Err(Error::State)));
    assert!(card.transport.sent.is_empty());
    let r = card.read_with_nonce(Some("123456".to_string()), an.clone()).ok().unwrap();
    assert_eq!(r.pubkey, public(SLOT));
    assert_eq!(card.card_nonce, nonce(2));
    assert_eq!(card.transport.sent[0], Sent::Read(an, true));
}

#[test]
fn read_with_bad_signature_keeps_nonce() {
    let an = nonce(0x77);
    let replies = vec![Ok(Response::Read(ReadResponse {
        sig: sign(SLOT, &signed_bytes(&low_card_nonce(), &an, &[1])),
        pubkey: public(SLOT),
        card_nonce: nonce(2),
    }))];
    let mut card = satscard(replies, "1.0.2");
    assert!(matches!(card.read_with_nonce(None, an), Err(Error::BadSignature)));
    assert_eq!(card.card_nonce, low_card_nonce());
}

#[test]
fn derive_without_derived_key_is_refused() {
    let n1 = nonce(0x11);
    let an = nonce(0x55);
    let cc = vec![0xCC; 32];
    let reply = match derive_reply(&n1, &an, &cc, nonce(0x12)) {
        Response::Derive(mut d) => {
            d.pubkey = None;
            Response::Derive(d)
        }
        other => other,
    };
    let mut card = signer(vec![Ok(reply)], n1.clone());
    let r = card.derive_with_nonce(vec![84], "123456".to_string(), an);
    assert!(matches!(r, Err(Error::Decode)));
    assert_eq!(card.card_nonce, n1);
}

#[test]
fn legacy_firmware_check_skips_read() {
    let an = vec![0xAA; 16];
    let replies = vec![
        Ok(Response::Certs(CertsResponse { cert_chain: chain() })),
        Ok(Response::Check(CheckResponse {
            auth_sig: sign(CARD, &signed_bytes(&low_card_nonce(), &an, &[])),
            card_nonce: nonce(0x22),
        })),
    ];
    let mut card = satscard(replies, "0.9.0");
    assert_eq!(card.check_certificate_with(an.clone(), &test_roots()), Ok("Root-2021".to_string()));
    assert_eq!(card.transport.sent, vec![Sent::Certs, Sent::Check(an)]);
}

#[test]
fn command_builders() {
    let env = authenticate(&public(CARD), b"123456").ok().unwrap();
    let ep = env.epubkey.clone();
    match signer_derive_command(&nonce(3), &[84, 0, 0], env) {
        Command::Derive { nonce: n, path, epubkey, xcvc } => {
            assert_eq!(n, nonce(3));
            assert_eq!(path, Some(vec![0x80000054, 0x80000000, 0x80000000]));
            assert_eq!(epubkey, Some(ep.clone()));
            assert_eq!(unmask(&ep, &xcvc.unwrap()), b"123456".to_vec());
        }
        _ => panic!("not a derive command"),
    }
    assert!(matches!(check_command(&nonce(4)), Command::Check { nonce: n } if n == nonce(4)));
    assert!(matches!(wait_command(), Command::Wait { epubkey: None, xcvc: None }));
}

#[test]
fn answers_are_judged() {
    assert!(matches!(accept_unseal(Err(Error::CardStatus(BAD_AUTH))), Err(Error::CardStatus(BAD_AUTH))));
    assert!(matches!(accept_unseal(Ok(Response::Wait(WaitResponse { success: true, auth_delay: None }))), Err(Error::Decode)));
    assert_eq!(accept_wait(Ok(Response::Wait(WaitResponse { success: true, auth_delay: Some(4) }))), Ok(Some(4)));
    let n = accept_new(10, Ok(Response::New(NewResponse { slot: 10, card_nonce: nonce(1) })));
    assert!(matches!(n, Err(Error::Decode)));
    let cc = vec![1u8; 32];
    let ok = accept_derive(&nonce(1), &nonce(2), false, Ok(derive_reply(&nonce(1), &nonce(2), &cc, nonce(3))));
    assert!(ok.is_ok());
    let bad = accept_derive(&nonce(1), &nonce(9), false, Ok(derive_reply(&nonce(1), &nonce(2), &cc, nonce(3))));
    assert!(matches!(bad, Err(Error::BadSignature)));
}

#[test]
fn signer_init() {
    let replies = vec![Ok(Response::New(NewResponse { slot: 0, card_nonce: nonce(2) }))];
    let mut card = signer(replies, nonce(1));
    assert!(matches!(card.init(vec![1; 31], "123456".to_string()), Err(Error::State)));
    let r = card.init(vec![1; 32], "123456".to_string()).ok().unwrap();
    assert_eq!(r.slot, 0);
    assert_eq!(card.card_nonce, nonce(2));
    match &card.transport.sent[0] {
        Sent::New(slot, cc, epub, x) => {
            assert_eq!(*slot, 0);
            assert_eq!(cc, &Some(vec![1; 32]));
            assert_eq!(unmask(epub, x), b"123456".to_vec());
        }
        other => panic!("unexpected command {:?}", other),
    }
}

#[test]
fn signer_init_refused_after_setup() {
    let mut st = signer_status(nonce(1));
    st.path = Some(vec![0x80000054]);
    let mut card = TapSigner::from_status(Mock::new(vec![]), st).ok().unwrap();
    assert!(matches!(card.init(vec![1; 32], "123456".to_string()), Err(Error::State)));
    assert!(card.transport.sent.is_empty());
}

#[test]
fn status_idempotent() {
    let mut second = signer_status(nonce(3));
    second.auth_delay = Some(5);
    let replies = vec![
        Ok(Response::Status(signer_status(nonce(2)))),
        Ok(Response::Status(second)),
    ];
    let mut card = signer(replies, nonce(1));
    assert_eq!(card.status(), Ok(()));
    let first = (card.proto, card.ver.clone(), card.birth, card.path.clone(), card.num_backups, card.pubkey.clone());
    assert_eq!(card.card_nonce, nonce(2));
    assert_eq!(card.status(), Ok(()));
    let again = (card.proto, card.ver.clone(), card.birth, card.path.clone(), card.num_backups, card.pubkey.clone());
    assert_eq!(first, again);
    assert_eq!(card.card_nonce, nonce(3));
    assert_eq!(card.auth_delay, Some(5));
}

#[test]
fn status_with_other_key_is_refused() {
    let mut st = signer_status(nonce(2));
    st.pubkey = public(SLOT);
    let mut card = signer(vec![Ok(Response::Status(st))], nonce(1));
    assert_eq!(card.status(), Err(Error::State));
    assert_eq!(card.card_nonce, nonce(1));
}

// ---- sealed card ----

#[test]
fn sealed_card_unseal() {
    let mut after = status_for(public(CARD), nonce(3));
    after.slots = Some((1, 10));
    let replies = vec![
        Ok(Response::Unseal(UnsealResponse {
            slot: 0,
            privkey: vec![7; 32],
            pubkey: public(SLOT),
            master_pk: public(MASTER),
            chain_code: vec![0xCC; 32],
            card_nonce: nonce(2),
        })),
        Ok(Response::Status(after)),
        Ok(Response::Dump(DumpResponse {
            slot: 1,
            privkey: None,
            pubkey: None,
            chain_code: None,
            master_pk: None,
            tampered: None,
            used: Some(false),
            sealed: Some(false),
            addr: None,
            card_nonce: Some(nonce(4)),
        })),
    ];
    let mut card = satscard(replies, "1.0.2");
    let u = card.unseal(0, "123456".to_string()).ok().unwrap();
    assert_eq!(u.privkey, vec![7; 32]);
    assert_eq!(u.pubkey, public(SLOT));
    assert_eq!(u.chain_code, vec![0xCC; 32]);
    assert_eq!(u.master_pk, public(MASTER));
    assert_eq!(card.card_nonce, nonce(2));
    assert_eq!(card.slots, (0, 10));
    match &card.transport.sent[0] {
        Sent::Unseal(slot, epub, x) => {
            assert_eq!(*slot, 0);
            assert_eq!(unmask(epub, x), b"123456".to_vec());
        }
        other => panic!("unexpected command {:?}", other),
    }
    assert_eq!(card.status(), Ok(()));
    assert_eq!(card.slots, (1, 10));
    let d = card.dump(1, None).ok().unwrap();
    assert_eq!(d.used, Some(false));
    assert_eq!(card.card_nonce, nonce(4));
    assert_eq!(card.transport.sent[2], Sent::Dump(1, false));
}

#[test]
fn unseal_with_bad_cvc() {
    let mut card = satscard(vec![Err(Error::CardStatus(BAD_AUTH))], "1.0.2");
    let before = card.card_nonce.clone();
    let r = card.unseal(0, "000000".to_string());
    assert!(matches!(r, Err(Error::CardStatus(BAD_AUTH))));
    assert_eq!(card.card_nonce, before);
    assert_eq!(card.slots, (0, 10));
}

#[test]
fn sealed_new_slot() {
    let replies = vec![Ok(Response::New(NewResponse { slot: 1, card_nonce: nonce(2) }))];
    let mut card = satscard(replies, "1.0.2");
    assert!(matches!(card.new_slot(10, vec![1; 32], "123456".to_string()), Err(Error::State)));
    assert!(matches!(card.new_slot(1, vec![1; 3], "123456".to_string()), Err(Error::State)));
    assert!(card.transport.sent.is_empty());
    let r = card.new_slot(1, vec![1; 32], "123456".to_string()).ok().unwrap();
    assert_eq!(r.slot, 1);
    assert_eq!(card.slots, (1, 10));
    assert_eq!(card.card_nonce, nonce(2));
}

#[test]
fn sealed_derive_verified() {
    let an = nonce(0x66);
    let cc = vec![0xDD; 32];
    let n1 = low_card_nonce();
    let mut card = satscard(vec![Ok(derive_reply(&n1, &an, &cc, nonce(9)))], "1.0.2");
    let d = card.derive_with_nonce(an.clone()).ok().unwrap();
    assert_eq!(d.master_pubkey, public(MASTER));
    assert_eq!(card.card_nonce, nonce(9));
    assert_eq!(card.transport.sent[0], Sent::Derive(an, None, false));
    assert!(matches!(card.derive_with_nonce(vec![1; 3]), Err(Error::State)));
}

#[test]
fn sealed_address_and_dump_with_cvc() {
    let replies = vec![Ok(Response::Dump(DumpResponse {
        slot: 0,
        privkey: Some(vec![1; 32]),
        pubkey: Some(public(SLOT)),
        chain_code: None,
        master_pk: None,
        tampered: Some(false),
        used: Some(true),
        sealed: Some(false),
        addr: None,
        card_nonce: None,
    }))];
    let mut card = satscard(replies, "1.0.2");
    assert_eq!(card.address(), Ok("bc1qexample".to_string()));
    let before = card.card_nonce.clone();
    let d = card.dump(0, Some("123456".to_string())).ok().unwrap();
    assert_eq!(d.privkey, Some(vec![1; 32]));
    assert_eq!(card.card_nonce, before);
    assert_eq!(card.transport.sent[0], Sent::Dump(0, true));
    card.addr = None;
    assert_eq!(card.address(), Err(Error::State));
}

#[test]
fn sealed_wrong_answer_kind() {
    let mut card = satscard(vec![Ok(Response::Wait(WaitResponse { success: true, auth_delay: None }))], "1.0.2");
    assert!(matches!(card.unseal(0, "123456".to_string()), Err(Error::Decode)));
}

// ---- construction ----

#[test]
fn from_status_errors() {
    let st = status_for(vec![5; 33], nonce(1));
    assert!(matches!(SatsCard::from_status(Mock::new(vec![]), st), Err(Error::InvalidPoint)));
    let mut st = status_for(public(CARD), nonce(1));
    st.slots = None;
    assert!(matches!(SatsCard::from_status(Mock::new(vec![]), st), Err(Error::Decode)));
    let st = status_for(public(CARD), vec![1; 8]);
    assert!(matches!(TapSigner::from_status(Mock::new(vec![]), st), Err(Error::Decode)));
}

#[test]
fn card_kind_from_status() {
    let st = status_for(public(CARD), nonce(1));
    assert!(matches!(CkTapCard::from_status(Mock::new(vec![]), st), Ok(CkTapCard::SatsCard(_))));
    let st = signer_status(nonce(1));
    assert!(matches!(CkTapCard::from_status(Mock::new(vec![]), st), Ok(CkTapCard::TapSigner(_))));
    let mut st = signer_status(nonce(1));
    st.satschip = Some(true);
    assert!(matches!(CkTapCard::from_status(Mock::new(vec![]), st), Ok(CkTapCard::SatsChip(_))));
}

#[test]
fn random_values() {
    let a = rand_nonce();
    let b = rand_nonce();
    assert_eq!(a.len(), 16);
    assert_ne!(a, b);
    let mut rng = secp256k1::rand::thread_rng();
    assert_ne!(rand_chaincode(&mut rng), rand_chaincode(&mut rng));
}

// ---- CBOR encoding of commands ----

use rust_cktap::cbor::{encode_command, push_head};

fn head_of(major: u8, n: u64) -> Vec<u8> {
    let mut v = Vec::new();
    push_head(&mut v, major, n);
    v
}

#[test]
fn cbor_heads() {
    assert_eq!(head_of(0, 23), vec![0x17]);
    assert_eq!(head_of(0, 24), vec![0x18, 24]);
    assert_eq!(head_of(2, 255), vec![0x58, 0xff]);
    assert_eq!(head_of(2, 256), vec![0x59, 0x01, 0x00]);
    assert_eq!(head_of(0, 0x8000_0054), vec![0x1a, 0x80, 0x00, 0x00, 0x54]);
    assert_eq!(head_of(0, 0x1_0000_0000), vec![0x1b, 0, 0, 0, 1, 0, 0, 0, 0]);
    assert_eq!(head_of(5, 3), vec![0xa3]);
}

#[test]
fn cbor_status_command() {
    let mut expected = vec![0xa1, 0x63];
    expected.extend_from_slice(b"cmd");
    expected.push(0x66);
    expected.extend_from_slice(b"status");
    assert_eq!(encode_command(&Command::Status), expected);
}

#[test]
fn cbor_derive_command_decodes() {
    let cmd = Command::Derive {
        nonce: nonce(7),
        path: Some(harden_path(&[84, 0, 0])),
        epubkey: Some(public(CARD)),
        xcvc: Some(vec![1, 2, 3, 4, 5, 6]),
    };
    let bytes = encode_command(&cmd);
    let v: ciborium::Value = ciborium::de::from_reader(&bytes[..]).unwrap();
    let m = match v {
        ciborium::Value::Map(m) => m,
        other => panic!("not a map: {:?}", other),
    };
    assert_eq!(m.len(), 5);
    let get = |k: &str| m.iter().find(|(key, _)| key.as_text() == Some(k)).map(|(_, v)| v.clone()).unwrap();
    assert_eq!(get("cmd"), ciborium::Value::Text("derive".to_string()));
    assert_eq!(get("nonce"), ciborium::Value::Bytes(nonce(7)));
    assert_eq!(get("xcvc"), ciborium::Value::Bytes(vec![1, 2, 3, 4, 5, 6]));
    assert_eq!(get("epubkey"), ciborium::Value::Bytes(public(CARD)));
    let path = match get("path") {
        ciborium::Value::Array(a) => a,
        other => panic!("not an array: {:?}", other),
    };
    let steps: Vec<u64> = path.iter().map(|s| u64::try_from(s.as_integer().unwrap()).unwrap()).collect();
    assert_eq!(steps, vec![0x80000054, 0x80000000, 0x80000000]);
}

#[test]
fn cbor_new_command_fields() {
    let cmd = Command::New { slot: 3, chain_code: None, epubkey: vec![9; 33], xcvc: vec![1; 6] };
    let bytes = encode_command(&cmd);
    assert_eq!(bytes[0], 0xa4);
    let v: ciborium::Value = ciborium::de::from_reader(&bytes[..]).unwrap();
    let m = match v {
        ciborium::Value::Map(m) => m,
        other => panic!("not a map: {:?}", other),
    };
    assert_eq!(m[1], (ciborium::Value::Text("slot".to_string()), ciborium::Value::Integer(3u64.into())));
}

fn recoverable(seed: u8, data: &[u8]) -> Vec<u8> {
    let msg = secp256k1::Message::from_slice(&hash(data)).unwrap();
    let (id, compact) = secp256k1::SECP256K1.sign_ecdsa_recoverable(&msg, &secret(seed)).serialize_compact();
    let mut v = vec![27 + 4 + id.to_i32() as u8];
    v.extend_from_slice(&compact);
    v
}

#[test]
fn chain_recovered_from_signatures() {
    let sigs = vec![recoverable(INTERMEDIATE, &public(CARD)), recoverable(ROOT, &public(INTERMEDIATE))];
    let certs = chain_from_signatures(&public(CARD), &sigs).ok().unwrap();
    assert_eq!(certs[0].pubkey, public(INTERMEDIATE));
    assert_eq!(certs[1].pubkey, public(ROOT));
    assert_eq!(certs[1].sig, sigs[1][1..].to_vec());
    assert_eq!(verify_chain(&public(CARD), &certs, &test_roots()), Ok("Root-2021".to_string()));
    let short = vec![sigs[0][..64].to_vec()];
    assert!(matches!(chain_from_signatures(&public(CARD), &short), Err(Error::Decode)));
}

#[test]
fn chained_response_steps() {
    assert_eq!(chained_response(&[1, 2, 0x61, 0x10]), Ok((vec![1, 2], Some(vec![0x00, 0xC0, 0x00, 0x00, 0x10]))));
    assert_eq!(chained_response(&[3, 0x90, 0x00]), Ok((vec![3], None)));
    assert_eq!(chained_response(&[0x6A, 0x82]), Err(Error::CardStatus(0x6A82)));
    assert_eq!(chained_response(&[0x61]), Err(Error::Framing));
}
