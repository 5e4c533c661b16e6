use vstd::prelude::*;

use crate::apdu::Error;
use crate::bytes::copy_bytes;
use crate::certs::{chain_accepted, terminal_key, verify_certificate, Cert, RootKey};
use crate::commands::{
    CertsResponse, CheckResponse, CkTransport, Command, DeriveResponse, DumpResponse, NewResponse,
    ReadResponse, Response, StatusResponse, UnsealResponse,
};
use crate::crypto::{ecdh_of, pubkey_of, valid_pubkey};
use crate::session::{
    cvc_bytes, harden_path, hardened, response_signed, verify_response, xor_prefix, Envelope,
};

verus! {

/// Length of the card nonce and of the app nonce.
pub const NONCE_LEN: usize = 16;

/// Length of a chain code.
pub const CHAIN_CODE_LEN: usize = 32;

/// Whether an auth delay is still running.
pub open spec fn delay_pending(d: Option<usize>) -> bool {
    d matches Some(n) && n > 0
}

/// Tests for a running auth delay.
pub fn delay_is_pending(d: Option<usize>) -> (r: bool)
    ensures
        r == delay_pending(d),
{
    match d {
        Some(n) => n > 0,
        None => false,
    }
}

/// The ephemeral key an optional envelope puts in a command.
pub open spec fn env_epubkey(env: Option<Envelope>) -> Option<Vec<u8>> {
    match env {
        Some(e) => Some(e.epubkey),
        None => None,
    }
}

/// The masked CVC an optional envelope puts in a command.
pub open spec fn env_xcvc(env: Option<Envelope>) -> Option<Vec<u8>> {
    match env {
        Some(e) => Some(e.xcvc),
        None => None,
    }
}

/// Splits an optional envelope into the two optional command fields.
pub fn envelope_fields(env: Option<Envelope>) -> (r: (Option<Vec<u8>>, Option<Vec<u8>>))
    ensures
        r.0 == env_epubkey(env) && r.1 == env_xcvc(env),
{
    match env {
        None => (None, None),
        Some(e) => (Some(e.epubkey), Some(e.xcvc)),
    }
}

// ---- what goes to the card ----

/// `xcvc` is the CVC masked with the ECDH secret of the card key and the
/// secret key behind the ephemeral key `epubkey`.
pub open spec fn masks_cvc(epubkey: Seq<u8>, xcvc: Seq<u8>, cvc: Seq<u8>, card_pubkey: Seq<u8>) -> bool {
    exists|sk: Seq<u8>|
        #[trigger] pubkey_of(sk) == epubkey && xcvc == xor_prefix(cvc, ecdh_of(sk, card_pubkey))
}

/// The bytes of an optional CVC.
pub open spec fn opt_cvc_bytes(cvc: Option<String>) -> Option<Seq<u8>> {
    match cvc {
        Some(c) => Some(cvc_bytes(c@)),
        None => None,
    }
}

/// The optional envelope fields of a command: none without a CVC, an
/// ephemeral key and the CVC masked with it otherwise.
pub open spec fn env_masks(
    epubkey: Option<Vec<u8>>,
    xcvc: Option<Vec<u8>>,
    cvc: Option<Seq<u8>>,
    card_pubkey: Seq<u8>,
) -> bool {
    match cvc {
        None => epubkey is None && xcvc is None,
        Some(c) => match (epubkey, xcvc) {
            (Some(e), Some(x)) => masks_cvc(e@, x@, c, card_pubkey),
            _ => false,
        },
    }
}

/// Exactly one command was handed to the channel.
pub open spec fn sent_once(before: Seq<Command>, after: Seq<Command>) -> bool {
    after.len() > 0 && after == before.push(after.last())
}

/// The app nonce a command carries (empty for those without one).
pub open spec fn nonce_of(c: Command) -> Seq<u8> {
    match c {
        Command::Derive { nonce, .. } => nonce@,
        Command::Read { nonce, .. } => nonce@,
        Command::Check { nonce } => nonce@,
        _ => Seq::empty(),
    }
}

/// A signer `derive`: the path with every step hardened and the masked CVC.
pub open spec fn signer_derive_sent(c: Command, path: Seq<u32>, cvc: Seq<u8>, card_pubkey: Seq<u8>) -> bool {
    match c {
        Command::Derive { nonce, path: Some(p), epubkey: Some(e), xcvc: Some(x) } => p@ == hardened(
            path,
        ) && masks_cvc(e@, x@, cvc, card_pubkey),
        _ => false,
    }
}

/// A sealed-card `derive`: no path and no envelope.
pub open spec fn sealed_derive_sent(c: Command) -> bool {
    c matches Command::Derive { nonce, path: None, epubkey: None, xcvc: None }
}

/// A `new` for `slot` with the chain code and the masked CVC.
pub open spec fn new_sent(c: Command, slot: usize, chain_code: Seq<u8>, cvc: Seq<u8>, card_pubkey: Seq<u8>) -> bool {
    match c {
        Command::New { slot: s, chain_code: Some(cc), epubkey, xcvc } => s == slot && cc@ == chain_code
            && masks_cvc(epubkey@, xcvc@, cvc, card_pubkey),
        _ => false,
    }
}

/// An `unseal` for `slot` with the masked CVC.
pub open spec fn unseal_sent(c: Command, slot: usize, cvc: Seq<u8>, card_pubkey: Seq<u8>) -> bool {
    match c {
        Command::Unseal { slot: s, epubkey, xcvc } => s == slot && masks_cvc(
            epubkey@,
            xcvc@,
            cvc,
            card_pubkey,
        ),
        _ => false,
    }
}

/// A `dump` for `slot`, with the masked CVC when one is given.
pub open spec fn dump_sent(c: Command, slot: usize, cvc: Option<Seq<u8>>, card_pubkey: Seq<u8>) -> bool {
    match c {
        Command::Dump { slot: s, epubkey, xcvc } => s == slot && env_masks(
            epubkey,
            xcvc,
            cvc,
            card_pubkey,
        ),
        _ => false,
    }
}

/// A `read`, with the masked CVC when one is given.
pub open spec fn read_sent(c: Command, cvc: Option<Seq<u8>>, card_pubkey: Seq<u8>) -> bool {
    match c {
        Command::Read { nonce, epubkey, xcvc } => env_masks(epubkey, xcvc, cvc, card_pubkey),
        _ => false,
    }
}

/// `derive` of the signer card: the app nonce, the path with every step
/// hardened, and the envelope.
pub fn signer_derive_command(app_nonce: &[u8], path: &[u32], env: Envelope) -> (r: Command)
    ensures
        r matches Command::Derive { nonce, path: Some(p), epubkey: Some(ep), xcvc: Some(x) }
            && nonce@ == app_nonce@ && p@ == hardened(path@) && ep == env.epubkey && x == env.xcvc,
{
    Command::Derive {
        nonce: copy_bytes(app_nonce),
        path: Some(harden_path(path)),
        epubkey: Some(env.epubkey),
        xcvc: Some(env.xcvc),
    }
}

/// `derive` of the sealed card: the app nonce alone.
pub fn sealed_derive_command(app_nonce: &[u8]) -> (r: Command)
    ensures
        r matches Command::Derive { nonce, path: None, epubkey: None, xcvc: None } && nonce@
            == app_nonce@,
{
    Command::Derive { nonce: copy_bytes(app_nonce), path: None, epubkey: None, xcvc: None }
}

/// `new`: the slot, the chain code and the envelope.
pub fn new_command(slot: usize, chain_code: Vec<u8>, env: Envelope) -> (r: Command)
    ensures
        r matches Command::New { slot: s, chain_code: Some(c), epubkey, xcvc } && s == slot && c
            == chain_code && epubkey == env.epubkey && xcvc == env.xcvc,
{
    Command::New { slot, chain_code: Some(chain_code), epubkey: env.epubkey, xcvc: env.xcvc }
}

/// `unseal`: the slot and the envelope.
pub fn unseal_command(slot: usize, env: Envelope) -> (r: Command)
    ensures
        r matches Command::Unseal { slot: s, epubkey, xcvc } && s == slot && epubkey
            == env.epubkey && xcvc == env.xcvc,
{
    Command::Unseal { slot, epubkey: env.epubkey, xcvc: env.xcvc }
}

/// `dump`: the slot and, when a CVC was given, the envelope.
pub fn dump_command(slot: usize, env: Option<Envelope>) -> (r: Command)
    ensures
        r matches Command::Dump { slot: s, epubkey, xcvc } && s == slot && epubkey == env_epubkey(
            env,
        ) && xcvc == env_xcvc(env),
{
    let (epubkey, xcvc) = envelope_fields(env);
    Command::Dump { slot, epubkey, xcvc }
}

/// `read`: the app nonce and, when a CVC was given, the envelope.
pub fn read_command(app_nonce: &[u8], env: Option<Envelope>) -> (r: Command)
    ensures
        r matches Command::Read { nonce, epubkey, xcvc } && nonce@ == app_nonce@ && epubkey
            == env_epubkey(env) && xcvc == env_xcvc(env),
{
    let (epubkey, xcvc) = envelope_fields(env);
    Command::Read { nonce: copy_bytes(app_nonce), epubkey, xcvc }
}

/// `check`: the app nonce.
pub fn check_command(app_nonce: &[u8]) -> (r: Command)
    ensures
        r matches Command::Check { nonce } && nonce@ == app_nonce@,
{
    Command::Check { nonce: copy_bytes(app_nonce) }
}

/// `wait`, without a CVC.
pub fn wait_command() -> (r: Command)
    ensures
        r matches Command::Wait { epubkey: None, xcvc: None },
{
    Command::Wait { epubkey: None, xcvc: None }
}

// ---- what the library makes of the card's answer ----

/// The outcome of a `derive` answer: errors pass through; a derive answer
/// with a nonce of the wrong length (or without the derived key where it is
/// needed) is a decoding error; one whose signature, under the master key it
/// carries, does not cover the nonce held before, the app nonce and the chain
/// code is a bad signature; any other kind of answer is a decoding error.
pub open spec fn derive_outcome(
    card_nonce: Seq<u8>,
    app_nonce: Seq<u8>,
    need_pubkey: bool,
    resp: Result<Response, Error>,
) -> Result<DeriveResponse, Error> {
    match resp {
        Err(e) => Err(e),
        Ok(Response::Derive(d)) => if d.card_nonce@.len() != NONCE_LEN || (need_pubkey
            && d.pubkey is None) {
            Err(Error::Decode)
        } else if !response_signed(
            card_nonce,
            app_nonce,
            d.chain_code@,
            d.sig@,
            d.master_pubkey@,
        ) {
            Err(Error::BadSignature)
        } else {
            Ok(d)
        },
        Ok(_) => Err(Error::Decode),
    }
}

/// Judges a `derive` answer (see `derive_outcome`).
pub fn accept_derive(
    card_nonce: &[u8],
    app_nonce: &[u8],
    need_pubkey: bool,
    resp: Result<Response, Error>,
) -> (r: Result<DeriveResponse, Error>)
    ensures
        r == derive_outcome(card_nonce@, app_nonce@, need_pubkey, resp),
        r matches Ok(d) ==> d.sig@.len() == 64 && valid_pubkey(d.master_pubkey@),
{
    match resp {
        Err(e) => Err(e),
        Ok(Response::Derive(d)) => {
            if d.card_nonce.len() != NONCE_LEN || (need_pubkey && d.pubkey.is_none()) {
                return Err(Error::Decode);
            }
            if !verify_response(
                card_nonce,
                app_nonce,
                d.chain_code.as_slice(),
                d.sig.as_slice(),
                d.master_pubkey.as_slice(),
            ) {
                return Err(Error::BadSignature);
            }
            Ok(d)
        },
        Ok(_) => Err(Error::Decode),
    }
}

/// The outcome of a `read` answer: as for `derive`, with the signature made
/// by the key the answer carries over the nonce held before, the app nonce
/// and the slot number as one byte.
pub open spec fn read_outcome(
    card_nonce: Seq<u8>,
    app_nonce: Seq<u8>,
    slot: u8,
    resp: Result<Response, Error>,
) -> Result<ReadResponse, Error> {
    match resp {
        Err(e) => Err(e),
        Ok(Response::Read(a)) => if a.card_nonce@.len() != NONCE_LEN {
            Err(Error::Decode)
        } else if !response_signed(card_nonce, app_nonce, seq![slot], a.sig@, a.pubkey@) {
            Err(Error::BadSignature)
        } else {
            Ok(a)
        },
        Ok(_) => Err(Error::Decode),
    }
}

/// Judges a `read` answer (see `read_outcome`).
pub fn accept_read(card_nonce: &[u8], app_nonce: &[u8], slot: u8, resp: Result<Response, Error>) -> (r:
    Result<ReadResponse, Error>)
    ensures
        r == read_outcome(card_nonce@, app_nonce@, slot, resp),
        r matches Ok(a) ==> a.sig@.len() == 64 && valid_pubkey(a.pubkey@),
{
    match resp {
        Err(e) => Err(e),
        Ok(Response::Read(a)) => {
            if a.card_nonce.len() != NONCE_LEN {
                return Err(Error::Decode);
            }
            let data: Vec<u8> = vec![slot];
            assert(data@ =~= seq![slot]);
            if !verify_response(
                card_nonce,
                app_nonce,
                data.as_slice(),
                a.sig.as_slice(),
                a.pubkey.as_slice(),
            ) {
                return Err(Error::BadSignature);
            }
            Ok(a)
        },
        Ok(_) => Err(Error::Decode),
    }
}

/// The outcome of a `new` answer: its nonce must have the right length and
/// its slot must exist.
pub open spec fn new_outcome(num_slots: usize, resp: Result<Response, Error>) -> Result<
    NewResponse,
    Error,
> {
    match resp {
        Err(e) => Err(e),
        Ok(Response::New(n)) => if n.card_nonce@.len() != NONCE_LEN || n.slot >= num_slots {
            Err(Error::Decode)
        } else {
            Ok(n)
        },
        Ok(_) => Err(Error::Decode),
    }
}

/// Judges a `new` answer (see `new_outcome`).
pub fn accept_new(num_slots: usize, resp: Result<Response, Error>) -> (r: Result<NewResponse, Error>)
    ensures
        r == new_outcome(num_slots, resp),
{
    match resp {
        Err(e) => Err(e),
        Ok(Response::New(n)) => {
            if n.card_nonce.len() != NONCE_LEN || n.slot >= num_slots {
                return Err(Error::Decode);
            }
            Ok(n)
        },
        Ok(_) => Err(Error::Decode),
    }
}

/// The outcome of an `unseal` answer: its nonce must have the right length.
pub open spec fn unseal_outcome(resp: Result<Response, Error>) -> Result<UnsealResponse, Error> {
    match resp {
        Err(e) => Err(e),
        Ok(Response::Unseal(u)) => if u.card_nonce@.len() != NONCE_LEN {
            Err(Error::Decode)
        } else {
            Ok(u)
        },
        Ok(_) => Err(Error::Decode),
    }
}

/// Judges an `unseal` answer (see `unseal_outcome`).
pub fn accept_unseal(resp: Result<Response, Error>) -> (r: Result<UnsealResponse, Error>)
    ensures
        r == unseal_outcome(resp),
{
    match resp {
        Err(e) => Err(e),
        Ok(Response::Unseal(u)) => {
            if u.card_nonce.len() != NONCE_LEN {
                return Err(Error::Decode);
            }
            Ok(u)
        },
        Ok(_) => Err(Error::Decode),
    }
}

/// The outcome of a `dump` answer: a nonce, when there is one, must have the
/// right length.
pub open spec fn dump_outcome(resp: Result<Response, Error>) -> Result<DumpResponse, Error> {
    match resp {
        Err(e) => Err(e),
        Ok(Response::Dump(d)) => if d.card_nonce matches Some(n) && n@.len() != NONCE_LEN {
            Err(Error::Decode)
        } else {
            Ok(d)
        },
        Ok(_) => Err(Error::Decode),
    }
}

/// Judges a `dump` answer (see `dump_outcome`).
pub fn accept_dump(resp: Result<Response, Error>) -> (r: Result<DumpResponse, Error>)
    ensures
        r == dump_outcome(resp),
{
    match resp {
        Err(e) => Err(e),
        Ok(Response::Dump(d)) => {
            let bad = match &d.card_nonce {
                Some(n) => n.len() != NONCE_LEN,
                None => false,
            };
            if bad {
                return Err(Error::Decode);
            }
            Ok(d)
        },
        Ok(_) => Err(Error::Decode),
    }
}

/// The outcome of a `wait` answer: the delay it reports.
pub open spec fn wait_outcome(resp: Result<Response, Error>) -> Result<Option<usize>, Error> {
    match resp {
        Err(e) => Err(e),
        Ok(Response::Wait(w)) => Ok(w.auth_delay),
        Ok(_) => Err(Error::Decode),
    }
}

/// Judges a `wait` answer (see `wait_outcome`).
pub fn accept_wait(resp: Result<Response, Error>) -> (r: Result<Option<usize>, Error>)
    ensures
        r == wait_outcome(resp),
{
    match resp {
        Err(e) => Err(e),
        Ok(Response::Wait(w)) => Ok(w.auth_delay),
        Ok(_) => Err(Error::Decode),
    }
}

/// The status answer inside a card answer.
pub open spec fn status_outcome(resp: Result<Response, Error>) -> Result<StatusResponse, Error> {
    match resp {
        Err(e) => Err(e),
        Ok(Response::Status(s)) => Ok(s),
        Ok(_) => Err(Error::Decode),
    }
}

/// Takes the status answer out of a card answer (see `status_outcome`).
pub fn accept_status(resp: Result<Response, Error>) -> (r: Result<StatusResponse, Error>)
    ensures
        r == status_outcome(resp),
{
    match resp {
        Err(e) => Err(e),
        Ok(Response::Status(s)) => Ok(s),
        Ok(_) => Err(Error::Decode),
    }
}

/// Takes the certificate chain out of a card answer.
pub fn accept_certs(resp: Result<Response, Error>) -> (r: Result<CertsResponse, Error>)
    ensures
        resp is Err ==> (r is Err && r->Err_0 == resp->Err_0),
        r is Ok <==> resp matches Ok(Response::Certs(_)),
        r matches Ok(c) ==> resp == Ok::<Response, Error>(Response::Certs(c)),
        !(resp is Err) && r is Err ==> r->Err_0 == Error::Decode,
{
    match resp {
        Err(e) => Err(e),
        Ok(Response::Certs(c)) => Ok(c),
        Ok(_) => Err(Error::Decode),
    }
}

/// Takes a `check` answer out of a card answer; its nonce must have the right length.
pub fn accept_check(resp: Result<Response, Error>) -> (r: Result<CheckResponse, Error>)
    ensures
        resp is Err ==> (r is Err && r->Err_0 == resp->Err_0),
        r is Ok <==> (resp matches Ok(Response::Check(c)) && c.card_nonce@.len() == NONCE_LEN),
        r matches Ok(c) ==> resp == Ok::<Response, Error>(Response::Check(c)),
        !(resp is Err) && r is Err ==> r->Err_0 == Error::Decode,
{
    match resp {
        Err(e) => Err(e),
        Ok(Response::Check(c)) => {
            if c.card_nonce.len() != NONCE_LEN {
                return Err(Error::Decode);
            }
            Ok(c)
        },
        Ok(_) => Err(Error::Decode),
    }
}

/// Runs the genuineness check: asks for the certificate chain, then sends
/// `check` with the app nonce, and accepts only when the card's signature
/// over the nonce it held before, the app nonce and `extra` verifies under its
/// key and the chain leads from that key to a root in `roots`. Returns the
/// root's name and the card's new nonce.
pub fn certificate_exchange<T: CkTransport>(
    transport: &mut T,
    card_pubkey: &[u8],
    card_nonce: &[u8],
    app_nonce: &[u8],
    extra: &[u8],
    roots: &Vec<RootKey>,
) -> (r: Result<(String, Vec<u8>), Error>)
    ensures
        r matches Ok((name, n)) ==> n@.len() == NONCE_LEN,
        r is Ok ==> exists|sig: Seq<u8>|
            #[trigger] response_signed(card_nonce@, app_nonce@, extra@, sig, card_pubkey@),
        r is Ok ==> exists|certs: Seq<Cert>| #[trigger] chain_accepted(card_pubkey@, certs, roots@),
        r matches Ok((name, n)) ==> exists|certs: Seq<Cert>, i: int|
            #![trigger chain_accepted(card_pubkey@, certs, roots@), roots@[i]]
            chain_accepted(card_pubkey@, certs, roots@) && 0 <= i < roots@.len()
                && roots@[i].pubkey@ == terminal_key(card_pubkey@, certs) && roots@[i].name@
                == name@,
{
    let chain = accept_certs(transport.transmit(&Command::Certs))?.cert_chain;
    let check = accept_check(transport.transmit(&check_command(app_nonce)))?;
    let name = verify_certificate(
        card_pubkey,
        card_nonce,
        app_nonce,
        extra,
        check.auth_sig.as_slice(),
        &chain,
        roots,
    )?;
    Ok((name, check.card_nonce))
}

} // verus!
