use vstd::prelude::*;

use crate::apdu::Error;
use crate::bytes::copy_bytes;
use crate::certs::{
    chain_accepted, factory_roots, links_verify, production_root_key, terminal_key,
    testing_root_key, Cert, RootKey,
};
use crate::commands::{
    CkTransport, Command, DeriveResponse, DumpResponse, NewResponse, ReadResponse, Response,
    StatusResponse, UnsealResponse,
};
use crate::crypto::{card_key_is_ok, card_key_ok, rand_nonce, valid_pubkey};
use crate::exchange::{
    accept_derive, accept_dump, accept_new, accept_read, accept_status, accept_unseal, accept_wait,
    certificate_exchange, delay_is_pending, delay_pending, derive_outcome, dump_command,
    dump_outcome, dump_sent, env_epubkey, env_masks, env_xcvc, new_command, new_outcome,
    new_sent, nonce_of, opt_cvc_bytes, read_command, read_outcome, read_sent,
    sealed_derive_command, sealed_derive_sent, sent_once, unseal_command, unseal_outcome,
    unseal_sent, wait_command, wait_outcome, CHAIN_CODE_LEN, NONCE_LEN,
};
use crate::session::{authenticate, cvc_bytes, response_signed, Envelope, MAX_CVC_LEN};

verus! {

/// Firmware 0.9.0 leaves the slot key out of the certificate message.
pub open spec fn legacy_firmware(ver: Seq<char>) -> bool {
    ver == "0.9.0"@
}

/// What a sealed card adds to the signed certificate message: the current
/// slot key, except on firmware 0.9.0.
pub open spec fn certificate_extra_of(ver: Seq<char>, slot_pubkey: Seq<u8>) -> Seq<u8> {
    if legacy_firmware(ver) {
        Seq::empty()
    } else {
        slot_pubkey
    }
}

/// Tests for firmware 0.9.0.
pub fn is_legacy(ver: &String) -> (r: bool)
    ensures
        r == legacy_firmware(ver@),
{
    let legacy = "0.9.0".to_owned();
    *ver == legacy
}

/// Picks the data a sealed card adds to its certificate message.
pub fn certificate_extra(ver: &String, slot_pubkey: Vec<u8>) -> (r: Vec<u8>)
    ensures
        r@ == certificate_extra_of(ver@, slot_pubkey@),
{
    if is_legacy(ver) {
        let r: Vec<u8> = Vec::new();
        assert(r@ =~= Seq::<u8>::empty());
        r
    } else {
        slot_pubkey
    }
}

/// A CVC is given and is longer than the session secret can mask.
pub open spec fn cvc_too_long(cvc: Option<String>) -> bool {
    cvc matches Some(c) && cvc_bytes(c@).len() > MAX_CVC_LEN
}

/// Builds the envelope for an optional CVC.
fn optional_envelope(card_pubkey: &[u8], cvc: Option<String>) -> (r: Result<Option<Envelope>, Error>)
    ensures
        cvc is None ==> (r matches Ok(e) && e is None),
        r matches Ok(Some(_)) ==> cvc is Some,
        r is Err ==> (cvc matches Some(c) && (cvc_bytes(c@).len() > MAX_CVC_LEN || !valid_pubkey(
            card_pubkey@,
        ))),
        cvc_too_long(cvc) ==> r is Err && r->Err_0 == Error::State,
        r matches Ok(e) ==> env_masks(env_epubkey(e), env_xcvc(e), opt_cvc_bytes(cvc), card_pubkey@),
{
    match cvc {
        None => Ok(None),
        Some(c) => {
            let e = authenticate(card_pubkey, c.as_str().as_bytes())?;
            Ok(Some(e))
        },
    }
}

/// A sealed-slot card: a row of slots, each unused, sealed or unsealed in turn.
pub struct SatsCard<T: CkTransport> {
    pub transport: T,
    pub proto: usize,
    pub ver: String,
    pub birth: usize,
    /// Active slot index and number of slots.
    pub slots: (usize, usize),
    /// Deposit address of the active slot, as the card reports it.
    pub addr: Option<String>,
    /// The card's own key, 33 bytes compressed.
    pub pubkey: Vec<u8>,
    /// Rolling card nonce, 16 bytes.
    pub card_nonce: Vec<u8>,
    pub auth_delay: Option<usize>,
}

impl<T: CkTransport> SatsCard<T> {
    /// The card key is a curve point, the nonce has its fixed length and the
    /// active slot exists.
    pub open spec fn wf(&self) -> bool {
        card_key_ok(self.pubkey@) && self.card_nonce@.len() == NONCE_LEN && self.slots.0
            < self.slots.1
    }

    /// Nothing changed, the transport included.
    pub open spec fn unchanged(&self, o: &Self) -> bool {
        self.same_state(o) && self.transport == o.transport
    }

    /// The fields that no command but status changes are the same.
    pub open spec fn same_identity(&self, o: &Self) -> bool {
        self.proto == o.proto && self.ver == o.ver && self.birth == o.birth && self.addr == o.addr
            && self.pubkey == o.pubkey && self.auth_delay == o.auth_delay
    }

    /// Everything but the transport is the same.
    pub open spec fn same_state(&self, o: &Self) -> bool {
        self.proto == o.proto && self.ver == o.ver && self.birth == o.birth && self.slots
            == o.slots && self.addr == o.addr && self.pubkey == o.pubkey && self.card_nonce
            == o.card_nonce && self.auth_delay == o.auth_delay
    }

    /// Whether a status answer describes a well-formed sealed card.
    pub open spec fn status_fits(st: StatusResponse) -> bool {
        st.card_nonce@.len() == NONCE_LEN && (st.slots matches Some(s) && s.0 < s.1)
    }

    /// The state after taking in status answer `st` on top of `prev`.
    pub open spec fn status_taken(&self, prev: &Self, st: StatusResponse) -> bool {
        self.proto == st.proto && self.ver == st.ver && self.birth == st.birth && Some(self.slots)
            == st.slots && self.addr == st.addr && self.pubkey == prev.pubkey && self.card_nonce
            == st.card_nonce && self.auth_delay == st.auth_delay
    }

    /// Everything but the nonce, the auth delay and the transport is the same.
    pub open spec fn same_but_session(&self, o: &Self) -> bool {
        self.proto == o.proto && self.ver == o.ver && self.birth == o.birth && self.slots
            == o.slots && self.addr == o.addr && self.pubkey == o.pubkey
    }

    /// Builds the card object from the status answer read after reset.
    pub fn from_status(transport: T, status_response: StatusResponse) -> (r: Result<Self, Error>)
        ensures
            r is Ok <==> card_key_ok(status_response.pubkey@) && Self::status_fits(
                status_response,
            ),
            !card_key_ok(status_response.pubkey@) ==> r is Err && r->Err_0 == Error::InvalidPoint,
            card_key_ok(status_response.pubkey@) && !Self::status_fits(status_response) ==> r is Err
                && r->Err_0 == Error::Decode,
            r matches Ok(c) ==> c.transport == transport,
            r matches Ok(c) ==> c.wf() && c.proto == status_response.proto && c.ver
                == status_response.ver && c.birth == status_response.birth && Some(c.slots)
                == status_response.slots && c.addr == status_response.addr && c.pubkey
                == status_response.pubkey && c.card_nonce == status_response.card_nonce
                && c.auth_delay == status_response.auth_delay,
    {
        if !card_key_is_ok(status_response.pubkey.as_slice()) {
            return Err(Error::InvalidPoint);
        }
        if status_response.card_nonce.len() != NONCE_LEN {
            return Err(Error::Decode);
        }
        let slots = match status_response.slots {
            Some(s) => s,
            None => return Err(Error::Decode),
        };
        if slots.0 >= slots.1 {
            return Err(Error::Decode);
        }
        Ok(
            SatsCard {
                transport,
                proto: status_response.proto,
                ver: status_response.ver,
                birth: status_response.birth,
                slots,
                addr: status_response.addr,
                pubkey: status_response.pubkey,
                card_nonce: status_response.card_nonce,
                auth_delay: status_response.auth_delay,
            },
        )
    }

    /// Takes in a fresh status answer. The card key must not change; the
    /// rest of the state is replaced by what the card reports.
    pub fn apply_status(&mut self, st: StatusResponse) -> (r: Result<(), Error>)
        requires
            old(self).wf(),
        ensures
            final(self).wf(),
            final(self).transport == old(self).transport,
            r is Ok <==> st.pubkey@ == old(self).pubkey@ && Self::status_fits(st),
            st.pubkey@ != old(self).pubkey@ ==> r is Err && r->Err_0 == Error::State,
            st.pubkey@ == old(self).pubkey@ && !Self::status_fits(st) ==> r is Err && r->Err_0
                == Error::Decode,
            r is Ok ==> final(self).status_taken(old(self), st),
            r is Err ==> final(self).same_state(old(self)),
    {
        if !crate::bytes::bytes_eq(st.pubkey.as_slice(), self.pubkey.as_slice()) {
            return Err(Error::State);
        }
        if st.card_nonce.len() != NONCE_LEN {
            return Err(Error::Decode);
        }
        let slots = match st.slots {
            Some(s) => s,
            None => return Err(Error::Decode),
        };
        if slots.0 >= slots.1 {
            return Err(Error::Decode);
        }
        self.proto = st.proto;
        self.ver = st.ver;
        self.birth = st.birth;
        self.slots = slots;
        self.addr = st.addr;
        self.card_nonce = st.card_nonce;
        self.auth_delay = st.auth_delay;
        Ok(())
    }

    /// Asks the card for its status and takes it in (see `apply_status`).
    pub fn status(&mut self) -> (r: Result<(), Error>)
        requires
            old(self).wf(),
        ensures
            final(self).wf(),
            final(self).pubkey == old(self).pubkey,
            r is Ok ==> exists|st: StatusResponse| #[trigger] final(self).status_taken(old(self), st),
            r is Err ==> final(self).same_state(old(self)),
            sent_once(old(self).transport.sent(), final(self).transport.sent()) && final(self).transport.sent().last() is Status,
    {
        let st = accept_status(self.transport.transmit(&Command::Status))?;
        let ghost g = st;
        let r = self.apply_status(st);
        proof {
            if r is Ok {
                assert(self.status_taken(old(self), g));
            }
        }
        r
    }

    /// Picks a new key for `slot` from a 32-byte chain code: sends `new` with
    /// the slot, the chain code and the envelope, and takes the answer in (see
    /// `new_outcome`). The slot the card reports back becomes the active one.
    pub fn new_slot(&mut self, slot: usize, chain_code: Vec<u8>, cvc: String) -> (r: Result<
        NewResponse,
        Error,
    >)
        requires
            old(self).wf(),
        ensures
            final(self).wf(),
            delay_pending(old(self).auth_delay) ==> r is Err && r->Err_0 == Error::AuthDelay
                && final(self).unchanged(old(self)),
            !delay_pending(old(self).auth_delay) && (chain_code@.len() != CHAIN_CODE_LEN || slot
                >= old(self).slots.1 || cvc_bytes(cvc@).len() > MAX_CVC_LEN) ==> r is Err
                && r->Err_0 == Error::State && final(self).unchanged(old(self)),
            !delay_pending(old(self).auth_delay) && chain_code@.len() == CHAIN_CODE_LEN && slot
                < old(self).slots.1 && cvc_bytes(cvc@).len() <= MAX_CVC_LEN ==> exists|
                resp: Result<Response, Error>,
            | #[trigger] new_outcome(old(self).slots.1, resp) == r,
            !delay_pending(old(self).auth_delay) && chain_code@.len() == CHAIN_CODE_LEN && slot
                < old(self).slots.1 && cvc_bytes(cvc@).len() <= MAX_CVC_LEN ==> sent_once(old(self).transport.sent(), final(self).transport.sent()) && new_sent(
                final(self).transport.sent().last(),
                slot,
                chain_code@,
                cvc_bytes(cvc@),
                old(self).pubkey@,
            ),
            r matches Ok(resp) ==> final(self).card_nonce@ == resp.card_nonce@ && final(self).slots
                == (resp.slot, old(self).slots.1),
            r is Ok ==> final(self).same_identity(old(self)),
            r is Err ==> final(self).same_state(old(self)),
    {
        if delay_is_pending(self.auth_delay) {
            return Err(Error::AuthDelay);
        }
        if chain_code.len() != CHAIN_CODE_LEN || slot >= self.slots.1 {
            return Err(Error::State);
        }
        let env = authenticate(self.pubkey.as_slice(), cvc.as_str().as_bytes())?;
        let cmd = new_command(slot, chain_code, env);
        let resp = self.transport.transmit(&cmd);
        let ghost g = resp;
        let n = accept_new(self.slots.1, resp)?;
        assert(new_outcome(old(self).slots.1, g) == Ok::<NewResponse, Error>(n));
        self.card_nonce = copy_bytes(n.card_nonce.as_slice());
        self.slots = (n.slot, self.slots.1);
        Ok(n)
    }

    /// Asks for the active slot's master key and chain code with a given app
    /// nonce, and takes the answer in (see `derive_outcome`): accepted only if
    /// its signature, under the master key it carries, covers the nonce held
    /// before the command, the app nonce and the chain code.
    pub fn derive_with_nonce(&mut self, app_nonce: Vec<u8>) -> (r: Result<DeriveResponse, Error>)
        requires
            old(self).wf(),
        ensures
            final(self).wf(),
            delay_pending(old(self).auth_delay) ==> r is Err && r->Err_0 == Error::AuthDelay
                && final(self).unchanged(old(self)),
            !delay_pending(old(self).auth_delay) && app_nonce@.len() != NONCE_LEN ==> r is Err
                && r->Err_0 == Error::State && final(self).unchanged(old(self)),
            !delay_pending(old(self).auth_delay) && app_nonce@.len() == NONCE_LEN ==> exists|
                resp: Result<Response, Error>,
            | #[trigger] derive_outcome(old(self).card_nonce@, app_nonce@, false, resp) == r,
            !delay_pending(old(self).auth_delay) && app_nonce@.len() == NONCE_LEN ==> sent_once(old(self).transport.sent(), final(self).transport.sent())
                && sealed_derive_sent(final(self).transport.sent().last()) && nonce_of(final(self).transport.sent().last()) == app_nonce@,
            r matches Ok(d) ==> response_signed(
                old(self).card_nonce@,
                app_nonce@,
                d.chain_code@,
                d.sig@,
                d.master_pubkey@,
            ) && final(self).card_nonce@ == d.card_nonce@,
            r matches Ok(d) ==> d.sig@.len() == 64 && valid_pubkey(d.master_pubkey@),
            r is Ok ==> final(self).same_identity(old(self)) && final(self).slots == old(self).slots,
            r is Err ==> final(self).same_state(old(self)),
    {
        if delay_is_pending(self.auth_delay) {
            return Err(Error::AuthDelay);
        }
        if app_nonce.len() != NONCE_LEN {
            return Err(Error::State);
        }
        let cmd = sealed_derive_command(app_nonce.as_slice());
        let resp = self.transport.transmit(&cmd);
        let ghost g = resp;
        let d = accept_derive(self.card_nonce.as_slice(), app_nonce.as_slice(), false, resp)?;
        assert(derive_outcome(old(self).card_nonce@, app_nonce@, false, g) == Ok::<
            DeriveResponse,
            Error,
        >(d));
        self.card_nonce = copy_bytes(d.card_nonce.as_slice());
        Ok(d)
    }

    /// Asks for the active slot's master key (see `derive_with_nonce`) with a
    /// fresh random app nonce.
    pub fn derive(&mut self) -> (r: Result<DeriveResponse, Error>)
        requires
            old(self).wf(),
        ensures
            final(self).wf(),
            delay_pending(old(self).auth_delay) ==> r is Err && r->Err_0 == Error::AuthDelay
                && final(self).unchanged(old(self)),
            !delay_pending(old(self).auth_delay) ==> exists|
                app_nonce: Seq<u8>,
                resp: Result<Response, Error>,
            | #[trigger] derive_outcome(old(self).card_nonce@, app_nonce, false, resp) == r,
            !delay_pending(old(self).auth_delay) ==> sent_once(old(self).transport.sent(), final(self).transport.sent()) && sealed_derive_sent(final(self).transport.sent().last()) && nonce_of(
                final(self).transport.sent().last(),
            ).len() == NONCE_LEN && exists|resp: Result<Response, Error>|
                #[trigger] derive_outcome(old(self).card_nonce@, nonce_of(final(self).transport.sent().last()), false, resp) == r,
            r matches Ok(d) ==> exists|app_nonce: Seq<u8>|
                #[trigger] response_signed(
                    old(self).card_nonce@,
                    app_nonce,
                    d.chain_code@,
                    d.sig@,
                    d.master_pubkey@,
                ),
            r matches Ok(d) ==> final(self).card_nonce@ == d.card_nonce@,
            r is Ok ==> final(self).same_identity(old(self)) && final(self).slots == old(self).slots,
            r is Err ==> final(self).same_state(old(self)),
    {
        let app_nonce = rand_nonce();
        let ghost an = app_nonce@;
        let r = self.derive_with_nonce(app_nonce);
        proof {
            if r is Ok {
                let d = r->Ok_0;
                assert(response_signed(old(self).card_nonce@, an, d.chain_code@, d.sig@, d.master_pubkey@));
            }
        }
        r
    }

    /// Unseals `slot`: sends `unseal` with the slot and the envelope, and
    /// takes the answer in (see `unseal_outcome`). The card accepts only the
    /// active, sealed slot and the right CVC, and then moves its own active
    /// slot on; the client learns the new active slot only from the next
    /// status, so `slots` is kept here.
    pub fn unseal(&mut self, slot: usize, cvc: String) -> (r: Result<UnsealResponse, Error>)
        requires
            old(self).wf(),
        ensures
            final(self).wf(),
            delay_pending(old(self).auth_delay) ==> r is Err && r->Err_0 == Error::AuthDelay
                && final(self).unchanged(old(self)),
            !delay_pending(old(self).auth_delay) && cvc_bytes(cvc@).len() > MAX_CVC_LEN ==> r is Err
                && r->Err_0 == Error::State && final(self).unchanged(old(self)),
            !delay_pending(old(self).auth_delay) && cvc_bytes(cvc@).len() <= MAX_CVC_LEN ==> exists|
                resp: Result<Response, Error>,
            | #[trigger] unseal_outcome(resp) == r,
            !delay_pending(old(self).auth_delay) && cvc_bytes(cvc@).len() <= MAX_CVC_LEN ==> sent_once(old(self).transport.sent(), final(self).transport.sent())
                && unseal_sent(final(self).transport.sent().last(), slot, cvc_bytes(cvc@), old(self).pubkey@),
            r matches Ok(resp) ==> final(self).card_nonce@ == resp.card_nonce@,
            r is Ok ==> final(self).same_identity(old(self)) && final(self).slots == old(self).slots,
            r is Err ==> final(self).same_state(old(self)),
    {
        if delay_is_pending(self.auth_delay) {
            return Err(Error::AuthDelay);
        }
        let env = authenticate(self.pubkey.as_slice(), cvc.as_str().as_bytes())?;
        let cmd = unseal_command(slot, env);
        let resp = self.transport.transmit(&cmd);
        let ghost g = resp;
        let u = accept_unseal(resp)?;
        assert(unseal_outcome(g) == Ok::<UnsealResponse, Error>(u));
        self.card_nonce = copy_bytes(u.card_nonce.as_slice());
        Ok(u)
    }

    /// Reads what the card shows of `slot`: sends `dump` with the slot and,
    /// when a CVC is given, the envelope, and takes the answer in (see
    /// `dump_outcome`). Public data comes without a CVC, the key material of
    /// an unsealed slot with the right one.
    pub fn dump(&mut self, slot: usize, cvc: Option<String>) -> (r: Result<DumpResponse, Error>)
        requires
            old(self).wf(),
        ensures
            final(self).wf(),
            delay_pending(old(self).auth_delay) ==> r is Err && r->Err_0 == Error::AuthDelay
                && final(self).unchanged(old(self)),
            !delay_pending(old(self).auth_delay) && cvc_too_long(cvc) ==> r is Err && r->Err_0 == Error::State && final(self).unchanged(
                old(self),
            ),
            !delay_pending(old(self).auth_delay) && !cvc_too_long(cvc) ==> exists|resp: Result<Response, Error>|
                #[trigger] dump_outcome(resp) == r,
            !delay_pending(old(self).auth_delay) && !cvc_too_long(cvc) ==> sent_once(old(self).transport.sent(), final(self).transport.sent()) && dump_sent(
                final(self).transport.sent().last(),
                slot,
                opt_cvc_bytes(cvc),
                old(self).pubkey@,
            ),
            r matches Ok(d) ==> match d.card_nonce {
                Some(n) => final(self).card_nonce@ == n@,
                None => final(self).card_nonce == old(self).card_nonce,
            },
            r is Ok ==> final(self).same_identity(old(self)) && final(self).slots == old(self).slots,
            r is Err ==> final(self).same_state(old(self)),
    {
        if delay_is_pending(self.auth_delay) {
            return Err(Error::AuthDelay);
        }
        let env = optional_envelope(self.pubkey.as_slice(), cvc)?;
        let cmd = dump_command(slot, env);
        let resp = self.transport.transmit(&cmd);
        let ghost g = resp;
        let d = accept_dump(resp)?;
        assert(dump_outcome(g) == Ok::<DumpResponse, Error>(d));
        match &d.card_nonce {
            Some(n) => {
                self.card_nonce = copy_bytes(n.as_slice());
            },
            None => {},
        }
        Ok(d)
    }

    /// The deposit address of the active slot, as the last status reported it.
    pub fn address(&mut self) -> (r: Result<String, Error>)
        ensures
            final(self).unchanged(old(self)),
            r matches Ok(a) ==> old(self).addr == Some(a),
            old(self).addr matches Some(a) ==> r == Ok::<String, Error>(a),
            old(self).addr is None ==> r is Err && r->Err_0 == Error::State,
    {
        match &self.addr {
            Some(a) => Ok(a.clone()),
            None => Err(Error::State),
        }
    }

    /// Reads the active slot's public key with a given app nonce: sends
    /// `read` with the app nonce (and the envelope when a CVC is given; the
    /// sealed card needs none) and takes the answer in (see `read_outcome`,
    /// with the active slot's number).
    pub fn read_with_nonce(&mut self, cvc: Option<String>, app_nonce: Vec<u8>) -> (r: Result<
        ReadResponse,
        Error,
    >)
        requires
            old(self).wf(),
        ensures
            final(self).wf(),
            delay_pending(old(self).auth_delay) ==> r is Err && r->Err_0 == Error::AuthDelay
                && final(self).unchanged(old(self)),
            !delay_pending(old(self).auth_delay) && (app_nonce@.len() != NONCE_LEN || cvc_too_long(cvc)) ==> r is Err && r->Err_0 == Error::State
                && final(self).unchanged(old(self)),
            !delay_pending(old(self).auth_delay) && app_nonce@.len() == NONCE_LEN && !cvc_too_long(cvc) ==> exists|resp: Result<Response, Error>|
                #[trigger] read_outcome(
                    old(self).card_nonce@,
                    app_nonce@,
                    old(self).slots.0 as u8,
                    resp,
                ) == r,
            !delay_pending(old(self).auth_delay) && app_nonce@.len() == NONCE_LEN && !cvc_too_long(cvc)
                ==> sent_once(old(self).transport.sent(), final(self).transport.sent()) && read_sent(final(self).transport.sent().last(), opt_cvc_bytes(cvc), old(self).pubkey@) && nonce_of(final(self).transport.sent().last())
                == app_nonce@,
            r matches Ok(a) ==> response_signed(
                old(self).card_nonce@,
                app_nonce@,
                seq![old(self).slots.0 as u8],
                a.sig@,
                a.pubkey@,
            ) && final(self).card_nonce@ == a.card_nonce@ && valid_pubkey(a.pubkey@),
            r is Ok ==> final(self).same_identity(old(self)) && final(self).slots == old(self).slots,
            r is Err ==> final(self).same_state(old(self)),
    {
        if delay_is_pending(self.auth_delay) {
            return Err(Error::AuthDelay);
        }
        if app_nonce.len() != NONCE_LEN {
            return Err(Error::State);
        }
        let env = optional_envelope(self.pubkey.as_slice(), cvc)?;
        let cmd = read_command(app_nonce.as_slice(), env);
        let resp = self.transport.transmit(&cmd);
        let ghost g = resp;
        let a = accept_read(
            self.card_nonce.as_slice(),
            app_nonce.as_slice(),
            self.slots.0 as u8,
            resp,
        )?;
        assert(read_outcome(old(self).card_nonce@, app_nonce@, old(self).slots.0 as u8, g) == Ok::<
            ReadResponse,
            Error,
        >(a));
        self.card_nonce = copy_bytes(a.card_nonce.as_slice());
        Ok(a)
    }

    /// Reads the active slot's public key (see `read_with_nonce`) with a
    /// fresh random app nonce.
    pub fn read(&mut self, cvc: Option<String>) -> (r: Result<ReadResponse, Error>)
        requires
            old(self).wf(),
        ensures
            final(self).wf(),
            delay_pending(old(self).auth_delay) ==> r is Err && r->Err_0 == Error::AuthDelay
                && final(self).unchanged(old(self)),
            !delay_pending(old(self).auth_delay) && !cvc_too_long(cvc) ==> sent_once(old(self).transport.sent(), final(self).transport.sent()) && read_sent(
                final(self).transport.sent().last(),
                opt_cvc_bytes(cvc),
                old(self).pubkey@,
            ) && exists|resp: Result<Response, Error>|
                #[trigger] read_outcome(
                    old(self).card_nonce@,
                    nonce_of(final(self).transport.sent().last()),
                    old(self).slots.0 as u8,
                    resp,
                ) == r,
            r matches Ok(a) ==> exists|app_nonce: Seq<u8>|
                #[trigger] response_signed(
                    old(self).card_nonce@,
                    app_nonce,
                    seq![old(self).slots.0 as u8],
                    a.sig@,
                    a.pubkey@,
                ),
            r matches Ok(a) ==> final(self).card_nonce@ == a.card_nonce@ && valid_pubkey(a.pubkey@),
            r is Ok ==> final(self).same_identity(old(self)) && final(self).slots == old(self).slots,
            r is Err ==> final(self).same_state(old(self)),
    {
        let app_nonce = rand_nonce();
        let ghost an = app_nonce@;
        let r = self.read_with_nonce(cvc, app_nonce);
        proof {
            if r is Ok {
                let a = r->Ok_0;
                assert(response_signed(old(self).card_nonce@, an, seq![old(self).slots.0 as u8], a.sig@, a.pubkey@));
            }
        }
        r
    }

    /// One tick of the auth-delay countdown; returns the delay the card now
    /// reports (see `wait_outcome`), which becomes the card's auth delay.
    pub fn wait(&mut self) -> (r: Result<Option<usize>, Error>)
        requires
            old(self).wf(),
        ensures
            final(self).wf(),
            exists|resp: Result<Response, Error>| #[trigger] wait_outcome(resp) == r,
            sent_once(old(self).transport.sent(), final(self).transport.sent()) && (final(self).transport.sent().last() matches Command::Wait { epubkey: None, xcvc: None }),
            r matches Ok(d) ==> final(self).auth_delay == d && final(self).card_nonce == old(self).card_nonce
                && final(self).slots == old(self).slots && final(self).addr == old(self).addr
                && final(self).proto == old(self).proto && final(self).ver == old(self).ver
                && final(self).birth == old(self).birth && final(self).pubkey == old(self).pubkey,
            r is Err ==> final(self).same_state(old(self)),
    {
        let cmd = wait_command();
        let resp = self.transport.transmit(&cmd);
        let ghost g = resp;
        let r = accept_wait(resp);
        assert(wait_outcome(g) == r);
        if let Ok(d) = r {
            self.auth_delay = d;
        }
        r
    }

    /// Checks that the card is genuine against `roots` with a given app
    /// nonce. Except on firmware 0.9.0 it first reads the active slot key,
    /// which the card then adds to the signed message. Returns the name of the
    /// root the chain ends at.
    pub fn check_certificate_with(&mut self, app_nonce: Vec<u8>, roots: &Vec<RootKey>) -> (r:
        Result<String, Error>)
        requires
            old(self).wf(),
        ensures
            final(self).wf(),
            delay_pending(old(self).auth_delay) ==> r is Err && r->Err_0 == Error::AuthDelay
                && final(self).unchanged(old(self)),
            !delay_pending(old(self).auth_delay) && app_nonce@.len() != NONCE_LEN ==> r is Err
                && r->Err_0 == Error::State && final(self).unchanged(old(self)),
            r is Ok && legacy_firmware(old(self).ver@) ==> exists|sig: Seq<u8>|
                #[trigger] response_signed(
                    old(self).card_nonce@,
                    app_nonce@,
                    Seq::<u8>::empty(),
                    sig,
                    old(self).pubkey@,
                ),
            r is Ok && !legacy_firmware(old(self).ver@) ==> exists|
                n: Seq<u8>,
                slot_key: Seq<u8>,
                sig: Seq<u8>,
            |
                #![trigger response_signed(n, app_nonce@, slot_key, sig, old(self).pubkey@)]
                valid_pubkey(slot_key) && response_signed(
                    n,
                    app_nonce@,
                    certificate_extra_of(old(self).ver@, slot_key),
                    sig,
                    old(self).pubkey@,
                ),
            r is Ok ==> exists|certs: Seq<Cert>|
                #[trigger] chain_accepted(old(self).pubkey@, certs, roots@),
            r matches Ok(name) ==> exists|certs: Seq<Cert>, i: int|
                #![trigger chain_accepted(old(self).pubkey@, certs, roots@), roots@[i]]
                chain_accepted(old(self).pubkey@, certs, roots@) && 0 <= i < roots@.len()
                    && roots@[i].pubkey@ == terminal_key(old(self).pubkey@, certs) && roots@[i].name@
                    == name@,
            r is Err ==> final(self).same_identity(old(self)) && final(self).slots == old(self).slots,
            r is Ok ==> final(self).same_identity(old(self)) && final(self).slots == old(self).slots,
    {
        if delay_is_pending(self.auth_delay) {
            return Err(Error::AuthDelay);
        }
        if app_nonce.len() != NONCE_LEN {
            return Err(Error::State);
        }
        let extra: Vec<u8> = if is_legacy(&self.ver) {
            Vec::new()
        } else {
            let slot_key = self.read_with_nonce(None, copy_bytes(app_nonce.as_slice()))?.pubkey;
            certificate_extra(&self.ver, slot_key)
        };
        let ghost n0 = self.card_nonce@;
        let (name, nonce) = certificate_exchange(
            &mut self.transport,
            self.pubkey.as_slice(),
            self.card_nonce.as_slice(),
            app_nonce.as_slice(),
            extra.as_slice(),
            roots,
        )?;
        proof {
            if legacy_firmware(old(self).ver@) {
                assert(extra@ =~= Seq::<u8>::empty());
                assert(n0 == old(self).card_nonce@);
            }
        }
        self.card_nonce = nonce;
        Ok(name)
    }

    /// Checks that the card is genuine against the factory roots, with a
    /// fresh app nonce.
    pub fn check_certificate(&mut self) -> (r: Result<String, Error>)
        requires
            old(self).wf(),
        ensures
            final(self).wf(),
            delay_pending(old(self).auth_delay) ==> r is Err && r->Err_0 == Error::AuthDelay
                && final(self).unchanged(old(self)),
            r is Err ==> final(self).same_identity(old(self)) && final(self).slots == old(self).slots,
            r matches Ok(name) ==> exists|certs: Seq<Cert>|
                #[trigger] links_verify(old(self).pubkey@, certs) && certs.len() > 0 && ((
                terminal_key(old(self).pubkey@, certs) == production_root_key() && name@
                == "Root-2021"@) || (terminal_key(old(self).pubkey@, certs) == testing_root_key()
                && name@ == "Root-2021 (testing only)"@)),
    {
        let roots = factory_roots();
        let r = self.check_certificate_with(rand_nonce(), &roots);
        proof {
            if r is Ok {
                let name = r->Ok_0;
                let (certs, i) = choose|certs: Seq<Cert>, i: int|
                    chain_accepted(old(self).pubkey@, certs, roots@) && 0 <= i < roots@.len()
                        && roots@[i].pubkey@ == terminal_key(old(self).pubkey@, certs)
                        && roots@[i].name@ == name@;
                assert(links_verify(old(self).pubkey@, certs));
            }
        }
        r
    }
}

/// Status is idempotent: two status answers that agree on everything but the
/// card nonce and the auth delay, taken in one after the other, leave the
/// card in states that agree on everything but those two.
pub proof fn lemma_status_idempotent<T: CkTransport>(
    c0: SatsCard<T>,
    c1: SatsCard<T>,
    c2: SatsCard<T>,
    s1: StatusResponse,
    s2: StatusResponse,
)
    requires
        c1.status_taken(&c0, s1),
        c2.status_taken(&c1, s2),
        s1.proto == s2.proto && s1.ver == s2.ver && s1.birth == s2.birth && s1.slots == s2.slots
            && s1.addr == s2.addr,
    ensures
        c1.same_but_session(&c2),
{
}

} // verus!
