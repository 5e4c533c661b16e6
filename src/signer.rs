use vstd::prelude::*;

use crate::apdu::Error;
use crate::bytes::copy_bytes;
use crate::certs::{
    chain_accepted, factory_roots, links_verify, production_root_key, terminal_key,
    testing_root_key, RootKey,
};
use crate::commands::{CkTransport, Command, DeriveResponse, NewResponse, ReadResponse, Response, StatusResponse};
use crate::crypto::{card_key_is_ok, card_key_ok, rand_nonce, valid_pubkey};
use crate::exchange::{
    accept_derive, accept_new, accept_read, accept_status, accept_wait, certificate_exchange,
    delay_is_pending, delay_pending, derive_outcome, new_command, new_outcome, new_sent, nonce_of,
    opt_cvc_bytes, read_command, read_outcome, read_sent, sent_once, signer_derive_command,
    signer_derive_sent, wait_command, wait_outcome, CHAIN_CODE_LEN, NONCE_LEN,
};
use crate::session::{authenticate, cvc_bytes, harden_path, hardened, response_signed, MAX_CVC_LEN};

verus! {

/// A signer card: one key, derived along a hardened path set by the owner.
pub struct TapSigner<T: CkTransport> {
    pub transport: T,
    pub proto: usize,
    pub ver: String,
    pub birth: usize,
    /// Current derivation path, hardened bits included; absent until set up.
    pub path: Option<Vec<u32>>,
    pub num_backups: Option<usize>,
    /// The card's own key, 33 bytes compressed.
    pub pubkey: Vec<u8>,
    /// Rolling card nonce, 16 bytes.
    pub card_nonce: Vec<u8>,
    pub auth_delay: Option<usize>,
}

impl<T: CkTransport> TapSigner<T> {
    /// The card key is a curve point and the nonce has its fixed length.
    pub open spec fn wf(&self) -> bool {
        card_key_ok(self.pubkey@) && self.card_nonce@.len() == NONCE_LEN
    }

    /// Nothing changed, the transport included.
    pub open spec fn unchanged(&self, o: &Self) -> bool {
        self.same_state(o) && self.transport == o.transport
    }

    /// The fields that no command but status changes are the same.
    pub open spec fn same_identity(&self, o: &Self) -> bool {
        self.proto == o.proto && self.ver == o.ver && self.birth == o.birth && self.num_backups
            == o.num_backups && self.pubkey == o.pubkey && self.auth_delay == o.auth_delay
    }

    /// Everything but the transport is the same.
    pub open spec fn same_state(&self, o: &Self) -> bool {
        self.proto == o.proto && self.ver == o.ver && self.birth == o.birth && self.path == o.path
            && self.num_backups == o.num_backups && self.pubkey == o.pubkey && self.card_nonce
            == o.card_nonce && self.auth_delay == o.auth_delay
    }

    /// The state after taking in status answer `st` on top of `prev`.
    pub open spec fn status_taken(&self, prev: &Self, st: StatusResponse) -> bool {
        self.proto == st.proto && self.ver == st.ver && self.birth == st.birth && self.path
            == st.path && self.num_backups == st.num_backups && self.pubkey == prev.pubkey
            && self.card_nonce == st.card_nonce && self.auth_delay == st.auth_delay
    }

    /// Everything but the nonce, the auth delay and the transport is the same.
    pub open spec fn same_but_session(&self, o: &Self) -> bool {
        self.proto == o.proto && self.ver == o.ver && self.birth == o.birth && self.path == o.path
            && self.num_backups == o.num_backups && self.pubkey == o.pubkey
    }

    /// A derive answer `d` to app nonce `app_nonce` was accepted on top of
    /// `prev`: it is signed over the nonce `prev` held, and its nonce is now
    /// the rolling one.
    pub open spec fn derive_taken(&self, prev: &Self, app_nonce: Seq<u8>, d: DeriveResponse) -> bool {
        response_signed(prev.card_nonce@, app_nonce, d.chain_code@, d.sig@, d.master_pubkey@)
            && self.card_nonce@ == d.card_nonce@
    }

    /// Builds the card object from the status answer read after reset.
    pub fn from_status(transport: T, status_response: StatusResponse) -> (r: Result<Self, Error>)
        ensures
            r is Ok <==> card_key_ok(status_response.pubkey@)
                && status_response.card_nonce@.len() == NONCE_LEN,
            !card_key_ok(status_response.pubkey@) ==> r is Err && r->Err_0 == Error::InvalidPoint,
            card_key_ok(status_response.pubkey@) && status_response.card_nonce@.len()
                != NONCE_LEN ==> r is Err && r->Err_0 == Error::Decode,
            r matches Ok(c) ==> c.transport == transport,
            r matches Ok(c) ==> c.wf() && c.proto == status_response.proto && c.ver
                == status_response.ver && c.birth == status_response.birth && c.path
                == status_response.path && c.num_backups == status_response.num_backups
                && c.pubkey == status_response.pubkey && c.card_nonce
                == status_response.card_nonce && c.auth_delay == status_response.auth_delay,
    {
        if !card_key_is_ok(status_response.pubkey.as_slice()) {
            return Err(Error::InvalidPoint);
        }
        if status_response.card_nonce.len() != NONCE_LEN {
            return Err(Error::Decode);
        }
        Ok(
            TapSigner {
                transport,
                proto: status_response.proto,
                ver: status_response.ver,
                birth: status_response.birth,
                path: status_response.path,
                num_backups: status_response.num_backups,
                pubkey: status_response.pubkey,
                card_nonce: status_response.card_nonce,
                auth_delay: status_response.auth_delay,
            },
        )
    }

    /// Takes in a fresh status answer. The card key must not change; the
    /// rest of the state is replaced by what the card reports.
    pub fn apply_status(&mut self, st: StatusResponse) -> (r: Result<(), Error>)
        requires
            old(self).wf(),
        ensures
            final(self).wf(),
            final(self).transport == old(self).transport,
            r is Ok <==> st.pubkey@ == old(self).pubkey@ && st.card_nonce@.len() == NONCE_LEN,
            st.pubkey@ != old(self).pubkey@ ==> r is Err && r->Err_0 == Error::State,
            st.pubkey@ == old(self).pubkey@ && st.card_nonce@.len() != NONCE_LEN ==> r is Err
                && r->Err_0 == Error::Decode,
            r is Ok ==> final(self).status_taken(old(self), st),
            r is Err ==> final(self).same_state(old(self)),
    {
        if !crate::bytes::bytes_eq(st.pubkey.as_slice(), self.pubkey.as_slice()) {
            return Err(Error::State);
        }
        if st.card_nonce.len() != NONCE_LEN {
            return Err(Error::Decode);
        }
        self.proto = st.proto;
        self.ver = st.ver;
        self.birth = st.birth;
        self.path = st.path;
        self.num_backups = st.num_backups;
        self.card_nonce = st.card_nonce;
        self.auth_delay = st.auth_delay;
        Ok(())
    }

    /// Asks the card for its status and takes it in (see `apply_status`).
    pub fn status(&mut self) -> (r: Result<(), Error>)
        requires
            old(self).wf(),
        ensures
            final(self).wf(),
            final(self).pubkey == old(self).pubkey,
            r is Ok ==> exists|st: StatusResponse| #[trigger] final(self).status_taken(old(self), st),
            r is Err ==> final(self).same_state(old(self)),
            sent_once(old(self).transport.sent(), final(self).transport.sent()) && final(self).transport.sent().last() is Status,
    {
        let st = accept_status(self.transport.transmit(&Command::Status))?;
        let ghost g = st;
        let r = self.apply_status(st);
        proof {
            if r is Ok {
                assert(self.status_taken(old(self), g));
            }
        }
        r
    }

    /// Sets up a blank card with a 32-byte chain code: sends `new` for slot 0
    /// with the chain code and the envelope, and takes the answer in (see
    /// `new_outcome`).
    pub fn init(&mut self, chain_code: Vec<u8>, cvc: String) -> (r: Result<NewResponse, Error>)
        requires
            old(self).wf(),
        ensures
            final(self).wf(),
            delay_pending(old(self).auth_delay) ==> r is Err && r->Err_0 == Error::AuthDelay
                && final(self).unchanged(old(self)),
            !delay_pending(old(self).auth_delay) && (chain_code@.len() != CHAIN_CODE_LEN
                || old(self).path is Some || cvc_bytes(cvc@).len() > MAX_CVC_LEN) ==> r is Err
                && r->Err_0 == Error::State && final(self).unchanged(old(self)),
            !delay_pending(old(self).auth_delay) && chain_code@.len() == CHAIN_CODE_LEN
                && old(self).path is None && cvc_bytes(cvc@).len() <= MAX_CVC_LEN ==> exists|
                resp: Result<Response, Error>,
            | #[trigger] new_outcome(1, resp) == r,
            !delay_pending(old(self).auth_delay) && chain_code@.len() == CHAIN_CODE_LEN
                && old(self).path is None && cvc_bytes(cvc@).len() <= MAX_CVC_LEN ==> sent_once(old(self).transport.sent(), final(self).transport.sent()) && new_sent(
                final(self).transport.sent().last(),
                0,
                chain_code@,
                cvc_bytes(cvc@),
                old(self).pubkey@,
            ),
            r matches Ok(resp) ==> final(self).card_nonce@ == resp.card_nonce@,
            r is Ok ==> final(self).same_identity(old(self)) && final(self).path == old(self).path,
            r is Err ==> final(self).same_state(old(self)),
    {
        if delay_is_pending(self.auth_delay) {
            return Err(Error::AuthDelay);
        }
        if chain_code.len() != CHAIN_CODE_LEN || self.path.is_some() {
            return Err(Error::State);
        }
        let env = authenticate(self.pubkey.as_slice(), cvc.as_str().as_bytes())?;
        let cmd = new_command(0, chain_code, env);
        let resp = self.transport.transmit(&cmd);
        let ghost g = resp;
        let n = accept_new(1, resp)?;
        assert(new_outcome(1, g) == Ok::<NewResponse, Error>(n));
        self.card_nonce = copy_bytes(n.card_nonce.as_slice());
        Ok(n)
    }

    /// Derives along `path` with a given app nonce: sends `derive` with the
    /// app nonce, the path with every step hardened and the envelope, and
    /// takes the answer in (see `derive_outcome`; the derived key must be
    /// there). On success the answer's nonce becomes the rolling nonce and the
    /// hardened path the current path.
    pub fn derive_with_nonce(&mut self, path: Vec<u32>, cvc: String, app_nonce: Vec<u8>) -> (r:
        Result<DeriveResponse, Error>)
        requires
            old(self).wf(),
        ensures
            final(self).wf(),
            delay_pending(old(self).auth_delay) ==> r is Err && r->Err_0 == Error::AuthDelay
                && final(self).unchanged(old(self)),
            !delay_pending(old(self).auth_delay) && (app_nonce@.len() != NONCE_LEN || cvc_bytes(
                cvc@,
            ).len() > MAX_CVC_LEN) ==> r is Err && r->Err_0 == Error::State && final(self).unchanged(old(self)),
            !delay_pending(old(self).auth_delay) && app_nonce@.len() == NONCE_LEN && cvc_bytes(
                cvc@,
            ).len() <= MAX_CVC_LEN ==> exists|resp: Result<Response, Error>|
                #[trigger] derive_outcome(old(self).card_nonce@, app_nonce@, true, resp) == r,
            !delay_pending(old(self).auth_delay) && app_nonce@.len() == NONCE_LEN && cvc_bytes(
                cvc@,
            ).len() <= MAX_CVC_LEN ==> sent_once(old(self).transport.sent(), final(self).transport.sent()) && signer_derive_sent(
                final(self).transport.sent().last(),
                path@,
                cvc_bytes(cvc@),
                old(self).pubkey@,
            ) && nonce_of(final(self).transport.sent().last()) == app_nonce@,
            r matches Ok(d) ==> final(self).derive_taken(old(self), app_nonce@, d) && d.sig@.len()
                == 64 && valid_pubkey(d.master_pubkey@),
            r is Ok ==> (final(self).path matches Some(p) && p@ == hardened(path@)),
            r is Ok ==> final(self).same_identity(old(self)),
            r is Err ==> final(self).same_state(old(self)),
    {
        if delay_is_pending(self.auth_delay) {
            return Err(Error::AuthDelay);
        }
        if app_nonce.len() != NONCE_LEN {
            return Err(Error::State);
        }
        let env = authenticate(self.pubkey.as_slice(), cvc.as_str().as_bytes())?;
        let cmd = signer_derive_command(app_nonce.as_slice(), path.as_slice(), env);
        let resp = self.transport.transmit(&cmd);
        let ghost g = resp;
        let d = accept_derive(self.card_nonce.as_slice(), app_nonce.as_slice(), true, resp)?;
        assert(derive_outcome(old(self).card_nonce@, app_nonce@, true, g) == Ok::<
            DeriveResponse,
            Error,
        >(d));
        self.card_nonce = copy_bytes(d.card_nonce.as_slice());
        self.path = Some(harden_path(path.as_slice()));
        Ok(d)
    }

    /// Derives along `path` (see `derive_with_nonce`) with a fresh random app nonce.
    pub fn derive(&mut self, path: Vec<u32>, cvc: String) -> (r: Result<DeriveResponse, Error>)
        requires
            old(self).wf(),
        ensures
            final(self).wf(),
            delay_pending(old(self).auth_delay) ==> r is Err && r->Err_0 == Error::AuthDelay
                && final(self).unchanged(old(self)),
            !delay_pending(old(self).auth_delay) && cvc_bytes(cvc@).len() > MAX_CVC_LEN ==> r is Err
                && r->Err_0 == Error::State && final(self).unchanged(old(self)),
            !delay_pending(old(self).auth_delay) && cvc_bytes(cvc@).len() <= MAX_CVC_LEN ==> exists|
                app_nonce: Seq<u8>,
                resp: Result<Response, Error>,
            | #[trigger] derive_outcome(old(self).card_nonce@, app_nonce, true, resp) == r
                && app_nonce.len() == NONCE_LEN,
            !delay_pending(old(self).auth_delay) && cvc_bytes(cvc@).len() <= MAX_CVC_LEN ==> sent_once(old(self).transport.sent(), final(self).transport.sent())
                && signer_derive_sent(final(self).transport.sent().last(), path@, cvc_bytes(cvc@), old(self).pubkey@) && nonce_of(
                final(self).transport.sent().last(),
            ).len() == NONCE_LEN && exists|resp: Result<Response, Error>|
                #[trigger] derive_outcome(old(self).card_nonce@, nonce_of(final(self).transport.sent().last()), true, resp) == r,
            r matches Ok(d) ==> exists|app_nonce: Seq<u8>|
                #[trigger] final(self).derive_taken(old(self), app_nonce, d),
            r matches Ok(d) ==> d.sig@.len() == 64 && valid_pubkey(d.master_pubkey@),
            r is Ok ==> (final(self).path matches Some(p) && p@ == hardened(path@)),
            r is Ok ==> final(self).same_identity(old(self)),
            r is Err ==> final(self).same_state(old(self)),
    {
        let app_nonce = rand_nonce();
        let ghost an = app_nonce@;
        let r = self.derive_with_nonce(path, cvc, app_nonce);
        proof {
            if r is Ok {
                assert(final(self).derive_taken(old(self), an, r->Ok_0));
            }
        }
        r
    }

    /// Reads the key at the current path with a given app nonce; the signer
    /// card wants the CVC. Sends `read` with the app nonce and the envelope and
    /// takes the answer in (see `read_outcome`, slot 0).
    pub fn read_with_nonce(&mut self, cvc: Option<String>, app_nonce: Vec<u8>) -> (r: Result<
        ReadResponse,
        Error,
    >)
        requires
            old(self).wf(),
        ensures
            final(self).wf(),
            delay_pending(old(self).auth_delay) ==> r is Err && r->Err_0 == Error::AuthDelay
                && final(self).unchanged(old(self)),
            !delay_pending(old(self).auth_delay) && (cvc is None || app_nonce@.len() != NONCE_LEN
                || cvc_bytes(cvc->Some_0@).len() > MAX_CVC_LEN) ==> r is Err && r->Err_0
                == Error::State && final(self).unchanged(old(self)),
            !delay_pending(old(self).auth_delay) && cvc is Some && app_nonce@.len() == NONCE_LEN
                && cvc_bytes(cvc->Some_0@).len() <= MAX_CVC_LEN ==> exists|
                resp: Result<Response, Error>,
            | #[trigger] read_outcome(old(self).card_nonce@, app_nonce@, 0, resp) == r,
            !delay_pending(old(self).auth_delay) && cvc is Some && app_nonce@.len() == NONCE_LEN
                && cvc_bytes(cvc->Some_0@).len() <= MAX_CVC_LEN ==> sent_once(old(self).transport.sent(), final(self).transport.sent()) && read_sent(
                final(self).transport.sent().last(),
                opt_cvc_bytes(cvc),
                old(self).pubkey@,
            ) && nonce_of(final(self).transport.sent().last()) == app_nonce@,
            r matches Ok(a) ==> response_signed(
                old(self).card_nonce@,
                app_nonce@,
                seq![0u8],
                a.sig@,
                a.pubkey@,
            ) && final(self).card_nonce@ == a.card_nonce@,
            r is Ok ==> final(self).same_identity(old(self)) && final(self).path == old(self).path,
            r is Err ==> final(self).same_state(old(self)),
    {
        if delay_is_pending(self.auth_delay) {
            return Err(Error::AuthDelay);
        }
        let cvc = match cvc {
            Some(c) => c,
            None => return Err(Error::State),
        };
        if app_nonce.len() != NONCE_LEN {
            return Err(Error::State);
        }
        let env = authenticate(self.pubkey.as_slice(), cvc.as_str().as_bytes())?;
        let cmd = read_command(app_nonce.as_slice(), Some(env));
        let resp = self.transport.transmit(&cmd);
        let ghost g = resp;
        let a = accept_read(self.card_nonce.as_slice(), app_nonce.as_slice(), 0, resp)?;
        assert(read_outcome(old(self).card_nonce@, app_nonce@, 0, g) == Ok::<ReadResponse, Error>(a));
        self.card_nonce = copy_bytes(a.card_nonce.as_slice());
        Ok(a)
    }

    /// Reads the key at the current path (see `read_with_nonce`) with a fresh
    /// random app nonce.
    pub fn read(&mut self, cvc: Option<String>) -> (r: Result<ReadResponse, Error>)
        requires
            old(self).wf(),
        ensures
            final(self).wf(),
            delay_pending(old(self).auth_delay) ==> r is Err && r->Err_0 == Error::AuthDelay
                && final(self).unchanged(old(self)),
            !delay_pending(old(self).auth_delay) && (cvc is None || cvc_bytes(cvc->Some_0@).len()
                > MAX_CVC_LEN) ==> r is Err && r->Err_0 == Error::State && final(self).unchanged(
                old(self),
            ),
            !delay_pending(old(self).auth_delay) && cvc is Some && cvc_bytes(cvc->Some_0@).len()
                <= MAX_CVC_LEN ==> sent_once(old(self).transport.sent(), final(self).transport.sent()) && read_sent(final(self).transport.sent().last(), opt_cvc_bytes(cvc), old(self).pubkey@)
                && exists|resp: Result<Response, Error>|
                #[trigger] read_outcome(old(self).card_nonce@, nonce_of(final(self).transport.sent().last()), 0, resp) == r,
            r matches Ok(a) ==> exists|app_nonce: Seq<u8>|
                #[trigger] response_signed(
                    old(self).card_nonce@,
                    app_nonce,
                    seq![0u8],
                    a.sig@,
                    a.pubkey@,
                ),
            r matches Ok(a) ==> final(self).card_nonce@ == a.card_nonce@,
            r is Ok ==> final(self).same_identity(old(self)) && final(self).path == old(self).path,
            r is Err ==> final(self).same_state(old(self)),
    {
        let app_nonce = rand_nonce();
        let ghost an = app_nonce@;
        let r = self.read_with_nonce(cvc, app_nonce);
        proof {
            if r is Ok {
                let a = r->Ok_0;
                assert(response_signed(old(self).card_nonce@, an, seq![0u8], a.sig@, a.pubkey@));
            }
        }
        r
    }

    /// One tick of the auth-delay countdown; returns the delay the card now
    /// reports (see `wait_outcome`), which becomes the card's auth delay.
    pub fn wait(&mut self) -> (r: Result<Option<usize>, Error>)
        requires
            old(self).wf(),
        ensures
            final(self).wf(),
            exists|resp: Result<Response, Error>| #[trigger] wait_outcome(resp) == r,
            sent_once(old(self).transport.sent(), final(self).transport.sent()) && (final(self).transport.sent().last() matches Command::Wait { epubkey: None, xcvc: None }),
            r matches Ok(d) ==> final(self).auth_delay == d && final(self).card_nonce == old(self).card_nonce && final(self).path == old(self).path && final(self).proto == old(self).proto && final(self).ver == old(self).ver && final(self).birth == old(self).birth
                && final(self).num_backups == old(self).num_backups && final(self).pubkey == old(self).pubkey,
            r is Err ==> final(self).same_state(old(self)),
    {
        let cmd = wait_command();
        let resp = self.transport.transmit(&cmd);
        let ghost g = resp;
        let r = accept_wait(resp);
        assert(wait_outcome(g) == r);
        if let Ok(d) = r {
            self.auth_delay = d;
        }
        r
    }

    /// Checks that the card is genuine against `roots` with a given app
    /// nonce, and returns the name of the root its chain ends at.
    pub fn check_certificate_with(&mut self, app_nonce: Vec<u8>, roots: &Vec<RootKey>) -> (r:
        Result<String, Error>)
        requires
            old(self).wf(),
        ensures
            final(self).wf(),
            delay_pending(old(self).auth_delay) ==> r is Err && r->Err_0 == Error::AuthDelay
                && final(self).unchanged(old(self)),
            !delay_pending(old(self).auth_delay) && app_nonce@.len() != NONCE_LEN ==> r is Err
                && r->Err_0 == Error::State && final(self).unchanged(old(self)),
            r is Ok ==> exists|sig: Seq<u8>|
                #[trigger] response_signed(
                    old(self).card_nonce@,
                    app_nonce@,
                    Seq::<u8>::empty(),
                    sig,
                    old(self).pubkey@,
                ),
            r is Ok ==> exists|certs: Seq<crate::certs::Cert>|
                #[trigger] chain_accepted(old(self).pubkey@, certs, roots@),
            r matches Ok(name) ==> exists|certs: Seq<crate::certs::Cert>, i: int|
                #![trigger chain_accepted(old(self).pubkey@, certs, roots@), roots@[i]]
                chain_accepted(old(self).pubkey@, certs, roots@) && 0 <= i < roots@.len()
                    && roots@[i].pubkey@ == terminal_key(old(self).pubkey@, certs) && roots@[i].name@
                    == name@,
            r is Ok ==> final(self).same_identity(old(self)) && final(self).path == old(self).path,
            r is Err ==> final(self).same_state(old(self)),
    {
        if delay_is_pending(self.auth_delay) {
            return Err(Error::AuthDelay);
        }
        if app_nonce.len() != NONCE_LEN {
            return Err(Error::State);
        }
        let extra: Vec<u8> = Vec::new();
        let (name, nonce) = certificate_exchange(
            &mut self.transport,
            self.pubkey.as_slice(),
            self.card_nonce.as_slice(),
            app_nonce.as_slice(),
            extra.as_slice(),
            roots,
        )?;
        assert(extra@ =~= Seq::<u8>::empty());
        self.card_nonce = nonce;
        Ok(name)
    }

    /// Checks that the card is genuine against the factory roots, with a
    /// fresh app nonce.
    pub fn check_certificate(&mut self) -> (r: Result<String, Error>)
        requires
            old(self).wf(),
        ensures
            final(self).wf(),
            delay_pending(old(self).auth_delay) ==> r is Err && r->Err_0 == Error::AuthDelay
                && final(self).unchanged(old(self)),
            r matches Ok(name) ==> exists|certs: Seq<crate::certs::Cert>|
                #[trigger] links_verify(old(self).pubkey@, certs) && certs.len() > 0 && ((
                terminal_key(old(self).pubkey@, certs) == production_root_key() && name@
                == "Root-2021"@) || (terminal_key(old(self).pubkey@, certs) == testing_root_key()
                && name@ == "Root-2021 (testing only)"@)),
            r is Ok ==> exists|app_nonce: Seq<u8>, sig: Seq<u8>|
                #[trigger] response_signed(
                    old(self).card_nonce@,
                    app_nonce,
                    Seq::<u8>::empty(),
                    sig,
                    old(self).pubkey@,
                ),
            r is Err ==> final(self).same_state(old(self)),
    {
        let roots = factory_roots();
        let app_nonce = rand_nonce();
        let ghost an = app_nonce@;
        let r = self.check_certificate_with(app_nonce, &roots);
        proof {
            if r is Ok {
                let name = r->Ok_0;
                let (certs, i) = choose|certs: Seq<crate::certs::Cert>, i: int|
                    chain_accepted(old(self).pubkey@, certs, roots@) && 0 <= i < roots@.len()
                        && roots@[i].pubkey@ == terminal_key(old(self).pubkey@, certs)
                        && roots@[i].name@ == name@;
                assert(links_verify(old(self).pubkey@, certs));
                let sig = choose|sig: Seq<u8>|
                    response_signed(old(self).card_nonce@, an, Seq::<u8>::empty(), sig, old(self).pubkey@);
                assert(response_signed(old(self).card_nonce@, an, Seq::<u8>::empty(), sig, old(self).pubkey@));
            }
        }
        r
    }
}

/// Nonce chaining: after two accepted derive answers in a row, the second is
/// signed over the card nonce that the first one returned.
pub proof fn lemma_nonce_chain<T: CkTransport>(
    c0: TapSigner<T>,
    c1: TapSigner<T>,
    c2: TapSigner<T>,
    a1: Seq<u8>,
    a2: Seq<u8>,
    d1: DeriveResponse,
    d2: DeriveResponse,
)
    requires
        c1.derive_taken(&c0, a1, d1),
        c2.derive_taken(&c1, a2, d2),
    ensures
        response_signed(d1.card_nonce@, a2, d2.chain_code@, d2.sig@, d2.master_pubkey@),
        c2.card_nonce@ == d2.card_nonce@,
{
}

/// Status is idempotent: two status answers that agree on everything but the
/// card nonce and the auth delay, taken in one after the other, leave the
/// card in states that agree on everything but those two.
pub proof fn lemma_status_idempotent<T: CkTransport>(
    c0: TapSigner<T>,
    c1: TapSigner<T>,
    c2: TapSigner<T>,
    s1: StatusResponse,
    s2: StatusResponse,
)
    requires
        c1.status_taken(&c0, s1),
        c2.status_taken(&c1, s2),
        s1.proto == s2.proto && s1.ver == s2.ver && s1.birth == s2.birth && s1.path == s2.path
            && s1.num_backups == s2.num_backups,
    ensures
        c1.same_but_session(&c2),
{
}

} // verus!
