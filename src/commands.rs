use vstd::prelude::*;

use crate::apdu::Error;
use crate::certs::Cert;

verus! {

/// A command as the card receives it, before CBOR encoding. Every variant
/// carries the fields of the CBOR map that follow its `cmd` name.
#[allow(inconsistent_fields)]
pub enum Command {
    Status,
    Read { nonce: Vec<u8>, epubkey: Option<Vec<u8>>, xcvc: Option<Vec<u8>> },
    Derive {
        nonce: Vec<u8>,
        path: Option<Vec<u32>>,
        epubkey: Option<Vec<u8>>,
        xcvc: Option<Vec<u8>>,
    },
    Certs,
    Check { nonce: Vec<u8> },
    New { slot: usize, chain_code: Option<Vec<u8>>, epubkey: Vec<u8>, xcvc: Vec<u8> },
    Unseal { slot: usize, epubkey: Vec<u8>, xcvc: Vec<u8> },
    Dump { slot: usize, epubkey: Option<Vec<u8>>, xcvc: Option<Vec<u8>> },
    Wait { epubkey: Option<Vec<u8>>, xcvc: Option<Vec<u8>> },
}

/// Answer to `status`.
pub struct StatusResponse {
    pub proto: usize,
    pub ver: String,
    pub birth: usize,
    pub slots: Option<(usize, usize)>,
    pub addr: Option<String>,
    pub tapsigner: Option<bool>,
    pub satschip: Option<bool>,
    pub path: Option<Vec<u32>>,
    pub num_backups: Option<usize>,
    pub pubkey: Vec<u8>,
    pub card_nonce: Vec<u8>,
    pub auth_delay: Option<usize>,
}

/// Answer to `new`.
pub struct NewResponse {
    pub slot: usize,
    pub card_nonce: Vec<u8>,
}

/// Answer to `derive`.
pub struct DeriveResponse {
    pub sig: Vec<u8>,
    pub chain_code: Vec<u8>,
    pub master_pubkey: Vec<u8>,
    pub pubkey: Option<Vec<u8>>,
    pub card_nonce: Vec<u8>,
}

/// Answer to `unseal`.
pub struct UnsealResponse {
    pub slot: usize,
    pub privkey: Vec<u8>,
    pub pubkey: Vec<u8>,
    pub master_pk: Vec<u8>,
    pub chain_code: Vec<u8>,
    pub card_nonce: Vec<u8>,
}

/// Answer to `dump`: public data for unused or sealed slots, key material
/// for unsealed slots when the CVC was given.
pub struct DumpResponse {
    pub slot: usize,
    pub privkey: Option<Vec<u8>>,
    pub pubkey: Option<Vec<u8>>,
    pub chain_code: Option<Vec<u8>>,
    pub master_pk: Option<Vec<u8>>,
    pub tampered: Option<bool>,
    pub used: Option<bool>,
    pub sealed: Option<bool>,
    pub addr: Option<String>,
    pub card_nonce: Option<Vec<u8>>,
}

/// Answer to `read`.
pub struct ReadResponse {
    pub sig: Vec<u8>,
    pub pubkey: Vec<u8>,
    pub card_nonce: Vec<u8>,
}

/// Answer to `wait`.
pub struct WaitResponse {
    pub success: bool,
    pub auth_delay: Option<usize>,
}

/// Answer to `check`.
pub struct CheckResponse {
    pub auth_sig: Vec<u8>,
    pub card_nonce: Vec<u8>,
}

/// Answer to `certs`.
pub struct CertsResponse {
    pub cert_chain: Vec<Cert>,
}

/// A decoded answer of the card.
pub enum Response {
    Status(StatusResponse),
    New(NewResponse),
    Derive(DeriveResponse),
    Unseal(UnsealResponse),
    Dump(DumpResponse),
    Read(ReadResponse),
    Wait(WaitResponse),
    Check(CheckResponse),
    Certs(CertsResponse),
}

/// The channel to one card: sends one command and returns the card's decoded
/// answer, or a transport, framing, decoding or card-status error.
pub trait CkTransport {
    /// The commands handed to the channel so far, oldest first. A channel
    /// written in Verus gives its own record; `transmit` holds any channel to
    /// keeping it.
    closed spec fn sent(&self) -> Seq<Command> {
        arbitrary()
    }

    /// Sends `cmd`; it is recorded as the latest command handed over,
    /// whatever the card answers.
    fn transmit(&mut self, cmd: &Command) -> (r: Result<Response, Error>)
        ensures
            final(self).sent() == old(self).sent().push(*cmd),
    ;
}

} // verus!
