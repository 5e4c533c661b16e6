use vstd::prelude::*;

verus! {

/// Every way a command can fail.
#[derive(Clone, Copy, Debug, PartialEq, Eq, Structural)]
pub enum Error {
    /// The transport could not reach the card; the caller may retry.
    Transport,
    /// An APDU violates the length or format rules.
    Framing,
    /// A response does not have the shape the command expects.
    Decode,
    /// A response lacks a field that the command needs.
    MissingField(Field),
    /// The card answered with an error code (a status word other than
    /// 0x9000, or one of the card's protocol error codes).
    CardStatus(u16),
    /// A byte string is not a point of secp256k1.
    InvalidPoint,
    /// A response signature does not verify.
    BadSignature,
    /// The certificate chain does not lead to a factory root key.
    CertChain,
    /// The card still counts down an auth delay; only `wait` and status go through.
    AuthDelay,
    /// The command does not fit the card's current state or the given arguments.
    State,
}

/// The response fields whose absence is reported by name.
#[derive(Clone, Copy, Debug, PartialEq, Eq, Structural)]
pub enum Field {
    Proto,
    Ver,
    Birth,
    Pubkey,
    CardNonce,
    Sig,
    ChainCode,
    MasterPubkey,
    Slot,
    Privkey,
    MasterPk,
    CertChain,
    AuthSig,
    Code,
}

/// Status word of a successful response.
pub const SW_OK: u16 = 0x9000;

/// Card error code: the CVC was wrong.
pub const BAD_AUTH: u16 = 401;

/// Card error code: the command does not fit the card's or the slot's state
/// (a slot that is not the active one, or not sealed).
pub const INVALID_STATE: u16 = 406;

/// Card error code: the command name is unknown.
pub const UNKNOWN_COMMAND: u16 = 404;

/// Card error code: an auth delay must be waited out first.
pub const RATE_LIMITED: u16 = 429;

/// Class byte of every command.
pub const CLA: u8 = 0x00;

/// Instruction byte that marks a CkTap command.
pub const INS: u8 = 0xCB;

/// Largest payload an extended-length APDU carries.
pub const MAX_PAYLOAD: usize = 65535;

/// The command APDU that carries `payload`: CLA, INS, two zero parameter bytes, then Lc in
/// one byte for payloads up to 255 bytes and in three bytes (0, high, low)
/// above that, then the payload.
pub open spec fn command_apdu(payload: Seq<u8>) -> Seq<u8> {
    let header = seq![0x00u8, 0xCBu8, 0x00u8, 0x00u8];
    if payload.len() <= 255 {
        header + seq![payload.len() as u8] + payload
    } else {
        header + seq![0x00u8, (payload.len() / 256) as u8, (payload.len() % 256) as u8] + payload
    }
}

/// The status word that ends a response of at least two bytes.
pub open spec fn status_word(resp: Seq<u8>) -> u16 {
    ((resp[resp.len() - 2] as int) * 256 + resp[resp.len() - 1] as int) as u16
}

/// Frames a payload as a command APDU. Empty payloads and payloads that do not
/// fit an extended Lc are framing errors.
pub fn wrap_command(payload: &[u8]) -> (r: Result<Vec<u8>, Error>)
    ensures
        r is Ok <==> 0 < payload@.len() <= MAX_PAYLOAD,
        r matches Ok(v) ==> v@ == command_apdu(payload@),
        r matches Err(e) ==> e == Error::Framing,
{
    let n = payload.len();
    if n == 0 || n > MAX_PAYLOAD {
        return Err(Error::Framing);
    }
    let mut v: Vec<u8> = Vec::new();
    v.push(CLA);
    v.push(INS);
    v.push(0x00);
    v.push(0x00);
    if n <= 255 {
        v.push(n as u8);
    } else {
        v.push(0x00);
        v.push((n / 256) as u8);
        v.push((n % 256) as u8);
    }
    crate::bytes::append_bytes(&mut v, payload);
    proof {
        let header = seq![0x00u8, 0xCBu8, 0x00u8, 0x00u8];
        if n <= 255 {
            assert(v@ =~= header + seq![payload@.len() as u8] + payload@);
        } else {
            assert(v@ =~= header + seq![0x00u8, (payload@.len() / 256) as u8, (payload@.len() % 256) as u8] + payload@);
        }
    }
    Ok(v)
}

/// Splits a response APDU into its data and status word: the data when the
/// status word is 0x9000, the status word as a card error otherwise, and a
/// framing error when there is no status word.
pub fn unwrap_response(resp: &[u8]) -> (r: Result<Vec<u8>, Error>)
    ensures
        resp@.len() < 2 ==> r == Err::<Vec<u8>, Error>(Error::Framing),
        resp@.len() >= 2 ==> (r is Ok <==> status_word(resp@) == SW_OK),
        resp@.len() >= 2 && status_word(resp@) != SW_OK ==> r == Err::<Vec<u8>, Error>(
            Error::CardStatus(status_word(resp@)),
        ),
        r matches Ok(d) ==> d@ == resp@.subrange(0, resp@.len() - 2),
{
    let n = resp.len();
    if n < 2 {
        return Err(Error::Framing);
    }
    let sw: u16 = (resp[n - 2] as u16) * 256 + resp[n - 1] as u16;
    if sw != SW_OK {
        return Err(Error::CardStatus(sw));
    }
    let mut d: Vec<u8> = Vec::new();
    let mut i: usize = 0;
    while i < n - 2
        invariant
            n == resp@.len(),
            n >= 2,
            i <= n - 2,
            d@ == resp@.subrange(0, i as int),
        decreases n - 2 - i,
    {
        d.push(resp[i]);
        i = i + 1;
        assert(d@ =~= resp@.subrange(0, i as int));
    }
    Ok(d)
}

/// Status byte 1 that says more response data waits on the card.
pub const SW1_MORE_DATA: u8 = 0x61;

/// Whether a response ends in a "more data" status word.
pub open spec fn more_data(resp: Seq<u8>) -> bool {
    resp.len() >= 2 && resp[resp.len() - 2] == SW1_MORE_DATA
}

/// The GET RESPONSE command that fetches the next `le` bytes.
pub open spec fn get_response_apdu(le: u8) -> Seq<u8> {
    seq![0x00u8, 0xC0u8, 0x00u8, 0x00u8, le]
}

/// One step of a chained response: the data of this part, and the GET
/// RESPONSE command to send next when the status word says more data waits
/// (0x61xx, with xx the length of the next part). A status word other than
/// that and 0x9000 is a card error; a response without one is a framing
/// error.
pub fn chained_response(resp: &[u8]) -> (r: Result<(Vec<u8>, Option<Vec<u8>>), Error>)
    ensures
        resp@.len() < 2 ==> r is Err && r->Err_0 == Error::Framing,
        resp@.len() >= 2 ==> (r is Ok <==> (status_word(resp@) == SW_OK || more_data(resp@))),
        resp@.len() >= 2 && status_word(resp@) != SW_OK && !more_data(resp@) ==> r is Err
            && r->Err_0 == Error::CardStatus(status_word(resp@)),
        r matches Ok((d, next)) ==> d@ == resp@.subrange(0, resp@.len() - 2) && (next is Some
            <==> more_data(resp@)),
        r matches Ok((d, Some(c))) ==> c@ == get_response_apdu(resp@[resp@.len() - 1]),
{
    let n = resp.len();
    if n < 2 {
        return Err(Error::Framing);
    }
    let more = resp[n - 2] == SW1_MORE_DATA;
    let sw: u16 = (resp[n - 2] as u16) * 256 + resp[n - 1] as u16;
    if sw != SW_OK && !more {
        return Err(Error::CardStatus(sw));
    }
    let mut d: Vec<u8> = Vec::new();
    let mut i: usize = 0;
    while i < n - 2
        invariant
            n == resp@.len(),
            n >= 2,
            i <= n - 2,
            d@ == resp@.subrange(0, i as int),
        decreases n - 2 - i,
    {
        d.push(resp[i]);
        i = i + 1;
        assert(d@ =~= resp@.subrange(0, i as int));
    }
    if more {
        let c: Vec<u8> = vec![0x00, 0xC0, 0x00, 0x00, resp[n - 1]];
        assert(c@ =~= get_response_apdu(resp@[resp@.len() - 1]));
        Ok((d, Some(c)))
    } else {
        Ok((d, None))
    }
}

} // verus!
