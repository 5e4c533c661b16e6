use vstd::prelude::*;

use crate::apdu::Error;
use crate::commands::{CkTransport, StatusResponse};
use crate::crypto::card_key_ok;
use crate::exchange::NONCE_LEN;
use crate::satscard::SatsCard;
use crate::signer::TapSigner;

verus! {

/// The card found on a transport, by kind.
pub enum CkTapCard<T: CkTransport> {
    SatsCard(SatsCard<T>),
    TapSigner(TapSigner<T>),
    SatsChip(TapSigner<T>),
}

/// The kind of card a status answer describes.
pub enum CardKind {
    SatsCard,
    TapSigner,
    SatsChip,
}

/// A status answer names a signer card by `tapsigner`, and its chip variant by
/// `satschip` as well; anything else is a sealed-slot card.
pub open spec fn kind_of(st: StatusResponse) -> CardKind {
    if st.tapsigner == Some(true) {
        if st.satschip == Some(true) {
            CardKind::SatsChip
        } else {
            CardKind::TapSigner
        }
    } else {
        CardKind::SatsCard
    }
}

impl<T: CkTransport> CkTapCard<T> {
    /// The sealed card built from `st` over `transport`: every field as reported.
    pub open spec fn sats_from(c: SatsCard<T>, transport: T, st: StatusResponse) -> bool {
        c.wf() && c.transport == transport && c.proto == st.proto && c.ver == st.ver && c.birth
            == st.birth && Some(c.slots) == st.slots && c.addr == st.addr && c.pubkey == st.pubkey
            && c.card_nonce == st.card_nonce && c.auth_delay == st.auth_delay
    }

    /// The signer card built from `st` over `transport`: every field as reported.
    pub open spec fn signer_from(c: TapSigner<T>, transport: T, st: StatusResponse) -> bool {
        c.wf() && c.transport == transport && c.proto == st.proto && c.ver == st.ver && c.birth
            == st.birth && c.path == st.path && c.num_backups == st.num_backups && c.pubkey
            == st.pubkey && c.card_nonce == st.card_nonce && c.auth_delay == st.auth_delay
    }

    /// Builds the card object that the status answer read after reset describes.
    pub fn from_status(transport: T, status_response: StatusResponse) -> (r: Result<Self, Error>)
        ensures
            !card_key_ok(status_response.pubkey@) ==> r is Err && r->Err_0 == Error::InvalidPoint,
            r matches Ok(CkTapCard::SatsCard(c)) ==> kind_of(status_response) is SatsCard
                && Self::sats_from(c, transport, status_response),
            r matches Ok(CkTapCard::TapSigner(c)) ==> kind_of(status_response) is TapSigner
                && Self::signer_from(c, transport, status_response),
            r matches Ok(CkTapCard::SatsChip(c)) ==> kind_of(status_response) is SatsChip
                && Self::signer_from(c, transport, status_response),
            kind_of(status_response) is SatsCard ==> (r is Ok <==> card_key_ok(
                status_response.pubkey@,
            ) && SatsCard::<T>::status_fits(status_response)),
            !(kind_of(status_response) is SatsCard) ==> (r is Ok <==> card_key_ok(
                status_response.pubkey@,
            ) && status_response.card_nonce@.len() == NONCE_LEN),
    {
        let signer = match status_response.tapsigner {
            Some(b) => b,
            None => false,
        };
        let chip = match status_response.satschip {
            Some(b) => b,
            None => false,
        };
        if signer {
            let c = TapSigner::from_status(transport, status_response)?;
            if chip {
                Ok(CkTapCard::SatsChip(c))
            } else {
                Ok(CkTapCard::TapSigner(c))
            }
        } else {
            let c = SatsCard::from_status(transport, status_response)?;
            Ok(CkTapCard::SatsCard(c))
        }
    }
}

} // verus!
