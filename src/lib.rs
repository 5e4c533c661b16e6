//! Client-side core of the CkTap smartcard protocol: command framing, the
//! authenticated envelope, certificate-chain checking and the state of the
//! sealed-slot card and the signer card.

pub mod apdu;
pub mod bytes;
pub mod card;
pub mod cbor;
pub mod certs;
pub mod commands;
pub mod crypto;
pub mod exchange;
pub mod satscard;
pub mod session;
pub mod signer;
