//! Blind Schnorr signatures for Nostr events: the verified core of the
//! signing server and of the browser client.
pub mod hexcode;
pub mod secp;
pub mod keys;
pub mod json;
pub mod nostr;
pub mod nevent;
pub mod nonces;
pub mod api;
pub mod client;
pub mod signer;
