//! A bilateral agreement-signing protocol: two parties commit to an identical
//! sequence of terms, each signing with a fresh one-time keypair derived
//! deterministically from the signer's identity and the agreement content.

pub mod agreement;
pub mod encoding;
pub mod hashing;
pub mod lamport;
pub mod protocol;

