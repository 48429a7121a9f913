//! A small authenticated file-encryption library.
//!
//! A 256-bit key is loaded from, or freshly generated for, a key store;
//! plaintext bytes are sealed under AES-256-GCM with a per-operation nonce
//! into a self-describing container, `nonce || ciphertext‖tag`, and such
//! containers are opened back into plaintext, with tampering and wrong keys
//! rejected.

pub mod cipher;
pub mod errors;
pub mod keys;
