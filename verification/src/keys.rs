use vstd::prelude::*;

use crate::errors::CryptoError;
use rand::RngCore;

verus! {

/// Exact byte length of a key: AES-256 uses 256-bit keys.
pub const KEY_LEN: usize = 32;

/// A 256-bit symmetric key, held as exactly [`KEY_LEN`] bytes.
///
/// The bytes live in ordinary memory for the duration of one operation and
/// are not zeroed on drop; keep a value of this type no longer than needed.
#[derive(Clone, Debug)]
pub struct Key256 {
    bytes: Vec<u8>,
}

impl View for Key256 {
    type V = Seq<u8>;

    /// The mathematical value of a key is its byte sequence.
    closed spec fn view(&self) -> Seq<u8> {
        self.bytes@
    }
}

impl Key256 {
    /// A key is well formed when it holds exactly [`KEY_LEN`] bytes.
    pub open spec fn wf(&self) -> bool {
        self@.len() == KEY_LEN
    }

    /// Accept stored bytes as a key only when they have exactly the
    /// required length; anything else is corrupt or incompatible key
    /// material, never silently truncated or padded.
    pub fn from_bytes(bytes: Vec<u8>) -> (r: Result<Key256, CryptoError>)
        ensures
            bytes@.len() == KEY_LEN <==> r is Ok,
            r matches Ok(k) ==> k.wf() && k@ == bytes@,
            r matches Err(e) ==> e == CryptoError::InvalidKeyMaterial,
    {
        if bytes.len() == KEY_LEN {
            Ok(Key256 { bytes })
        } else {
            Err(CryptoError::InvalidKeyMaterial)
        }
    }

    /// Borrow the raw key bytes, e.g. to persist a fresh key.
    pub fn as_bytes(&self) -> (r: &Vec<u8>)
        ensures
            r@ == self@,
    {
        &self.bytes
    }

    /// Draw a fresh key from the operating system's secure random source.
    pub fn generate() -> (r: Result<Key256, CryptoError>)
        ensures
            r matches Ok(k) ==> k.wf(),
            r matches Err(e) ==> e == CryptoError::IoError,
    {
        match os_random_bytes(KEY_LEN) {
            Some(bytes) => Ok(Key256 { bytes }),
            None => Err(CryptoError::IoError),
        }
    }
}

/// The reuse rule of the key store: stored bytes are accepted as the key
/// exactly when they have the required length, and then verbatim.
pub open spec fn reuse_of(stored: Seq<u8>) -> Option<Seq<u8>> {
    if stored.len() == KEY_LEN {
        Some(stored)
    } else {
        None
    }
}

/// The outcome of resolving the key store: an existing key reused, or a
/// fresh key that the caller must persist before any later run.
pub enum StoredKey {
    /// The stored bytes were a valid key; it is reused.
    Existing(Key256),
    /// No key was stored; a fresh one was generated.
    Fresh(Key256),
}

/// The key store's rule, applied to what a read of the key file returned
/// (`None` where no key file exists): reuse a stored key of exactly the
/// required length, reject any other stored contents as corrupt or
/// incompatible, and generate a fresh key where none is stored. An existing
/// key file is never replaced.
pub fn get_or_create(stored: Option<Vec<u8>>) -> (r: Result<StoredKey, CryptoError>)
    ensures
        stored matches Some(b) ==> match r {
            Ok(sk) => sk matches StoredKey::Existing(k) && k.wf() && reuse_of(b@) == Some(k@),
            Err(e) => reuse_of(b@) is None && e == CryptoError::InvalidKeyMaterial,
        },
        stored is None ==> match r {
            Ok(sk) => sk matches StoredKey::Fresh(k) && k.wf(),
            Err(e) => e == CryptoError::IoError,
        },
{
    match stored {
        Some(b) => match Key256::from_bytes(b) {
            Ok(k) => Ok(StoredKey::Existing(k)),
            Err(e) => Err(e),
        },
        None => match Key256::generate() {
            Ok(k) => Ok(StoredKey::Fresh(k)),
            Err(e) => Err(e),
        },
    }
}

/// Key persistence, load side: two runs that read the same stored key file
/// resolve to byte-identical keys.
pub proof fn lemma_key_persistence(stored: Seq<u8>, k1: Seq<u8>, k2: Seq<u8>)
    requires
        reuse_of(stored) == Some(k1),
        reuse_of(stored) == Some(k2),
    ensures
        k1 == k2,
{
}

/// Key persistence, store side: a fresh key persisted verbatim is exactly
/// what a later load of that file resolves to.
pub proof fn lemma_fresh_key_reused(k: Seq<u8>)
    requires
        k.len() == KEY_LEN,
    ensures
        reuse_of(k) == Some(k),
{
}

/// Relies on `rand::rngs::OsRng` (`RngCore::try_fill_bytes`): on success the
/// buffer is filled from the operating system's cryptographically secure
/// random source. Nothing is promised of the bytes themselves.
#[verifier::external_body]
pub(crate) fn os_random_bytes(n: usize) -> (r: Option<Vec<u8>>)
    ensures
        r matches Some(b) ==> b@.len() == n,
{
    let mut buf = vec![0u8; n];
    match rand::rngs::OsRng.try_fill_bytes(&mut buf) {
        Ok(()) => Some(buf),
        Err(_) => None,
    }
}

} // verus!
