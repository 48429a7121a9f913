use vstd::prelude::*;

use crate::errors::CryptoError;
use crate::keys::{Key256, KEY_LEN};
use aes_gcm::aead::{Aead, KeyInit};
use aes_gcm::{Aes256Gcm, Nonce};

verus! {

/// Byte length of the nonce that prefixes every container: 96 bits.
pub const NONCE_LEN: usize = 12;

/// Byte length of the authentication tag the cipher appends: 128 bits.
pub const TAG_LEN: usize = 16;

/// AES-GCM refuses messages longer than 2^36 bytes.
pub const MAX_PLAINTEXT_LEN: u64 = 0x10_0000_0000;

/// What AES-256-GCM sealing returns: the ciphertext with its appended tag,
/// for the given key, nonce and plaintext, with empty associated data. The
/// result depends on those three arguments alone.
pub uninterp spec fn seal_of(key: Seq<u8>, nonce: Seq<u8>, plaintext: Seq<u8>) -> Seq<u8>;

/// The container laid down for one encryption: the nonce, then the sealed
/// bytes.
pub open spec fn container_of(key: Seq<u8>, nonce: Seq<u8>, plaintext: Seq<u8>) -> Seq<u8> {
    nonce + seal_of(key, nonce, plaintext)
}

/// Relies on `aes_gcm::Aes256Gcm` (`Aead::encrypt`): seals the plaintext
/// under the key and 96-bit nonce with empty associated data, appending a
/// 128-bit tag; it fails only on plaintexts longer than AES-GCM's message
/// limit. The result is a function of key, nonce and plaintext alone.
#[verifier::external_body]
fn aead_seal(key: &Vec<u8>, nonce: &Vec<u8>, plaintext: &Vec<u8>) -> (r: Option<Vec<u8>>)
    requires
        key@.len() == KEY_LEN,
        nonce@.len() == NONCE_LEN,
    ensures
        r matches Some(c) ==> c@ == seal_of(key@, nonce@, plaintext@)
            && c@.len() == plaintext@.len() + TAG_LEN,
        plaintext@.len() <= MAX_PLAINTEXT_LEN ==> r is Some,
{
    let cipher = Aes256Gcm::new(aes_gcm::Key::<Aes256Gcm>::from_slice(key));
    match cipher.encrypt(Nonce::from_slice(nonce), plaintext.as_slice()) {
        Ok(c) => Some(c),
        Err(_) => None,
    }
}

/// Relies on `aes_gcm::Aes256Gcm` (`Aead::decrypt`): opens ciphertext‖tag
/// under the key and nonce with empty associated data. It returns the
/// plaintext whose sealing produced exactly these bytes, and fails on
/// anything else — wrong key, corruption or tampering. Callers stay within
/// the cipher's message limit, so every plaintext it can return is one that
/// sealing accepts.
#[verifier::external_body]
fn aead_open(key: &Vec<u8>, nonce: &Vec<u8>, sealed: &Vec<u8>) -> (r: Option<Vec<u8>>)
    requires
        key@.len() == KEY_LEN,
        nonce@.len() == NONCE_LEN,
        sealed@.len() <= MAX_PLAINTEXT_LEN + TAG_LEN,
    ensures
        r matches Some(p) ==> sealed@ == seal_of(key@, nonce@, p@)
            && p@.len() + TAG_LEN == sealed@.len()
            && p@.len() <= MAX_PLAINTEXT_LEN,
        r matches Some(p) ==> forall|q: Seq<u8>|
            q.len() <= MAX_PLAINTEXT_LEN && sealed@ == #[trigger] seal_of(key@, nonce@, q)
                ==> p@ == q,
        r is None ==> forall|q: Seq<u8>|
            q.len() <= MAX_PLAINTEXT_LEN ==> sealed@ != #[trigger] seal_of(key@, nonce@, q),
{
    let cipher = Aes256Gcm::new(aes_gcm::Key::<Aes256Gcm>::from_slice(key));
    match cipher.decrypt(Nonce::from_slice(nonce), sealed.as_slice()) {
        Ok(p) => Some(p),
        Err(_) => None,
    }
}

/// Copy `src[from..to]` into a new vector.
fn copy_range(src: &Vec<u8>, from: usize, to: usize) -> (r: Vec<u8>)
    requires
        from <= to <= src@.len(),
    ensures
        r@ == src@.subrange(from as int, to as int),
{
    let mut out: Vec<u8> = Vec::new();
    assert(out@ =~= src@.subrange(from as int, from as int));
    let mut i: usize = from;
    while i < to
        invariant
            from <= i <= to <= src@.len(),
            out@ == src@.subrange(from as int, i as int),
        decreases to - i,
    {
        out.push(src[i]);
        assert(out@ =~= src@.subrange(from as int, i + 1 as int));
        i = i + 1;
    }
    out
}

/// Frame one encryption's output: the nonce, then the sealed bytes.
pub fn build_container(nonce: &Vec<u8>, sealed: &Vec<u8>) -> (r: Vec<u8>)
    requires
        nonce@.len() == NONCE_LEN,
    ensures
        r@ == nonce@ + sealed@,
{
    let mut out = copy_range(nonce, 0, nonce.len());
    let mut tail = copy_range(sealed, 0, sealed.len());
    out.append(&mut tail);
    assert(out@ =~= nonce@ + sealed@);
    out
}

/// Split a raw container into its nonce and ciphertext‖tag fields; anything
/// shorter than a nonce is malformed.
pub fn parse_container(data: &Vec<u8>) -> (r: Result<(Vec<u8>, Vec<u8>), CryptoError>)
    ensures
        data@.len() >= NONCE_LEN <==> r is Ok,
        r matches Ok(p) ==> p.0@ == data@.subrange(0, NONCE_LEN as int)
            && p.1@ == data@.subrange(NONCE_LEN as int, data@.len() as int),
        r matches Err(e) ==> e == CryptoError::MalformedContainer,
{
    if data.len() < NONCE_LEN {
        Err(CryptoError::MalformedContainer)
    } else {
        let nonce = copy_range(data, 0, NONCE_LEN);
        let sealed = copy_range(data, NONCE_LEN, data.len());
        Ok((nonce, sealed))
    }
}

/// Seal `plaintext` under `key` and the given 96-bit nonce, and frame the
/// result as a container, `nonce || ciphertext‖tag`.
pub fn encrypt_with_nonce(key: &Key256, nonce: &Vec<u8>, plaintext: &Vec<u8>) -> (r: Vec<u8>)
    requires
        key.wf(),
        nonce@.len() == NONCE_LEN,
        plaintext@.len() <= MAX_PLAINTEXT_LEN,
    ensures
        r@ == container_of(key@, nonce@, plaintext@),
        r@.len() == NONCE_LEN + plaintext@.len() + TAG_LEN,
        r@.subrange(0, NONCE_LEN as int) == nonce@,
{
    let sealed = aead_seal(key.as_bytes(), nonce, plaintext);
    let sealed = sealed.unwrap();
    let out = build_container(nonce, &sealed);
    assert(out@.subrange(0, NONCE_LEN as int) =~= nonce@);
    out
}

/// Encrypt: draw a fresh random 96-bit nonce and seal the plaintext under
/// it; the container is the nonce followed by the ciphertext and tag. Fails
/// only where the operating system's random source does.
pub fn encrypt_bytes(key: &Key256, plaintext: &Vec<u8>) -> (r: Result<Vec<u8>, CryptoError>)
    requires
        key.wf(),
        plaintext@.len() <= MAX_PLAINTEXT_LEN,
    ensures
        r matches Ok(c) ==> c@.len() == NONCE_LEN + plaintext@.len() + TAG_LEN
            && c@ == container_of(key@, c@.subrange(0, NONCE_LEN as int), plaintext@),
        r matches Err(e) ==> e == CryptoError::IoError,
{
    match crate::keys::os_random_bytes(NONCE_LEN) {
        Some(nonce) => {
            let c = encrypt_with_nonce(key, &nonce, plaintext);
            Ok(c)
        }
        None => Err(CryptoError::IoError),
    }
}

/// Split a container into its nonce and sealed fields and open it under
/// `key`. Succeeds exactly on the containers that sealing under `key` can
/// produce, and then returns the one plaintext that was sealed; everything
/// else is rejected as malformed or unauthentic, never returned as altered
/// plaintext.
pub fn decrypt_bytes(key: &Key256, container: &Vec<u8>) -> (r: Result<Vec<u8>, CryptoError>)
    requires
        key.wf(),
    ensures
        container@.len() < NONCE_LEN ==> (r matches Err(e) && e == CryptoError::MalformedContainer),
        container@.len() > NONCE_LEN + MAX_PLAINTEXT_LEN + TAG_LEN ==> (r matches Err(e)
            && e == CryptoError::AuthenticationFailed),
        r matches Ok(p) ==> container@.len() >= NONCE_LEN
            && p@.len() + NONCE_LEN + TAG_LEN == container@.len()
            && p@.len() <= MAX_PLAINTEXT_LEN
            && container@ == container_of(key@, container@.subrange(0, NONCE_LEN as int), p@),
        forall|q: Seq<u8>|
            q.len() <= MAX_PLAINTEXT_LEN && container@.len() >= NONCE_LEN
                && container@.len() <= NONCE_LEN + MAX_PLAINTEXT_LEN + TAG_LEN
                && container@ == #[trigger] container_of(key@, container@.subrange(0, NONCE_LEN as int), q)
                ==> (r matches Ok(p) && p@ == q),
        container@.len() >= NONCE_LEN && r is Err ==> (r matches Err(e)
            && e == CryptoError::AuthenticationFailed),
{
    match parse_container(container) {
        Ok((nonce, sealed)) => {
            if sealed.len() as u64 > MAX_PLAINTEXT_LEN + TAG_LEN as u64 {
                // Longer than any sealing the cipher can produce; it would
                // reject this itself, on the same grounds as a bad tag.
                return Err(CryptoError::AuthenticationFailed);
            }
            proof {
                assert forall|q: Seq<u8>|
                    q.len() <= MAX_PLAINTEXT_LEN
                        && container@ == container_of(key@, nonce@, q)
                    implies sealed@ == seal_of(key@, nonce@, q) by {
                    assert(sealed@ =~= (nonce@ + seal_of(key@, nonce@, q)).subrange(
                        NONCE_LEN as int,
                        container@.len() as int,
                    ));
                }
            }
            match aead_open(key.as_bytes(), &nonce, &sealed) {
                Some(p) => {
                    proof {
                        assert(container@ =~= nonce@ + sealed@);
                    }
                    Ok(p)
                }
                None => Err(CryptoError::AuthenticationFailed),
            }
        }
        Err(e) => Err(e),
    }
}

/// The two operations the tool can perform.
#[derive(Clone, Copy, Debug, PartialEq, Eq, Structural)]
pub enum Mode {
    Encrypt,
    Decrypt,
}

/// One whole run of the cipher on in-memory bytes: seal the input under a
/// fresh random nonce, or open it as a container, according to `mode`.
pub fn run_bytes(mode: Mode, key: &Key256, input: &Vec<u8>) -> (r: Result<Vec<u8>, CryptoError>)
    requires
        key.wf(),
        mode is Encrypt ==> input@.len() <= MAX_PLAINTEXT_LEN,
    ensures
        mode is Encrypt ==> (r matches Ok(c) ==> c@.len() == NONCE_LEN + input@.len() + TAG_LEN
            && c@ == container_of(key@, c@.subrange(0, NONCE_LEN as int), input@)),
        mode is Encrypt ==> (r matches Err(e) ==> e == CryptoError::IoError),
        mode is Decrypt ==> (input@.len() < NONCE_LEN ==> (r matches Err(e)
            && e == CryptoError::MalformedContainer)),
        mode is Decrypt ==> (input@.len() > NONCE_LEN + MAX_PLAINTEXT_LEN + TAG_LEN ==> (
        r matches Err(e) && e == CryptoError::AuthenticationFailed)),
        mode is Decrypt ==> (r matches Ok(p) ==> input@.len() >= NONCE_LEN
            && p@.len() + NONCE_LEN + TAG_LEN == input@.len()
            && p@.len() <= MAX_PLAINTEXT_LEN
            && input@ == container_of(key@, input@.subrange(0, NONCE_LEN as int), p@)),
        mode is Decrypt ==> (forall|q: Seq<u8>|
            q.len() <= MAX_PLAINTEXT_LEN && input@.len() >= NONCE_LEN
                && input@.len() <= NONCE_LEN + MAX_PLAINTEXT_LEN + TAG_LEN
                && input@ == #[trigger] container_of(key@, input@.subrange(0, NONCE_LEN as int), q)
                ==> (r matches Ok(p) && p@ == q)),
        mode is Decrypt ==> (input@.len() >= NONCE_LEN && r is Err ==> (r matches Err(e)
            && e == CryptoError::AuthenticationFailed)),
{
    match mode {
        Mode::Encrypt => encrypt_bytes(key, input),
        Mode::Decrypt => decrypt_bytes(key, input),
    }
}

/// Round-trip law: the container that encryption builds from plaintext `p`
/// under `key` and a 96-bit `nonce` carries that nonce verbatim in its
/// first field, and is exactly the container whose decryption under `key`
/// is guaranteed to return `p`.
pub proof fn lemma_round_trip(key: Seq<u8>, nonce: Seq<u8>, p: Seq<u8>, c: Seq<u8>)
    requires
        nonce.len() == NONCE_LEN,
        p.len() <= MAX_PLAINTEXT_LEN,
        c == container_of(key, nonce, p),
        c.len() == NONCE_LEN + p.len() + TAG_LEN,
    ensures
        c.len() >= NONCE_LEN,
        c.len() <= NONCE_LEN + MAX_PLAINTEXT_LEN + TAG_LEN,
        c.subrange(0, NONCE_LEN as int) == nonce,
        c == container_of(key, c.subrange(0, NONCE_LEN as int), p),
        p.len() + NONCE_LEN + TAG_LEN == c.len(),
{
    assert(c.subrange(0, NONCE_LEN as int) =~= nonce);
}

} // verus!
