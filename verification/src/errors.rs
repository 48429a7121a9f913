use vstd::prelude::*;

verus! {

/// Everything that can go wrong in one run of the tool.
///
/// Every fallible operation of the library reports exactly one of these;
/// nothing is retried and no failure is mapped to an empty success.
#[derive(Clone, Copy, Debug, PartialEq, Eq, Structural)]
pub enum CryptoError {
    /// A file could not be read or written, or the operating system's
    /// random source failed.
    IoError,
    /// A stored key file does not hold exactly the required key length.
    InvalidKeyMaterial,
    /// The input to decryption is shorter than the smallest possible
    /// container.
    MalformedContainer,
    /// The cipher rejected the ciphertext: wrong key, corruption or
    /// tampering.
    AuthenticationFailed,
    /// A required command-line argument was missing.
    UsageError,
}

} // verus!
