use vstd::prelude::*;

use crate::error::DehydrationError;

verus! {

/// The standard base64 alphabet.
pub open spec fn base64_alphabet() -> Seq<char> {
    "ABCDEFGHIJKLMNOPQRSTUVWXYZabcdefghijklmnopqrstuvwxyz0123456789+/"@
}

/// The base64 text (standard alphabet, no padding) of a byte sequence: each
/// three bytes make four characters, a last one or two bytes make two or three.
pub open spec fn base64_of(bytes: Seq<u8>) -> Seq<char>
    decreases bytes.len(),
{
    let a = base64_alphabet();
    if bytes.len() == 0 {
        seq![]
    } else if bytes.len() == 1 {
        let x = bytes[0] as int;
        seq![a[x / 4], a[(x % 4) * 16]]
    } else if bytes.len() == 2 {
        let x = bytes[0] as int;
        let y = bytes[1] as int;
        seq![a[x / 4], a[(x % 4) * 16 + y / 16], a[(y % 16) * 4]]
    } else {
        let x = bytes[0] as int;
        let y = bytes[1] as int;
        let z = bytes[2] as int;
        seq![a[x / 4], a[(x % 4) * 16 + y / 16], a[(y % 16) * 4 + z / 64], a[z % 64]] + base64_of(bytes.subrange(3, bytes.len() as int))
    }
}

/// The 32 bytes that HKDF-SHA-256 expands from a key, with the UTF-8 bytes
/// of a salt and of an info text.
pub uninterp spec fn hkdf_sha256_of(ikm: Seq<u8>, salt: Seq<char>, info: Seq<char>) -> Seq<u8>;

/// The info text of the legacy key derivation.
pub open spec fn legacy_key_info() -> Seq<char> {
    "dehydrated-device-pickle-key"@
}

/// The key that the legacy encoding of a device is made under: HKDF-SHA-256
/// of the pickle key, salted with the device id, under the legacy info text.
pub open spec fn legacy_key_of(pickle_key: Seq<u8>, device_id: Seq<char>) -> Seq<u8> {
    hkdf_sha256_of(pickle_key, device_id, legacy_key_info())
}

/// Relies on vodozemac's `base64_encode`: base64 without padding, a function
/// of the bytes alone.
#[verifier::external_body]
fn encode_base64(bytes: &[u8; 32]) -> (r: String)
    ensures
        r@ == base64_of(bytes@),
{
    vodozemac::base64_encode(bytes)
}

/// Relies on hkdf's `Hkdf::<Sha256>::new` and `expand` over the UTF-8 bytes
/// of salt and info; `expand` fails only for an output longer than 255
/// hashes, never for 32 bytes.
#[verifier::external_body]
fn hkdf_sha256(ikm: &[u8; 32], salt: &str, info: &str) -> (r: [u8; 32])
    ensures
        r@ == hkdf_sha256_of(ikm@, salt@, info@),
{
    let kdf: hkdf::Hkdf<sha2::Sha256> = hkdf::Hkdf::new(Some(salt.as_bytes()), ikm);
    let mut out = [0u8; 32];
    kdf.expand(info.as_bytes(), &mut out).expect("32 bytes is a valid HKDF output length");
    out
}

/// Relies on rand's `random`: 32 bytes from the thread's generator.
#[verifier::external_body]
fn random_key_bytes() -> [u8; 32] {
    rand::random::<[u8; 32]>()
}

/// The number of bytes of a pickle key.
pub const PICKLE_KEY_LEN: usize = 32;

/// The symmetric key that protects the private parts of a dehydrated device.
#[derive(Debug, Clone, Copy)]
pub struct DehydratedDeviceKey {
    pub inner: [u8; 32],
}

impl DehydratedDeviceKey {
    /// The key's bytes.
    pub open spec fn view(&self) -> Seq<u8> {
        self.inner@
    }

    /// A fresh random key.
    pub fn new() -> Self {
        let bytes = random_key_bytes();
        DehydratedDeviceKey { inner: bytes }
    }

    /// The key in base64, for storage or display.
    pub fn to_base64(&self) -> (r: String)
        ensures
            r@ == base64_of(self@),
    {
        encode_base64(&self.inner)
    }

    /// The key the legacy encoding of this device is made under.
    pub fn legacy_key(&self, device_id: &str) -> (r: [u8; 32])
        ensures
            r@ == legacy_key_of(self@, device_id@),
    {
        hkdf_sha256(&self.inner, device_id, "dehydrated-device-pickle-key")
    }

    /// Wraps 32 raw bytes.
    pub fn from_bytes(raw_key: &[u8; 32]) -> (r: Self)
        ensures
            r@ == raw_key@,
    {
        DehydratedDeviceKey { inner: *raw_key }
    }

    /// Builds a key from a byte sequence, which must hold exactly 32 bytes.
    pub fn from_slice(slice: &[u8]) -> (r: Result<Self, DehydrationError>)
        ensures
            slice@.len() == PICKLE_KEY_LEN ==> (r matches Ok(k) && k@ == slice@),
            slice@.len() != PICKLE_KEY_LEN ==> (r matches Err(DehydrationError::PickleKeyLength(n)) && n == slice@.len()),
    {
        if slice.len() != PICKLE_KEY_LEN {
            return Err(DehydrationError::PickleKeyLength(slice.len()));
        }
        let mut key = [0u8; 32];
        let mut i: usize = 0;
        while i < PICKLE_KEY_LEN
            invariant
                slice@.len() == PICKLE_KEY_LEN,
                i <= PICKLE_KEY_LEN,
                forall|j: int| 0 <= j < i ==> key@[j] == slice@[j],
            decreases PICKLE_KEY_LEN - i,
        {
            key[i] = slice[i];
            i = i + 1;
        }
        assert(key@ =~= slice@);
        Ok(DehydratedDeviceKey { inner: key })
    }

    /// The key's bytes, as a slice.
    pub fn as_bytes(&self) -> (r: &[u8; 32])
        ensures
            r@ == self@,
    {
        &self.inner
    }
}

} // verus!
