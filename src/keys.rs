//! Recovery of a track's AES-128 key and CTR nonce from its base64 key identifier.

use aes::cipher::BlockDecryptMut;
use aes::cipher::KeyIvInit;
use base64::Engine;
use vstd::prelude::*;

verus! {

/// What base64's standard engine (with padding) decodes `s` to, or `None` where it
/// rejects `s`.
pub uninterp spec fn base64_standard_decode(s: Seq<char>) -> Option<Seq<u8>>;

/// What AES-256-CBC decryption with PKCS#7 unpadding gives for ciphertext `ct` under
/// `key` and `iv`, or `None` where it fails.
pub uninterp spec fn aes256_cbc_pkcs7_decrypt(key: Seq<u8>, iv: Seq<u8>, ct: Seq<u8>) -> Option<
    Seq<u8>,
>;

/// Relies on base64's `engine::general_purpose::STANDARD.decode`: the decoded bytes, or
/// an error, determined by the text alone.
#[verifier::external_body]
fn base64_decode(s: &str) -> (r: Option<Vec<u8>>)
    ensures
        match base64_standard_decode(s@) {
            Some(b) => r.is_some() && r.unwrap()@ == b,
            None => r.is_none(),
        },
{
    base64::engine::general_purpose::STANDARD.decode(s.as_bytes()).ok()
}

/// Relies on cbc's `Decryptor<Aes256>` (`KeyIvInit::new`, `decrypt_padded_mut` with
/// `Pkcs7`): the unpadded plaintext, or an error, determined by key, IV and ciphertext.
#[verifier::external_body]
fn aes256_cbc_decrypt(key: &[u8; 32], iv: &[u8; 16], ct: &[u8]) -> (r: Option<Vec<u8>>)
    ensures
        match aes256_cbc_pkcs7_decrypt(key@, iv@, ct@) {
            Some(p) => r.is_some() && r.unwrap()@ == p,
            None => r.is_none(),
        },
{
    let mut buf = ct.to_vec();
    let dec = cbc::Decryptor::<aes::Aes256>::new(key.into(), iv.into());
    dec.decrypt_padded_mut::<aes::cipher::block_padding::Pkcs7>(&mut buf).ok().map(|p| p.to_vec())
}

/// Why a key identifier could not be unwrapped.
#[derive(Debug, Clone, Copy, PartialEq, Eq, Structural)]
pub enum KeyError {
    /// The identifier is empty, is not base64, or holds fewer than 16 bytes.
    BadKeyId,
    /// AES-256-CBC decryption or its PKCS#7 padding failed.
    UnwrapFailed,
    /// The unwrapped plaintext holds fewer than 24 bytes.
    KeyTooShort,
}

/// The 32-byte AES-256 master key that wraps every per-track key.
pub struct MasterKey {
    bytes: [u8; 32],
}

/// A per-track AES-128 key and the 8-byte nonce of its counter blocks.
pub struct UnwrappedKey {
    pub key: [u8; 16],
    pub nonce: [u8; 8],
}

/// The key and nonce that `key_id` unwraps to under `master`, or why it does not.
pub open spec fn unwrap_spec(master: Seq<u8>, key_id: Seq<char>) -> Result<
    (Seq<u8>, Seq<u8>),
    KeyError,
> {
    if key_id.len() == 0 {
        Err(KeyError::BadKeyId)
    } else {
        match base64_standard_decode(key_id) {
            None => Err(KeyError::BadKeyId),
            Some(b) => if b.len() < 16 {
                Err(KeyError::BadKeyId)
            } else {
                match aes256_cbc_pkcs7_decrypt(master, b.subrange(0, 16), b.subrange(16, b.len() as int)) {
                    None => Err(KeyError::UnwrapFailed),
                    Some(p) => if p.len() < 24 {
                        Err(KeyError::KeyTooShort)
                    } else {
                        Ok((p.subrange(0, 16), p.subrange(16, 24)))
                    },
                }
            },
        }
    }
}

/// The `N` bytes of `src` from `start` on.
fn take_array<const N: usize>(src: &[u8], start: usize) -> (r: [u8; N])
    requires
        start + N <= src@.len(),
    ensures
        r@ == src@.subrange(start as int, start + N),
{
    let n: usize = src.len();
    let mut out: [u8; N] = [0u8; N];
    let mut k: usize = 0;
    while k < N
        invariant
            k <= N,
            start + N <= src@.len(),
            n == src@.len(),
            out@.len() == N,
            forall|i: int| 0 <= i < k ==> out@[i] == src@[start + i],
        decreases N - k,
    {
        out[k] = src[start + k];
        k = k + 1;
    }
    assert(out@ =~= src@.subrange(start as int, start + N));
    out
}

impl MasterKey {
    /// The master key's bytes.
    pub closed spec fn view_bytes(&self) -> Seq<u8> {
        self.bytes@
    }

    /// A master key from its raw bytes.
    pub fn from_bytes(bytes: [u8; 32]) -> (r: MasterKey)
        ensures
            r.view_bytes() == bytes@,
    {
        MasterKey { bytes }
    }

    /// A master key from its base64 text; `None` unless that decodes to exactly 32 bytes.
    pub fn from_base64(text: &str) -> (r: Option<MasterKey>)
        ensures
            match base64_standard_decode(text@) {
                Some(b) => if b.len() == 32 {
                    r.is_some() && r.unwrap().view_bytes() == b
                } else {
                    r.is_none()
                },
                None => r.is_none(),
            },
    {
        match base64_decode(text) {
            None => None,
            Some(b) => {
                if b.len() == 32 {
                    Some(MasterKey { bytes: take_array::<32>(b.as_slice(), 0) })
                } else {
                    None
                }
            },
        }
    }
}

/// Unwraps `key_id_b64`: base64-decodes it, takes its first 16 bytes as the IV and the
/// rest as AES-256-CBC ciphertext under `master`, and splits the plaintext into the
/// 16-byte key and the 8-byte nonce that follows; later bytes are ignored.
pub fn decrypt_key_id(key_id_b64: &str, master: &MasterKey) -> (r: Result<UnwrappedKey, KeyError>)
    ensures
        match unwrap_spec(master.view_bytes(), key_id_b64@) {
            Ok((k, n)) => r.is_ok() && r.unwrap().key@ == k && r.unwrap().nonce@ == n,
            Err(e) => r == Err::<UnwrappedKey, KeyError>(e),
        },
{
    if key_id_b64.is_empty() {
        return Err(KeyError::BadKeyId);
    }
    let bytes = match base64_decode(key_id_b64) {
        None => {
            return Err(KeyError::BadKeyId);
        },
        Some(b) => b,
    };
    let len: usize = bytes.len();
    if len < 16 {
        return Err(KeyError::BadKeyId);
    }
    let iv = take_array::<16>(bytes.as_slice(), 0);
    let wrapped = &bytes.as_slice()[16..len];
    let plain = match aes256_cbc_decrypt(&master.bytes, &iv, wrapped) {
        None => {
            return Err(KeyError::UnwrapFailed);
        },
        Some(p) => p,
    };
    if plain.len() < 24 {
        return Err(KeyError::KeyTooShort);
    }
    let key = take_array::<16>(plain.as_slice(), 0);
    let nonce = take_array::<8>(plain.as_slice(), 16);
    Ok(UnwrappedKey { key, nonce })
}

} // verus!
