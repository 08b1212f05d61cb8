//! AES-128-CTR decryption of arbitrary byte ranges of a track's ciphertext stream.

use aes::cipher::KeyIvInit;
use aes::cipher::StreamCipher;
use crate::keys::decrypt_key_id;
use crate::keys::unwrap_spec;
use crate::keys::KeyError;
use crate::keys::MasterKey;
use vstd::prelude::*;

verus! {

/// The AES-128 encryption of one 16-byte block under a 16-byte key.
pub uninterp spec fn aes128_encrypt_block(key: Seq<u8>, block: Seq<u8>) -> Seq<u8>;

/// The eight big-endian bytes of `n`.
pub open spec fn be64(n: u64) -> Seq<u8> {
    seq![
        (n >> 56u64) as u8,
        (n >> 48u64) as u8,
        (n >> 40u64) as u8,
        (n >> 32u64) as u8,
        (n >> 24u64) as u8,
        (n >> 16u64) as u8,
        (n >> 8u64) as u8,
        n as u8,
    ]
}

/// The integer held by the first eight bytes of `s`, read big-endian.
pub open spec fn be_u64(s: Seq<u8>) -> u64 {
    ((s[0] as u64) << 56u64) | ((s[1] as u64) << 48u64) | ((s[2] as u64) << 40u64) | ((
    s[3] as u64) << 32u64) | ((s[4] as u64) << 24u64) | ((s[5] as u64) << 16u64) | ((
    s[6] as u64) << 8u64) | (s[7] as u64)
}

/// The counter block for block `index` of a stream: the nonce, then the index big-endian.
pub open spec fn counter_block(nonce: Seq<u8>, index: u64) -> Seq<u8> {
    nonce + be64(index)
}

/// The keystream byte at absolute position `pos` of a stream.
pub open spec fn keystream_byte(key: Seq<u8>, nonce: Seq<u8>, pos: nat) -> u8 {
    aes128_encrypt_block(key, counter_block(nonce, (pos / 16) as u64))[(pos % 16) as int]
}

/// The plaintext of `ct`, whose first byte stands at absolute position `offset` of the stream.
pub open spec fn ctr_decrypt(key: Seq<u8>, nonce: Seq<u8>, ct: Seq<u8>, offset: nat) -> Seq<u8> {
    Seq::new(ct.len(), |j: int| ct[j] ^ keystream_byte(key, nonce, (offset + j) as nat))
}

/// The counter block `i` blocks after `iv`, as long as the low 64 bits do not wrap.
pub open spec fn counter_after(iv: Seq<u8>, i: int) -> Seq<u8> {
    iv.subrange(0, 8) + be64((be_u64(iv.subrange(8, 16)) + i) as u64)
}

/// Relies on ctr's `Ctr128BE<Aes128>` (`KeyIvInit::new`, `StreamCipher::apply_keystream`):
/// byte `i` of the buffer is XORed with byte `i % 16` of the AES-128 encryption of the
/// initial counter block plus `i / 16`, taken as a 128-bit big-endian integer; the
/// length is kept. Stated for the positions where the low 64 bits do not wrap.
#[verifier::external_body]
fn aes128_ctr_apply(key: &[u8; 16], iv: &[u8; 16], buf: &mut Vec<u8>)
    ensures
        final(buf)@.len() == old(buf)@.len(),
        forall|i: int|
            0 <= i < old(buf)@.len() && be_u64(iv@.subrange(8, 16)) + i / 16 <= u64::MAX
                ==> #[trigger] final(buf)@[i] == old(buf)@[i] ^ aes128_encrypt_block(
                key@,
                counter_after(iv@, i / 16),
            )[i % 16],
{
    let mut cipher = ctr::Ctr128BE::<aes::Aes128>::new(key.into(), iv.into());
    cipher.apply_keystream(buf.as_mut_slice());
}

proof fn lemma_be_u64_of_be64(n: u64)
    ensures
        be_u64(be64(n)) == n,
{
    let s = be64(n);
    assert(s[0] == (n >> 56u64) as u8);
    assert(s[7] == n as u8);
    assert((((n >> 56u64) as u8 as u64) << 56u64) | (((n >> 48u64) as u8 as u64) << 48u64) | ((
    (n >> 40u64) as u8 as u64) << 40u64) | (((n >> 32u64) as u8 as u64) << 32u64) | (((n
        >> 24u64) as u8 as u64) << 24u64) | (((n >> 16u64) as u8 as u64) << 16u64) | (((n
        >> 8u64) as u8 as u64) << 8u64) | (n as u8 as u64) == n) by (bit_vector);
}

/// Decryptor of one track's stream, holding the unwrapped per-track key and nonce.
#[derive(Clone, Copy)]
pub struct FlacDecryptor {
    key: [u8; 16],
    nonce: [u8; 8],
}

impl FlacDecryptor {
    /// The 16-byte AES-128 key.
    pub closed spec fn key_view(&self) -> Seq<u8> {
        self.key@
    }

    /// The 8-byte nonce that prefixes every counter block.
    pub closed spec fn nonce_view(&self) -> Seq<u8> {
        self.nonce@
    }

    /// A decryptor for the track whose key identifier is `encryption_key_b64`, with its
    /// key and nonce unwrapped under `master`.
    pub fn new(encryption_key_b64: &str, master: &MasterKey) -> (r: Result<FlacDecryptor, KeyError>)
        ensures
            match unwrap_spec(master.view_bytes(), encryption_key_b64@) {
                Ok((k, n)) => r.is_ok() && r.unwrap().key_view() == k && r.unwrap().nonce_view() == n,
                Err(e) => r == Err::<FlacDecryptor, KeyError>(e),
            },
    {
        match decrypt_key_id(encryption_key_b64, master) {
            Ok(unwrapped) => Ok(FlacDecryptor { key: unwrapped.key, nonce: unwrapped.nonce }),
            Err(e) => Err(e),
        }
    }

    /// A decryptor for the given key and nonce.
    pub fn from_parts(key: [u8; 16], nonce: [u8; 8]) -> (r: FlacDecryptor)
        ensures
            r.key_view() == key@,
            r.nonce_view() == nonce@,
    {
        FlacDecryptor { key, nonce }
    }

    /// The counter block with which the keystream block holding `byte_offset` starts.
    pub fn build_iv_for_offset(&self, byte_offset: u64) -> (r: [u8; 16])
        ensures
            r@ == counter_block(self.nonce_view(), byte_offset / 16),
    {
        let block: u64 = byte_offset / 16;
        let mut iv: [u8; 16] = [0u8; 16];
        let mut k: usize = 0;
        while k < 8
            invariant
                0 <= k <= 8,
                iv@.len() == 16,
                forall|i: int| 0 <= i < k ==> iv@[i] == self.nonce@[i],
            decreases 8 - k,
        {
            iv[k] = self.nonce[k];
            k = k + 1;
        }
        iv[8] = (block >> 56u64) as u8;
        iv[9] = (block >> 48u64) as u8;
        iv[10] = (block >> 40u64) as u8;
        iv[11] = (block >> 32u64) as u8;
        iv[12] = (block >> 24u64) as u8;
        iv[13] = (block >> 16u64) as u8;
        iv[14] = (block >> 8u64) as u8;
        iv[15] = block as u8;
        assert(iv@ =~= counter_block(self.nonce@, block));
        iv
    }
}

proof fn lemma_block_split(o: int, j: int)
    requires
        o >= 0,
        j >= 0,
    ensures
        o / 16 + (o % 16 + j) / 16 == (o + j) / 16,
        (o % 16 + j) % 16 == (o + j) % 16,
{
    let q = o / 16;
    let r = o % 16;
    assert(o == 16 * q + r);
    assert((16 * q + (r + j)) / 16 == q + (r + j) / 16) by (nonlinear_arith)
        requires
            r + j >= 0,
    ;
    assert((16 * q + (r + j)) % 16 == (r + j) % 16) by (nonlinear_arith)
        requires
            r + j >= 0,
    ;
}

impl FlacDecryptor {
    /// Decrypts `encrypted_data`, whose first byte stands at absolute position
    /// `byte_offset` of the ciphertext stream. The keystream is started at the block
    /// holding `byte_offset`, with `byte_offset % 16` leading filler bytes so that it
    /// lines up with the data.
    pub fn decrypt_chunk(&self, encrypted_data: &[u8], byte_offset: u64) -> (r: Vec<u8>)
        ensures
            r@ == ctr_decrypt(self.key_view(), self.nonce_view(), encrypted_data@, byte_offset as nat),
    {
        let n: usize = encrypted_data.len();
        if n == 0 {
            let empty: Vec<u8> = Vec::new();
            assert(empty@ =~= ctr_decrypt(self.key@, self.nonce@, encrypted_data@, byte_offset as nat));
            return empty;
        }
        let lead: usize = (byte_offset % 16) as usize;
        let iv = self.build_iv_for_offset(byte_offset);
        let mut buf: Vec<u8> = Vec::new();
        let mut k: usize = 0;
        while k < lead
            invariant
                k <= lead,
                buf@.len() == k,
            decreases lead - k,
        {
            buf.push(0u8);
            k = k + 1;
        }
        let mut i: usize = 0;
        while i < n
            invariant
                i <= n,
                n == encrypted_data@.len(),
                buf@.len() == lead + i,
                forall|t: int| 0 <= t < i ==> buf@[lead + t] == encrypted_data@[t],
            decreases n - i,
        {
            buf.push(encrypted_data[i]);
            i = i + 1;
        }
        let ghost before = buf@;
        aes128_ctr_apply(&self.key, &iv, &mut buf);
        proof {
            let block = byte_offset / 16;
            assert(iv@.subrange(8, 16) =~= be64(block));
            assert(iv@.subrange(0, 8) =~= self.nonce@);
            lemma_be_u64_of_be64(block);
            assert forall|t: int| 0 <= t < n implies buf@[lead + t] == encrypted_data@[t]
                ^ keystream_byte(self.key@, self.nonce@, (byte_offset + t) as nat) by {
                lemma_block_split(byte_offset as int, t);
                let p = lead + t;
                assert(before[p] == encrypted_data@[t]);
                assert(be_u64(iv@.subrange(8, 16)) + p / 16 <= u64::MAX);
                assert(buf@[p] == before[p] ^ aes128_encrypt_block(self.key@, counter_after(iv@, p / 16))[p % 16]);
                assert(counter_after(iv@, p / 16) == counter_block(self.nonce@, ((byte_offset + t) / 16) as u64));
            }
        }
        let total: usize = buf.len();
        let mut out: Vec<u8> = Vec::new();
        let mut t: usize = 0;
        while t < n
            invariant
                t <= n,
                n == encrypted_data@.len(),
                buf@.len() == lead + n,
                total == lead + n,
                out@.len() == t,
                forall|s: int| 0 <= s < t ==> out@[s] == buf@[lead + s],
            decreases n - t,
        {
            out.push(buf[lead + t]);
            t = t + 1;
        }
        proof {
            assert(out@ =~= ctr_decrypt(self.key@, self.nonce@, encrypted_data@, byte_offset as nat));
        }
        out
    }
}

/// Decrypting any slice `ct[a..b]` of a stream at its own absolute offset `a` gives
/// exactly bytes `a..b` of the plaintext of the whole stream decrypted from offset 0.
pub proof fn lemma_slice_round_trip(key: Seq<u8>, nonce: Seq<u8>, ct: Seq<u8>, a: int, b: int)
    requires
        0 <= a <= b <= ct.len(),
    ensures
        ctr_decrypt(key, nonce, ct.subrange(a, b), a as nat) == ctr_decrypt(key, nonce, ct, 0).subrange(
            a,
            b,
        ),
{
    assert(ctr_decrypt(key, nonce, ct.subrange(a, b), a as nat) =~= ctr_decrypt(key, nonce, ct, 0).subrange(a, b));
}

/// Decrypting two consecutive chunks, each at its own absolute offset, and joining the
/// plaintexts gives the plaintext of the joined ciphertext.
pub proof fn lemma_consecutive_chunks(key: Seq<u8>, nonce: Seq<u8>, c1: Seq<u8>, c2: Seq<u8>, offset: nat)
    ensures
        ctr_decrypt(key, nonce, c1, offset) + ctr_decrypt(key, nonce, c2, offset + c1.len())
            == ctr_decrypt(key, nonce, c1 + c2, offset),
{
    assert(ctr_decrypt(key, nonce, c1, offset) + ctr_decrypt(key, nonce, c2, offset + c1.len())
        =~= ctr_decrypt(key, nonce, c1 + c2, offset));
}

/// Where a chunk starts within its keystream block does not change its plaintext: a
/// chunk decrypted behind any `k` leading bytes, at the offset `k` bytes earlier,
/// gives the same bytes as the chunk decrypted alone at its own offset.
pub proof fn lemma_alignment_independent(key: Seq<u8>, nonce: Seq<u8>, lead: Seq<u8>, ct: Seq<u8>, offset: nat)
    requires
        lead.len() <= offset,
    ensures
        ctr_decrypt(key, nonce, lead + ct, (offset - lead.len()) as nat).subrange(
            lead.len() as int,
            (lead.len() + ct.len()) as int,
        ) == ctr_decrypt(key, nonce, ct, offset),
{
    assert(ctr_decrypt(key, nonce, lead + ct, (offset - lead.len()) as nat).subrange(
        lead.len() as int,
        (lead.len() + ct.len()) as int,
    ) =~= ctr_decrypt(key, nonce, ct, offset));
}

} // verus!
