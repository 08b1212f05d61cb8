//! The loopback relay's per-connection decisions: which track to serve, what to ask
//! the origin for, how to read its status, and the decrypted bytes to send, preloaded
//! head first.

use crate::cipher::ctr_decrypt;
use crate::cipher::FlacDecryptor;
use crate::keys::unwrap_spec;
use crate::keys::KeyError;
use crate::keys::MasterKey;
use crate::state::PreloadState;
use crate::state::TrackInfo;
use crate::state::TrackRegistry;
use crate::state::PRELOAD_BYTES;
use vstd::prelude::*;
use vstd::string::StringExecFns;

verus! {

/// The character of decimal digit `d`.
pub open spec fn digit_char(d: nat) -> char {
    if d == 0 {
        '0'
    } else if d == 1 {
        '1'
    } else if d == 2 {
        '2'
    } else if d == 3 {
        '3'
    } else if d == 4 {
        '4'
    } else if d == 5 {
        '5'
    } else if d == 6 {
        '6'
    } else if d == 7 {
        '7'
    } else if d == 8 {
        '8'
    } else {
        '9'
    }
}

/// `n` written in decimal, without leading zeros.
pub open spec fn decimal(n: nat) -> Seq<char>
    decreases n,
{
    if n < 10 {
        seq![digit_char(n)]
    } else {
        decimal(n / 10) + seq![digit_char(n % 10)]
    }
}

/// Relies on std's `ToString` for `u64`, which writes the number in decimal without
/// sign or leading zeros.
#[verifier::external_body]
fn u64_to_decimal(n: u64) -> (r: String)
    ensures
        r@ == decimal(n as nat),
{
    n.to_string()
}

/// The value of a `Range` header that asks for the bytes from `start` on.
pub open spec fn range_from_spec(start: nat) -> Seq<char> {
    "bytes="@ + decimal(start) + "-"@
}

/// The value of a `Range` header that asks for bytes `first` to `last`, both included.
pub open spec fn range_between_spec(first: nat, last: nat) -> Seq<char> {
    "bytes="@ + decimal(first) + "-"@ + decimal(last)
}

/// `Range: bytes=<start>-`.
pub fn range_from(start: u64) -> (r: String)
    ensures
        r@ == range_from_spec(start as nat),
{
    let head = String::from_str("bytes=");
    let digits = u64_to_decimal(start);
    let mut r = head.concat(digits.as_str());
    r.append("-");
    r
}

/// `Range: bytes=<first>-<last>`.
pub fn range_between(first: u64, last: u64) -> (r: String)
    ensures
        r@ == range_between_spec(first as nat, last as nat),
{
    let head = String::from_str("bytes=");
    let a = u64_to_decimal(first);
    let b = u64_to_decimal(last);
    let mut r = head.concat(a.as_str());
    r.append("-");
    r.append(b.as_str());
    r
}

/// The range that a preload asks the origin for: its first `PRELOAD_BYTES` bytes.
pub fn preload_range() -> (r: String)
    ensures
        r@ == range_between_spec(0, (PRELOAD_BYTES - 1) as nat),
{
    range_between(0, (PRELOAD_BYTES - 1) as u64)
}

/// Whether an HTTP status is a success (2xx).
pub open spec fn is_success(status: u16) -> bool {
    200 <= status <= 299
}

/// Whether an HTTP status is a success (2xx).
pub fn is_success_status(status: u16) -> (r: bool)
    ensures
        r == is_success(status),
{
    200 <= status && status <= 299
}

/// HTTP 206 Partial Content.
pub const PARTIAL_CONTENT: u16 = 206;

/// What to do with the origin's response status.
#[derive(Debug, Clone, Copy, PartialEq, Eq, Structural)]
pub enum Verdict {
    /// Stream this response.
    Accept,
    /// The origin ignored the range: the preload is dropped; ask again without a range.
    Refetch,
    /// Answer the client `500` with an error text.
    Fail,
}

/// One relay connection, from its snapshot of the current track until the response
/// starts: the track and the preloaded head that it took, if that is still in use.
pub struct RelaySession {
    track: TrackInfo,
    preload: Option<Vec<u8>>,
}

/// The view of an optional byte buffer.
pub open spec fn bytes_view(b: Option<Vec<u8>>) -> Option<Seq<u8>> {
    match b {
        Some(v) => Some(v@),
        None => None,
    }
}

impl RelaySession {
    /// The track that this connection serves.
    pub closed spec fn track_of(&self) -> (Seq<char>, Seq<char>) {
        self.track@
    }

    /// The preloaded head still in use, if any.
    pub closed spec fn head(&self) -> Option<Seq<u8>> {
        bytes_view(self.preload)
    }

    /// A preloaded head is never empty and never longer than `PRELOAD_BYTES`.
    pub closed spec fn wf(&self) -> bool {
        match self.preload {
            Some(p) => 0 < p@.len() <= PRELOAD_BYTES,
            None => true,
        }
    }

    /// Opens a connection: snapshots the current track, `None` if there is none (the
    /// client gets `404`), and takes the preload cache when it was fetched for that
    /// track.
    pub fn open<H>(registry: &TrackRegistry, preload: &mut PreloadState<H>) -> (r: Option<RelaySession>)
        requires
            old(preload).wf(),
        ensures
            final(preload).wf(),
            final(preload).task_of() == old(preload).task_of(),
            match registry@ {
                None => r.is_none() && final(preload).cached() == old(preload).cached(),
                Some(t) => r.is_some() && r.unwrap().wf() && r.unwrap().track_of() == t && match old(
                    preload,
                ).cached() {
                    Some((pt, b)) => if pt == t {
                        r.unwrap().head() == Some(b) && final(preload).cached() == None::<
                            ((Seq<char>, Seq<char>), Seq<u8>),
                        >
                    } else {
                        r.unwrap().head() == None::<Seq<u8>> && final(preload).cached() == old(
                            preload,
                        ).cached()
                    },
                    None => r.unwrap().head() == None::<Seq<u8>> && final(preload).cached() == old(
                        preload,
                    ).cached(),
                },
            },
    {
        let current = registry.get();
        match current {
            None => None,
            Some(track) => {
                let taken = preload.take_if_matches(&track);
                let head = match taken {
                    Some(p) => Some(p.data),
                    None => None,
                };
                Some(RelaySession { track, preload: head })
            },
        }
    }

    /// The URL to fetch.
    pub fn url(&self) -> (r: &str)
        ensures
            r@ == self.track_of().0,
    {
        self.track.url.as_str()
    }

    /// The `Range` header to send: from the end of the preloaded head, or none.
    pub fn range(&self) -> (r: Option<String>)
        requires
            self.wf(),
        ensures
            match self.head() {
                Some(b) => r.is_some() && r.unwrap()@ == range_from_spec(b.len()),
                None => r.is_none(),
            },
    {
        match &self.preload {
            Some(p) => Some(range_from(p.len() as u64)),
            None => None,
        }
    }

    /// Reads the origin's status: a failure is answered with `500`; a success that
    /// ignored the range (anything but `206` while the head is in use) drops the head
    /// and asks again from offset 0; anything else is streamed.
    pub fn on_status(&mut self, status: u16) -> (r: Verdict)
        requires
            old(self).wf(),
        ensures
            final(self).wf(),
            final(self).track_of() == old(self).track_of(),
            r == if !is_success(status) {
                Verdict::Fail
            } else if old(self).head().is_some() && status != PARTIAL_CONTENT {
                Verdict::Refetch
            } else {
                Verdict::Accept
            },
            final(self).head() == if r == Verdict::Refetch {
                None::<Seq<u8>>
            } else {
                old(self).head()
            },
    {
        if !is_success_status(status) {
            Verdict::Fail
        } else if self.preload.is_some() && status != PARTIAL_CONTENT {
            self.preload = None;
            Verdict::Refetch
        } else {
            Verdict::Accept
        }
    }

    /// Starts the response body once the origin's response is accepted: unwraps the
    /// track's key under `master`, and positions the decryption after the preloaded
    /// head, which is sent first.
    pub fn begin(self, master: &MasterKey) -> (r: Result<RelayStream, KeyError>)
        requires
            self.wf(),
        ensures
            match unwrap_spec(master.view_bytes(), self.track_of().1) {
                Ok((k, n)) => r.is_ok() && r.unwrap().key_view() == k && r.unwrap().nonce_view()
                    == n && r.unwrap().pending_head() == self.head() && r.unwrap().offset() == match self.head() {
                    Some(b) => b.len() as u64,
                    None => 0,
                },
                Err(e) => r == Err::<RelayStream, KeyError>(e),
            },
    {
        match FlacDecryptor::new(self.track.key.as_str(), master) {
            Err(e) => Err(e),
            Ok(decryptor) => {
                let offset: u64 = match &self.preload {
                    Some(p) => p.len() as u64,
                    None => 0,
                };
                Ok(RelayStream { decryptor, offset, head: self.preload })
            },
        }
    }
}

/// The body of one relay response: the preloaded head, then each upstream chunk
/// decrypted at its absolute offset.
pub struct RelayStream {
    decryptor: FlacDecryptor,
    offset: u64,
    head: Option<Vec<u8>>,
}

impl RelayStream {
    /// The key the body is decrypted with.
    pub closed spec fn key_view(&self) -> Seq<u8> {
        self.decryptor.key_view()
    }

    /// The nonce the body is decrypted with.
    pub closed spec fn nonce_view(&self) -> Seq<u8> {
        self.decryptor.nonce_view()
    }

    /// The absolute offset of the next upstream byte.
    pub closed spec fn offset(&self) -> u64 {
        self.offset
    }

    /// The preloaded head not yet sent.
    pub closed spec fn pending_head(&self) -> Option<Seq<u8>> {
        bytes_view(self.head)
    }

    /// The preloaded head, to be sent before any upstream byte; once only.
    pub fn take_head(&mut self) -> (r: Option<Vec<u8>>)
        ensures
            bytes_view(r) == old(self).pending_head(),
            final(self).pending_head() == None::<Seq<u8>>,
            final(self).offset() == old(self).offset(),
            final(self).key_view() == old(self).key_view(),
            final(self).nonce_view() == old(self).nonce_view(),
    {
        self.head.take()
    }

    /// Decrypts the next upstream chunk at the current offset and advances the offset
    /// past it; `None`, with nothing changed, where the offset would pass `u64::MAX`.
    pub fn next_chunk(&mut self, chunk: &[u8]) -> (r: Option<Vec<u8>>)
        ensures
            final(self).key_view() == old(self).key_view(),
            final(self).nonce_view() == old(self).nonce_view(),
            final(self).pending_head() == old(self).pending_head(),
            if old(self).offset() + chunk@.len() <= u64::MAX {
                r.is_some() && r.unwrap()@ == ctr_decrypt(
                    old(self).key_view(),
                    old(self).nonce_view(),
                    chunk@,
                    old(self).offset() as nat,
                ) && final(self).offset() == old(self).offset() + chunk@.len()
            } else {
                r.is_none() && final(self).offset() == old(self).offset()
            },
    {
        let n: usize = chunk.len();
        if n as u64 > u64::MAX - self.offset {
            return None;
        }
        let plain = self.decryptor.decrypt_chunk(chunk, self.offset);
        self.offset = self.offset + n as u64;
        Some(plain)
    }
}

/// What a connection sends after taking a preloaded head of `p` bytes: the head, which
/// is the plaintext of the first `p` ciphertext bytes, then the rest of the stream
/// decrypted from offset `p`, is exactly the plaintext of the whole stream.
pub proof fn lemma_spliced_stream(key: Seq<u8>, nonce: Seq<u8>, ct: Seq<u8>, p: int)
    requires
        0 <= p <= ct.len(),
    ensures
        ctr_decrypt(key, nonce, ct.subrange(0, p), 0) + ctr_decrypt(
            key,
            nonce,
            ct.subrange(p, ct.len() as int),
            p as nat,
        ) == ctr_decrypt(key, nonce, ct, 0),
{
    assert(ct.subrange(0, p) + ct.subrange(p, ct.len() as int) =~= ct);
    crate::cipher::lemma_consecutive_chunks(key, nonce, ct.subrange(0, p), ct.subrange(p, ct.len() as int), 0);
}

} // verus!
