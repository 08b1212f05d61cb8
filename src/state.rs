//! The current-track registry and the preload engine's state.

use crate::cipher::ctr_decrypt;
use crate::cipher::FlacDecryptor;
use vstd::prelude::*;

verus! {

/// How many decrypted bytes a preload keeps at most: 512 KiB.
pub const PRELOAD_BYTES: usize = 524288;

/// A track as the origin serves it: the URL of its ciphertext and its base64 key identifier.
#[derive(Debug)]
pub struct TrackInfo {
    pub url: String,
    pub key: String,
}

impl View for TrackInfo {
    type V = (Seq<char>, Seq<char>);

    open spec fn view(&self) -> (Seq<char>, Seq<char>) {
        (self.url@, self.key@)
    }
}

impl PartialEq for TrackInfo {
    fn eq(&self, other: &TrackInfo) -> (r: bool)
        ensures
            r == (self@ == other@),
    {
        self.url == other.url && self.key == other.key
    }
}

impl vstd::std_specs::cmp::PartialEqSpecImpl for TrackInfo {
    open spec fn obeys_eq_spec() -> bool {
        true
    }

    open spec fn eq_spec(&self, other: &TrackInfo) -> bool {
        self@ == other@
    }
}

impl Eq for TrackInfo {

}

impl Clone for TrackInfo {
    fn clone(&self) -> (r: TrackInfo)
        ensures
            r@ == self@,
    {
        TrackInfo { url: self.url.clone(), key: self.key.clone() }
    }
}

impl TrackInfo {
    /// A track from its URL and key identifier.
    pub fn new(url: String, key: String) -> (r: TrackInfo)
        ensures
            r.url@ == url@,
            r.key@ == key@,
    {
        TrackInfo { url, key }
    }
}

/// The view of an optional track.
pub open spec fn track_view(t: Option<TrackInfo>) -> Option<(Seq<char>, Seq<char>)> {
    match t {
        Some(x) => Some(x@),
        None => None,
    }
}

/// Clones an optional track, keeping its view.
pub fn clone_track(t: &Option<TrackInfo>) -> (r: Option<TrackInfo>)
    ensures
        track_view(r) == track_view(*t),
{
    match t {
        Some(x) => Some(x.clone()),
        None => None,
    }
}

/// The single slot that holds the currently selected track: last writer wins and it is
/// never cleared.
pub struct TrackRegistry {
    current: Option<TrackInfo>,
}

impl View for TrackRegistry {
    type V = Option<(Seq<char>, Seq<char>)>;

    closed spec fn view(&self) -> Option<(Seq<char>, Seq<char>)> {
        track_view(self.current)
    }
}

impl TrackRegistry {
    /// An empty registry: no track has been loaded.
    pub fn new() -> (r: TrackRegistry)
        ensures
            r@ == None::<(Seq<char>, Seq<char>)>,
    {
        TrackRegistry { current: None }
    }

    /// Makes `track` the current track.
    pub fn set(&mut self, track: TrackInfo)
        ensures
            final(self)@ == Some(track@),
    {
        self.current = Some(track);
    }

    /// A snapshot of the current track.
    pub fn get(&self) -> (r: Option<TrackInfo>)
        ensures
            track_view(r) == self@,
    {
        clone_track(&self.current)
    }
}

/// The decrypted head of a track, kept for a gapless start.
#[derive(Debug)]
pub struct PreloadedTrack {
    pub track: TrackInfo,
    pub data: Vec<u8>,
}

/// The decrypted bytes that a running preload has gathered so far, in stream order
/// from offset 0, capped at `PRELOAD_BYTES`.
pub struct PreloadBuffer {
    decryptor: FlacDecryptor,
    bytes: Vec<u8>,
}

/// `s` cut to at most `PRELOAD_BYTES` bytes.
pub open spec fn capped(s: Seq<u8>) -> Seq<u8> {
    if s.len() <= PRELOAD_BYTES {
        s
    } else {
        s.subrange(0, PRELOAD_BYTES as int)
    }
}

impl PreloadBuffer {
    /// The buffer never holds more than `PRELOAD_BYTES`.
    pub closed spec fn wf(&self) -> bool {
        self.bytes@.len() <= PRELOAD_BYTES
    }

    /// The bytes gathered so far.
    pub closed spec fn contents(&self) -> Seq<u8> {
        self.bytes@
    }

    /// The decryptor that the chunks go through.
    pub closed spec fn decryptor_of(&self) -> FlacDecryptor {
        self.decryptor
    }

    /// An empty buffer that decrypts with `decryptor`.
    pub fn new(decryptor: FlacDecryptor) -> (r: PreloadBuffer)
        ensures
            r.wf(),
            r.contents() == Seq::<u8>::empty(),
            r.decryptor_of() == decryptor,
    {
        PreloadBuffer { decryptor, bytes: Vec::new() }
    }

    /// Whether the buffer has reached `PRELOAD_BYTES`.
    pub fn is_full(&self) -> (r: bool)
        ensures
            r == (self.contents().len() >= PRELOAD_BYTES),
    {
        self.bytes.len() >= PRELOAD_BYTES
    }

    /// How many bytes have been gathered.
    pub fn len(&self) -> (r: usize)
        requires
            self.wf(),
        ensures
            r == self.contents().len(),
            r <= PRELOAD_BYTES,
    {
        self.bytes.len()
    }

    /// Takes the next ciphertext chunk of the stream: decrypts it at the absolute offset
    /// that the bytes gathered so far reach, and appends the plaintext up to the cap.
    /// Returns whether more chunks are wanted.
    pub fn push_chunk(&mut self, chunk: &[u8]) -> (more: bool)
        requires
            old(self).wf(),
        ensures
            final(self).wf(),
            final(self).decryptor_of() == old(self).decryptor_of(),
            final(self).contents() == capped(
                old(self).contents() + ctr_decrypt(
                    old(self).decryptor_of().key_view(),
                    old(self).decryptor_of().nonce_view(),
                    chunk@,
                    old(self).contents().len(),
                ),
            ),
            final(self).contents().len() <= PRELOAD_BYTES,
            more == (final(self).contents().len() < PRELOAD_BYTES),
    {
        let have: usize = self.bytes.len();
        if have >= PRELOAD_BYTES {
            assert(capped(old(self).bytes@ + ctr_decrypt(self.decryptor.key_view(), self.decryptor.nonce_view(), chunk@, have as nat)) =~= old(self).bytes@);
            return false;
        }
        let plain = self.decryptor.decrypt_chunk(chunk, have as u64);
        let remaining: usize = PRELOAD_BYTES - have;
        let take: usize = if plain.len() <= remaining {
            plain.len()
        } else {
            remaining
        };
        let ghost before = self.bytes@;
        let mut i: usize = 0;
        while i < take
            invariant
                i <= take,
                take <= plain@.len(),
                have + take <= PRELOAD_BYTES,
                self.bytes@ == before + plain@.subrange(0, i as int),
                self.decryptor == old(self).decryptor,
            decreases take - i,
        {
            self.bytes.push(plain[i]);
            i = i + 1;
            assert(plain@.subrange(0, i as int) == plain@.subrange(0, i - 1) + seq![plain@[i - 1]]);
        }
        assert(self.bytes@ =~= capped(before + plain@));
        self.bytes.len() < PRELOAD_BYTES
    }
}

impl PreloadBuffer {
    /// The bytes gathered, handed over.
    pub fn into_bytes(self) -> (r: Vec<u8>)
        ensures
            r@ == self.contents(),
    {
        self.bytes
    }
}

/// The view of an optional preloaded track: its track and its bytes.
pub open spec fn preloaded_view(p: Option<PreloadedTrack>) -> Option<((Seq<char>, Seq<char>), Seq<u8>)> {
    match p {
        Some(x) => Some((x.track@, x.data@)),
        None => None,
    }
}

/// The preload engine's state: the handle of the one preload task that may be running,
/// and the cached head of the track it was started for.
pub struct PreloadState<H> {
    task: Option<H>,
    data: Option<PreloadedTrack>,
}

impl<H> PreloadState<H> {
    /// A cached head is never empty and never longer than `PRELOAD_BYTES`.
    pub closed spec fn wf(&self) -> bool {
        match self.data {
            Some(p) => 0 < p.data@.len() <= PRELOAD_BYTES,
            None => true,
        }
    }

    /// The handle of the running preload task, if any.
    pub closed spec fn task_of(&self) -> Option<H> {
        self.task
    }

    /// The cached track and its decrypted head, if any.
    pub closed spec fn cached(&self) -> Option<((Seq<char>, Seq<char>), Seq<u8>)> {
        preloaded_view(self.data)
    }

    /// No task and no cache.
    pub fn new() -> (r: PreloadState<H>)
        ensures
            r.wf(),
            r.task_of() == None::<H>,
            r.cached() == None::<((Seq<char>, Seq<char>), Seq<u8>)>,
    {
        PreloadState { task: None, data: None }
    }

    /// Stops the preload: the running task's handle is handed back to be aborted, and
    /// the cache is cleared. Any number of calls leave no task and no cache.
    pub fn cancel(&mut self) -> (r: Option<H>)
        ensures
            final(self).wf(),
            r == old(self).task_of(),
            final(self).task_of() == None::<H>,
            final(self).cached() == None::<((Seq<char>, Seq<char>), Seq<u8>)>,
    {
        let r = self.task.take();
        self.data = None;
        r
    }

    /// Begins a preload of `track`: cancels the running one first (its handle is handed
    /// back to be aborted) and says whether a task is to be scheduled, which it is
    /// unless the track's URL or key identifier is empty.
    pub fn start(&mut self, track: &TrackInfo) -> (r: (Option<H>, bool))
        ensures
            final(self).wf(),
            r.0 == old(self).task_of(),
            r.1 == (track.url@.len() > 0 && track.key@.len() > 0),
            final(self).task_of() == None::<H>,
            final(self).cached() == None::<((Seq<char>, Seq<char>), Seq<u8>)>,
    {
        let previous = self.cancel();
        let wanted = !track.url.as_str().is_empty() && !track.key.as_str().is_empty();
        (previous, wanted)
    }

    /// Records `task` as the one running preload. A handle it displaces is handed back
    /// to be aborted, so at most one task is ever held.
    pub fn attach(&mut self, task: H) -> (r: Option<H>)
        requires
            old(self).wf(),
        ensures
            final(self).wf(),
            r == old(self).task_of(),
            final(self).task_of() == Some(task),
            final(self).cached() == old(self).cached(),
    {
        let previous = self.task.take();
        self.task = Some(task);
        previous
    }

    /// A finished preload of `track` stores what it gathered, replacing any earlier
    /// cache; an empty buffer stores nothing.
    pub fn complete(&mut self, track: TrackInfo, buffer: PreloadBuffer)
        requires
            old(self).wf(),
            buffer.wf(),
        ensures
            final(self).wf(),
            final(self).task_of() == old(self).task_of(),
            final(self).cached() == if buffer.contents().len() > 0 {
                Some((track@, buffer.contents()))
            } else {
                old(self).cached()
            },
    {
        let n = buffer.len();
        if n > 0 {
            self.data = Some(PreloadedTrack { track, data: buffer.into_bytes() });
        }
    }

    /// Removes and returns the cache when it was fetched for `track`; otherwise leaves
    /// it in place and returns nothing.
    pub fn take_if_matches(&mut self, track: &TrackInfo) -> (r: Option<PreloadedTrack>)
        requires
            old(self).wf(),
        ensures
            final(self).wf(),
            final(self).task_of() == old(self).task_of(),
            match old(self).cached() {
                Some((t, b)) => if t == track@ {
                    preloaded_view(r) == Some((t, b)) && final(self).cached() == None::<
                        ((Seq<char>, Seq<char>), Seq<u8>),
                    >
                } else {
                    r.is_none() && final(self).cached() == old(self).cached()
                },
                None => r.is_none() && final(self).cached() == old(self).cached(),
            },
            match r {
                Some(p) => 0 < p.data@.len() <= PRELOAD_BYTES,
                None => true,
            },
    {
        let hit = match &self.data {
            Some(p) => p.track == *track,
            None => false,
        };
        if hit {
            self.data.take()
        } else {
            None
        }
    }

    /// The track to advance to: the cached one, unless it is `current`.
    pub fn peek_next(&self, current: &Option<TrackInfo>) -> (r: Option<TrackInfo>)
        ensures
            track_view(r) == match self.cached() {
                Some((t, _)) => if track_view(*current) == Some(t) {
                    None
                } else {
                    Some(t)
                },
                None => None,
            },
    {
        match &self.data {
            None => None,
            Some(p) => {
                let same = match current {
                    Some(c) => *c == p.track,
                    None => false,
                };
                if same {
                    None
                } else {
                    Some(p.track.clone())
                }
            },
        }
    }
}

/// The cache of a well-formed preload state never holds more than `PRELOAD_BYTES`.
pub proof fn lemma_cache_bounded<H>(s: PreloadState<H>)
    requires
        s.wf(),
    ensures
        match s.cached() {
            Some((_, b)) => 0 < b.len() <= PRELOAD_BYTES,
            None => true,
        },
{
}

} // verus!
