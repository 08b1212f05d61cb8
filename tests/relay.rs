use aes::cipher::block_padding::Pkcs7;
use aes::cipher::BlockEncryptMut;
use aes::cipher::KeyIvInit;
use aes::cipher::StreamCipher;
use base64::Engine;
use tidal_stream::cipher::FlacDecryptor;
use tidal_stream::keys::KeyError;
use tidal_stream::keys::MasterKey;
use tidal_stream::relay::preload_range;
use tidal_stream::relay::range_between;
use tidal_stream::relay::range_from;
use tidal_stream::relay::RelaySession;
use tidal_stream::relay::Verdict;
use tidal_stream::state::PreloadBuffer;
use tidal_stream::state::PreloadState;
use tidal_stream::state::TrackInfo;
use tidal_stream::state::TrackRegistry;

const MASTER: [u8; 32] = [9u8; 32];

struct Fixture {
    key_id: String,
    key: [u8; 16],
    nonce: [u8; 8],
}

fn fixture(seed: u8) -> Fixture {
    let key = [seed; 16];
    let nonce = [seed.wrapping_add(1); 8];
    let mut plain = key.to_vec();
    plain.extend(nonce);
    let iv = [seed.wrapping_add(2); 16];
    let mut buf = vec![0u8; plain.len() + 16];
    buf[..plain.len()].copy_from_slice(&plain);
    let ct = cbc::Encryptor::<aes::Aes256>::new(&MASTER.into(), &iv.into())
        .encrypt_padded_mut::<Pkcs7>(&mut buf, plain.len())
        .unwrap()
        .to_vec();
    let mut all = iv.to_vec();
    all.extend(ct);
    Fixture { key_id: base64::engine::general_purpose::STANDARD.encode(all), key, nonce }
}

fn plaintext(n: usize) -> Vec<u8> {
    (0..n).map(|i| ((i * 31 + 7) % 253) as u8).collect()
}

fn encrypt(f: &Fixture, plain: &[u8]) -> Vec<u8> {
    let mut iv = [0u8; 16];
    iv[..8].copy_from_slice(&f.nonce);
    let mut c = ctr::Ctr128BE::<aes::Aes128>::new(&f.key.into(), &iv.into());
    let mut buf = plain.to_vec();
    c.apply_keystream(&mut buf);
    buf
}

fn track(url: &str, f: &Fixture) -> TrackInfo {
    TrackInfo::new(url.to_string(), f.key_id.clone())
}

fn preload(state: &mut PreloadState<u32>, t: TrackInfo, f: &Fixture, ct: &[u8], n: usize) {
    let mut b = PreloadBuffer::new(FlacDecryptor::from_parts(f.key, f.nonce));
    for chunk in ct[..n].chunks(4096) {
        b.push_chunk(chunk);
    }
    state.complete(t, b);
}

fn serve(session: RelaySession, upstream: &[u8], chunk: usize) -> Vec<u8> {
    let mut stream = session.begin(&MasterKey::from_bytes(MASTER)).unwrap();
    let mut out = stream.take_head().unwrap_or_default();
    assert!(stream.take_head().is_none());
    for c in upstream.chunks(chunk) {
        out.extend(stream.next_chunk(c).unwrap());
    }
    out
}

#[test]
fn no_track_loaded_gives_not_found() {
    let registry = TrackRegistry::new();
    let mut state: PreloadState<u32> = PreloadState::new();
    assert!(RelaySession::open(&registry, &mut state).is_none());
}

#[test]
fn basic_stream_returns_plaintext() {
    let f = fixture(1);
    let plain = plaintext(1024);
    let ct = encrypt(&f, &plain);
    let mut registry = TrackRegistry::new();
    registry.set(track("https://origin/t1", &f));
    let mut state: PreloadState<u32> = PreloadState::new();
    let mut s = RelaySession::open(&registry, &mut state).unwrap();
    assert_eq!(s.url(), "https://origin/t1");
    assert!(s.range().is_none());
    assert_eq!(s.on_status(200), Verdict::Accept);
    assert_eq!(serve(s, &ct, 100), plain);
}

#[test]
fn preload_hit_splices_head_and_ranged_rest() {
    let f = fixture(2);
    let plain = plaintext(400 * 1024);
    let ct = encrypt(&f, &plain);
    let t = track("https://origin/t2", &f);
    let mut state: PreloadState<u32> = PreloadState::new();
    preload(&mut state, t.clone(), &f, &ct, 300 * 1024);
    let mut registry = TrackRegistry::new();
    registry.set(t.clone());
    let mut s = RelaySession::open(&registry, &mut state).unwrap();
    assert_eq!(s.range(), Some("bytes=307200-".to_string()));
    assert_eq!(s.on_status(206), Verdict::Accept);
    assert!(state.take_if_matches(&t).is_none());
    let out = serve(s, &ct[307200..], 5000);
    assert_eq!(out, plain);
}

#[test]
fn preload_mismatch_fetches_without_range() {
    let fa = fixture(3);
    let fb = fixture(4);
    let ct_a = encrypt(&fa, &plaintext(2048));
    let mut state: PreloadState<u32> = PreloadState::new();
    preload(&mut state, track("https://origin/a", &fa), &fa, &ct_a, 2048);
    let mut registry = TrackRegistry::new();
    registry.set(track("https://origin/b", &fb));
    let s = RelaySession::open(&registry, &mut state).unwrap();
    assert_eq!(s.url(), "https://origin/b");
    assert!(s.range().is_none());
    assert_eq!(state.peek_next(&None), Some(track("https://origin/a", &fa)));
}

#[test]
fn range_not_honored_restarts_from_zero() {
    let f = fixture(5);
    let plain = plaintext(300 * 1024);
    let ct = encrypt(&f, &plain);
    let t = track("https://origin/t5", &f);
    let mut state: PreloadState<u32> = PreloadState::new();
    preload(&mut state, t.clone(), &f, &ct, 200 * 1024);
    let mut registry = TrackRegistry::new();
    registry.set(t);
    let mut s = RelaySession::open(&registry, &mut state).unwrap();
    assert_eq!(s.range(), Some("bytes=204800-".to_string()));
    assert_eq!(s.on_status(200), Verdict::Refetch);
    assert!(s.range().is_none());
    assert_eq!(s.on_status(200), Verdict::Accept);
    assert_eq!(serve(s, &ct, 8192), plain);
}

#[test]
fn upstream_failure_fails() {
    let f = fixture(6);
    let mut registry = TrackRegistry::new();
    registry.set(track("u", &f));
    let mut state: PreloadState<u32> = PreloadState::new();
    let mut s = RelaySession::open(&registry, &mut state).unwrap();
    assert_eq!(s.on_status(404), Verdict::Fail);
    assert_eq!(s.on_status(500), Verdict::Fail);
    assert_eq!(s.on_status(199), Verdict::Fail);
    assert_eq!(s.on_status(300), Verdict::Fail);
    assert_eq!(s.on_status(299), Verdict::Accept);
}

#[test]
fn each_connection_snapshots_current_key() {
    let f1 = fixture(7);
    let f2 = fixture(8);
    let plain = plaintext(256);
    let ct2 = encrypt(&f2, &plain);
    let mut registry = TrackRegistry::new();
    let mut state: PreloadState<u32> = PreloadState::new();
    registry.set(track("u1", &f1));
    let old = RelaySession::open(&registry, &mut state).unwrap();
    registry.set(track("u2", &f2));
    let mut s = RelaySession::open(&registry, &mut state).unwrap();
    assert_eq!(old.url(), "u1");
    assert_eq!(s.url(), "u2");
    assert_eq!(s.on_status(200), Verdict::Accept);
    assert_eq!(serve(s, &ct2, 64), plain);
}

#[test]
fn bad_key_id_fails_begin() {
    let mut registry = TrackRegistry::new();
    registry.set(TrackInfo::new("u".to_string(), "???".to_string()));
    let mut state: PreloadState<u32> = PreloadState::new();
    let s = RelaySession::open(&registry, &mut state).unwrap();
    assert_eq!(s.begin(&MasterKey::from_bytes(MASTER)).err(), Some(KeyError::BadKeyId));
}

#[test]
fn stream_accepts_empty_chunks() {
    let f = fixture(9);
    let mut registry = TrackRegistry::new();
    registry.set(track("u", &f));
    let mut state: PreloadState<u32> = PreloadState::new();
    let s = RelaySession::open(&registry, &mut state).unwrap();
    let mut stream = s.begin(&MasterKey::from_bytes(MASTER)).unwrap();
    assert!(stream.next_chunk(&[1u8; 10]).is_some());
    assert!(stream.next_chunk(&[]).is_some());
}

#[test]
fn range_headers() {
    assert_eq!(range_from(0), "bytes=0-");
    assert_eq!(range_from(307200), "bytes=307200-");
    assert_eq!(range_from(u64::MAX), "bytes=18446744073709551615-");
    assert_eq!(range_between(0, 9), "bytes=0-9");
    assert_eq!(preload_range(), "bytes=0-524287");
}
