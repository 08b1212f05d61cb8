use aes::cipher::KeyIvInit;
use aes::cipher::StreamCipher;
use tidal_stream::cipher::FlacDecryptor;

const KEY: [u8; 16] = [
    0x00, 0x11, 0x22, 0x33, 0x44, 0x55, 0x66, 0x77, 0x88, 0x99, 0xaa, 0xbb, 0xcc, 0xdd, 0xee, 0xff,
];
const NONCE: [u8; 8] = [1, 2, 3, 4, 5, 6, 7, 8];

fn plaintext(n: usize) -> Vec<u8> {
    (0..n).map(|i| ((i * 7 + 3) % 251) as u8).collect()
}

fn encrypt_whole(plain: &[u8]) -> Vec<u8> {
    let mut iv = [0u8; 16];
    iv[..8].copy_from_slice(&NONCE);
    let mut c = ctr::Ctr128BE::<aes::Aes128>::new(&KEY.into(), &iv.into());
    let mut buf = plain.to_vec();
    c.apply_keystream(&mut buf);
    buf
}

#[test]
fn whole_stream_decrypts_at_offset_zero() {
    let plain = plaintext(1024);
    let ct = encrypt_whole(&plain);
    assert_ne!(ct, plain);
    let d = FlacDecryptor::from_parts(KEY, NONCE);
    assert_eq!(d.decrypt_chunk(&ct, 0), plain);
}

#[test]
fn any_slice_decrypts_at_its_own_offset() {
    let plain = plaintext(700);
    let ct = encrypt_whole(&plain);
    let d = FlacDecryptor::from_parts(KEY, NONCE);
    for &(a, b) in &[(0usize, 1usize), (1, 17), (15, 16), (16, 48), (33, 300), (299, 700), (5, 5)] {
        assert_eq!(d.decrypt_chunk(&ct[a..b], a as u64), plain[a..b].to_vec());
    }
}

#[test]
fn consecutive_chunks_join_to_whole_plaintext() {
    let plain = plaintext(1000);
    let ct = encrypt_whole(&plain);
    let d = FlacDecryptor::from_parts(KEY, NONCE);
    let cuts = [0usize, 3, 16, 17, 64, 65, 511, 999, 1000];
    let mut out = Vec::new();
    for w in cuts.windows(2) {
        out.extend(d.decrypt_chunk(&ct[w[0]..w[1]], w[0] as u64));
    }
    assert_eq!(out, plain);
}

#[test]
fn misaligned_offset_is_exact_not_corrupted() {
    let plain = plaintext(64);
    let ct = encrypt_whole(&plain);
    let d = FlacDecryptor::from_parts(KEY, NONCE);
    let once = d.decrypt_chunk(&ct[1..40], 1);
    let again = d.decrypt_chunk(&ct[1..40], 1);
    assert_eq!(once, again);
    assert_eq!(once, plain[1..40].to_vec());
    let wrong = d.decrypt_chunk(&ct[1..40], 0);
    assert_ne!(wrong, plain[1..40].to_vec());
}

#[test]
fn empty_chunk_gives_empty_plaintext() {
    let d = FlacDecryptor::from_parts(KEY, NONCE);
    assert!(d.decrypt_chunk(&[], 12345).is_empty());
}

#[test]
fn counter_block_for_offset() {
    let d = FlacDecryptor::from_parts(KEY, NONCE);
    let iv = d.build_iv_for_offset(0x1234_5678_9abc_def5);
    assert_eq!(iv[..8], NONCE);
    assert_eq!(iv[8..], 0x0123_4567_89ab_cdefu64.to_be_bytes());
    let iv0 = d.build_iv_for_offset(15);
    assert_eq!(iv0[8..], [0u8; 8]);
    let iv1 = d.build_iv_for_offset(16);
    assert_eq!(iv1[15], 1);
}

#[test]
fn decrypt_near_end_of_offset_range() {
    let d = FlacDecryptor::from_parts(KEY, NONCE);
    let off = u64::MAX - 3;
    let data = [9u8; 3];
    let r = d.decrypt_chunk(&data, off);
    assert_eq!(r.len(), 3);
    assert_eq!(r, d.decrypt_chunk(&data, off));
}
