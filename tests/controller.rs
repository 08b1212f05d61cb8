use tidal_stream::controller::advance_on_completed;
use tidal_stream::controller::is_exclusive_mode;
use tidal_stream::controller::load_track;
use tidal_stream::controller::parse_channel;
use tidal_stream::controller::stream_url;
use tidal_stream::controller::Channel;
use tidal_stream::controller::ControlError;
use tidal_stream::cipher::FlacDecryptor;
use tidal_stream::state::PreloadBuffer;
use tidal_stream::state::PreloadState;
use tidal_stream::state::TrackInfo;
use tidal_stream::state::TrackRegistry;

fn track(url: &str, key: &str) -> TrackInfo {
    TrackInfo::new(url.to_string(), key.to_string())
}

fn cached(state: &mut PreloadState<u32>, t: TrackInfo) {
    let mut b = PreloadBuffer::new(FlacDecryptor::from_parts([1u8; 16], [2u8; 8]));
    b.push_chunk(&[0u8; 64]);
    state.complete(t, b);
}

#[test]
fn channels_parse() {
    assert_eq!(parse_channel(&"player.load".to_string()), Channel::Load);
    assert_eq!(parse_channel(&"player.preload".to_string()), Channel::Preload);
    assert_eq!(parse_channel(&"player.preload.cancel".to_string()), Channel::PreloadCancel);
    assert_eq!(parse_channel(&"player.devices.set".to_string()), Channel::DevicesSet);
    assert_eq!(parse_channel(&"web.loaded".to_string()), Channel::WebLoaded);
    assert_eq!(parse_channel(&"player.loadx".to_string()), Channel::Unknown);
    assert_eq!(parse_channel(&"".to_string()), Channel::Unknown);
}

#[test]
fn exclusive_mode_argument() {
    assert!(is_exclusive_mode(Some(&"exclusive".to_string())));
    assert!(!is_exclusive_mode(Some(&"shared".to_string())));
    assert!(!is_exclusive_mode(None));
}

#[test]
fn stream_url_of_relay() {
    assert_eq!(stream_url("127.0.0.1:40123"), "http://127.0.0.1:40123/stream");
}

#[test]
fn load_sets_current_and_gives_stream_url() {
    let mut r = TrackRegistry::new();
    let u = load_track(&mut r, Some("127.0.0.1:5000"), "https://o/1".to_string(), "k1".to_string());
    assert_eq!(u, Ok("http://127.0.0.1:5000/stream".to_string()));
    assert_eq!(r.get(), Some(track("https://o/1", "k1")));
}

#[test]
fn load_before_relay_is_ready() {
    let mut r = TrackRegistry::new();
    let u = load_track(&mut r, None, "https://o/1".to_string(), "k1".to_string());
    assert_eq!(u, Err(ControlError::ServerNotReady));
    assert_eq!(r.get(), Some(track("https://o/1", "k1")));
}

#[test]
fn autoload_on_completion() {
    let mut r = TrackRegistry::new();
    r.set(track("t1", "k1"));
    let mut s: PreloadState<u32> = PreloadState::new();
    cached(&mut s, track("t2", "k2"));
    let load = advance_on_completed(&mut r, &s, Some("127.0.0.1:1"));
    assert_eq!(load, Some(Ok("http://127.0.0.1:1/stream".to_string())));
    assert_eq!(r.get(), Some(track("t2", "k2")));
    // The relay's next connection takes the cache.
    assert!(s.take_if_matches(&track("t2", "k2")).is_some());
}

#[test]
fn no_autoload_when_cache_is_current_or_empty() {
    let mut r = TrackRegistry::new();
    r.set(track("t1", "k1"));
    let mut s: PreloadState<u32> = PreloadState::new();
    assert_eq!(advance_on_completed(&mut r, &s, Some("a")), None);
    cached(&mut s, track("t1", "k1"));
    assert_eq!(advance_on_completed(&mut r, &s, Some("a")), None);
    assert_eq!(r.get(), Some(track("t1", "k1")));
}
