//! The controller: the UI's message kinds, and what loading a track and finishing one
//! do to the current-track registry and the engine.

use crate::state::PreloadState;
use crate::state::TrackInfo;
use crate::state::TrackRegistry;
use vstd::prelude::*;
use vstd::string::StringExecFns;

verus! {

/// The kinds of message that the UI sends.
#[derive(Debug, Clone, Copy, PartialEq, Eq, Structural)]
pub enum Channel {
    Load,
    Preload,
    PreloadCancel,
    Play,
    Pause,
    Stop,
    Seek,
    Volume,
    DevicesGet,
    DevicesSet,
    WindowClose,
    WindowMaximize,
    WindowMinimize,
    WindowUnmaximize,
    WindowStateGet,
    WebLoaded,
    Unknown,
}

/// The kind of the message on channel `name`.
pub open spec fn channel_spec(name: Seq<char>) -> Channel {
    if name == "player.load"@ {
        Channel::Load
    } else if name == "player.preload"@ {
        Channel::Preload
    } else if name == "player.preload.cancel"@ {
        Channel::PreloadCancel
    } else if name == "player.play"@ {
        Channel::Play
    } else if name == "player.pause"@ {
        Channel::Pause
    } else if name == "player.stop"@ {
        Channel::Stop
    } else if name == "player.seek"@ {
        Channel::Seek
    } else if name == "player.volume"@ {
        Channel::Volume
    } else if name == "player.devices.get"@ {
        Channel::DevicesGet
    } else if name == "player.devices.set"@ {
        Channel::DevicesSet
    } else if name == "window.close"@ {
        Channel::WindowClose
    } else if name == "window.maximize"@ {
        Channel::WindowMaximize
    } else if name == "window.minimize"@ {
        Channel::WindowMinimize
    } else if name == "window.unmaximize"@ {
        Channel::WindowUnmaximize
    } else if name == "window.state.get"@ {
        Channel::WindowStateGet
    } else if name == "web.loaded"@ {
        Channel::WebLoaded
    } else {
        Channel::Unknown
    }
}

/// Whether `name` is the channel written `lit`.
fn is_channel(name: &String, lit: &str) -> (r: bool)
    ensures
        r == (name@ == lit@),
{
    *name == String::from_str(lit)
}

/// The kind of the message on channel `name`; unknown names are `Unknown`.
pub fn parse_channel(name: &String) -> (r: Channel)
    ensures
        r == channel_spec(name@),
{
    if is_channel(name, "player.load") {
        Channel::Load
    } else if is_channel(name, "player.preload") {
        Channel::Preload
    } else if is_channel(name, "player.preload.cancel") {
        Channel::PreloadCancel
    } else if is_channel(name, "player.play") {
        Channel::Play
    } else if is_channel(name, "player.pause") {
        Channel::Pause
    } else if is_channel(name, "player.stop") {
        Channel::Stop
    } else if is_channel(name, "player.seek") {
        Channel::Seek
    } else if is_channel(name, "player.volume") {
        Channel::Volume
    } else if is_channel(name, "player.devices.get") {
        Channel::DevicesGet
    } else if is_channel(name, "player.devices.set") {
        Channel::DevicesSet
    } else if is_channel(name, "window.close") {
        Channel::WindowClose
    } else if is_channel(name, "window.maximize") {
        Channel::WindowMaximize
    } else if is_channel(name, "window.minimize") {
        Channel::WindowMinimize
    } else if is_channel(name, "window.unmaximize") {
        Channel::WindowUnmaximize
    } else if is_channel(name, "window.state.get") {
        Channel::WindowStateGet
    } else if is_channel(name, "web.loaded") {
        Channel::WebLoaded
    } else {
        Channel::Unknown
    }
}

/// Whether the mode argument of `player.devices.set` asks for exclusive output.
pub fn is_exclusive_mode(mode: Option<&String>) -> (r: bool)
    ensures
        r == match mode {
            Some(m) => m@ == "exclusive"@,
            None => false,
        },
{
    match mode {
        Some(m) => *m == String::from_str("exclusive"),
        None => false,
    }
}

/// The URL under which the relay at `addr` serves the current track.
pub open spec fn stream_url_spec(addr: Seq<char>) -> Seq<char> {
    "http://"@ + addr + "/stream"@
}

/// The URL under which the relay at `addr` (`host:port`) serves the current track.
pub fn stream_url(addr: &str) -> (r: String)
    ensures
        r@ == stream_url_spec(addr@),
{
    let mut r = String::from_str("http://");
    r.append(addr);
    r.append("/stream");
    r
}

/// Why the controller could not act.
#[derive(Debug, Clone, Copy, PartialEq, Eq, Structural)]
pub enum ControlError {
    /// The relay has not announced its address yet.
    ServerNotReady,
}

/// `player.load`: makes the track current and gives the URL that the engine is to load,
/// or `ServerNotReady` (the track stays current) when the relay has no address yet.
pub fn load_track(registry: &mut TrackRegistry, relay_addr: Option<&str>, url: String, key: String) -> (r:
    Result<String, ControlError>)
    ensures
        final(registry)@ == Some((url@, key@)),
        match relay_addr {
            Some(a) => r.is_ok() && r.unwrap()@ == stream_url_spec(a@),
            None => r == Err::<String, ControlError>(ControlError::ServerNotReady),
        },
{
    registry.set(TrackInfo::new(url, key));
    match relay_addr {
        Some(a) => Ok(stream_url(a)),
        None => Err(ControlError::ServerNotReady),
    }
}

/// The track to advance to when the current one completes: the preloaded one, unless
/// it is the current track.
pub open spec fn next_track_spec(
    current: Option<(Seq<char>, Seq<char>)>,
    cached: Option<((Seq<char>, Seq<char>), Seq<u8>)>,
) -> Option<(Seq<char>, Seq<char>)> {
    match cached {
        Some((t, _)) => if current == Some(t) {
            None
        } else {
            Some(t)
        },
        None => None,
    }
}

/// The engine reported `completed`: when a different track is preloaded it becomes
/// current and its load URL is given, as `player.load` gives it; otherwise nothing
/// changes and nothing is given.
pub fn advance_on_completed<H>(
    registry: &mut TrackRegistry,
    preload: &PreloadState<H>,
    relay_addr: Option<&str>,
) -> (r: Option<Result<String, ControlError>>)
    ensures
        match next_track_spec(old(registry)@, preload.cached()) {
            None => r.is_none() && final(registry)@ == old(registry)@,
            Some(t) => final(registry)@ == Some(t) && r.is_some() && match relay_addr {
                Some(a) => r.unwrap().is_ok() && r.unwrap().unwrap()@ == stream_url_spec(a@),
                None => r.unwrap() == Err::<String, ControlError>(ControlError::ServerNotReady),
            },
        },
{
    let current = registry.get();
    let next = preload.peek_next(&current);
    match next {
        None => None,
        Some(t) => Some(load_track(registry, relay_addr, t.url, t.key)),
    }
}

/// The track that completion advances to is always the one the preload cache holds,
/// so the relay's next connection, which snapshots it as current, takes that cache.
pub proof fn lemma_promoted_track_is_cached(
    current: Option<(Seq<char>, Seq<char>)>,
    cached: Option<((Seq<char>, Seq<char>), Seq<u8>)>,
)
    ensures
        match next_track_spec(current, cached) {
            Some(t) => cached.is_some() && cached.unwrap().0 == t && current != Some(t),
            None => true,
        },
{
}

} // verus!
