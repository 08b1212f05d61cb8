//! The audio engine driver's decisions: lifecycle events synthesised from the engine's
//! property changes, the device list offered to the UI, and the property writes that
//! switch the output device.

use vstd::prelude::*;
use vstd::string::StringExecFns;

verus! {

/// An output device as the UI sees it.
#[derive(Debug)]
pub struct AudioDevice {
    pub controllable_volume: bool,
    pub id: String,
    pub name: String,
    /// `systemDefault` for the engine's automatic choice, else none.
    pub kind: Option<String>,
}

/// An entry of the engine's `audio-device-list`: its identifier and description.
#[derive(Debug)]
pub struct DeviceEntry {
    pub name: String,
    pub description: String,
}

/// The view of an optional string.
pub open spec fn opt_str_view(s: Option<String>) -> Option<Seq<char>> {
    match s {
        Some(x) => Some(x@),
        None => None,
    }
}

/// A device's view: whether its volume is controllable, its id, name and kind.
pub open spec fn device_view(d: AudioDevice) -> (bool, Seq<char>, Seq<char>, Option<Seq<char>>) {
    (d.controllable_volume, d.id@, d.name@, opt_str_view(d.kind))
}

/// Whether the engine's device `id` is hidden from the UI.
pub open spec fn is_excluded(id: Seq<char>) -> bool {
    id == "openal"@
}

/// The UI's device for an engine entry `(id, description)`.
pub open spec fn offered_device(id: Seq<char>, description: Seq<char>) -> (
    bool,
    Seq<char>,
    Seq<char>,
    Option<Seq<char>>,
) {
    if id == "auto"@ {
        (true, "default"@, "System Default"@, Some("systemDefault"@))
    } else {
        (true, id, description, None)
    }
}

/// The devices offered for the engine's entries, in their order, leaving out the
/// excluded ones.
pub open spec fn offered_devices(entries: Seq<(Seq<char>, Seq<char>)>) -> Seq<
    (bool, Seq<char>, Seq<char>, Option<Seq<char>>),
>
    decreases entries.len(),
{
    if entries.len() == 0 {
        Seq::empty()
    } else {
        let last = entries.last();
        let rest = offered_devices(entries.drop_last());
        if is_excluded(last.0) {
            rest
        } else {
            rest.push(offered_device(last.0, last.1))
        }
    }
}

/// The view of the engine's entries.
pub open spec fn entries_view(entries: Seq<DeviceEntry>) -> Seq<(Seq<char>, Seq<char>)> {
    entries.map_values(|e: DeviceEntry| (e.name@, e.description@))
}

/// The view of a list of devices.
pub open spec fn devices_view(devices: Seq<AudioDevice>) -> Seq<
    (bool, Seq<char>, Seq<char>, Option<Seq<char>>),
> {
    devices.map_values(|d: AudioDevice| device_view(d))
}

/// The UI's device for one engine entry.
fn offer(entry: &DeviceEntry) -> (r: AudioDevice)
    ensures
        device_view(r) == offered_device(entry.name@, entry.description@),
{
    let auto = String::from_str("auto");
    if entry.name == auto {
        AudioDevice {
            controllable_volume: true,
            id: String::from_str("default"),
            name: String::from_str("System Default"),
            kind: Some(String::from_str("systemDefault")),
        }
    } else {
        AudioDevice {
            controllable_volume: true,
            id: entry.name.clone(),
            name: entry.description.clone(),
            kind: None,
        }
    }
}

/// The device list for the UI: the engine's entries in order, without the excluded
/// ones, the automatic choice shown as the system default.
pub fn offered(entries: &Vec<DeviceEntry>) -> (r: Vec<AudioDevice>)
    ensures
        devices_view(r@) == offered_devices(entries_view(entries@)),
{
    let excluded = String::from_str("openal");
    let mut out: Vec<AudioDevice> = Vec::new();
    let mut i: usize = 0;
    while i < entries.len()
        invariant
            i <= entries@.len(),
            excluded@ == "openal"@,
            devices_view(out@) == offered_devices(entries_view(entries@.subrange(0, i as int))),
        decreases entries@.len() - i,
    {
        let e = &entries[i];
        proof {
            let pre = entries@.subrange(0, i as int);
            let next = entries@.subrange(0, i + 1);
            assert(entries_view(next).drop_last() =~= entries_view(pre));
            assert(entries_view(next).last() == (e.name@, e.description@));
        }
        if !(e.name == excluded) {
            let d = offer(e);
            let ghost before = out@;
            let ghost dv = device_view(d);
            out.push(d);
            assert(devices_view(out@) =~= devices_view(before).push(dv));
        }
        i = i + 1;
    }
    assert(entries@.subrange(0, entries@.len() as int) =~= entries@);
    out
}

/// The playback state that the UI is told of.
#[derive(Debug, Clone, Copy, PartialEq, Eq, Structural)]
pub enum PlaybackState {
    Idle,
    Loading,
    Active,
    Paused,
    Completed,
}

/// The name under which the UI knows a state.
pub open spec fn state_label(s: PlaybackState) -> Seq<char> {
    match s {
        PlaybackState::Idle => "idle"@,
        PlaybackState::Loading => "loading"@,
        PlaybackState::Active => "active"@,
        PlaybackState::Paused => "paused"@,
        PlaybackState::Completed => "completed"@,
    }
}

impl PlaybackState {
    /// The name under which the UI knows this state.
    pub fn label(&self) -> (r: &'static str)
        ensures
            r@ == state_label(*self),
    {
        match self {
            PlaybackState::Idle => "idle",
            PlaybackState::Loading => "loading",
            PlaybackState::Active => "active",
            PlaybackState::Paused => "paused",
            PlaybackState::Completed => "completed",
        }
    }
}

/// The driver's memory between engine events: whether a file has started and the
/// `active` state waits for its duration, so that the UI first sees `active` with a
/// valid timeline.
pub struct EventSynth {
    pending_active: bool,
}

impl EventSynth {
    /// Whether `active` waits for the next duration.
    pub closed spec fn pending(&self) -> bool {
        self.pending_active
    }

    /// Nothing pending.
    pub fn new() -> (r: EventSynth)
        ensures
            !r.pending(),
    {
        EventSynth { pending_active: false }
    }

    /// A file started: `active` is held back until its duration is known.
    pub fn on_start_file(&mut self)
        ensures
            final(self).pending(),
    {
        self.pending_active = true;
    }

    /// The duration changed (and is forwarded by the caller): the held-back `active`,
    /// if any, is emitted now.
    pub fn on_duration(&mut self) -> (r: Option<PlaybackState>)
        ensures
            r == if old(self).pending() {
                Some(PlaybackState::Active)
            } else {
                None::<PlaybackState>
            },
            !final(self).pending(),
    {
        let r = if self.pending_active {
            Some(PlaybackState::Active)
        } else {
            None
        };
        self.pending_active = false;
        r
    }

    /// The pause flag changed.
    pub fn on_pause(&self, paused: bool) -> (r: PlaybackState)
        ensures
            r == if paused {
                PlaybackState::Paused
            } else {
                PlaybackState::Active
            },
    {
        if paused {
            PlaybackState::Paused
        } else {
            PlaybackState::Active
        }
    }

    /// The file ended (the caller first repeats the last known duration as the time):
    /// the track is completed and nothing stays pending.
    pub fn on_end_file(&mut self) -> (r: PlaybackState)
        ensures
            r == PlaybackState::Completed,
            !final(self).pending(),
    {
        self.pending_active = false;
        PlaybackState::Completed
    }
}

/// A value written to an engine property.
#[derive(Debug)]
pub enum PropertyValue {
    Flag(bool),
    Int(i64),
    Text(String),
}

/// A value written to an engine property, as a mathematical value.
pub enum ValueView {
    Flag(bool),
    Int(int),
    Text(Seq<char>),
}

/// The view of a property value.
pub open spec fn value_view(v: PropertyValue) -> ValueView {
    match v {
        PropertyValue::Flag(b) => ValueView::Flag(b),
        PropertyValue::Int(n) => ValueView::Int(n as int),
        PropertyValue::Text(t) => ValueView::Text(t@),
    }
}

/// One write of an engine property; when it is not `required` its failure is only
/// logged.
#[derive(Debug)]
pub struct PropertyWrite {
    pub name: String,
    pub value: PropertyValue,
    pub required: bool,
}

/// The view of a property write.
pub open spec fn write_view(w: PropertyWrite) -> (Seq<char>, ValueView, bool) {
    (w.name@, value_view(w.value), w.required)
}

/// The writes that switch the output device to `id`: the exclusivity hint; in
/// exclusive mode full volume and automatic channels, so that the software mixer is
/// bypassed; then the device itself, the one write whose failure is reported.
pub open spec fn device_switch_spec(id: Seq<char>, exclusive: bool) -> Seq<(Seq<char>, ValueView, bool)> {
    let hint = seq![("audio-exclusive"@, ValueView::Flag(exclusive), false)];
    let mixer = if exclusive {
        seq![("volume"@, ValueView::Int(100), false), ("audio-channels"@, ValueView::Text("auto"@), false)]
    } else {
        Seq::empty()
    };
    hint + mixer + seq![("audio-device"@, ValueView::Text(id), true)]
}

/// The property writes that switch the output device to `id`, in order.
pub fn device_switch(id: &String, exclusive: bool) -> (r: Vec<PropertyWrite>)
    ensures
        r@.map_values(|w: PropertyWrite| write_view(w)) == device_switch_spec(id@, exclusive),
{
    let mut r: Vec<PropertyWrite> = Vec::new();
    r.push(
        PropertyWrite {
            name: String::from_str("audio-exclusive"),
            value: PropertyValue::Flag(exclusive),
            required: false,
        },
    );
    if exclusive {
        r.push(
            PropertyWrite {
                name: String::from_str("volume"),
                value: PropertyValue::Int(100),
                required: false,
            },
        );
        r.push(
            PropertyWrite {
                name: String::from_str("audio-channels"),
                value: PropertyValue::Text(String::from_str("auto")),
                required: false,
            },
        );
    }
    r.push(
        PropertyWrite {
            name: String::from_str("audio-device"),
            value: PropertyValue::Text(id.clone()),
            required: true,
        },
    );
    assert(r@.map_values(|w: PropertyWrite| write_view(w)) =~= device_switch_spec(id@, exclusive));
    r
}

} // verus!
