use vstd::prelude::*;

use crate::reading::Reading;
use crate::state::{spec_default_state, Battery, BluetoothCategory, State, Weather};

verus! {

/// What a network interface reports about itself.
#[derive(Clone, Copy, Debug, PartialEq, Eq, Structural)]
pub struct InterfaceState {
    pub up: bool,
    pub running: bool,
    pub loopback: bool,
    /// The interface has an IPv4 or IPv6 address.
    pub has_address: bool,
}

pub open spec fn usable(i: InterfaceState) -> bool {
    i.up && i.running && !i.loopback && i.has_address
}

/// Unknown without interfaces; otherwise whether some interface is up, running,
/// not loopback and addressed. This is a local link, not proof of internet access.
pub open spec fn spec_connection(interfaces: Seq<InterfaceState>) -> Option<bool> {
    if interfaces.len() == 0 {
        None
    } else {
        Some(exists|k: int| 0 <= k < interfaces.len() && usable(#[trigger] interfaces[k]))
    }
}

pub fn connection_state(interfaces: &[InterfaceState]) -> (r: Option<bool>)
    ensures
        r == spec_connection(interfaces@),
{
    if interfaces.len() == 0 {
        return None;
    }
    let mut k: usize = 0;
    while k < interfaces.len()
        invariant
            k <= interfaces@.len(),
            forall|j: int| 0 <= j < k ==> !usable(#[trigger] interfaces@[j]),
        decreases interfaces@.len() - k,
    {
        let i = interfaces[k];
        if i.up && i.running && !i.loopback && i.has_address {
            assert(usable(interfaces@[k as int]));
            return Some(true);
        }
        k = k + 1;
    }
    Some(false)
}

/// Used memory as a percentage of the total, in hundredths: exact when it is a
/// whole number of hundredths, otherwise known to lie between the two around it;
/// unknown when the total is zero. (Beyond `i64` it is the largest reading.)
pub open spec fn spec_memory_percent(used: u64, total: u64) -> Option<Reading> {
    if total == 0 {
        None
    } else {
        let p = used as int * 10000 / total as int;
        if p > i64::MAX {
            Some(Reading::Value(i64::MAX))
        } else if used as int * 10000 % total as int == 0 {
            Some(Reading::Value(p as i64))
        } else {
            Some(Reading::Between(p as i64))
        }
    }
}

pub fn memory_percent(used: u64, total: u64) -> (r: Option<Reading>)
    ensures
        r == spec_memory_percent(used, total),
{
    if total == 0 {
        return None;
    }
    assert((used as u128) * 10000 <= 0xffff_ffff_ffff_ffffu128 * 10000) by (nonlinear_arith);
    let scaled: u128 = (used as u128) * 10000;
    let p: u128 = scaled / (total as u128);
    let max: u128 = 0x7fff_ffff_ffff_ffff;
    if p > max {
        Some(Reading::Value(0x7fff_ffff_ffff_ffff))
    } else if scaled % (total as u128) == 0 {
        Some(Reading::Value(p as i64))
    } else {
        Some(Reading::Between(p as i64))
    }
}

/// Output audio counts as playing for this long after activity was last seen.
pub const AUDIO_HOLD_MS: u64 = 6000;

/// Battery and accessories are read again after this long.
pub const SLOW_REFRESH_MS: u64 = 30_000;

/// Weather is fetched again after this long.
pub const WEATHER_REFRESH_MS: u64 = 1_800_000;

/// The sampler's timing decisions between device readings, on a monotonic clock in
/// milliseconds.
#[derive(Clone, Copy, Debug, PartialEq, Eq, Structural)]
pub struct Sampler {
    /// The next sample is the first one (after start or after readings were
    /// switched on or off).
    pub first: bool,
    /// When battery and accessories were last read.
    pub slow_at: u64,
    /// When the weather was last fetched; `None` when a fetch is owed.
    pub weather_at: Option<u64>,
    /// Until when output audio counts as playing.
    pub audio_until: Option<u64>,
    /// Samples published so far.
    pub samples: u64,
}

impl Sampler {
    pub fn new() -> (s: Sampler)
        ensures
            s == (Sampler { first: true, slow_at: 0, weather_at: None, audio_until: None, samples: 0 }),
    {
        Sampler { first: true, slow_at: 0, weather_at: None, audio_until: None, samples: 0 }
    }

    /// The CPU reading to publish: none on a first sample, which has nothing to
    /// measure usage against.
    fn cpu(&self, measured: Reading) -> (r: Option<Reading>)
        ensures
            r == (if self.first {
                None
            } else {
                Some(measured)
            }),
    {
        if self.first {
            None
        } else {
            Some(measured)
        }
    }

    pub open spec fn spec_slow_due(&self, now: u64) -> bool {
        self.first || now - self.slow_at >= SLOW_REFRESH_MS
    }

    /// Battery and accessories are read on a first sample and every 30 s.
    pub fn slow_due(&self, now: u64) -> (r: bool)
        ensures
            r == self.spec_slow_due(now),
    {
        self.first || now.saturating_sub(self.slow_at) >= SLOW_REFRESH_MS
    }

    fn slow_done(&mut self, now: u64)
        ensures
            *final(self) == (Sampler { slow_at: now, ..*old(self) }),
    {
        self.slow_at = now;
    }

    pub open spec fn spec_weather_due(&self, now: u64) -> bool {
        self.first || match self.weather_at {
            None => true,
            Some(t) => now - t >= WEATHER_REFRESH_MS,
        }
    }

    /// A city's weather is fetched on a first sample, when the city changed, and
    /// every 30 minutes.
    pub fn weather_due(&self, now: u64) -> (r: bool)
        ensures
            r == self.spec_weather_due(now),
    {
        self.first || match self.weather_at {
            None => true,
            Some(t) => now >= t && now - t >= WEATHER_REFRESH_MS,
        }
    }

    fn weather_done(&mut self, now: u64)
        ensures
            *final(self) == (Sampler { weather_at: Some(now), ..*old(self) }),
    {
        self.weather_at = Some(now);
    }

    /// Output activity as published: active playback is held for six seconds so
    /// that the dance does not stop between readings; unknown stays unknown.
    fn playback(&mut self, active: Option<bool>, now: u64) -> (r: Option<bool>)
        requires
            now <= u64::MAX - AUDIO_HOLD_MS,
        ensures
            final(self).audio_until == (if active == Some(true) {
                Some((now + AUDIO_HOLD_MS) as u64)
            } else {
                old(self).audio_until
            }),
            final(self).first == old(self).first,
            final(self).slow_at == old(self).slow_at,
            final(self).weather_at == old(self).weather_at,
            final(self).samples == old(self).samples,
            r == (match active {
                None => None,
                Some(a) => Some(a || (final(self).audio_until matches Some(u) && now < u)),
            }),
    {
        if let Some(true) = active {
            self.audio_until = Some(now + AUDIO_HOLD_MS);
        }
        match active {
            None => None,
            Some(a) => Some(
                a || match self.audio_until {
                    Some(u) => now < u,
                    None => false,
                },
            ),
        }
    }

    /// Readings are switched off: the audio hold ends.
    fn pause(&mut self)
        ensures
            *final(self) == (Sampler { audio_until: None, ..*old(self) }),
    {
        self.audio_until = None;
    }

    /// A sample was published.
    fn published(&mut self)
        ensures
            *final(self) == (Sampler {
                first: false,
                samples: if old(self).samples == u64::MAX {
                    u64::MAX
                } else {
                    (old(self).samples + 1) as u64
                },
                ..*old(self)
            }),
    {
        self.first = false;
        self.samples = self.samples.saturating_add(1);
    }

    /// New settings: a different weather city is fetched at once; switching the
    /// device readings on or off starts over with a first sample.
    pub fn reconfigure(&mut self, city_changed: bool, readings_toggled: bool)
        ensures
            *final(self) == (Sampler {
                weather_at: if city_changed {
                    None
                } else {
                    old(self).weather_at
                },
                first: old(self).first || readings_toggled,
                ..*old(self)
            }),
    {
        if city_changed {
            self.weather_at = None;
        }
        if readings_toggled {
            self.first = true;
        }
    }

    /// Publishes one sample into `snapshot`. `device` holds the readings when
    /// device readings are on; `slow` the battery and accessories when they were
    /// read; `weather` what became of the weather.
    pub fn sample(
        &mut self,
        snapshot: &mut SensorSnapshot,
        device: Option<DeviceReadings>,
        slow: Option<SlowReadings>,
        weather: WeatherUpdate,
        now: u64,
    )
        requires
            now <= u64::MAX - AUDIO_HOLD_MS,
        ensures
            final(snapshot).state == spec_sampled(
                old(snapshot).state,
                old(self).first,
                old(self).audio_until,
                device,
                slow,
                weather.outcome(),
                now,
            ).normalized(),
            final(self).audio_until == spec_audio_until(old(self).audio_until, device, now),
            final(self).first == false,
            final(self).slow_at == (if device is Some && slow is Some {
                now
            } else {
                old(self).slow_at
            }),
            final(self).weather_at == (if weather is Fetched {
                Some(now)
            } else {
                old(self).weather_at
            }),
            final(self).samples == (if old(self).samples == u64::MAX {
                u64::MAX
            } else {
                (old(self).samples + 1) as u64
            }),
            final(snapshot).samples == final(self).samples,
            final(snapshot).note@ == (if device is Some {
                readings_note()
            } else {
                paused_note()
            }),
            final(snapshot).weather_status@ == match weather {
                WeatherUpdate::Off => "Weather is off"@,
                WeatherUpdate::NotDue => old(snapshot).weather_status@,
                WeatherUpdate::Fetched { name, country, condition } => fetched_status(
                    name@,
                    country@,
                    condition,
                ),
            },
    {
        let ghost previous = snapshot.state;
        let ghost first = self.first;
        let ghost until = self.audio_until;
        match device {
            Some(d) => {
                snapshot.state.hour = d.hour;
                snapshot.state.day = d.day;
                snapshot.state.cpu = self.cpu(d.cpu);
                snapshot.state.memory = d.memory;
                snapshot.state.connected = d.connected;
                snapshot.state.audio_playing = self.playback(d.playback, now);
                if let Some(r) = slow {
                    snapshot.state.battery = r.battery;
                    snapshot.state.volume = r.volume;
                    snapshot.state.headphones = r.headphones;
                    snapshot.state.bluetooth = r.bluetooth;
                    self.slow_done(now);
                }
                snapshot.note = String::from_str(
                    "Local readings only. Network means an active local interface, not verified internet access.",
                );
            },
            None => {
                let weather = snapshot.state.weather;
                snapshot.state = State::default();
                snapshot.state.weather = weather;
                self.pause();
                snapshot.note = String::from_str("Device readings paused");
            },
        }
        match weather {
            WeatherUpdate::Off => {
                snapshot.state.weather = None;
                snapshot.weather_status = String::from_str("Weather is off");
            },
            WeatherUpdate::NotDue => {},
            WeatherUpdate::Fetched { name, country, condition } => {
                snapshot.state.weather = condition;
                snapshot.weather_status = match condition {
                    Some(c) => {
                        let mut text = name;
                        text.append(", ");
                        text.append(country.as_str());
                        text.append(" · ");
                        text.append(weather_name(c));
                        text
                    },
                    None => String::from_str("Weather unavailable. Retrying in 30 minutes."),
                };
                self.weather_done(now);
            },
        }
        assert(snapshot.state == spec_sampled(previous, first, until, device, slow, weather.outcome(), now));
        snapshot.state.normalize();
        self.published();
        snapshot.samples = self.samples;
    }
}

/// What the device reported in one sample; percentages in hundredths.
#[derive(Clone, Copy, Debug, PartialEq, Eq, Structural)]
pub struct DeviceReadings {
    pub hour: u8,
    /// Monday = 0.
    pub day: u8,
    /// Global CPU usage since the previous measurement.
    pub cpu: Reading,
    pub memory: Option<Reading>,
    pub connected: Option<bool>,
    /// Whether output audio is active right now; unknown where unsupported.
    pub playback: Option<bool>,
}

/// Battery and accessories, read when `slow_due` says so.
#[derive(Clone, Copy, Debug, PartialEq, Eq, Structural)]
pub struct SlowReadings {
    pub battery: Option<Battery>,
    pub volume: Option<Reading>,
    pub headphones: Option<bool>,
    pub bluetooth: Option<BluetoothCategory>,
}

/// What became of the weather in one sample.
#[derive(Debug)]
pub enum WeatherUpdate {
    /// No city is chosen.
    Off,
    /// A city is chosen and its weather was not due.
    NotDue,
    /// The city's weather was requested: the city's name and country, and the
    /// condition, or `None` when the request failed.
    Fetched { name: String, country: String, condition: Option<Weather> },
}

impl WeatherUpdate {
    /// The weather to publish: unchanged (`None`), or replaced by the inner value.
    pub open spec fn outcome(&self) -> Option<Option<Weather>> {
        match self {
            WeatherUpdate::Off => Some(None),
            WeatherUpdate::NotDue => None,
            WeatherUpdate::Fetched { condition, .. } => Some(*condition),
        }
    }
}

/// The name of a weather condition as status texts show it.
pub open spec fn spec_weather_name(w: Weather) -> Seq<char> {
    match w {
        Weather::Clear => "Clear"@,
        Weather::Cloudy => "Cloudy"@,
        Weather::Rain => "Rain"@,
        Weather::Snow => "Snow"@,
        Weather::Thunder => "Thunder"@,
        Weather::Hot => "Hot"@,
        Weather::Cold => "Cold"@,
    }
}

pub fn weather_name(w: Weather) -> (r: &'static str)
    ensures
        r@ == spec_weather_name(w),
{
    match w {
        Weather::Clear => "Clear",
        Weather::Cloudy => "Cloudy",
        Weather::Rain => "Rain",
        Weather::Snow => "Snow",
        Weather::Thunder => "Thunder",
        Weather::Hot => "Hot",
        Weather::Cold => "Cold",
    }
}

/// Until when output audio counts as playing after a sample.
pub open spec fn spec_audio_until(
    audio_until: Option<u64>,
    device: Option<DeviceReadings>,
    now: u64,
) -> Option<u64> {
    match device {
        None => None,
        Some(d) => if d.playback == Some(true) {
            Some((now + AUDIO_HOLD_MS) as u64)
        } else {
            audio_until
        },
    }
}

/// The state a sample publishes, before normalisation: with readings on, the
/// fresh readings over the previous state (battery and accessories only when they
/// were read); with readings off, no device reading at all, while the weather,
/// which has its own switch, is kept; then the weather outcome.
pub open spec fn spec_sampled(
    previous: State,
    first: bool,
    audio_until: Option<u64>,
    device: Option<DeviceReadings>,
    slow: Option<SlowReadings>,
    weather: Option<Option<Weather>>,
    now: u64,
) -> State {
    let until = spec_audio_until(audio_until, device, now);
    let base = match device {
        None => State { weather: previous.weather, ..spec_default_state() },
        Some(d) => State {
            hour: d.hour,
            day: d.day,
            cpu: if first {
                None
            } else {
                Some(d.cpu)
            },
            memory: d.memory,
            connected: d.connected,
            audio_playing: match d.playback {
                None => None,
                Some(a) => Some(a || (until matches Some(u) && now < u)),
            },
            battery: match slow {
                Some(r) => r.battery,
                None => previous.battery,
            },
            volume: match slow {
                Some(r) => r.volume,
                None => previous.volume,
            },
            headphones: match slow {
                Some(r) => r.headphones,
                None => previous.headphones,
            },
            bluetooth: match slow {
                Some(r) => r.bluetooth,
                None => previous.bluetooth,
            },
            ..previous
        },
    };
    match weather {
        None => base,
        Some(w) => State { weather: w, ..base },
    }
}

/// The note published with device readings on.
pub open spec fn readings_note() -> Seq<char> {
    "Local readings only. Network means an active local interface, not verified internet access."@
}

/// The note published with device readings off.
pub open spec fn paused_note() -> Seq<char> {
    "Device readings paused"@
}

/// The weather status after a request: the city and its condition, or the retry
/// notice.
pub open spec fn fetched_status(name: Seq<char>, country: Seq<char>, condition: Option<Weather>) -> Seq<char> {
    match condition {
        Some(c) => name + ", "@ + country + " · "@ + spec_weather_name(c),
        None => "Weather unavailable. Retrying in 30 minutes."@,
    }
}

/// The latest device state with short status texts.
#[derive(Clone, Debug)]
pub struct SensorSnapshot {
    pub state: State,
    pub weather_status: String,
    pub note: String,
    pub samples: u64,
}

impl Default for SensorSnapshot {
    fn default() -> (s: SensorSnapshot)
        ensures
            s.state == spec_default_state(),
            s.weather_status@ == "Weather is off"@,
            s.note@ == "Waiting for the first local reading"@,
            s.samples == 0,
    {
        SensorSnapshot {
            state: State::default(),
            weather_status: String::from_str("Weather is off"),
            note: String::from_str("Waiting for the first local reading"),
            samples: 0,
        }
    }
}

} // verus!
