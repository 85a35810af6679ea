use vstd::prelude::*;

use crate::reading::Reading;

verus! {

/// Battery charge in hundredths of a percent, and whether a charger is attached.
#[derive(Clone, Copy, Debug, PartialEq, Eq, Structural)]
pub struct Battery {
    pub level: Reading,
    pub charging: bool,
}

#[derive(Clone, Copy, Debug, Default, PartialEq, Eq, Structural)]
pub enum Weather {
    #[default]
    Clear,
    Cloudy,
    Rain,
    Snow,
    Thunder,
    Hot,
    Cold,
}

#[derive(Clone, Copy, Debug, Default, PartialEq, Eq, Structural)]
pub enum BluetoothCategory {
    #[default]
    Generic,
    Audio,
    Controller,
    Accessory,
}

/// Unknown readings stay unknown. No pack ever receives OS handles or device names.
///
/// Percent readings (`cpu`, `memory`, `volume`, battery level) are in hundredths of
/// a percent.
#[derive(Clone, Copy, Debug, PartialEq, Eq, Structural)]
pub struct State {
    pub battery: Option<Battery>,
    pub cpu: Option<Reading>,
    pub memory: Option<Reading>,
    pub connected: Option<bool>,
    pub hour: u8,
    /// Monday = 0, Sunday = 6.
    pub day: u8,
    pub weather: Option<Weather>,
    pub volume: Option<Reading>,
    pub headphones: Option<bool>,
    /// Aggregate output activity, not music recognition or recorded audio.
    pub audio_playing: Option<bool>,
    pub bluetooth: Option<BluetoothCategory>,
}

/// One hundred percent, in hundredths of a percent.
pub const FULL_PERCENT: i64 = 10000;

/// The state that holds no reading at all, at noon on a Monday.
pub open spec fn spec_default_state() -> State {
    State {
        battery: None,
        cpu: None,
        memory: None,
        connected: None,
        hour: 12,
        day: 0,
        weather: None,
        volume: None,
        headphones: None,
        audio_playing: None,
        bluetooth: None,
    }
}

/// The simulated machine the terminal and the lab start from.
pub open spec fn spec_demo_state() -> State {
    State {
        battery: Some(Battery { level: Reading::Value(7200), charging: false }),
        cpu: Some(Reading::Value(1200)),
        memory: Some(Reading::Value(4000)),
        connected: Some(true),
        hour: 12,
        day: 2,
        weather: None,
        volume: Some(Reading::Value(3500)),
        headphones: Some(false),
        audio_playing: None,
        bluetooth: None,
    }
}

/// A percent reading kept only when it is a real number, then limited to 0..=100 %.
pub open spec fn spec_percent(r: Option<Reading>) -> Option<Reading> {
    match r {
        Some(v) => if v.spec_is_finite() {
            Some(v.spec_clamped(0, FULL_PERCENT))
        } else {
            None
        },
        None => None,
    }
}

/// A battery whose level is not a real number is no battery reading at all.
pub open spec fn spec_battery(b: Option<Battery>) -> Option<Battery> {
    match b {
        Some(b) => if b.level.spec_is_finite() {
            Some(Battery { level: b.level.spec_clamped(0, FULL_PERCENT), charging: b.charging })
        } else {
            None
        },
        None => None,
    }
}

pub open spec fn spec_min(a: u8, b: u8) -> u8 {
    if a < b {
        a
    } else {
        b
    }
}

impl State {
    /// What `normalize` makes of this state.
    pub open spec fn normalized(self) -> State {
        State {
            battery: spec_battery(self.battery),
            cpu: spec_percent(self.cpu),
            memory: spec_percent(self.memory),
            volume: spec_percent(self.volume),
            hour: spec_min(self.hour, 23),
            day: spec_min(self.day, 6),
            ..self
        }
    }

    /// Every percent reading is a real number within 0..=100 %, the hour is at most
    /// 23 and the day at most 6.
    pub open spec fn is_normalized(self) -> bool {
        &&& (self.battery matches Some(b) ==> b.level.spec_within(0, FULL_PERCENT as int))
        &&& (self.cpu matches Some(r) ==> r.spec_within(0, FULL_PERCENT as int))
        &&& (self.memory matches Some(r) ==> r.spec_within(0, FULL_PERCENT as int))
        &&& (self.volume matches Some(r) ==> r.spec_within(0, FULL_PERCENT as int))
        &&& self.hour <= 23
        &&& self.day <= 6
    }

    pub fn demo() -> (s: State)
        ensures
            s == spec_demo_state(),
    {
        State {
            battery: Some(Battery { level: Reading::Value(7200), charging: false }),
            cpu: Some(Reading::Value(1200)),
            memory: Some(Reading::Value(4000)),
            connected: Some(true),
            day: 2,
            volume: Some(Reading::Value(3500)),
            headphones: Some(false),
            ..State::default()
        }
    }

    /// Drops readings that are not real numbers, limits percentages to 0..=100 %,
    /// the hour to 23 and the day to 6. Missing readings stay missing.
    pub fn normalize(&mut self)
        ensures
            *final(self) == old(self).normalized(),
            final(self).is_normalized(),
    {
        self.cpu = percent(self.cpu);
        self.memory = percent(self.memory);
        self.volume = percent(self.volume);
        self.battery = match self.battery {
            Some(b) => if b.level.is_finite() {
                Some(Battery { level: b.level.clamped(0, FULL_PERCENT), charging: b.charging })
            } else {
                None
            },
            None => None,
        };
        self.hour = if self.hour < 23 {
            self.hour
        } else {
            23
        };
        self.day = if self.day < 6 {
            self.day
        } else {
            6
        };
    }
}

fn percent(r: Option<Reading>) -> (p: Option<Reading>)
    ensures
        p == spec_percent(r),
{
    match r {
        Some(v) => if v.is_finite() {
            Some(v.clamped(0, FULL_PERCENT))
        } else {
            None
        },
        None => None,
    }
}

impl Default for State {
    fn default() -> (s: State)
        ensures
            s == spec_default_state(),
    {
        State {
            battery: None,
            cpu: None,
            memory: None,
            connected: None,
            hour: 12,
            day: 0,
            weather: None,
            volume: None,
            headphones: None,
            audio_playing: None,
            bluetooth: None,
        }
    }
}

/// How often the companion may sample and redraw.
#[derive(Clone, Copy, Debug, Default, PartialEq, Eq, Structural)]
pub enum PowerMode {
    #[default]
    Auto,
    Normal,
    Saver,
    Ultra,
}

impl PowerMode {
    /// Automatic mode follows the battery: Ultra below 8 % and Saver below 20 % while
    /// discharging, Normal otherwise. A manual mode is kept as chosen.
    pub open spec fn spec_effective(self, state: State) -> PowerMode {
        if self != PowerMode::Auto {
            self
        } else {
            match state.battery {
                Some(b) => if !b.charging && b.level.spec_under(800) {
                    PowerMode::Ultra
                } else if !b.charging && b.level.spec_under(2000) {
                    PowerMode::Saver
                } else {
                    PowerMode::Normal
                },
                None => PowerMode::Normal,
            }
        }
    }

    pub open spec fn spec_sensor_seconds(self) -> u64 {
        match self {
            PowerMode::Ultra => 30,
            PowerMode::Saver => 10,
            _ => 3,
        }
    }

    pub open spec fn spec_frame_floor_ms(self) -> u64 {
        match self {
            PowerMode::Ultra => 5000,
            PowerMode::Saver => 750,
            _ => 50,
        }
    }

    pub fn effective(self, state: &State) -> (m: PowerMode)
        ensures
            m == self.spec_effective(*state),
    {
        if self != PowerMode::Auto {
            return self;
        }
        match state.battery {
            Some(b) => if !b.charging && b.level.under(800) {
                PowerMode::Ultra
            } else if !b.charging && b.level.under(2000) {
                PowerMode::Saver
            } else {
                PowerMode::Normal
            },
            None => PowerMode::Normal,
        }
    }

    /// Seconds between device samples: 3 normally, 10 in Saver, 30 in Ultra.
    pub fn sensor_seconds(self) -> (s: u64)
        ensures
            s == self.spec_sensor_seconds(),
    {
        match self {
            PowerMode::Ultra => 30,
            PowerMode::Saver => 10,
            _ => 3,
        }
    }

    /// The shortest time between scheduled animation frames, in milliseconds.
    pub fn frame_floor_ms(self) -> (ms: u64)
        ensures
            ms == self.spec_frame_floor_ms(),
    {
        match self {
            PowerMode::Ultra => 5000,
            PowerMode::Saver => 750,
            _ => 50,
        }
    }
}

} // verus!
