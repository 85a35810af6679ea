//! The desktop companion's interaction rules: reactions the user starts by
//! hovering, clicking or choosing an activity, speech bubbles, the animation to
//! ask the pack for, and the texts of the health panel and badges. Time is a
//! monotonic clock in milliseconds.

use vstd::prelude::*;

use crate::dialogue::{line, lines_for, topic_of};
use crate::director::Decision;
use crate::pack::{
    first_index, has_idle, names_of, prefix_sum, timing_ok, total_ms, Animation, CharacterPack,
    Manifest, MAX_FRAME_MS,
};
use crate::reading::Reading;
use crate::state::{Battery, BluetoothCategory, State};
use crate::text::{decimal, decimal_text, same_text};

verus! {

/// A speech bubble disappears after this long.
pub const SPEECH_MS: u64 = 5000;

/// A reaction the user started plays at least this long.
pub const MIN_ACTIVITY_MS: u64 = 1200;

/// The dance party yields to director choices of at least this priority.
pub const DANCE_YIELDS_AT: u8 = 60;

/// A reaction the user asked for, and when it started.
#[derive(Debug)]
pub struct Activity {
    pub name: String,
    pub started: u64,
}

/// A line of speech and when it appeared.
#[derive(Clone, Copy, Debug)]
pub struct Speech {
    pub text: &'static str,
    pub shown: u64,
}

/// What the user has done to the companion.
#[derive(Debug)]
pub struct Interaction {
    /// The reaction the user started, playing until it has run its course.
    pub activity: Option<Activity>,
    /// The pointer is over the companion.
    pub hovered: bool,
    /// The user switched on the dance party.
    pub dance_party: bool,
    pub bubble: Option<Speech>,
    /// Lines said so far, to vary the next one.
    pub dialogue_index: usize,
    /// An animation chosen in the lab, played instead of anything else.
    pub forced: Option<String>,
    pub paused: bool,
}

/// The line said about `mood` after `index` earlier lines.
pub open spec fn spoken(mood: Seq<char>, index: usize) -> &'static str {
    lines_for(topic_of(mood))[index as int % lines_for(topic_of(mood)).len() as int]
}

/// The index after `i`, wrapping around.
pub open spec fn next_index(i: usize) -> usize {
    if i == usize::MAX {
        0
    } else {
        (i + 1) as usize
    }
}

/// The animation a pack plays for `name`: the named one, else `idle`.
pub open spec fn resolved_animation(m: Manifest, name: Seq<char>) -> Animation {
    let names = names_of(m.animations@);
    if first_index(names, name) >= 0 {
        m.animations@[first_index(names, name)].1
    } else {
        m.animations@[first_index(names, "idle"@)].1
    }
}

/// A reaction started at `started` has run its course at `now`: longer than its
/// animation, and longer than `MIN_ACTIVITY_MS`.
pub open spec fn activity_over(m: Manifest, name: Seq<char>, started: u64, now: u64) -> bool {
    let total = total_ms(resolved_animation(m, name).durations_ms@);
    let hold = if total > MIN_ACTIVITY_MS {
        total
    } else {
        MIN_ACTIVITY_MS as int
    };
    (if now >= started {
        now - started
    } else {
        0
    }) > hold
}

proof fn lemma_prefix_fits(d: Seq<u64>, n: int)
    requires
        0 <= n <= d.len(),
    ensures
        0 <= prefix_sum(d, n) <= n * 0xffff_ffff_ffff_ffff,
    decreases n,
{
    if n > 0 {
        lemma_prefix_fits(d, n - 1);
    }
}

/// The length of one pass of the animation.
fn total_of(d: &Vec<u64>) -> (t: u128)
    ensures
        t == total_ms(d@),
{
    let mut total: u128 = 0;
    let mut i: usize = 0;
    while i < d.len()
        invariant
            i <= d@.len(),
            total == prefix_sum(d@, i as int),
        decreases d@.len() - i,
    {
        proof {
            lemma_prefix_fits(d@, i as int);
            assert((i + 1) * 0xffff_ffff_ffff_ffffu64 <= 0xffff_ffff_ffff_ffffu64
                * 0xffff_ffff_ffff_ffffu64) by (nonlinear_arith)
                requires
                    i < 0xffff_ffff_ffff_ffffu64,
            ;
        }
        total = total + d[i] as u128;
        i = i + 1;
    }
    total
}

impl Interaction {
    pub open spec fn activity_view(&self) -> Option<(Seq<char>, u64)> {
        match &self.activity {
            Some(a) => Some((a.name@, a.started)),
            None => None,
        }
    }

    /// The animation to ask the pack for: one forced in the lab, else the user's
    /// reaction, else a dance when the party is on and the director has nothing
    /// important, else the director's choice.
    pub open spec fn spec_requested(&self, d: Decision) -> Seq<char> {
        match &self.forced {
            Some(f) => f@,
            None => match &self.activity {
                Some(a) => a.name@,
                None => if self.dance_party && d.priority < DANCE_YIELDS_AT {
                    "dance"@
                } else {
                    d.animation@
                },
            },
        }
    }

    /// Nothing has happened yet.
    pub fn new() -> (r: Interaction)
        ensures
            r.activity is None,
            !r.hovered,
            !r.dance_party,
            r.bubble is None,
            r.dialogue_index == 0,
            r.forced is None,
            !r.paused,
    {
        Interaction {
            activity: None,
            hovered: false,
            dance_party: false,
            bubble: None,
            dialogue_index: 0,
            forced: None,
            paused: false,
        }
    }

    /// Shows the next line about `mood`.
    pub fn talk(&mut self, mood: &str, now: u64)
        ensures
            final(self).bubble == Some(
                Speech { text: spoken(mood@, old(self).dialogue_index), shown: now },
            ),
            final(self).dialogue_index == next_index(old(self).dialogue_index),
            final(self).activity == old(self).activity,
            final(self).hovered == old(self).hovered,
            final(self).dance_party == old(self).dance_party,
            final(self).forced == old(self).forced,
            final(self).paused == old(self).paused,
    {
        let text = line(mood, self.dialogue_index);
        self.dialogue_index = if self.dialogue_index == usize::MAX {
            0
        } else {
            self.dialogue_index + 1
        };
        self.bubble = Some(Speech { text, shown: now });
    }

    /// The user chose an activity: any forced animation ends, the activity plays
    /// and the companion says a line about it.
    pub fn start_activity(&mut self, name: &str, now: u64)
        ensures
            final(self).forced is None,
            final(self).activity_view() == Some((name@, now)),
            final(self).bubble == Some(
                Speech { text: spoken(name@, old(self).dialogue_index), shown: now },
            ),
            final(self).dialogue_index == next_index(old(self).dialogue_index),
            final(self).hovered == old(self).hovered,
            final(self).dance_party == old(self).dance_party,
            final(self).paused == old(self).paused,
    {
        self.forced = None;
        self.activity = Some(Activity { name: String::from_str(name), started: now });
        self.talk(name, now);
    }

    /// The pointer is now over the companion or not. Arriving over it while the
    /// animation runs starts a curious reaction; the result says whether it did.
    pub fn hover(&mut self, hovered: bool, now: u64) -> (started: bool)
        ensures
            started == (hovered && !old(self).hovered && !old(self).paused),
            final(self).hovered == hovered,
            started ==> final(self).activity_view() == Some(("curious"@, now)),
            !started ==> final(self).activity == old(self).activity,
            final(self).bubble == old(self).bubble,
            final(self).dialogue_index == old(self).dialogue_index,
            final(self).dance_party == old(self).dance_party,
            final(self).forced == old(self).forced,
            final(self).paused == old(self).paused,
    {
        let start = hovered && !self.hovered && !self.paused;
        if start {
            self.activity = Some(Activity { name: String::from_str("curious"), started: now });
        }
        self.hovered = hovered;
        start
    }

    /// A single click: the companion waves and says a greeting.
    pub fn click(&mut self, now: u64)
        ensures
            final(self).activity_view() == Some(("wave"@, now)),
            final(self).bubble == Some(
                Speech { text: spoken("click"@, old(self).dialogue_index), shown: now },
            ),
            final(self).dialogue_index == next_index(old(self).dialogue_index),
            final(self).hovered == old(self).hovered,
            final(self).dance_party == old(self).dance_party,
            final(self).forced == old(self).forced,
            final(self).paused == old(self).paused,
    {
        self.activity = Some(Activity { name: String::from_str("wave"), started: now });
        self.talk("click", now);
    }

    /// Ends the user's reaction once it has run its course, returning the
    /// companion to live behaviour.
    pub fn finish_activity(&mut self, pack: &CharacterPack, now: u64)
        requires
            has_idle(pack.manifest),
        ensures
            final(self).activity_view() == (match old(self).activity_view() {
                Some((name, started)) => if activity_over(pack.manifest, name, started, now) {
                    None
                } else {
                    old(self).activity_view()
                },
                None => None,
            }),
            final(self).bubble == old(self).bubble,
            final(self).dialogue_index == old(self).dialogue_index,
            final(self).hovered == old(self).hovered,
            final(self).dance_party == old(self).dance_party,
            final(self).forced == old(self).forced,
            final(self).paused == old(self).paused,
    {
        let over = match &self.activity {
            Some(a) => {
                let (_, animation) = pack.resolve(a.name.as_str());
                let total = total_of(&animation.durations_ms);
                let hold: u128 = if total > MIN_ACTIVITY_MS as u128 {
                    total
                } else {
                    MIN_ACTIVITY_MS as u128
                };
                (now.saturating_sub(a.started) as u128) > hold
            },
            None => false,
        };
        if over {
            self.activity = None;
        }
    }

    /// The user clicked the bubble: it disappears at once.
    pub fn dismiss_speech(&mut self)
        ensures
            final(self).bubble is None,
            final(self).activity == old(self).activity,
            final(self).dialogue_index == old(self).dialogue_index,
            final(self).hovered == old(self).hovered,
            final(self).dance_party == old(self).dance_party,
            final(self).forced == old(self).forced,
            final(self).paused == old(self).paused,
    {
        self.bubble = None;
    }

    /// Removes a bubble that has been shown for five seconds.
    pub fn expire_speech(&mut self, now: u64)
        ensures
            final(self).bubble == (match old(self).bubble {
                Some(b) => if now >= b.shown && now - b.shown >= SPEECH_MS {
                    None
                } else {
                    Some(b)
                },
                None => None,
            }),
            final(self).activity == old(self).activity,
            final(self).dialogue_index == old(self).dialogue_index,
            final(self).hovered == old(self).hovered,
            final(self).dance_party == old(self).dance_party,
            final(self).forced == old(self).forced,
            final(self).paused == old(self).paused,
    {
        if let Some(b) = self.bubble {
            if now.saturating_sub(b.shown) >= SPEECH_MS {
                self.bubble = None;
            }
        }
    }

    /// The animation to ask the pack for, given the director's decision.
    pub fn requested<'a>(&'a self, decision: &Decision) -> (r: &'a str)
        ensures
            r@ == self.spec_requested(*decision),
    {
        match &self.forced {
            Some(f) => f.as_str(),
            None => match &self.activity {
                Some(a) => a.name.as_str(),
                None => if self.dance_party && decision.priority < DANCE_YIELDS_AT {
                    "dance"
                } else {
                    decision.animation
                },
            },
        }
    }
}

/// The accessory overlays drawn over the sprite.
#[derive(Clone, Copy, Debug, PartialEq, Eq)]
pub struct Overlays {
    pub headphones: bool,
    pub rain: bool,
    pub heat: bool,
}

/// The overlays for the decision while `shown` plays. Packs of a declared kind
/// carry their props in the sprites and get none; the heat mark is left off the
/// CPU animations, which show the heat themselves.
pub open spec fn spec_overlays(d: Decision, shown: Seq<char>, kind: Seq<char>) -> Option<Overlays> {
    if kind.len() > 0 {
        None
    } else {
        Some(
            Overlays {
                headphones: d.headphones,
                rain: d.rain,
                heat: d.heat && !(shown.len() >= 3 && shown.take(3) == "cpu"@),
            },
        )
    }
}

pub fn overlays(d: &Decision, shown: &str, kind: &str) -> (r: Option<Overlays>)
    ensures
        r == spec_overlays(*d, shown@, kind@),
{
    if kind.unicode_len() > 0 {
        return None;
    }
    let cpu = shown.unicode_len() >= 3 && same_text(shown.substring_char(0, 3), "cpu");
    Some(Overlays { headphones: d.headphones, rain: d.rain, heat: d.heat && !cpu })
}

/// Stepping by hand: the frame after `frame`, wrapping to the first, and the
/// playback position at which it starts.
pub open spec fn spec_step_frame(a: Animation, frame: u32) -> (u32, u64) {
    let next = (frame + 1) % (a.frames as int);
    (next as u32, prefix_sum(a.durations_ms@, next) as u64)
}

pub fn step_frame(a: &Animation, frame: u32) -> (r: (u32, u64))
    requires
        timing_ok(*a),
        frame < a.frames,
    ensures
        r == spec_step_frame(*a, frame),
{
    let next = (frame + 1) % a.frames;
    let d = &a.durations_ms;
    let mut elapsed: u64 = 0;
    let mut i: usize = 0;
    while i < next as usize
        invariant
            next < a.frames,
            d@.len() == a.frames,
            a.frames <= 64,
            i <= next,
            elapsed == prefix_sum(d@, i as int),
            elapsed <= i * MAX_FRAME_MS,
            forall|k: int| 0 <= k < d@.len() ==> #[trigger] d@[k] <= MAX_FRAME_MS,
            d == &a.durations_ms,
        decreases next - i,
    {
        elapsed = elapsed + d[i];
        i = i + 1;
    }
    (next, elapsed)
}

/// CPU use above this (hundredths of a percent) is more than comfortable.
pub const CPU_WARNING: i64 = 8000;

/// RAM use above this (hundredths of a percent) is more than comfortable.
pub const RAM_WARNING: i64 = 8500;

/// How a usage gauge reads: sustained, a brief spike, comfortable, or unknown.
pub open spec fn spec_usage_note(reading: Option<Reading>, busy: bool, warning: i64) -> &'static str {
    match reading {
        None => "Waiting for a reading",
        Some(v) => if busy {
            "Sustained high usage"
        } else if v.spec_exceeds(warning as int) {
            "Brief spike — watching before warning"
        } else {
            "Comfortable usage"
        },
    }
}

pub fn usage_note(reading: Option<Reading>, busy: bool, warning: i64) -> (r: &'static str)
    ensures
        r == spec_usage_note(reading, busy, warning),
{
    match reading {
        None => "Waiting for a reading",
        Some(v) => if busy {
            "Sustained high usage"
        } else if v.exceeds(warning) {
            "Brief spike — watching before warning"
        } else {
            "Comfortable usage"
        },
    }
}

/// One gauge of the health panel.
#[derive(Clone, Copy, Debug)]
pub struct Gauge {
    pub label: &'static str,
    pub reading: Option<Reading>,
    pub busy: bool,
    pub note: &'static str,
}

/// The health panel's gauges: CPU, then RAM.
pub open spec fn spec_gauges(s: State, d: Decision) -> Seq<Gauge> {
    seq![
        Gauge {
            label: "CPU",
            reading: s.cpu,
            busy: d.cpu_busy,
            note: spec_usage_note(s.cpu, d.cpu_busy, CPU_WARNING),
        },
        Gauge {
            label: "RAM",
            reading: s.memory,
            busy: d.memory_busy,
            note: spec_usage_note(s.memory, d.memory_busy, RAM_WARNING),
        },
    ]
}

pub fn gauges(s: &State, d: &Decision) -> (r: Vec<Gauge>)
    ensures
        r@ == spec_gauges(*s, *d),
{
    let mut r: Vec<Gauge> = Vec::new();
    r.push(
        Gauge {
            label: "CPU",
            reading: s.cpu,
            busy: d.cpu_busy,
            note: usage_note(s.cpu, d.cpu_busy, CPU_WARNING),
        },
    );
    r.push(
        Gauge {
            label: "RAM",
            reading: s.memory,
            busy: d.memory_busy,
            note: usage_note(s.memory, d.memory_busy, RAM_WARNING),
        },
    );
    assert(r@ =~= spec_gauges(*s, *d));
    r
}

/// Practical guidance for the warnings that are on.
pub open spec fn spec_advice(d: Decision) -> Seq<&'static str> {
    let ram: Seq<&'static str> = if d.memory_busy {
        seq!["RAM: close apps or browser tabs you are not using. Save work before closing anything."]
    } else {
        seq![]
    };
    let cpu: Seq<&'static str> = if d.cpu_busy {
        seq![
            "CPU: let heavy tasks finish, or pause work you don't need right now. High use can be normal during demanding tasks.",
        ]
    } else {
        seq![]
    };
    let calm: Seq<&'static str> = if !d.cpu_busy && !d.memory_busy {
        seq!["No sustained CPU or RAM warning right now."]
    } else {
        seq![]
    };
    ram + cpu + calm
}

pub fn advice(d: &Decision) -> (r: Vec<&'static str>)
    ensures
        r@ == spec_advice(*d),
{
    let mut r: Vec<&'static str> = Vec::new();
    if d.memory_busy {
        r.push("RAM: close apps or browser tabs you are not using. Save work before closing anything.");
    }
    if d.cpu_busy {
        r.push(
            "CPU: let heavy tasks finish, or pause work you don't need right now. High use can be normal during demanding tasks.",
        );
    }
    if !d.cpu_busy && !d.memory_busy {
        r.push("No sustained CPU or RAM warning right now.");
    }
    assert(r@ =~= spec_advice(*d));
    r
}

/// A hundredths value rounded to a whole number, halves to the even neighbour.
pub open spec fn rounded_whole(m: nat) -> nat {
    let q = m / 100;
    let rem = m % 100;
    if rem > 50 || (rem == 50 && q % 2 == 1) {
        q + 1
    } else {
        q
    }
}

/// A magnitude strictly between `m` and `m + 1` hundredths, rounded to a whole
/// number: it is never exactly half way.
pub open spec fn rounded_between(m: nat) -> nat {
    if m % 100 >= 50 {
        m / 100 + 1
    } else {
        m / 100
    }
}

/// A reading to no decimal places, the way a float prints with `{:.0}`.
pub open spec fn whole_text(r: Reading) -> Seq<char> {
    match r {
        Reading::Value(v) => if v < 0 {
            "-"@ + decimal_text(rounded_whole((-v) as nat))
        } else {
            decimal_text(rounded_whole(v as nat))
        },
        Reading::Between(v) => if v < 0 {
            "-"@ + decimal_text(rounded_between((-v - 1) as nat))
        } else {
            decimal_text(rounded_between(v as nat))
        },
        Reading::PositiveInfinity => "inf"@,
        Reading::NegativeInfinity => "-inf"@,
        Reading::NotANumber => "NaN"@,
    }
}

pub fn whole(r: Reading) -> (s: String)
    ensures
        s@ == whole_text(r),
{
    match r {
        Reading::Value(v) => {
            let m: u64 = if v < 0 {
                (-(v as i128)) as u64
            } else {
                v as u64
            };
            let q = m / 100;
            let rem = m % 100;
            let n = if rem > 50 || (rem == 50 && q % 2 == 1) {
                q + 1
            } else {
                q
            };
            if v < 0 {
                let mut s = String::from_str("-");
                let digits = decimal(n);
                s.append(digits.as_str());
                s
            } else {
                decimal(n)
            }
        },
        Reading::Between(v) => {
            let m: u64 = if v < 0 {
                (-(v as i128) - 1) as u64
            } else {
                v as u64
            };
            let n = if m % 100 >= 50 {
                m / 100 + 1
            } else {
                m / 100
            };
            if v < 0 {
                let mut s = String::from_str("-");
                let digits = decimal(n);
                s.append(digits.as_str());
                s
            } else {
                decimal(n)
            }
        },
        Reading::PositiveInfinity => String::from_str("inf"),
        Reading::NegativeInfinity => String::from_str("-inf"),
        Reading::NotANumber => String::from_str("NaN"),
    }
}

/// A percent reading, or that it is unavailable.
pub open spec fn percent_text(r: Option<Reading>) -> Seq<char> {
    match r {
        Some(v) => whole_text(v) + "%"@,
        None => "Unavailable"@,
    }
}

pub fn percent(r: Option<Reading>) -> (s: String)
    ensures
        s@ == percent_text(r),
{
    match r {
        Some(v) => {
            let mut s = whole(v);
            s.append("%");
            s
        },
        None => String::from_str("Unavailable"),
    }
}

/// The text of a warning badge: the reading, or that the part is busy.
pub open spec fn badge_text(label: Seq<char>, r: Option<Reading>) -> Seq<char> {
    match r {
        Some(v) => label + " "@ + whole_text(v) + "%"@,
        None => label + " busy"@,
    }
}

/// The warning badges to show, CPU first: one for each sustained warning.
pub open spec fn spec_badges(s: State, d: Decision) -> Seq<Seq<char>> {
    let cpu: Seq<Seq<char>> = if d.cpu_busy {
        seq![badge_text("CPU"@, s.cpu)]
    } else {
        seq![]
    };
    let ram: Seq<Seq<char>> = if d.memory_busy {
        seq![badge_text("RAM"@, s.memory)]
    } else {
        seq![]
    };
    cpu + ram
}

fn badge(label: &str, r: Option<Reading>) -> (s: String)
    ensures
        s@ == badge_text(label@, r),
{
    let mut s = String::from_str(label);
    match r {
        Some(v) => {
            s.append(" ");
            let w = whole(v);
            s.append(w.as_str());
            s.append("%");
        },
        None => s.append(" busy"),
    }
    s
}

pub fn badges(s: &State, d: &Decision) -> (r: Vec<String>)
    ensures
        r@.map_values(|t: String| t@) == spec_badges(*s, *d),
{
    let mut r: Vec<String> = Vec::new();
    if d.cpu_busy {
        r.push(badge("CPU", s.cpu));
    }
    if d.memory_busy {
        r.push(badge("RAM", s.memory));
    }
    assert(r@.map_values(|t: String| t@) =~= spec_badges(*s, *d));
    r
}

/// The battery badge shows while charging or below 20 %.
pub open spec fn spec_battery_badge(s: State) -> Option<Battery> {
    match s.battery {
        Some(b) => if b.charging || b.level.spec_under(2000) {
            Some(b)
        } else {
            None
        },
        None => None,
    }
}

pub fn battery_badge(s: &State) -> (r: Option<Battery>)
    ensures
        r == spec_battery_badge(*s),
{
    match s.battery {
        Some(b) => if b.charging || b.level.under(2000) {
            Some(b)
        } else {
            None
        },
        None => None,
    }
}

pub open spec fn bluetooth_name(b: BluetoothCategory) -> Seq<char> {
    match b {
        BluetoothCategory::Generic => "Generic"@,
        BluetoothCategory::Audio => "Audio"@,
        BluetoothCategory::Controller => "Controller"@,
        BluetoothCategory::Accessory => "Accessory"@,
    }
}

/// The live readings as the lab lists them, label and text.
pub open spec fn spec_reading_rows(s: State) -> Seq<(&'static str, Seq<char>)> {
    seq![
        ("Battery", match s.battery {
            Some(b) => whole_text(b.level) + "%"@ + (if b.charging {
                " · charging"@
            } else {
                ""@
            }),
            None => "No reading"@,
        }),
        ("CPU", percent_text(s.cpu)),
        ("Memory", percent_text(s.memory)),
        ("Network", match s.connected {
            Some(true) => "Local connection"@,
            Some(false) => "Offline"@,
            None => "Unavailable"@,
        }),
        ("Volume", percent_text(s.volume)),
        ("Headphones", match s.headphones {
            Some(true) => "Connected"@,
            Some(false) => "Not detected"@,
            None => "Unavailable"@,
        }),
        ("Bluetooth", match s.bluetooth {
            Some(b) => bluetooth_name(b),
            None => "None / unavailable"@,
        }),
        ("Time", (if s.hour < 10 {
            "0"@
        } else {
            ""@
        }) + decimal_text(s.hour as nat) + ":00"@),
    ]
}

pub open spec fn rows_view(v: Seq<(&'static str, String)>) -> Seq<(&'static str, Seq<char>)> {
    v.map_values(|e: (&'static str, String)| (e.0, e.1@))
}

pub fn reading_rows(s: &State) -> (r: Vec<(&'static str, String)>)
    ensures
        rows_view(r@) == spec_reading_rows(*s),
{
    let battery = match s.battery {
        Some(b) => {
            let mut t = whole(b.level);
            t.append("%");
            if b.charging {
                t.append(" · charging");
            } else {
                t.append("");
            }
            t
        },
        None => String::from_str("No reading"),
    };
    let network = match s.connected {
        Some(true) => "Local connection",
        Some(false) => "Offline",
        None => "Unavailable",
    };
    let headphones = match s.headphones {
        Some(true) => "Connected",
        Some(false) => "Not detected",
        None => "Unavailable",
    };
    let bluetooth = match s.bluetooth {
        Some(BluetoothCategory::Generic) => "Generic",
        Some(BluetoothCategory::Audio) => "Audio",
        Some(BluetoothCategory::Controller) => "Controller",
        Some(BluetoothCategory::Accessory) => "Accessory",
        None => "None / unavailable",
    };
    let mut time = String::from_str(if s.hour < 10 {
        "0"
    } else {
        ""
    });
    let hour = decimal(s.hour as u64);
    time.append(hour.as_str());
    time.append(":00");
    let mut r: Vec<(&'static str, String)> = Vec::new();
    r.push(("Battery", battery));
    r.push(("CPU", percent(s.cpu)));
    r.push(("Memory", percent(s.memory)));
    r.push(("Network", String::from_str(network)));
    r.push(("Volume", percent(s.volume)));
    r.push(("Headphones", String::from_str(headphones)));
    r.push(("Bluetooth", String::from_str(bluetooth)));
    r.push(("Time", time));
    assert(rows_view(r@) =~= spec_reading_rows(*s));
    r
}

} // verus!
