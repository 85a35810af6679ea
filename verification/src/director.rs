use vstd::prelude::*;

use crate::reading::Reading;
use crate::state::{Battery, State, Weather};
use std::collections::VecDeque;

verus! {

broadcast use vstd::std_specs::vecdeque::group_vec_dequeue_axioms;

#[derive(Clone, Copy, Debug, PartialEq, Eq, Structural)]
pub enum Intensity {
    Calm,
    Active,
    Stressed,
    Critical,
}

/// What the companion shows now: an animation with its reason and priority, how
/// tense the situation is, and the overlays that apply whatever plays.
#[derive(Clone, Copy, Debug, PartialEq, Eq)]
pub struct Decision {
    pub animation: &'static str,
    pub reason: &'static str,
    pub priority: u8,
    pub intensity: Intensity,
    pub headphones: bool,
    pub rain: bool,
    pub heat: bool,
    pub charging: bool,
    pub cpu_busy: bool,
    pub memory_busy: bool,
}

/// A one-shot reaction to a change of the device state.
#[derive(Clone, Copy, Debug, PartialEq, Eq, Structural)]
pub enum Event {
    Lost,
    Restored,
    Charge,
    Full,
    Headphones,
    Wake,
    Muted,
    Loud,
    Accessory,
}

/// The gesture that ambient activity plays.
#[derive(Clone, Copy, Debug, PartialEq, Eq, Structural)]
pub enum Ambient {
    Celebrate,
    Walk,
    Wave,
}

/// Number of distinct events.
pub const EVENT_COUNT: usize = 9;

/// The pending-event queue never holds more than this many entries.
pub const QUEUE_LIMIT: usize = 4;

/// A queued event is dropped once it has waited longer than this.
pub const EVENT_EXPIRY_MS: u64 = 8000;

/// Callers keep their monotonic clock below this, so that every deadline the
/// director computes fits in a `u64`.
pub const CLOCK_LIMIT: u64 = 18446744073709371615;

impl Event {
    /// Animation, reason, priority, hold time and cooldown, in milliseconds.
    pub open spec fn spec_details(self) -> (&'static str, &'static str, u8, u64, u64) {
        match self {
            Event::Lost => ("wifi_lost", "Connection lost. Looking for a signal.", 100, 2400, 60_000),
            Event::Restored => (
                "wifi_restored",
                "Connection restored. Obviously I fixed it.",
                90,
                1600,
                30_000,
            ),
            Event::Charge => ("charging_start", "Power acquired. About time.", 85, 1600, 15_000),
            Event::Full => ("celebrate", "Fully charged. Try to keep up.", 70, 1800, 180_000),
            Event::Headphones => ("headphones_reaction", "Headphones on. World off.", 40, 1200, 15_000),
            Event::Wake => ("wake", "Morning already?", 30, 1800, 60_000),
            Event::Muted => ("blink", "Silent treatment. Got it.", 25, 900, 15_000),
            Event::Loud => ("headphones_reaction", "Okay, we all heard that.", 35, 1200, 30_000),
            Event::Accessory => ("headphones_reaction", "Something else moved in.", 20, 1000, 15_000),
        }
    }

    pub open spec fn priority(self) -> u8 {
        self.spec_details().2
    }

    pub open spec fn hold_ms(self) -> u64 {
        self.spec_details().3
    }

    pub open spec fn cooldown_ms(self) -> u64 {
        self.spec_details().4
    }

    /// Position of the event in declaration order.
    pub open spec fn ordinal(self) -> int {
        match self {
            Event::Lost => 0,
            Event::Restored => 1,
            Event::Charge => 2,
            Event::Full => 3,
            Event::Headphones => 4,
            Event::Wake => 5,
            Event::Muted => 6,
            Event::Loud => 7,
            Event::Accessory => 8,
        }
    }

    pub fn details(self) -> (d: (&'static str, &'static str, u8, u64, u64))
        ensures
            d == self.spec_details(),
    {
        match self {
            Event::Lost => ("wifi_lost", "Connection lost. Looking for a signal.", 100, 2400, 60_000),
            Event::Restored => (
                "wifi_restored",
                "Connection restored. Obviously I fixed it.",
                90,
                1600,
                30_000,
            ),
            Event::Charge => ("charging_start", "Power acquired. About time.", 85, 1600, 15_000),
            Event::Full => ("celebrate", "Fully charged. Try to keep up.", 70, 1800, 180_000),
            Event::Headphones => ("headphones_reaction", "Headphones on. World off.", 40, 1200, 15_000),
            Event::Wake => ("wake", "Morning already?", 30, 1800, 60_000),
            Event::Muted => ("blink", "Silent treatment. Got it.", 25, 900, 15_000),
            Event::Loud => ("headphones_reaction", "Okay, we all heard that.", 35, 1200, 30_000),
            Event::Accessory => ("headphones_reaction", "Something else moved in.", 20, 1000, 15_000),
        }
    }

    fn index(self) -> (i: usize)
        ensures
            i == self.ordinal(),
            i < EVENT_COUNT,
    {
        match self {
            Event::Lost => 0,
            Event::Restored => 1,
            Event::Charge => 2,
            Event::Full => 3,
            Event::Headphones => 4,
            Event::Wake => 5,
            Event::Muted => 6,
            Event::Loud => 7,
            Event::Accessory => 8,
        }
    }

    fn from_index(i: usize) -> (e: Event)
        requires
            i < EVENT_COUNT,
        ensures
            e.ordinal() == i,
    {
        if i == 0 {
            Event::Lost
        } else if i == 1 {
            Event::Restored
        } else if i == 2 {
            Event::Charge
        } else if i == 3 {
            Event::Full
        } else if i == 4 {
            Event::Headphones
        } else if i == 5 {
            Event::Wake
        } else if i == 6 {
            Event::Muted
        } else if i == 7 {
            Event::Loud
        } else {
            Event::Accessory
        }
    }
}

pub proof fn lemma_ordinal_injective(a: Event, b: Event)
    ensures
        a.ordinal() == b.ordinal() ==> a == b,
{
}

impl Ambient {
    pub open spec fn spec_name(self) -> &'static str {
        match self {
            Ambient::Celebrate => "celebrate",
            Ambient::Walk => "walk",
            Ambient::Wave => "wave",
        }
    }

    pub fn name(self) -> (n: &'static str)
        ensures
            n == self.spec_name(),
    {
        match self {
            Ambient::Celebrate => "celebrate",
            Ambient::Walk => "walk",
            Ambient::Wave => "wave",
        }
    }
}

/// Enter-and-leave thresholds with hold times: a reading must stay across the
/// threshold for 5 s to switch on and for 10 s to switch off.
#[derive(Clone, Copy, Debug, PartialEq, Eq, Structural)]
pub struct Hysteresis {
    pub active: bool,
    /// When the reading first crossed the threshold it is now across.
    pub since: Option<u64>,
}

pub open spec fn spec_saturating_sub(a: u64, b: u64) -> u64 {
    if a >= b {
        (a - b) as u64
    } else {
        0
    }
}

impl Hysteresis {
    pub open spec fn spec_update(self, value: Option<Reading>, enter: i64, exit: i64, now: u64) -> Hysteresis {
        match value {
            None => Hysteresis { active: false, since: None },
            Some(v) => {
                let crossing = if self.active {
                    v.spec_under(exit as int)
                } else {
                    v.spec_exceeds(enter as int)
                };
                if crossing {
                    let start = match self.since {
                        Some(s) => s,
                        None => now,
                    };
                    let hold: u64 = if self.active {
                        10_000
                    } else {
                        5_000
                    };
                    if spec_saturating_sub(now, start) >= hold {
                        Hysteresis { active: !self.active, since: None }
                    } else {
                        Hysteresis { active: self.active, since: Some(start) }
                    }
                } else {
                    Hysteresis { active: self.active, since: None }
                }
            },
        }
    }

    pub fn new() -> (h: Hysteresis)
        ensures
            h == (Hysteresis { active: false, since: None }),
    {
        Hysteresis { active: false, since: None }
    }

    /// Feeds one reading: a missing reading clears the state at once.
    pub fn update(&mut self, value: Option<Reading>, enter: i64, exit: i64, now: u64)
        ensures
            *final(self) == old(self).spec_update(value, enter, exit, now),
    {
        let v = match value {
            None => {
                self.active = false;
                self.since = None;
                return ;
            },
            Some(v) => v,
        };
        let crossing = if self.active {
            v.under(exit)
        } else {
            v.exceeds(enter)
        };
        if crossing {
            let start = match self.since {
                Some(s) => s,
                None => now,
            };
            self.since = Some(start);
            let hold: u64 = if self.active {
                10_000
            } else {
                5_000
            };
            if now.saturating_sub(start) >= hold {
                self.active = !self.active;
                self.since = None;
            }
        } else {
            self.since = None;
        }
    }
}

/// The director's state as a mathematical value.
pub struct DirectorView {
    pub previous: Option<State>,
    pub queue: Seq<(Event, u64)>,
    /// Until when each event is cooling down, for the events that ever played.
    pub cooldowns: Map<Event, u64>,
    pub current: Option<(Event, u64)>,
    pub cpu: Hysteresis,
    pub memory: Hysteresis,
    pub last_ambient: u64,
    pub ambient_until: u64,
    pub ambient: Ambient,
    pub last_blink: u64,
    pub blink_until: u64,
    pub seed: u64,
}

/// A monotonic-clock, platform-independent director. Events are bounded, expire,
/// and never interrupt another one-shot. State updates are never discarded.
pub struct Director {
    previous: Option<State>,
    queue: VecDeque<(Event, u64)>,
    cooldowns: Vec<Option<u64>>,
    current: Option<(Event, u64)>,
    cpu: Hysteresis,
    memory: Hysteresis,
    last_ambient: u64,
    ambient_until: u64,
    ambient: Ambient,
    last_blink: u64,
    blink_until: u64,
    seed: u64,
}

/// The queue holds at most four events, each at most once, and never the event
/// that is playing.
pub open spec fn view_wf(v: DirectorView) -> bool {
    &&& v.queue.len() <= QUEUE_LIMIT
    &&& queue_distinct(v.queue)
    &&& (v.current matches Some(c) ==> !queue_has(v.queue, c.0))
}

pub open spec fn queue_has(q: Seq<(Event, u64)>, e: Event) -> bool {
    exists|i: int| 0 <= i < q.len() && #[trigger] q[i].0 == e
}

/// No event is queued twice.
pub open spec fn queue_distinct(q: Seq<(Event, u64)>) -> bool {
    forall|i: int, j: int| 0 <= i < j < q.len() ==> #[trigger] q[i].0 != #[trigger] q[j].0
}

/// Adds an event unless it is cooling down, already playing or already queued;
/// a full queue first drops its oldest entry.
pub open spec fn spec_enqueue(
    q: Seq<(Event, u64)>,
    cooldowns: Map<Event, u64>,
    current: Option<(Event, u64)>,
    e: Event,
    now: u64,
) -> Seq<(Event, u64)> {
    if (cooldowns.contains_key(e) && now < cooldowns[e]) || (current matches Some(c) && c.0 == e)
        || queue_has(q, e) {
        q
    } else if q.len() == QUEUE_LIMIT {
        q.drop_first().push((e, now))
    } else {
        q.push((e, now))
    }
}

pub open spec fn spec_enqueue_if(
    cond: bool,
    q: Seq<(Event, u64)>,
    cooldowns: Map<Event, u64>,
    current: Option<(Event, u64)>,
    e: Event,
    now: u64,
) -> Seq<(Event, u64)> {
    if cond {
        spec_enqueue(q, cooldowns, current, e, now)
    } else {
        q
    }
}

pub open spec fn battery_pair(before: State, after: State) -> Option<(Battery, Battery)> {
    match (before.battery, after.battery) {
        (Some(a), Some(b)) => Some((a, b)),
        _ => None,
    }
}

pub open spec fn lost_signal(before: State, after: State) -> bool {
    before.connected == Some(true) && after.connected == Some(false)
}

pub open spec fn restored_signal(before: State, after: State) -> bool {
    before.connected == Some(false) && after.connected == Some(true)
}

pub open spec fn charger_attached(before: State, after: State) -> bool {
    battery_pair(before, after) matches Some(p) && !p.0.charging && p.1.charging
}

pub open spec fn became_full(before: State, after: State) -> bool {
    battery_pair(before, after) matches Some(p) && p.0.level.spec_under(10000)
        && p.1.level.spec_reaches(10000)
}

pub open spec fn headphones_on(before: State, after: State) -> bool {
    before.headphones == Some(false) && after.headphones == Some(true)
}

pub open spec fn woke_up(before: State, after: State) -> bool {
    before.hour < 7 && 7 <= after.hour < 12
}

pub open spec fn muted(before: State, after: State) -> bool {
    (before.volume matches Some(v) && v.spec_exceeds(0)) && after.volume == Some(Reading::Value(0))
}

pub open spec fn got_loud(before: State, after: State) -> bool {
    (before.volume matches Some(v) && v.spec_at_most(8500)) && (after.volume matches Some(v)
        && v.spec_exceeds(8500))
}

pub open spec fn accessory_arrived(before: State, after: State) -> bool {
    before.bluetooth is None && after.bluetooth is Some
}

/// The queue after noticing the changes from `before` to `after`, in a fixed order.
pub open spec fn spec_after_transitions(
    q: Seq<(Event, u64)>,
    cooldowns: Map<Event, u64>,
    current: Option<(Event, u64)>,
    before: State,
    after: State,
    now: u64,
) -> Seq<(Event, u64)> {
    let q1 = spec_enqueue_if(lost_signal(before, after), q, cooldowns, current, Event::Lost, now);
    let q2 = spec_enqueue_if(restored_signal(before, after), q1, cooldowns, current, Event::Restored, now);
    let q3 = spec_enqueue_if(charger_attached(before, after), q2, cooldowns, current, Event::Charge, now);
    let q4 = spec_enqueue_if(became_full(before, after), q3, cooldowns, current, Event::Full, now);
    let q5 = spec_enqueue_if(headphones_on(before, after), q4, cooldowns, current, Event::Headphones, now);
    let q6 = spec_enqueue_if(woke_up(before, after), q5, cooldowns, current, Event::Wake, now);
    let q7 = spec_enqueue_if(muted(before, after), q6, cooldowns, current, Event::Muted, now);
    let q8 = spec_enqueue_if(got_loud(before, after), q7, cooldowns, current, Event::Loud, now);
    spec_enqueue_if(accessory_arrived(before, after), q8, cooldowns, current, Event::Accessory, now)
}

/// A queued event survives while it is fresh and its condition still holds.
pub open spec fn still_pending(entry: (Event, u64), state: State, now: u64) -> bool {
    &&& spec_saturating_sub(now, entry.1) <= EVENT_EXPIRY_MS
    &&& match entry.0 {
        Event::Lost => state.connected == Some(false),
        Event::Restored => state.connected == Some(true),
        Event::Charge => state.battery matches Some(b) && b.charging,
        Event::Headphones => state.headphones == Some(true),
        _ => true,
    }
}

pub open spec fn spec_retained(q: Seq<(Event, u64)>, state: State, now: u64) -> Seq<(Event, u64)>
    decreases q.len(),
{
    if q.len() == 0 {
        q
    } else {
        let rest = spec_retained(q.drop_last(), state, now);
        if still_pending(q.last(), state, now) {
            rest.push(q.last())
        } else {
            rest
        }
    }
}

/// Index of the queued event with the highest priority (the last one on a tie).
pub open spec fn spec_best(q: Seq<(Event, u64)>) -> int
    decreases q.len(),
{
    if q.len() <= 1 {
        0
    } else {
        let j = spec_best(q.drop_last());
        if q.last().0.priority() >= q[j].0.priority() {
            q.len() - 1
        } else {
            j
        }
    }
}

pub open spec fn xorshift(seed: u64) -> u64 {
    let a = seed ^ ((seed << 13u64) as u64);
    let b = a ^ (a >> 7u64);
    b ^ ((b << 17u64) as u64)
}

pub open spec fn ambient_for(seed: u64) -> Ambient {
    if seed % 4 == 0 {
        Ambient::Celebrate
    } else if seed % 4 == 1 {
        Ambient::Walk
    } else {
        Ambient::Wave
    }
}

pub open spec fn low_battery(s: State) -> bool {
    s.battery matches Some(b) && !b.charging && b.level.spec_under(1500)
}

pub open spec fn tired_battery(s: State) -> bool {
    s.battery matches Some(b) && !b.charging && b.level.spec_under(3000)
}

pub open spec fn charging(s: State) -> bool {
    s.battery matches Some(b) && b.charging
}

pub open spec fn reading_exceeds(r: Option<Reading>, t: int) -> bool {
    r matches Some(v) && v.spec_exceeds(t)
}

pub open spec fn reading_reaches(r: Option<Reading>, t: int) -> bool {
    r matches Some(v) && v.spec_reaches(t)
}

pub open spec fn spec_intensity(s: State, cpu: Hysteresis, memory: Hysteresis) -> Intensity {
    let stressed = cpu.active || memory.active;
    let critical = low_battery(s) || (cpu.active && reading_exceeds(s.cpu, 9500));
    if critical {
        Intensity::Critical
    } else if stressed {
        Intensity::Stressed
    } else if tired_battery(s) || reading_exceeds(s.cpu, 6000) {
        Intensity::Active
    } else {
        Intensity::Calm
    }
}

/// The animation, reason and priority shown for a normalised state.
pub open spec fn spec_choice(v: DirectorView, s: State, now: u64) -> (&'static str, &'static str, u8) {
    if v.current is Some {
        let c = v.current->0;
        let e = c.0;
        (e.spec_details().0, e.spec_details().1, e.spec_details().2)
    } else if low_battery(s) {
        ("battery_low", "Running on fumes. Find a charger.", 80)
    } else if v.cpu.active || v.memory.active {
        if v.cpu.active && reading_reaches(s.cpu, 9500) {
            ("cpu_critical", "CPU is very busy. Heavy work may take longer.", 65)
        } else if v.memory.active && reading_reaches(s.memory, 9500) {
            ("memory_critical", "RAM is nearly full. Close unused apps or tabs.", 65)
        } else if v.cpu.active {
            ("cpu_high", "CPU is busy. Let heavy tasks finish.", 60)
        } else {
            ("memory_high", "RAM use is high. Close unused apps or tabs.", 60)
        }
    } else if s.audio_playing == Some(true) && s.volume != Some(Reading::Value(0)) {
        ("dance", "Tiny dance party!", 55)
    } else if charging(s) {
        ("charging", "Borrowing some electricity.", 50)
    } else if s.connected == Some(false) {
        ("wifi_search", "Still looking for a connection.", 45)
    } else if (s.hour >= 23 || s.hour < 7) && now % 180_000 >= 150_000 {
        ("sleep", "Do we really need to be awake?", 25)
    } else if tired_battery(s) {
        ("tired", "Energy conservation. Very strategic.", 20)
    } else if s.headphones == Some(true) {
        ("headphones_idle", "In my own little world.", 15)
    } else if now < v.ambient_until {
        (v.ambient.spec_name(), "A little stretch and a hello.", 10)
    } else if now < v.blink_until {
        ("blink", "Just keeping an eye on things.", 5)
    } else if s.battery matches Some(b) && b.level.spec_reaches(8000) {
        ("battery_high", "Plenty of power. Questionable intentions.", 2)
    } else {
        ("idle", "This corner is mine now.", 0)
    }
}

pub open spec fn spec_decision(v: DirectorView, s: State, now: u64) -> Decision {
    let c = spec_choice(v, s, now);
    Decision {
        animation: c.0,
        reason: c.1,
        priority: c.2,
        intensity: spec_intensity(s, v.cpu, v.memory),
        headphones: s.headphones == Some(true),
        rain: s.weather == Some(Weather::Rain) || s.weather == Some(Weather::Thunder),
        heat: v.cpu.active || v.memory.active || s.weather == Some(Weather::Hot),
        charging: charging(s),
        cpu_busy: v.cpu.active,
        memory_busy: v.memory.active,
    }
}

/// The director after noticing a state, refreshing the hysteresis and the queue,
/// before a one-shot is started.
pub open spec fn spec_observe(v: DirectorView, s: State, now: u64) -> DirectorView {
    let queued = match v.previous {
        Some(before) => spec_after_transitions(v.queue, v.cooldowns, v.current, before, s, now),
        None => v.queue,
    };
    DirectorView {
        previous: Some(s),
        queue: spec_retained(queued, s, now),
        cpu: v.cpu.spec_update(s.cpu, 8000, 6000, now),
        memory: v.memory.spec_update(s.memory, 8500, 8000, now),
        current: if v.current matches Some(c) && now >= c.1 {
            None
        } else {
            v.current
        },
        ..v
    }
}

/// Starts the most important queued event when nothing is playing.
pub open spec fn spec_start_next(v: DirectorView, now: u64) -> DirectorView {
    if v.current is None && v.queue.len() > 0 {
        let i = spec_best(v.queue);
        let e = v.queue[i].0;
        DirectorView {
            current: Some((e, (now + e.hold_ms()) as u64)),
            queue: v.queue.remove(i),
            cooldowns: v.cooldowns.insert(e, (now + e.cooldown_ms()) as u64),
            ..v
        }
    } else {
        v
    }
}

/// Picks a new ambient gesture every 30 s and starts a blink every 11 s.
pub open spec fn spec_idle_timers(v: DirectorView, now: u64) -> DirectorView {
    let v1 = if spec_saturating_sub(now, v.last_ambient) >= 30_000 {
        let seed = xorshift(v.seed);
        let ambient = ambient_for(seed);
        DirectorView {
            last_ambient: now,
            seed: seed,
            ambient: ambient,
            ambient_until: (now + if ambient == Ambient::Walk {
                2880u64
            } else {
                1200u64
            }) as u64,
            ..v
        }
    } else {
        v
    };
    if spec_saturating_sub(now, v1.last_blink) >= 11_000 {
        DirectorView { last_blink: now, blink_until: (now + 350) as u64, ..v1 }
    } else {
        v1
    }
}

/// One `update`: the next director and the decision it returns.
pub open spec fn spec_step(v: DirectorView, input: State, now: u64) -> (DirectorView, Decision) {
    let s = input.normalized();
    let next = spec_idle_timers(spec_start_next(spec_observe(v, s, now), now), now);
    (next, spec_decision(next, s, now))
}

pub open spec fn spec_initial(seed: u64) -> DirectorView {
    DirectorView {
        previous: None,
        queue: Seq::empty(),
        cooldowns: Map::empty(),
        current: None,
        cpu: Hysteresis { active: false, since: None },
        memory: Hysteresis { active: false, since: None },
        last_ambient: 0,
        ambient_until: 0,
        ambient: Ambient::Wave,
        last_blink: 0,
        blink_until: 0,
        seed: seed,
    }
}

pub open spec fn ceil_seconds(ms: u64) -> u64 {
    (ms / 1000 + if ms % 1000 > 0 {
        1u64
    } else {
        0u64
    }) as u64
}

impl View for Director {
    type V = DirectorView;

    closed spec fn view(&self) -> DirectorView {
        DirectorView {
            previous: self.previous,
            queue: self.queue@,
            cooldowns: Map::new(
                |e: Event| self.cooldowns@[e.ordinal()] is Some,
                |e: Event| self.cooldowns@[e.ordinal()]->0,
            ),
            current: self.current,
            cpu: self.cpu,
            memory: self.memory,
            last_ambient: self.last_ambient,
            ambient_until: self.ambient_until,
            ambient: self.ambient,
            last_blink: self.last_blink,
            blink_until: self.blink_until,
            seed: self.seed,
        }
    }
}

impl Director {
    /// The queue is bounded, holds each event at most once and never the event
    /// that is playing.
    pub closed spec fn wf(&self) -> bool {
        &&& self.cooldowns@.len() == EVENT_COUNT
        &&& view_wf(self@)
    }

    pub fn new(seed: u64) -> (d: Director)
        ensures
            d.wf(),
            d@ == spec_initial(if seed > 1 {
                seed
            } else {
                1
            }),
    {
        let mut d = Director::default();
        d.seed = if seed > 1 {
            seed
        } else {
            1
        };
        proof {
            assert(d@.cooldowns =~= Map::empty());
        }
        d
    }

    /// Animation names of the queued events, oldest first.
    pub fn queued(&self) -> (names: Vec<&'static str>)
        ensures
            names@.len() == self@.queue.len(),
            self.wf() ==> names@.len() <= QUEUE_LIMIT,
            forall|i: int|
                0 <= i < names@.len() ==> #[trigger] names@[i] == self@.queue[i].0.spec_details().0,
    {
        let mut names: Vec<&'static str> = Vec::new();
        let mut i: usize = 0;
        while i < self.queue.len()
            invariant
                i <= self.queue@.len(),
                names@.len() == i,
                forall|k: int|
                    0 <= k < i ==> #[trigger] names@[k] == self.queue@[k].0.spec_details().0,
            decreases self.queue@.len() - i,
        {
            let (e, _) = self.queue[i];
            names.push(e.details().0);
            i = i + 1;
        }
        names
    }

    /// What well-formedness means for the director's view: a queue of at most
    /// four events, each at most once, never the one playing.
    pub proof fn lemma_view_wf(&self)
        requires
            self.wf(),
        ensures
            view_wf(self@),
    {
    }
}


/// Facts about what `spec_retained` keeps.
pub proof fn lemma_retained(q: Seq<(Event, u64)>, s: State, now: u64)
    ensures
        spec_retained(q, s, now).len() <= q.len(),
        forall|i: int|
            0 <= i < spec_retained(q, s, now).len() ==> exists|j: int|
                0 <= j < q.len() && q[j] == #[trigger] spec_retained(q, s, now)[i],
        forall|i: int|
            0 <= i < spec_retained(q, s, now).len() ==> still_pending(
                #[trigger] spec_retained(q, s, now)[i],
                s,
                now,
            ),
        queue_distinct(q) ==> queue_distinct(spec_retained(q, s, now)),
    decreases q.len(),
{
    if q.len() > 0 {
        let p = q.drop_last();
        lemma_retained(p, s, now);
        let rest = spec_retained(p, s, now);
        let r = spec_retained(q, s, now);
        assert forall|i: int| 0 <= i < r.len() implies exists|j: int|
            0 <= j < q.len() && q[j] == #[trigger] r[i] by {
            if i < rest.len() {
                let j = choose|j: int| 0 <= j < p.len() && p[j] == rest[i];
                assert(q[j] == r[i]);
            } else {
                assert(q[q.len() - 1] == r[i]);
            }
        }
        if queue_distinct(q) {
            assert(queue_distinct(p));
            assert forall|i: int, j: int| 0 <= i < j < r.len() implies #[trigger] r[i].0 != #[trigger] r[j].0 by {
                if j == rest.len() {
                    let k = choose|k: int| 0 <= k < p.len() && p[k] == rest[i];
                    assert(q[k] == p[k]);
                    assert(r[j] == q.last());
                }
            }
        }
    }
}

/// The index `spec_best` picks lies within the queue.
pub proof fn lemma_best_in_range(q: Seq<(Event, u64)>)
    requires
        q.len() > 0,
    ensures
        0 <= spec_best(q) < q.len(),
    decreases q.len(),
{
    if q.len() > 1 {
        lemma_best_in_range(q.drop_last());
    }
}

fn is_pending(entry: (Event, u64), s: &State, now: u64) -> (r: bool)
    ensures
        r == still_pending(entry, *s, now),
{
    let fresh = now.saturating_sub(entry.1) <= EVENT_EXPIRY_MS;
    let holds = match entry.0 {
        Event::Lost => match s.connected {
            Some(c) => !c,
            None => false,
        },
        Event::Restored => match s.connected {
            Some(c) => c,
            None => false,
        },
        Event::Charge => match s.battery {
            Some(b) => b.charging,
            None => false,
        },
        Event::Headphones => match s.headphones {
            Some(h) => h,
            None => false,
        },
        _ => true,
    };
    fresh && holds
}

fn is_true(b: Option<bool>) -> (r: bool)
    ensures
        r == (b == Some(true)),
{
    match b {
        Some(v) => v,
        None => false,
    }
}

fn is_false(b: Option<bool>) -> (r: bool)
    ensures
        r == (b == Some(false)),
{
    match b {
        Some(v) => !v,
        None => false,
    }
}

fn opt_exceeds(r: Option<Reading>, t: i64) -> (b: bool)
    ensures
        b == reading_exceeds(r, t as int),
{
    match r {
        Some(v) => v.exceeds(t),
        None => false,
    }
}

fn opt_reaches(r: Option<Reading>, t: i64) -> (b: bool)
    ensures
        b == reading_reaches(r, t as int),
{
    match r {
        Some(v) => v.reaches(t),
        None => false,
    }
}

fn is_zero(r: Option<Reading>) -> (b: bool)
    ensures
        b == (r == Some(Reading::Value(0))),
{
    match r {
        Some(Reading::Value(v)) => v == 0,
        _ => false,
    }
}

impl Director {
    fn queue_contains(&self, event: Event) -> (r: bool)
        ensures
            r == queue_has(self.queue@, event),
    {
        let mut i: usize = 0;
        while i < self.queue.len()
            invariant
                i <= self.queue@.len(),
                forall|k: int| 0 <= k < i ==> #[trigger] self.queue@[k].0 != event,
            decreases self.queue@.len() - i,
        {
            if self.queue[i].0 == event {
                return true;
            }
            i = i + 1;
        }
        false
    }

    fn enqueue(&mut self, event: Event, now: u64)
        requires
            old(self).wf(),
        ensures
            final(self).wf(),
            final(self)@ == (DirectorView {
                queue: spec_enqueue(
                    old(self)@.queue,
                    old(self)@.cooldowns,
                    old(self)@.current,
                    event,
                    now,
                ),
                ..old(self)@
            }),
    {
        let cooling = match self.cooldowns[event.index()] {
            Some(until) => now < until,
            None => false,
        };
        let playing = match self.current {
            Some((e, _)) => e == event,
            None => false,
        };
        let queued = self.queue_contains(event);
        if cooling || playing || queued {
            return ;
        }
        let ghost q0 = self.queue@;
        if self.queue.len() == QUEUE_LIMIT {
            self.queue.pop_front();
        }
        self.queue.push_back((event, now));
        proof {
            let q = self.queue@;
            assert forall|i: int, j: int| 0 <= i < j < q.len() implies #[trigger] q[i].0
                != #[trigger] q[j].0 by {
                if j == q.len() - 1 {
                    if q0.len() == QUEUE_LIMIT {
                        assert(q[i] == q0[i + 1]);
                    } else {
                        assert(q[i] == q0[i]);
                    }
                } else if q0.len() == QUEUE_LIMIT {
                    assert(q[i] == q0[i + 1] && q[j] == q0[j + 1]);
                } else {
                    assert(q[i] == q0[i] && q[j] == q0[j]);
                }
            }
            if self.current is Some {
                let c = self.current->0;
                if queue_has(q, c.0) {
                    let k = choose|k: int| 0 <= k < q.len() && #[trigger] q[k].0 == c.0;
                    if k < q.len() - 1 {
                        if q0.len() == QUEUE_LIMIT {
                            assert(q[k] == q0[k + 1]);
                        } else {
                            assert(q[k] == q0[k]);
                        }
                    }
                }
            }
            if q0.len() == QUEUE_LIMIT {
                assert(q =~= q0.drop_first().push((event, now)));
            } else {
                assert(q =~= q0.push((event, now)));
            }
        }
    }

    fn note_transitions(&mut self, before: &State, s: &State, now: u64)
        requires
            old(self).wf(),
        ensures
            final(self).wf(),
            final(self)@ == (DirectorView {
                queue: spec_after_transitions(
                    old(self)@.queue,
                    old(self)@.cooldowns,
                    old(self)@.current,
                    *before,
                    *s,
                    now,
                ),
                ..old(self)@
            }),
    {
        if is_true(before.connected) && is_false(s.connected) {
            self.enqueue(Event::Lost, now);
        }
        if is_false(before.connected) && is_true(s.connected) {
            self.enqueue(Event::Restored, now);
        }
        match (before.battery, s.battery) {
            (Some(a), Some(b)) => {
                if !a.charging && b.charging {
                    self.enqueue(Event::Charge, now);
                }
                if a.level.under(10000) && b.level.reaches(10000) {
                    self.enqueue(Event::Full, now);
                }
            },
            _ => {},
        }
        if is_false(before.headphones) && is_true(s.headphones) {
            self.enqueue(Event::Headphones, now);
        }
        if before.hour < 7 && 7 <= s.hour && s.hour < 12 {
            self.enqueue(Event::Wake, now);
        }
        if opt_exceeds(before.volume, 0) && is_zero(s.volume) {
            self.enqueue(Event::Muted, now);
        }
        let quiet_before = match before.volume {
            Some(v) => v.at_most(8500),
            None => false,
        };
        if quiet_before && opt_exceeds(s.volume, 8500) {
            self.enqueue(Event::Loud, now);
        }
        if before.bluetooth.is_none() && s.bluetooth.is_some() {
            self.enqueue(Event::Accessory, now);
        }
    }

    fn drop_stale(&mut self, s: &State, now: u64)
        requires
            old(self).wf(),
        ensures
            final(self).wf(),
            final(self)@ == (DirectorView { queue: spec_retained(old(self)@.queue, *s, now), ..old(self)@ }),
    {
        let mut kept: VecDeque<(Event, u64)> = VecDeque::new();
        let mut i: usize = 0;
        let ghost q = self.queue@;
        while i < self.queue.len()
            invariant
                q == self.queue@,
                i <= q.len(),
                kept@ == spec_retained(q.take(i as int), *s, now),
            decreases q.len() - i,
        {
            let entry = self.queue[i];
            proof {
                assert(q.take(i + 1).drop_last() =~= q.take(i as int));
                assert(q.take(i + 1).last() == entry);
            }
            if is_pending(entry, s, now) {
                kept.push_back(entry);
            }
            i = i + 1;
        }
        proof {
            assert(q.take(q.len() as int) =~= q);
            lemma_retained(q, *s, now);
            let r = spec_retained(q, *s, now);
            if self.current is Some {
                let c = self.current->0;
                if queue_has(r, c.0) {
                    let k = choose|k: int| 0 <= k < r.len() && #[trigger] r[k].0 == c.0;
                    let j = choose|j: int| 0 <= j < q.len() && q[j] == r[k];
                    assert(q[j].0 == c.0);
                }
            }
        }
        self.queue = kept;
    }

    fn best_index(&self) -> (i: usize)
        requires
            self.queue@.len() > 0,
        ensures
            i == spec_best(self.queue@),
            i < self.queue@.len(),
    {
        let ghost q = self.queue@;
        let mut best: usize = 0;
        let mut i: usize = 1;
        proof {
            assert(q.take(1).len() == 1);
        }
        while i < self.queue.len()
            invariant
                q == self.queue@,
                1 <= i <= q.len(),
                best < i,
                best == spec_best(q.take(i as int)),
            decreases q.len() - i,
        {
            proof {
                assert(q.take(i + 1).drop_last() =~= q.take(i as int));
                assert(q.take(i + 1)[best as int] == q[best as int]);
            }
            if self.queue[i].0.details().2 >= self.queue[best].0.details().2 {
                best = i;
            }
            i = i + 1;
        }
        proof {
            assert(q.take(q.len() as int) =~= q);
        }
        best
    }

    fn start_next(&mut self, now: u64)
        requires
            old(self).wf(),
            now <= CLOCK_LIMIT,
        ensures
            final(self).wf(),
            final(self)@ == spec_start_next(old(self)@, now),
    {
        if self.current.is_none() && self.queue.len() > 0 {
            let index = self.best_index();
            let ghost q = self.queue@;
            let removed = self.queue.remove(index);
            let event = match removed {
                Some((e, _)) => e,
                None => {
                    proof {
                        assert(false);
                    }
                    return ;
                },
            };
            let d = event.details();
            self.current = Some((event, now + d.3));
            let ghost old_view = Map::new(
                |e: Event| self.cooldowns@[e.ordinal()] is Some,
                |e: Event| self.cooldowns@[e.ordinal()]->0,
            );
            self.cooldowns.set(event.index(), Some(now + d.4));
            proof {
                let nq = self.queue@;
                assert forall|a: int, b: int| 0 <= a < b < nq.len() implies #[trigger] nq[a].0
                    != #[trigger] nq[b].0 by {
                    if a < index {
                        if b < index {
                            assert(nq[a] == q[a] && nq[b] == q[b]);
                        } else {
                            assert(nq[a] == q[a] && nq[b] == q[b + 1]);
                        }
                    } else {
                        assert(nq[a] == q[a + 1] && nq[b] == q[b + 1]);
                    }
                }
                if queue_has(nq, event) {
                    let k = choose|k: int| 0 <= k < nq.len() && #[trigger] nq[k].0 == event;
                    if k < index {
                        assert(nq[k] == q[k]);
                    } else {
                        assert(nq[k] == q[k + 1]);
                    }
                }
                assert forall|e: Event| true implies (e.ordinal() == event.ordinal()) == (e == event) by {
                    lemma_ordinal_injective(e, event);
                }
                assert(self@.cooldowns =~= old_view.insert(event, (now + event.cooldown_ms()) as u64));
            }
        }
    }

    fn idle_timers(&mut self, now: u64)
        requires
            now <= CLOCK_LIMIT,
        ensures
            final(self)@ == spec_idle_timers(old(self)@, now),
            final(self).queue == old(self).queue,
            final(self).cooldowns == old(self).cooldowns,
            final(self).current == old(self).current,
    {
        if now.saturating_sub(self.last_ambient) >= 30_000 {
            self.last_ambient = now;
            let mut seed = self.seed;
            seed = seed ^ (seed << 13u64);
            seed = seed ^ (seed >> 7u64);
            seed = seed ^ (seed << 17u64);
            self.seed = seed;
            let r = seed % 4;
            self.ambient = if r == 0 {
                Ambient::Celebrate
            } else if r == 1 {
                Ambient::Walk
            } else {
                Ambient::Wave
            };
            self.ambient_until = now + match self.ambient {
                Ambient::Walk => 2880,
                _ => 1200,
            };
        }
        if now.saturating_sub(self.last_blink) >= 11_000 {
            self.last_blink = now;
            self.blink_until = now + 350;
        }
    }

    fn choice(&self, s: &State, now: u64) -> (c: (&'static str, &'static str, u8))
        ensures
            c == spec_choice(self@, *s, now),
    {
        if let Some((event, _)) = self.current {
            let (a, r, p, _, _) = event.details();
            return (a, r, p);
        }
        let low = match s.battery {
            Some(b) => !b.charging && b.level.under(1500),
            None => false,
        };
        let tired = match s.battery {
            Some(b) => !b.charging && b.level.under(3000),
            None => false,
        };
        let charging = match s.battery {
            Some(b) => b.charging,
            None => false,
        };
        if low {
            ("battery_low", "Running on fumes. Find a charger.", 80)
        } else if self.cpu.active || self.memory.active {
            if self.cpu.active && opt_reaches(s.cpu, 9500) {
                ("cpu_critical", "CPU is very busy. Heavy work may take longer.", 65)
            } else if self.memory.active && opt_reaches(s.memory, 9500) {
                ("memory_critical", "RAM is nearly full. Close unused apps or tabs.", 65)
            } else if self.cpu.active {
                ("cpu_high", "CPU is busy. Let heavy tasks finish.", 60)
            } else {
                ("memory_high", "RAM use is high. Close unused apps or tabs.", 60)
            }
        } else if is_true(s.audio_playing) && !is_zero(s.volume) {
            ("dance", "Tiny dance party!", 55)
        } else if charging {
            ("charging", "Borrowing some electricity.", 50)
        } else if is_false(s.connected) {
            ("wifi_search", "Still looking for a connection.", 45)
        } else if (s.hour >= 23 || s.hour < 7) && now % 180_000 >= 150_000 {
            ("sleep", "Do we really need to be awake?", 25)
        } else if tired {
            ("tired", "Energy conservation. Very strategic.", 20)
        } else if is_true(s.headphones) {
            ("headphones_idle", "In my own little world.", 15)
        } else if now < self.ambient_until {
            (self.ambient.name(), "A little stretch and a hello.", 10)
        } else if now < self.blink_until {
            ("blink", "Just keeping an eye on things.", 5)
        } else if match s.battery {
            Some(b) => b.level.reaches(8000),
            None => false,
        } {
            ("battery_high", "Plenty of power. Questionable intentions.", 2)
        } else {
            ("idle", "This corner is mine now.", 0)
        }
    }

    fn intensity(&self, s: &State) -> (i: Intensity)
        ensures
            i == spec_intensity(*s, self@.cpu, self@.memory),
    {
        let low = match s.battery {
            Some(b) => !b.charging && b.level.under(1500),
            None => false,
        };
        let tired = match s.battery {
            Some(b) => !b.charging && b.level.under(3000),
            None => false,
        };
        let stressed = self.cpu.active || self.memory.active;
        let critical = low || (self.cpu.active && opt_exceeds(s.cpu, 9500));
        if critical {
            Intensity::Critical
        } else if stressed {
            Intensity::Stressed
        } else if tired || opt_exceeds(s.cpu, 6000) {
            Intensity::Active
        } else {
            Intensity::Calm
        }
    }

    /// Feeds one device state at monotonic time `now` (milliseconds) and returns
    /// what to show.
    pub fn update(&mut self, state: &State, now: u64) -> (d: Decision)
        requires
            old(self).wf(),
            now <= CLOCK_LIMIT,
        ensures
            final(self).wf(),
            final(self)@ == spec_step(old(self)@, *state, now).0,
            d == spec_step(old(self)@, *state, now).1,
    {
        let mut s = *state;
        s.normalize();
        if let Some(before) = self.previous {
            self.note_transitions(&before, &s, now);
        }
        self.previous = Some(s);
        self.cpu.update(s.cpu, 8000, 6000, now);
        self.memory.update(s.memory, 8500, 8000, now);
        self.drop_stale(&s, now);
        if let Some((_, end)) = self.current {
            if now >= end {
                self.current = None;
            }
        }
        self.start_next(now);
        self.idle_timers(now);
        let (animation, reason, priority) = self.choice(&s, now);
        let charging = match s.battery {
            Some(b) => b.charging,
            None => false,
        };
        let rain = match s.weather {
            Some(Weather::Rain) => true,
            Some(Weather::Thunder) => true,
            _ => false,
        };
        let hot = match s.weather {
            Some(Weather::Hot) => true,
            _ => false,
        };
        Decision {
            animation,
            reason,
            priority,
            intensity: self.intensity(&s),
            headphones: is_true(s.headphones),
            rain,
            heat: self.cpu.active || self.memory.active || hot,
            charging,
            cpu_busy: self.cpu.active,
            memory_busy: self.memory.active,
        }
    }
}


/// The event is cooling down at `now`.
pub open spec fn cooling(v: DirectorView, e: Event, now: u64) -> bool {
    v.cooldowns.contains_key(e) && v.cooldowns[e] > now
}

pub open spec fn remaining_seconds(v: DirectorView, e: Event, now: u64) -> u64 {
    ceil_seconds((v.cooldowns[e] - now) as u64)
}

pub open spec fn report_entry(v: DirectorView, e: Event, now: u64) -> Seq<(&'static str, u64)> {
    if cooling(v, e, now) {
        seq![(e.spec_details().0, remaining_seconds(v, e, now))]
    } else {
        seq![]
    }
}

pub open spec fn seconds_entry(v: DirectorView, e: Event, now: u64) -> Seq<u64> {
    if cooling(v, e, now) {
        seq![remaining_seconds(v, e, now)]
    } else {
        seq![]
    }
}

/// Ascending order of at most three numbers.
pub open spec fn sort_small(s: Seq<u64>) -> Seq<u64> {
    if s.len() <= 1 {
        s
    } else if s.len() == 2 {
        if s[0] <= s[1] {
            s
        } else {
            seq![s[1], s[0]]
        }
    } else {
        let (a, b) = if s[0] <= s[1] {
            (s[0], s[1])
        } else {
            (s[1], s[0])
        };
        let (b2, c) = if b <= s[2] {
            (b, s[2])
        } else {
            (s[2], b)
        };
        let (a2, b3) = if a <= b2 {
            (a, b2)
        } else {
            (b2, a)
        };
        seq![a2, b3, c]
    }
}

/// The cooling events as (animation name, whole seconds left, rounded up), sorted
/// by name and then by seconds. Three events share the name
/// "headphones_reaction"; every other name belongs to one event.
pub open spec fn spec_cooldown_report(v: DirectorView, now: u64) -> Seq<(&'static str, u64)> {
    let shared = seconds_entry(v, Event::Headphones, now) + seconds_entry(v, Event::Loud, now)
        + seconds_entry(v, Event::Accessory, now);
    report_entry(v, Event::Muted, now) + report_entry(v, Event::Full, now) + report_entry(
        v,
        Event::Charge,
        now,
    ) + sort_small(shared).map_values(|x: u64| ("headphones_reaction", x)) + report_entry(
        v,
        Event::Wake,
        now,
    ) + report_entry(v, Event::Lost, now) + report_entry(v, Event::Restored, now)
}

impl Director {
    fn cooling_seconds(&self, e: Event, now: u64) -> (r: Option<u64>)
        requires
            self.wf(),
        ensures
            r == (if cooling(self@, e, now) {
                Some(remaining_seconds(self@, e, now))
            } else {
                None
            }),
    {
        match self.cooldowns[e.index()] {
            Some(until) => if until > now {
                let left = until - now;
                Some(left / 1000 + if left % 1000 > 0 {
                    1
                } else {
                    0
                })
            } else {
                None
            },
            None => None,
        }
    }

    fn push_entry(&self, out: &mut Vec<(&'static str, u64)>, e: Event, now: u64)
        requires
            self.wf(),
        ensures
            final(out)@ == old(out)@ + report_entry(self@, e, now),
    {
        if let Some(left) = self.cooling_seconds(e, now) {
            out.push((e.details().0, left));
        } else {
            assert(report_entry(self@, e, now) =~= seq![]);
            assert(old(out)@ + seq![] =~= old(out)@);
        }
    }

    /// The events that are cooling down at `now`, with the whole seconds left.
    pub fn cooldowns(&self, now: u64) -> (r: Vec<(&'static str, u64)>)
        requires
            self.wf(),
        ensures
            r@ == spec_cooldown_report(self@, now),
    {
        let mut out: Vec<(&'static str, u64)> = Vec::new();
        self.push_entry(&mut out, Event::Muted, now);
        self.push_entry(&mut out, Event::Full, now);
        self.push_entry(&mut out, Event::Charge, now);
        let mut shared: Vec<u64> = Vec::new();
        if let Some(x) = self.cooling_seconds(Event::Headphones, now) {
            shared.push(x);
        }
        if let Some(x) = self.cooling_seconds(Event::Loud, now) {
            shared.push(x);
        }
        if let Some(x) = self.cooling_seconds(Event::Accessory, now) {
            shared.push(x);
        }
        assert(shared@ =~= seconds_entry(self@, Event::Headphones, now) + seconds_entry(
            self@,
            Event::Loud,
            now,
        ) + seconds_entry(self@, Event::Accessory, now));
        let sorted = sort_up_to_three(&shared);
        let ghost mid = out@;
        let mut i: usize = 0;
        while i < sorted.len()
            invariant
                i <= sorted@.len(),
                out@ =~= mid + sorted@.take(i as int).map_values(
                    |x: u64| ("headphones_reaction", x),
                ),
            decreases sorted@.len() - i,
        {
            out.push(("headphones_reaction", sorted[i]));
            proof {
                assert(sorted@.take(i + 1) =~= sorted@.take(i as int).push(sorted@[i as int]));
            }
            i = i + 1;
        }
        proof {
            assert(sorted@.take(sorted@.len() as int) =~= sorted@);
        }
        self.push_entry(&mut out, Event::Wake, now);
        self.push_entry(&mut out, Event::Lost, now);
        self.push_entry(&mut out, Event::Restored, now);
        proof {
            assert(out@ =~= spec_cooldown_report(self@, now));
        }
        out
    }
}

fn sort_up_to_three(s: &Vec<u64>) -> (r: Vec<u64>)
    requires
        s@.len() <= 3,
    ensures
        r@ == sort_small(s@),
{
    if s.len() <= 1 {
        let mut r: Vec<u64> = Vec::new();
        if s.len() == 1 {
            r.push(s[0]);
        }
        assert(r@ =~= s@);
        r
    } else if s.len() == 2 {
        let (x, y) = if s[0] <= s[1] {
            (s[0], s[1])
        } else {
            (s[1], s[0])
        };
        let r = vec![x, y];
        assert(r@ =~= sort_small(s@));
        r
    } else {
        let (a, b) = if s[0] <= s[1] {
            (s[0], s[1])
        } else {
            (s[1], s[0])
        };
        let (b2, c) = if b <= s[2] {
            (b, s[2])
        } else {
            (s[2], b)
        };
        let (a2, b3) = if a <= b2 {
            (a, b2)
        } else {
            (b2, a)
        };
        let r = vec![a2, b3, c];
        assert(r@ =~= sort_small(s@));
        r
    }
}

impl Default for Director {
    fn default() -> (d: Director)
        ensures
            d.wf(),
            d@ == spec_initial(0xdecafbad),
    {
        let mut cooldowns: Vec<Option<u64>> = Vec::new();
        let mut i: usize = 0;
        while i < EVENT_COUNT
            invariant
                i <= EVENT_COUNT,
                cooldowns@.len() == i,
                forall|k: int| 0 <= k < i ==> cooldowns@[k] is None,
            decreases EVENT_COUNT - i,
        {
            cooldowns.push(None);
            i = i + 1;
        }
        let d = Director {
            previous: None,
            queue: VecDeque::new(),
            cooldowns,
            current: None,
            cpu: Hysteresis::new(),
            memory: Hysteresis::new(),
            last_ambient: 0,
            ambient_until: 0,
            ambient: Ambient::Wave,
            last_blink: 0,
            blink_until: 0,
            seed: 0xdecafbad,
        };
        proof {
            assert(d@.cooldowns =~= Map::empty());
            assert(d@.queue =~= Seq::empty());
        }
        d
    }
}

} // verus!
