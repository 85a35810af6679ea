//! Properties of the library that span calls or hold of every input, proved from
//! the specifications the functions are verified against.

use vstd::prelude::*;

use crate::director::{
    lemma_best_in_range, lemma_retained, low_battery, queue_has, spec_after_transitions,
    spec_enqueue, spec_enqueue_if, spec_initial, spec_observe, spec_retained, spec_saturating_sub,
    spec_start_next, spec_step, spec_best, still_pending, tired_battery, view_wf, lost_signal,
    restored_signal, charger_attached, became_full, headphones_on, woke_up, muted, got_loud,
    Ambient, DirectorView, Event, Hysteresis, CLOCK_LIMIT, EVENT_EXPIRY_MS, QUEUE_LIMIT,
};
use crate::companion::{
    activity_over, resolved_animation, Interaction, DANCE_YIELDS_AT, MIN_ACTIVITY_MS,
};
use crate::console::{spec_frame_wait, spec_pixel, spec_simulate, Playback};
use crate::pack::Sheet;
use crate::weather::spec_condition;
use crate::dialogue::{all_lines, lemma_all_lines, lines_for, topic_of, Topic};
use crate::director::{
    ceil_seconds, cooling, remaining_seconds, report_entry, seconds_entry, sort_small,
    spec_cooldown_report, Decision,
};
use crate::pack::{total_ms, Manifest};
use crate::reading::Reading;
use crate::sensors::{spec_audio_until, spec_sampled, DeviceReadings, SlowReadings, AUDIO_HOLD_MS};
use crate::state::{State, Weather};

verus! {

proof fn lemma_enqueue_keeps_wf(
    q: Seq<(Event, u64)>,
    cd: Map<Event, u64>,
    cur: Option<(Event, u64)>,
    e: Event,
    now: u64,
)
    requires
        view_wf(DirectorView { queue: q, current: cur, ..arbitrary_view() }),
    ensures
        view_wf(DirectorView { queue: spec_enqueue(q, cd, cur, e, now), current: cur, ..arbitrary_view() }),
{
    let r = spec_enqueue(q, cd, cur, e, now);
    if r != q {
        assert forall|i: int, j: int| 0 <= i < j < r.len() implies #[trigger] r[i].0 != #[trigger] r[j].0 by {
            if q.len() == QUEUE_LIMIT {
                if j == r.len() - 1 {
                    assert(r[i] == q[i + 1]);
                } else {
                    assert(r[i] == q[i + 1] && r[j] == q[j + 1]);
                }
            } else {
                if j == r.len() - 1 {
                    assert(r[i] == q[i]);
                } else {
                    assert(r[i] == q[i] && r[j] == q[j]);
                }
            }
        }
        if cur is Some {
            let c = cur->0;
            if queue_has(r, c.0) {
                let k = choose|k: int| 0 <= k < r.len() && #[trigger] r[k].0 == c.0;
                if k < r.len() - 1 {
                    if q.len() == QUEUE_LIMIT {
                        assert(r[k] == q[k + 1]);
                    } else {
                        assert(r[k] == q[k]);
                    }
                }
            }
        }
    }
}

/// Any director view; the laws below only read the fields they name.
pub open spec fn arbitrary_view() -> DirectorView {
    spec_initial(0)
}

proof fn lemma_transitions_keep_wf(v: DirectorView, before: State, after: State, now: u64)
    requires
        view_wf(v),
    ensures
        view_wf(DirectorView {
            queue: spec_after_transitions(v.queue, v.cooldowns, v.current, before, after, now),
            current: v.current,
            ..arbitrary_view()
        }),
{
    let cd = v.cooldowns;
    let cur = v.current;
    let w = |q: Seq<(Event, u64)>| DirectorView { queue: q, current: cur, ..arbitrary_view() };
    assert(view_wf(w(v.queue)));
    let q1 = spec_enqueue_if(lost_signal(before, after), v.queue, cd, cur, Event::Lost, now);
    lemma_enqueue_keeps_wf(v.queue, cd, cur, Event::Lost, now);
    let q2 = spec_enqueue_if(restored_signal(before, after), q1, cd, cur, Event::Restored, now);
    lemma_enqueue_keeps_wf(q1, cd, cur, Event::Restored, now);
    let q3 = spec_enqueue_if(charger_attached(before, after), q2, cd, cur, Event::Charge, now);
    lemma_enqueue_keeps_wf(q2, cd, cur, Event::Charge, now);
    let q4 = spec_enqueue_if(became_full(before, after), q3, cd, cur, Event::Full, now);
    lemma_enqueue_keeps_wf(q3, cd, cur, Event::Full, now);
    let q5 = spec_enqueue_if(headphones_on(before, after), q4, cd, cur, Event::Headphones, now);
    lemma_enqueue_keeps_wf(q4, cd, cur, Event::Headphones, now);
    let q6 = spec_enqueue_if(woke_up(before, after), q5, cd, cur, Event::Wake, now);
    lemma_enqueue_keeps_wf(q5, cd, cur, Event::Wake, now);
    let q7 = spec_enqueue_if(muted(before, after), q6, cd, cur, Event::Muted, now);
    lemma_enqueue_keeps_wf(q6, cd, cur, Event::Muted, now);
    let q8 = spec_enqueue_if(got_loud(before, after), q7, cd, cur, Event::Loud, now);
    lemma_enqueue_keeps_wf(q7, cd, cur, Event::Loud, now);
    lemma_enqueue_keeps_wf(q8, cd, cur, Event::Accessory, now);
}

proof fn lemma_observe_keeps_wf(v: DirectorView, s: State, now: u64)
    requires
        view_wf(v),
    ensures
        view_wf(spec_observe(v, s, now)),
        forall|i: int|
            0 <= i < spec_observe(v, s, now).queue.len() ==> still_pending(
                #[trigger] spec_observe(v, s, now).queue[i],
                s,
                now,
            ),
{
    let queued = match v.previous {
        Some(before) => spec_after_transitions(v.queue, v.cooldowns, v.current, before, s, now),
        None => v.queue,
    };
    if v.previous is Some {
        lemma_transitions_keep_wf(v, v.previous->0, s, now);
    }
    lemma_retained(queued, s, now);
    let r = spec_retained(queued, s, now);
    let o = spec_observe(v, s, now);
    assert(o.queue == r);
    if o.current is Some {
        let c = o.current->0;
        assert(o.current == v.current);
        if queue_has(r, c.0) {
            let k = choose|k: int| 0 <= k < r.len() && #[trigger] r[k].0 == c.0;
            let j = choose|j: int| 0 <= j < queued.len() && queued[j] == r[k];
            assert(queued[j].0 == c.0);
        }
    }
}

proof fn lemma_start_keeps_wf(v: DirectorView, s: State, now: u64)
    requires
        view_wf(v),
        forall|i: int| 0 <= i < v.queue.len() ==> still_pending(#[trigger] v.queue[i], s, now),
    ensures
        view_wf(spec_start_next(v, now)),
        forall|i: int|
            0 <= i < spec_start_next(v, now).queue.len() ==> still_pending(
                #[trigger] spec_start_next(v, now).queue[i],
                s,
                now,
            ),
{
    if v.current is None && v.queue.len() > 0 {
        lemma_best_in_range(v.queue);
        let i = spec_best(v.queue);
        let q = v.queue;
        let e = q[i].0;
        let nq = q.remove(i);
        assert forall|a: int, b: int| 0 <= a < b < nq.len() implies #[trigger] nq[a].0
            != #[trigger] nq[b].0 by {
            if a < i {
                if b < i {
                    assert(nq[a] == q[a] && nq[b] == q[b]);
                } else {
                    assert(nq[a] == q[a] && nq[b] == q[b + 1]);
                }
            } else {
                assert(nq[a] == q[a + 1] && nq[b] == q[b + 1]);
            }
        }
        if queue_has(nq, e) {
            let k = choose|k: int| 0 <= k < nq.len() && #[trigger] nq[k].0 == e;
            if k < i {
                assert(nq[k] == q[k]);
            } else {
                assert(nq[k] == q[k + 1]);
            }
        }
        assert forall|k: int| 0 <= k < nq.len() implies still_pending(#[trigger] nq[k], s, now) by {
            if k < i {
                assert(nq[k] == q[k]);
            } else {
                assert(nq[k] == q[k + 1]);
            }
        }
    }
}

/// Events are bounded: the queue never holds more than four pending events, never
/// the same event twice, and never the event that is playing.
pub proof fn law_queue_stays_bounded(v: DirectorView, input: State, now: u64)
    requires
        view_wf(v),
    ensures
        view_wf(spec_step(v, input, now).0),
{
    let s = input.normalized();
    lemma_observe_keeps_wf(v, s, now);
    lemma_start_keeps_wf(spec_observe(v, s, now), s, now);
}

proof fn lemma_shared_names(a: Event, b: Event)
    requires
        a != b,
        a.spec_details().0 == b.spec_details().0,
    ensures
        a.spec_details().0 == "headphones_reaction",
{
    reveal_strlit("wifi_lost");
    reveal_strlit("wifi_restored");
    reveal_strlit("charging_start");
    reveal_strlit("celebrate");
    reveal_strlit("headphones_reaction");
    reveal_strlit("wake");
    reveal_strlit("blink");
}

proof fn lemma_named(e: Event)
    ensures
        e.spec_details().0 == "wifi_lost" ==> e == Event::Lost,
        e.spec_details().0 == "wifi_restored" ==> e == Event::Restored,
        e.spec_details().0 == "charging_start" ==> e == Event::Charge,
{
    reveal_strlit("wifi_lost");
    reveal_strlit("wifi_restored");
    reveal_strlit("charging_start");
    reveal_strlit("celebrate");
    reveal_strlit("headphones_reaction");
    reveal_strlit("wake");
    reveal_strlit("blink");
}

/// The queue as `queued` names it after an update: at most four animations, no
/// name twice except the one the headphone, loudness and accessory reactions
/// share, and a lost or restored connection or a plugged charger only while the
/// state still shows it.
pub proof fn law_queued_names(v: DirectorView, input: State, now: u64)
    requires
        view_wf(v),
    ensures
        ({
            let q = spec_step(v, input, now).0.queue;
            let names = q.map_values(|e: (Event, u64)| e.0.spec_details().0);
            &&& names.len() <= QUEUE_LIMIT
            &&& forall|i: int, j: int|
                0 <= i < j < names.len() && #[trigger] names[i] == #[trigger] names[j]
                    ==> names[i] == "headphones_reaction"
            &&& forall|i: int|
                0 <= i < names.len() && #[trigger] names[i] == "wifi_lost" ==> input.connected
                    == Some(false)
            &&& forall|i: int|
                0 <= i < names.len() && #[trigger] names[i] == "wifi_restored"
                    ==> input.connected == Some(true)
            &&& forall|i: int|
                0 <= i < names.len() && #[trigger] names[i] == "charging_start" ==> (
                input.battery matches Some(b) && b.charging)
        }),
{
    law_queue_stays_bounded(v, input, now);
    law_pending_events_are_fresh(v, input, now);
    let q = spec_step(v, input, now).0.queue;
    let names = q.map_values(|e: (Event, u64)| e.0.spec_details().0);
    assert forall|i: int, j: int|
        0 <= i < j < names.len() && #[trigger] names[i] == #[trigger] names[j] implies names[i]
        == "headphones_reaction" by {
        assert(q[i].0 != q[j].0);
        lemma_shared_names(q[i].0, q[j].0);
    }
    assert forall|i: int|
        0 <= i < names.len() && #[trigger] names[i] == "wifi_lost" implies input.connected
        == Some(false) by {
        lemma_named(q[i].0);
        assert(q[i] == spec_step(v, input, now).0.queue[i]);
    }
    assert forall|i: int|
        0 <= i < names.len() && #[trigger] names[i] == "wifi_restored" implies input.connected
        == Some(true) by {
        lemma_named(q[i].0);
        assert(q[i] == spec_step(v, input, now).0.queue[i]);
    }
    assert forall|i: int|
        0 <= i < names.len() && #[trigger] names[i] == "charging_start" implies (
        input.battery matches Some(b) && b.charging) by {
        lemma_named(q[i].0);
        assert(q[i] == spec_step(v, input, now).0.queue[i]);
    }
}

/// Events expire: after an update every event still waiting was noticed at most
/// eight seconds ago, and its condition still holds (offline for a lost
/// connection, online for a restored one, charging for a charger, headphones on).
pub proof fn law_pending_events_are_fresh(v: DirectorView, input: State, now: u64)
    requires
        view_wf(v),
    ensures
        forall|i: int|
            0 <= i < spec_step(v, input, now).0.queue.len() ==> {
                let entry = #[trigger] spec_step(v, input, now).0.queue[i];
                &&& spec_saturating_sub(now, entry.1) <= EVENT_EXPIRY_MS
                &&& (entry.0 == Event::Lost ==> input.connected == Some(false))
                &&& (entry.0 == Event::Restored ==> input.connected == Some(true))
                &&& (entry.0 == Event::Charge ==> (input.battery matches Some(b) && b.level.spec_is_finite() && b.charging))
                &&& (entry.0 == Event::Headphones ==> input.headphones == Some(true))
            },
{
    let s = input.normalized();
    lemma_observe_keeps_wf(v, s, now);
    lemma_start_keeps_wf(spec_observe(v, s, now), s, now);
    let q = spec_step(v, input, now).0.queue;
    assert(q == spec_start_next(spec_observe(v, s, now), now).queue);
    assert forall|i: int| 0 <= i < q.len() implies still_pending(#[trigger] q[i], s, now) by {
    }
}

/// A one-shot is never interrupted: while it has time left it stays current and
/// is what the companion shows.
pub proof fn law_one_shot_not_interrupted(v: DirectorView, input: State, now: u64, e: Event, end: u64)
    requires
        v.current == Some((e, end)),
        now < end,
    ensures
        spec_step(v, input, now).0.current == Some((e, end)),
        spec_step(v, input, now).1.animation == e.spec_details().0,
        spec_step(v, input, now).1.reason == e.spec_details().1,
        spec_step(v, input, now).1.priority == e.spec_details().2,
{
}

/// Events take precedence over persistent states: whenever a one-shot is current
/// after an update, the decision shows it.
pub proof fn law_events_take_precedence(v: DirectorView, input: State, now: u64)
    ensures
        spec_step(v, input, now).0.current matches Some(c) ==> {
            &&& spec_step(v, input, now).1.animation == c.0.spec_details().0
            &&& spec_step(v, input, now).1.priority == c.0.spec_details().2
        },
{
}

/// A one-shot that starts plays for its hold time and then cools down for its
/// cooldown; it is not queued again before the cooldown ends.
pub proof fn law_started_event_cools_down(v: DirectorView, input: State, now: u64)
    requires
        now <= CLOCK_LIMIT,
        spec_step(v, input, now).0.current matches Some(c) && v.current != Some(c),
    ensures
        ({
            let next = spec_step(v, input, now).0;
            let c = next.current->0;
            &&& c.1 == now + c.0.hold_ms()
            &&& next.cooldowns.contains_key(c.0)
            &&& next.cooldowns[c.0] == now + c.0.cooldown_ms()
        }),
{
}

/// An event that is cooling down is not queued.
pub proof fn law_cooldown_blocks_enqueue(
    q: Seq<(Event, u64)>,
    cooldowns: Map<Event, u64>,
    current: Option<(Event, u64)>,
    e: Event,
    now: u64,
)
    requires
        cooldowns.contains_key(e),
        now < cooldowns[e],
    ensures
        spec_enqueue(q, cooldowns, current, e, now) == q,
{
}

/// State updates are never discarded: every update is remembered as the previous
/// state and feeds the CPU and memory hysteresis, whatever is playing.
pub proof fn law_state_always_applies(v: DirectorView, input: State, now: u64)
    ensures
        spec_step(v, input, now).0.previous == Some(input.normalized()),
        spec_step(v, input, now).0.cpu == v.cpu.spec_update(input.normalized().cpu, 8000, 6000, now),
        spec_step(v, input, now).0.memory == v.memory.spec_update(
            input.normalized().memory,
            8500,
            8000,
            now,
        ),
{
}

/// Rain, headphones, heat and charging are overlays: they follow the state even
/// while a high-priority event plays.
pub proof fn law_modifiers_follow_state(v: DirectorView, input: State, now: u64)
    ensures
        ({
            let d = spec_step(v, input, now).1;
            let next = spec_step(v, input, now).0;
            &&& d.headphones == (input.headphones == Some(true))
            &&& d.rain == (input.weather == Some(Weather::Rain) || input.weather == Some(
                Weather::Thunder,
            ))
            &&& d.heat == (next.cpu.active || next.memory.active || input.weather == Some(
                Weather::Hot,
            ))
            &&& d.charging == (input.battery matches Some(b) && b.level.spec_is_finite() && b.charging)
            &&& d.cpu_busy == next.cpu.active
            &&& d.memory_busy == next.memory.active
        }),
{
}

/// Brief spikes do not warn: the warning switches on only after the reading has
/// stayed above the entry threshold for 5 s, and off only after it has stayed
/// below the exit threshold for 10 s or the reading disappeared.
pub proof fn law_hysteresis_needs_sustained_change(
    h: Hysteresis,
    value: Option<Reading>,
    enter: i64,
    exit: i64,
    now: u64,
)
    ensures
        !h.active && h.spec_update(value, enter, exit, now).active ==> {
            &&& value matches Some(v) && v.spec_exceeds(enter as int)
            &&& h.since matches Some(t) && now >= t + 5000
        },
        h.active && !h.spec_update(value, enter, exit, now).active ==> {
            ||| value is None
            ||| (value matches Some(v) && v.spec_under(exit as int)) && (h.since matches Some(t)
                && now >= t + 10000)
        },
{
}

/// The hysteresis after the readings `steps` (reading, time), fed in order.
pub open spec fn hysteresis_after(
    h: Hysteresis,
    steps: Seq<(Option<Reading>, u64)>,
    enter: i64,
    exit: i64,
) -> Hysteresis
    decreases steps.len(),
{
    if steps.len() == 0 {
        h
    } else {
        hysteresis_after(h, steps.drop_last(), enter, exit).spec_update(
            steps.last().0,
            enter,
            exit,
            steps.last().1,
        )
    }
}

/// The reading is across the threshold at which a flag in state `active` flips:
/// above the entry threshold while off, below the exit threshold while on.
pub open spec fn crossing(active: bool, value: Option<Reading>, enter: i64, exit: i64) -> bool {
    value matches Some(v) && if active {
        v.spec_under(exit as int)
    } else {
        v.spec_exceeds(enter as int)
    }
}

/// `since` marks the first of an unbroken run of crossing readings that lasts to
/// the latest one.
proof fn lemma_since_starts_a_run(
    h: Hysteresis,
    steps: Seq<(Option<Reading>, u64)>,
    enter: i64,
    exit: i64,
)
    requires
        h.since is None,
    ensures
        ({
            let r = hysteresis_after(h, steps, enter, exit);
            r.since matches Some(t) ==> exists|i: int|
                0 <= i < steps.len() && (#[trigger] steps[i]).1 == t && forall|j: int|
                    i <= j < steps.len() ==> crossing(r.active, (#[trigger] steps[j]).0, enter, exit)
        }),
    decreases steps.len(),
{
    if steps.len() > 0 {
        let before = steps.drop_last();
        lemma_since_starts_a_run(h, before, enter, exit);
        let p = hysteresis_after(h, before, enter, exit);
        let r = hysteresis_after(h, steps, enter, exit);
        let n = steps.len() as int;
        if r.since is Some {
            assert(r.active == p.active);
            assert(crossing(p.active, steps[n - 1].0, enter, exit));
            if p.since is Some {
                let i = choose|i: int|
                    0 <= i < before.len() && (#[trigger] before[i]).1 == p.since->0 && forall|j: int|
                        i <= j < before.len() ==> crossing(p.active, (#[trigger] before[j]).0, enter, exit);
                assert(steps[i] == before[i]);
                assert forall|j: int| i <= j < steps.len() implies crossing(
                    r.active,
                    (#[trigger] steps[j]).0,
                    enter,
                    exit,
                ) by {
                    if j < n - 1 {
                        assert(steps[j] == before[j]);
                    }
                }
            } else {
                assert(steps[n - 1].1 == r.since->0);
            }
        }
    }
}

/// Brief spikes do not warn, over any number of readings: when the flag flips on
/// a reading, every reading for at least the hold time before it (5 s to switch
/// on, 10 s to switch off) was across the threshold, one after another.
pub proof fn law_hysteresis_flips_after_sustained_run(
    start: Hysteresis,
    steps: Seq<(Option<Reading>, u64)>,
    enter: i64,
    exit: i64,
)
    requires
        start.since is None,
        steps.len() > 0,
    ensures
        ({
            let before = hysteresis_after(start, steps.drop_last(), enter, exit);
            let after = hysteresis_after(start, steps, enter, exit);
            let last = steps.last();
            before.active != after.active && last.0 is Some ==> exists|i: int|
                0 <= i < steps.len() && last.1 >= (#[trigger] steps[i]).1 + (if before.active {
                    10_000int
                } else {
                    5_000int
                }) && forall|j: int|
                    i <= j < steps.len() ==> crossing(before.active, (#[trigger] steps[j]).0, enter, exit)
        }),
{
    let prefix = steps.drop_last();
    lemma_since_starts_a_run(start, prefix, enter, exit);
    let before = hysteresis_after(start, prefix, enter, exit);
    let after = hysteresis_after(start, steps, enter, exit);
    let n = steps.len() as int;
    let last = steps.last();
    if before.active != after.active && last.0 is Some {
        assert(crossing(before.active, last.0, enter, exit));
        assert(before.since is Some);
        let i = choose|i: int|
            0 <= i < prefix.len() && (#[trigger] prefix[i]).1 == before.since->0 && forall|j: int|
                i <= j < prefix.len() ==> crossing(before.active, (#[trigger] prefix[j]).0, enter, exit);
        assert(steps[i] == prefix[i]);
        assert forall|j: int| i <= j < steps.len() implies crossing(
            before.active,
            (#[trigger] steps[j]).0,
            enter,
            exit,
        ) by {
            if j < n - 1 {
                assert(steps[j] == prefix[j]);
            }
        }
    }
}

/// Missing signals are not low battery, charging or offline: without a battery or
/// network reading the companion never shows the low-battery, charging or
/// network-search animations, and its intensity does not rise from the battery.
pub proof fn law_missing_readings_stay_quiet(v: DirectorView, input: State, now: u64)
    requires
        input.battery is None,
        input.connected is None,
    ensures
        !low_battery(input.normalized()),
        !tired_battery(input.normalized()),
        !spec_step(v, input, now).1.charging,
        ({
            let d = spec_step(v, input, now).1;
            &&& d.animation != "battery_low"
            &&& d.animation != "charging"
            &&& d.animation != "wifi_search"
        }),
{
    reveal_strlit("battery_low");
    reveal_strlit("charging");
    reveal_strlit("wifi_search");
    reveal_strlit("wifi_lost");
    reveal_strlit("wifi_restored");
    reveal_strlit("charging_start");
    reveal_strlit("celebrate");
    reveal_strlit("headphones_reaction");
    reveal_strlit("wake");
    reveal_strlit("blink");
    reveal_strlit("cpu_critical");
    reveal_strlit("memory_critical");
    reveal_strlit("cpu_high");
    reveal_strlit("memory_high");
    reveal_strlit("dance");
    reveal_strlit("sleep");
    reveal_strlit("tired");
    reveal_strlit("headphones_idle");
    reveal_strlit("walk");
    reveal_strlit("wave");
    reveal_strlit("battery_high");
    reveal_strlit("idle");
}

/// Sparse sampling still starts a complete blink: an update at least 11 s after
/// the last blink starts a new 350 ms blink at that moment.
pub proof fn law_blink_starts_on_next_update(v: DirectorView, input: State, now: u64)
    requires
        now <= CLOCK_LIMIT,
        spec_saturating_sub(now, v.last_blink) >= 11_000,
    ensures
        spec_step(v, input, now).0.last_blink == now,
        spec_step(v, input, now).0.blink_until == now + 350,
{
}

/// Ambient activity is picked at most every 30 s and lasts 2.88 s for a walk,
/// 1.2 s otherwise.
pub proof fn law_ambient_every_thirty_seconds(v: DirectorView, input: State, now: u64)
    requires
        now <= CLOCK_LIMIT,
    ensures
        spec_saturating_sub(now, v.last_ambient) >= 30_000 ==> {
            let next = spec_step(v, input, now).0;
            &&& next.last_ambient == now
            &&& next.ambient_until == now + (if next.ambient == Ambient::Walk {
                2880int
            } else {
                1200int
            })
        },
        spec_saturating_sub(now, v.last_ambient) < 30_000 ==> {
            let next = spec_step(v, input, now).0;
            &&& next.last_ambient == v.last_ambient
            &&& next.ambient == v.ambient
            &&& next.ambient_until == v.ambient_until
        },
{
}


/// Normalising twice is normalising once.
pub proof fn law_normalize_is_idempotent(s: State)
    ensures
        s.normalized().normalized() == s.normalized(),
{
}

/// Unknown readings stay unknown and real readings stay known: normalising never
/// invents or drops a real reading, and leaves the non-numeric signals alone.
pub proof fn law_normalize_keeps_knowledge(s: State)
    ensures
        s.normalized().cpu is Some <==> (s.cpu matches Some(r) && r.spec_is_finite()),
        s.normalized().memory is Some <==> (s.memory matches Some(r) && r.spec_is_finite()),
        s.normalized().volume is Some <==> (s.volume matches Some(r) && r.spec_is_finite()),
        s.normalized().battery is Some <==> (s.battery matches Some(b) && b.level.spec_is_finite()),
        s.normalized().connected == s.connected,
        s.normalized().headphones == s.headphones,
        s.normalized().audio_playing == s.audio_playing,
        s.normalized().bluetooth == s.bluetooth,
        s.normalized().weather == s.weather,
        s.normalized().is_normalized(),
{
}

/// A manual power mode is kept as chosen; automatic mode never saves power while
/// charging or without a battery reading.
pub proof fn law_power_mode_choice(mode: crate::state::PowerMode, s: State)
    ensures
        mode != crate::state::PowerMode::Auto ==> mode.spec_effective(s) == mode,
        (s.battery matches Some(b) && b.charging) ==> crate::state::PowerMode::Auto.spec_effective(s)
            == crate::state::PowerMode::Normal,
        s.battery is None ==> crate::state::PowerMode::Auto.spec_effective(s)
            == crate::state::PowerMode::Normal,
        mode.spec_effective(s).spec_frame_floor_ms() >= 50,
        mode.spec_effective(s).spec_sensor_seconds() >= 3,
{
}

/// A loop plays the same frame one full pass later.
pub proof fn law_loop_repeats(a: crate::pack::Animation, elapsed: u64)
    requires
        a.looping,
        a.spec_total() > 0,
        elapsed + a.spec_total() <= u64::MAX,
    ensures
        a.spec_frame_at(elapsed) == a.spec_frame_at((elapsed + a.spec_total()) as u64),
{
    let t = a.spec_total();
    vstd::arithmetic::div_mod::lemma_mod_add_multiples_vanish(elapsed as int, t);
}

/// A one-shot that has run holds its final frame for a second at a time.
pub proof fn law_one_shot_holds_last_frame(a: crate::pack::Animation, elapsed: u64)
    requires
        !a.looping,
        elapsed >= a.spec_total(),
    ensures
        a.spec_frame_at(elapsed) == ((a.frames - 1) as u32, 1000u64),
{
}

proof fn lemma_prefix_bounds(d: Seq<u64>, n: int)
    requires
        0 <= n <= d.len(),
        forall|k: int|
            0 <= k < d.len() ==> crate::pack::MIN_FRAME_MS <= #[trigger] d[k]
                <= crate::pack::MAX_FRAME_MS,
    ensures
        crate::pack::prefix_sum(d, n) <= n * crate::pack::MAX_FRAME_MS,
        n > 0 ==> crate::pack::prefix_sum(d, n) > 0,
    decreases n,
{
    if n > 0 {
        lemma_prefix_bounds(d, n - 1);
    }
}

proof fn lemma_frame_found(d: Seq<u64>, c: int, i: int)
    requires
        0 <= i <= d.len() <= 64,
        0 <= c,
        c + crate::pack::prefix_sum(d, i) < crate::pack::total_ms(d),
    ensures
        ({
            let (f, left) = crate::pack::frame_from(d, c, i);
            &&& i <= f < d.len()
            &&& 0 < left <= d[f as int]
        }),
    decreases d.len() - i,
{
    if i == d.len() {
        crate::pack::lemma_prefix_monotone(d, i, i);
    } else if c >= d[i] {
        lemma_frame_found(d, c - d[i], i + 1);
    }
}

/// A valid animation can always be played, and it always shows one of its own
/// frames: a running frame for no longer than that frame's duration, a finished
/// one-shot its last frame for a second.
pub proof fn law_frame_in_range(a: crate::pack::Animation, elapsed: u64)
    requires
        crate::pack::timing_ok(a),
    ensures
        a.playable_at(elapsed),
        ({
            let (f, left) = a.spec_frame_at(elapsed);
            &&& f < a.frames
            &&& 0 < left
            &&& (left <= a.durations_ms@[f as int] || (!a.looping && f == a.frames - 1
                && left == 1000))
        }),
{
    let d = a.durations_ms@;
    lemma_prefix_bounds(d, d.len() as int);
    assert(a.spec_total() <= 64 * 60000) by (nonlinear_arith)
        requires
            a.spec_total() <= d.len() * 60000,
            d.len() <= 64,
    ;
    let t = a.spec_total();
    if a.looping {
        let c = (elapsed as int) % t;
        vstd::arithmetic::div_mod::lemma_mod_bound(elapsed as int, t);
        lemma_frame_found(d, c, 0);
    } else if elapsed < t {
        lemma_frame_found(d, elapsed as int, 0);
    }
}

/// Output activity is held for six seconds: once a sample saw audio playing, every
/// later sample within six seconds that can read the output reports it playing;
/// where the output cannot be read, playback stays unknown.
pub proof fn law_audio_is_held(
    until: Option<u64>,
    seen: DeviceReadings,
    t1: u64,
    previous: State,
    first: bool,
    later: DeviceReadings,
    slow: Option<SlowReadings>,
    weather: Option<Option<Weather>>,
    t2: u64,
)
    requires
        seen.playback == Some(true),
        t1 <= t2 < t1 + AUDIO_HOLD_MS,
        t1 + AUDIO_HOLD_MS <= u64::MAX,
    ensures
        ({
            let held = spec_audio_until(until, Some(seen), t1);
            let published = spec_sampled(previous, first, held, Some(later), slow, weather, t2).normalized();
            &&& later.playback is Some ==> published.audio_playing == Some(true)
            &&& later.playback is None ==> published.audio_playing is None
        }),
{
}

/// Stale readings clear: with device readings off a sample publishes no device
/// reading at all, and a failed or switched-off weather request publishes no
/// weather.
pub proof fn law_stale_readings_clear(
    previous: State,
    first: bool,
    until: Option<u64>,
    slow: Option<SlowReadings>,
    device: Option<DeviceReadings>,
    weather: Option<Option<Weather>>,
    now: u64,
)
    ensures
        ({
            let s = spec_sampled(previous, first, until, None, slow, weather, now).normalized();
            &&& s.battery is None && s.cpu is None && s.memory is None && s.connected is None
            &&& s.volume is None && s.headphones is None && s.audio_playing is None
            &&& s.bluetooth is None
        }),
        spec_sampled(previous, first, until, device, slow, Some(None), now).normalized().weather
            is None,
        spec_audio_until(until, None, now) is None,
{
}

/// Reactions finish and return to live behaviour: a reaction the user started
/// plays for at least 1.2 s, and it is over once it has outlasted both its
/// animation and those 1.2 s.
pub proof fn law_reactions_finish(m: Manifest, name: Seq<char>, started: u64, now: u64)
    ensures
        now <= started + MIN_ACTIVITY_MS ==> !activity_over(m, name, started, now),
        ({
            let total = total_ms(resolved_animation(m, name).durations_ms@);
            now > started + total && now > started + MIN_ACTIVITY_MS ==> activity_over(
                m,
                name,
                started,
                now,
            )
        }),
{
}

/// Without a forced animation or a reaction, the dance party plays only while the
/// director has nothing of priority 60 or more; otherwise the director's choice
/// plays.
pub proof fn law_dance_yields(i: Interaction, d: Decision)
    requires
        i.forced is None,
        i.activity is None,
    ensures
        i.dance_party && d.priority < DANCE_YIELDS_AT ==> i.spec_requested(d) == "dance"@,
        !(i.dance_party && d.priority < DANCE_YIELDS_AT) ==> i.spec_requested(d) == d.animation@,
{
}

/// Pausing the terminal holds the animation where it was, and resuming later
/// continues from that very position.
pub proof fn law_pause_keeps_position(p: Playback, paused_at: u64, resumed_at: u64, later: u64)
    requires
        !p.paused,
        p.changed <= paused_at <= resumed_at <= later,
    ensures
        ({
            let held = p.spec_toggled(paused_at);
            let resumed = held.spec_toggled(resumed_at);
            &&& held.spec_elapsed(later) == p.spec_elapsed(paused_at)
            &&& resumed.spec_elapsed(resumed_at) == p.spec_elapsed(paused_at)
            &&& resumed.spec_elapsed(later) == p.spec_elapsed(paused_at) + (later - resumed_at)
            &&& resumed.name == p.name
        }),
{
}

/// The terminal's toggles undo themselves: pressing `c` twice plugs and unplugs
/// the charger, `n` twice drops and restores a known network, `r` twice starts and
/// stops rain (from clear or rainy skies).
pub proof fn law_simulation_toggles_undo(s: State)
    ensures
        s.battery is Some ==> spec_simulate(spec_simulate(s, 'c'), 'c') == s,
        s.connected is Some ==> spec_simulate(spec_simulate(s, 'n'), 'n') == s,
        (s.weather is None || s.weather == Some(Weather::Rain)) ==> spec_simulate(
            spec_simulate(s, 'r'),
            'r',
        ) == s,
{
}

/// Weather is controlled apart from the device readings: switching the readings
/// off keeps the last fetched weather until the next fetch replaces it.
pub proof fn law_weather_outlives_paused_readings(
    previous: State,
    first: bool,
    until: Option<u64>,
    slow: Option<SlowReadings>,
    now: u64,
)
    ensures
        spec_sampled(previous, first, until, None, slow, None, now).normalized().weather
            == previous.weather,
{
}

/// Ultra allows at most one scheduled animation frame every five seconds: while
/// running, the terminal never waits less than the power mode's frame floor.
pub proof fn law_frames_respect_the_floor(delay: u64, mode: crate::state::PowerMode)
    ensures
        spec_frame_wait(false, delay, mode.spec_frame_floor_ms()) >= mode.spec_frame_floor_ms(),
        spec_frame_wait(false, delay, crate::state::PowerMode::Ultra.spec_frame_floor_ms()) == 5000,
{
}

/// Every line of dialogue says something, the next line about a mood is never the
/// one just said, and the lines repeat only after the whole topic has been said.
pub proof fn law_lines_vary(mood: Seq<char>, i: usize)
    ensures
        ({
            let lines = crate::dialogue::lines_for(crate::dialogue::topic_of(mood));
            let n = lines.len() as int;
            &&& n >= 3
            &&& lines[i as int % n]@.len() > 0
            &&& i < usize::MAX ==> lines[(i + 1) % n]@ != lines[i as int % n]@
        }),
{
    let t = crate::dialogue::topic_of(mood);
    crate::dialogue::lemma_topic_lines(t);
    let lines = crate::dialogue::lines_for(t);
    let n = lines.len() as int;
    let r = i as int % n;
    let q = i as int / n;
    vstd::arithmetic::div_mod::lemma_fundamental_div_mod(i as int, n);
    vstd::arithmetic::div_mod::lemma_mod_bound(i as int, n);
    vstd::arithmetic::div_mod::lemma_mod_self_0(n);
    vstd::arithmetic::div_mod::lemma_small_mod(r as nat, n as nat);
    if i < usize::MAX {
        if r + 1 < n {
            vstd::arithmetic::div_mod::lemma_fundamental_div_mod_converse(i + 1, n, q, r + 1);
            assert(lines[r]@ != lines[r + 1]@);
        } else {
            assert(i + 1 == (q + 1) * n) by (nonlinear_arith)
                requires
                    i == n * q + r,
                    r + 1 == n,
            ;
            vstd::arithmetic::div_mod::lemma_fundamental_div_mod_converse(i + 1, n, q + 1, 0);
            assert(lines[0]@ != lines[r]@);
        }
    }
}

/// More than fifty different lines: the topics hold 62 lines, no two alike, each
/// a line of its topic, and every topic is what some mood talks about.
pub proof fn law_more_than_fifty_lines()
    ensures
        all_lines().len() > 50,
        forall|i: int, j: int|
            0 <= i < j < all_lines().len() ==> (#[trigger] all_lines()[i])@ != (
            #[trigger] all_lines()[j])@,
        forall|i: int|
            0 <= i < all_lines().len() ==> exists|t: Topic, k: int|
                0 <= k < lines_for(t).len() && #[trigger] lines_for(t)[k] == #[trigger] all_lines()[i],
        forall|t: Topic| #![trigger lines_for(t)] exists|mood: Seq<char>| #[trigger] topic_of(mood) == t,
{
    lemma_all_lines();
    assert forall|t: Topic| #![trigger lines_for(t)] exists|mood: Seq<char>| #[trigger] topic_of(mood) == t by {
        reveal_strlit("hover");
        reveal_strlit("click");
        reveal_strlit("wave");
        reveal_strlit("charging");
        reveal_strlit("charging_start");
        reveal_strlit("battery_low");
        reveal_strlit("tired");
        reveal_strlit("wifi_search");
        reveal_strlit("wifi_lost");
        reveal_strlit("wifi_restored");
        reveal_strlit("memory_high");
        reveal_strlit("memory_critical");
        reveal_strlit("cpu_high");
        reveal_strlit("cpu_critical");
        reveal_strlit("desk");
        reveal_strlit("dance");
        reveal_strlit("headphones_idle");
        reveal_strlit("headphones_reaction");
        reveal_strlit("sleep");
        reveal_strlit("nap");
        reveal_strlit("celebrate");
        reveal_strlit("play");
        reveal_strlit("walk");
        reveal_strlit("curious");
        reveal_strlit("idle");
        match t {
            Topic::Hover => {
                assert("click"@[0] == 'c');
                assert("tired"@[0] == 't');
                assert("dance"@[0] == 'd');
                assert("sleep"@[0] == 's');
                assert("hover"@[0] == 'h');
                assert("hover"@[1] == 'o');
                assert("hover"@[2] == 'v');
                assert("hover"@[3] == 'e');
                assert("hover"@[4] == 'r');
                assert(topic_of("hover"@) == t);
            },
            Topic::Greeting => {
                assert("hover"@[0] == 'h');
                assert("tired"@[0] == 't');
                assert("dance"@[0] == 'd');
                assert("sleep"@[0] == 's');
                assert("click"@[0] == 'c');
                assert("click"@[1] == 'l');
                assert("click"@[2] == 'i');
                assert("click"@[3] == 'c');
                assert("click"@[4] == 'k');
                assert(topic_of("click"@) == t);
            },
            Topic::Charging => {
                assert("cpu_high"@[1] == 'p');
                assert("charging"@[0] == 'c');
                assert("charging"@[1] == 'h');
                assert("charging"@[2] == 'a');
                assert("charging"@[3] == 'r');
                assert("charging"@[4] == 'g');
                assert("charging"@[5] == 'i');
                assert("charging"@[6] == 'n');
                assert("charging"@[7] == 'g');
                assert(topic_of("charging"@) == t);
            },
            Topic::LowPower => {
                assert("wifi_search"@[0] == 'w');
                assert("memory_high"@[0] == 'm');
                assert("battery_low"@[0] == 'b');
                assert("battery_low"@[1] == 'a');
                assert("battery_low"@[2] == 't');
                assert("battery_low"@[3] == 't');
                assert("battery_low"@[4] == 'e');
                assert("battery_low"@[5] == 'r');
                assert("battery_low"@[6] == 'y');
                assert("battery_low"@[7] == '_');
                assert("battery_low"@[8] == 'l');
                assert("battery_low"@[9] == 'o');
                assert("battery_low"@[10] == 'w');
                assert(topic_of("battery_low"@) == t);
            },
            Topic::Searching => {
                assert("battery_low"@[0] == 'b');
                assert("memory_high"@[0] == 'm');
                assert("wifi_search"@[0] == 'w');
                assert("wifi_search"@[1] == 'i');
                assert("wifi_search"@[2] == 'f');
                assert("wifi_search"@[3] == 'i');
                assert("wifi_search"@[4] == '_');
                assert("wifi_search"@[5] == 's');
                assert("wifi_search"@[6] == 'e');
                assert("wifi_search"@[7] == 'a');
                assert("wifi_search"@[8] == 'r');
                assert("wifi_search"@[9] == 'c');
                assert("wifi_search"@[10] == 'h');
                assert(topic_of("wifi_search"@) == t);
            },
            Topic::Reconnected => {
                assert("wifi_restored"@[0] == 'w');
                assert("wifi_restored"@[1] == 'i');
                assert("wifi_restored"@[2] == 'f');
                assert("wifi_restored"@[3] == 'i');
                assert("wifi_restored"@[4] == '_');
                assert("wifi_restored"@[5] == 'r');
                assert("wifi_restored"@[6] == 'e');
                assert("wifi_restored"@[7] == 's');
                assert("wifi_restored"@[8] == 't');
                assert("wifi_restored"@[9] == 'o');
                assert("wifi_restored"@[10] == 'r');
                assert("wifi_restored"@[11] == 'e');
                assert("wifi_restored"@[12] == 'd');
                assert(topic_of("wifi_restored"@) == t);
            },
            Topic::Memory => {
                assert("battery_low"@[0] == 'b');
                assert("wifi_search"@[0] == 'w');
                assert("memory_high"@[0] == 'm');
                assert("memory_high"@[1] == 'e');
                assert("memory_high"@[2] == 'm');
                assert("memory_high"@[3] == 'o');
                assert("memory_high"@[4] == 'r');
                assert("memory_high"@[5] == 'y');
                assert("memory_high"@[6] == '_');
                assert("memory_high"@[7] == 'h');
                assert("memory_high"@[8] == 'i');
                assert("memory_high"@[9] == 'g');
                assert("memory_high"@[10] == 'h');
                assert(topic_of("memory_high"@) == t);
            },
            Topic::Busy => {
                assert("charging"@[1] == 'h');
                assert("cpu_high"@[0] == 'c');
                assert("cpu_high"@[1] == 'p');
                assert("cpu_high"@[2] == 'u');
                assert("cpu_high"@[3] == '_');
                assert("cpu_high"@[4] == 'h');
                assert("cpu_high"@[5] == 'i');
                assert("cpu_high"@[6] == 'g');
                assert("cpu_high"@[7] == 'h');
                assert(topic_of("cpu_high"@) == t);
            },
            Topic::Music => {
                assert("hover"@[0] == 'h');
                assert("click"@[0] == 'c');
                assert("tired"@[0] == 't');
                assert("sleep"@[0] == 's');
                assert("dance"@[0] == 'd');
                assert("dance"@[1] == 'a');
                assert("dance"@[2] == 'n');
                assert("dance"@[3] == 'c');
                assert("dance"@[4] == 'e');
                assert(topic_of("dance"@) == t);
            },
            Topic::Sleepy => {
                assert("hover"@[0] == 'h');
                assert("click"@[0] == 'c');
                assert("tired"@[0] == 't');
                assert("dance"@[0] == 'd');
                assert("sleep"@[0] == 's');
                assert("sleep"@[1] == 'l');
                assert("sleep"@[2] == 'e');
                assert("sleep"@[3] == 'e');
                assert("sleep"@[4] == 'p');
                assert(topic_of("sleep"@) == t);
            },
            Topic::Joy => {
                assert("wifi_lost"@[0] == 'w');
                assert("celebrate"@[0] == 'c');
                assert("celebrate"@[1] == 'e');
                assert("celebrate"@[2] == 'l');
                assert("celebrate"@[3] == 'e');
                assert("celebrate"@[4] == 'b');
                assert("celebrate"@[5] == 'r');
                assert("celebrate"@[6] == 'a');
                assert("celebrate"@[7] == 't');
                assert("celebrate"@[8] == 'e');
                assert(topic_of("celebrate"@) == t);
            },
            Topic::Stretch => {
                assert("wave"@[2] == 'v');
                assert("desk"@[0] == 'd');
                assert("play"@[0] == 'p');
                assert("walk"@[0] == 'w');
                assert("walk"@[1] == 'a');
                assert("walk"@[2] == 'l');
                assert("walk"@[3] == 'k');
                assert(topic_of("walk"@) == t);
            },
            Topic::Curious => {
                assert("curious"@[0] == 'c');
                assert("curious"@[1] == 'u');
                assert("curious"@[2] == 'r');
                assert("curious"@[3] == 'i');
                assert("curious"@[4] == 'o');
                assert("curious"@[5] == 'u');
                assert("curious"@[6] == 's');
                assert(topic_of("curious"@) == t);
            },
            Topic::Company => {
                assert("wave"@[0] == 'w');
                assert("desk"@[0] == 'd');
                assert("play"@[0] == 'p');
                assert("walk"@[0] == 'w');
                assert("idle"@[0] == 'i');
                assert("idle"@[1] == 'd');
                assert("idle"@[2] == 'l');
                assert("idle"@[3] == 'e');
                assert(topic_of("idle"@) == t);
            },
        }
    }
}

/// What a director shows for each of `calls` (state, time), fed in order from
/// the view `v`.
pub open spec fn decisions_from(v: DirectorView, calls: Seq<(State, u64)>) -> Seq<Decision>
    decreases calls.len(),
{
    if calls.len() == 0 {
        Seq::empty()
    } else {
        let step = spec_step(v, calls[0].0, calls[0].1);
        seq![step.1] + decisions_from(step.0, calls.drop_first())
    }
}

/// The view `Director::new(seed)` starts from.
pub open spec fn started_with(seed: u64) -> DirectorView {
    spec_initial(
        if seed > 1 {
            seed
        } else {
            1
        },
    )
}

/// Directors read no clock and no randomness of their own: two directors made from
/// seeds that `new` treats alike (the same seed, or 0 and 1) and fed the same calls
/// show the same decisions, call by call.
pub proof fn law_same_seed_same_decisions(a: u64, b: u64, calls: Seq<(State, u64)>)
    requires
        a == b || (a <= 1 && b <= 1),
    ensures
        decisions_from(started_with(a), calls) == decisions_from(started_with(b), calls),
        decisions_from(started_with(a), calls).len() == calls.len(),
{
    lemma_decisions_len(started_with(a), calls);
}

proof fn lemma_decisions_len(v: DirectorView, calls: Seq<(State, u64)>)
    ensures
        decisions_from(v, calls).len() == calls.len(),
    decreases calls.len(),
{
    if calls.len() > 0 {
        lemma_decisions_len(spec_step(v, calls[0].0, calls[0].1).0, calls.drop_first());
    }
}

/// Persistent states in order of rank when no one-shot plays: a low battery (80)
/// outranks a CPU or RAM warning (60 or 65), which outranks dancing to audio (55),
/// which outranks a charging battery (50), which outranks a lost network (45). Each
/// shows with its own animation and priority once everything above it is absent.
pub proof fn law_persistent_states_by_rank(v: DirectorView, input: State, now: u64)
    ensures
        ({
            let next = spec_step(v, input, now).0;
            let d = spec_step(v, input, now).1;
            let n = input.normalized();
            let free = next.current is None;
            let low = n.battery matches Some(b) && !b.charging && b.level.spec_under(1500);
            let stressed = next.cpu.active || next.memory.active;
            let dancing = n.audio_playing == Some(true) && n.volume != Some(Reading::Value(0));
            let plugged = n.battery matches Some(b) && b.charging;
            &&& free && low ==> d.animation == "battery_low" && d.priority == 80
            &&& free && !low && stressed ==> (d.priority == 60 || d.priority == 65)
            &&& free && !low && next.cpu.active && (n.cpu matches Some(c) && c.spec_reaches(9500))
                ==> d.animation == "cpu_critical" && d.priority == 65
            &&& free && !low && !stressed && dancing ==> d.animation == "dance" && d.priority
                == 55
            &&& free && !low && !stressed && !dancing && plugged ==> d.animation == "charging"
                && d.reason == "Borrowing some electricity." && d.priority == 50
            &&& free && !low && !stressed && !dancing && !plugged && n.connected == Some(false)
                ==> d.animation == "wifi_search" && d.priority == 45
            &&& free && !low && !stressed && !dancing && !plugged ==> d.priority < 50
        }),
{
}

/// A charging battery shows when nothing outranks it: no one-shot playing, no
/// CPU or RAM warning and no dance (a charging battery is never low).
pub proof fn law_charging_shows(v: DirectorView, input: State, now: u64)
    requires
        input.battery matches Some(b) && b.charging && b.level.spec_is_finite(),
        spec_step(v, input, now).0.current is None,
        !spec_step(v, input, now).0.cpu.active,
        !spec_step(v, input, now).0.memory.active,
        input.normalized().audio_playing != Some(true) || input.normalized().volume == Some(
            Reading::Value(0),
        ),
    ensures
        spec_step(v, input, now).1.animation == "charging",
        spec_step(v, input, now).1.priority == 50,
        spec_step(v, input, now).1.charging,
{
}

/// Weather codes that name a condition decide it whatever the temperature: storms,
/// snow, rain, then clouds. The temperature decides only for codes that name none:
/// hot above 30°, cold below 5°, clear otherwise.
pub proof fn law_codes_outrank_temperature(code: u64, temperature: Option<Reading>)
    ensures
        95 <= code <= 99 ==> spec_condition(code, temperature) == Weather::Thunder,
        (71 <= code <= 77 || 85 <= code <= 86) ==> spec_condition(code, temperature)
            == Weather::Snow,
        (51 <= code <= 67 || 80 <= code <= 82) ==> spec_condition(code, temperature)
            == Weather::Rain,
        (1 <= code <= 3 || 45 <= code <= 48) ==> spec_condition(code, temperature)
            == Weather::Cloudy,
        ({
            let named = 95 <= code <= 99 || 71 <= code <= 77 || 85 <= code <= 86 || 51 <= code
                <= 67 || 80 <= code <= 82 || 1 <= code <= 3 || 45 <= code <= 48;
            &&& named ==> spec_condition(code, temperature) == spec_condition(code, None)
            &&& !named ==> spec_condition(code, None) == Weather::Clear
            &&& !named && (temperature matches Some(t) && t.spec_exceeds(3000))
                ==> spec_condition(code, temperature) == Weather::Hot
            &&& !named && (temperature matches Some(t) && t.spec_under(500))
                ==> spec_condition(code, temperature) == Weather::Cold
            &&& !named && (temperature matches Some(t) && t.spec_reaches(500) && t.spec_at_most(
                3000,
            )) ==> spec_condition(code, temperature) == Weather::Clear
        }),
{
}

/// A frame of a strip is a window onto the whole strip: frame `f` of width `w`
/// shows, at column `x`, what the strip shows at column `f * w + x`; and rows below
/// the sprite repeat its last row.
pub proof fn law_frames_are_strip_windows(
    sheet: Sheet,
    frame: u32,
    w: u32,
    h: u32,
    x: u32,
    y: u32,
)
    requires
        frame * w + x <= u32::MAX,
        (frame + 1) * w <= u32::MAX,
        h >= 1,
    ensures
        spec_pixel(sheet, frame, w, h, x, y) == spec_pixel(
            sheet,
            0,
            ((frame + 1) * w) as u32,
            h,
            (frame * w + x) as u32,
            y,
        ),
        y >= h ==> spec_pixel(sheet, frame, w, h, x, y) == spec_pixel(
            sheet,
            frame,
            w,
            h,
            x,
            (h - 1) as u32,
        ),
{
}

/// Which moods talk about the same things: each mood's topic, the moods that share
/// one saying the very same lines at every index (a lost connection is talked about
/// like a search for one, never like its return), and every other mood keeping
/// the company lines.
pub proof fn law_mood_topics()
    ensures
        topic_of("hover"@) == Topic::Hover,
        topic_of("click"@) == Topic::Greeting,
        topic_of("wave"@) == Topic::Greeting,
        topic_of("charging"@) == Topic::Charging,
        topic_of("charging_start"@) == Topic::Charging,
        topic_of("battery_low"@) == Topic::LowPower,
        topic_of("tired"@) == Topic::LowPower,
        topic_of("wifi_search"@) == Topic::Searching,
        topic_of("wifi_lost"@) == Topic::Searching,
        topic_of("wifi_restored"@) == Topic::Reconnected,
        topic_of("memory_high"@) == Topic::Memory,
        topic_of("memory_critical"@) == Topic::Memory,
        topic_of("cpu_high"@) == Topic::Busy,
        topic_of("cpu_critical"@) == Topic::Busy,
        topic_of("desk"@) == Topic::Busy,
        topic_of("dance"@) == Topic::Music,
        topic_of("headphones_idle"@) == Topic::Music,
        topic_of("headphones_reaction"@) == Topic::Music,
        topic_of("sleep"@) == Topic::Sleepy,
        topic_of("nap"@) == Topic::Sleepy,
        topic_of("celebrate"@) == Topic::Joy,
        topic_of("play"@) == Topic::Joy,
        topic_of("walk"@) == Topic::Stretch,
        topic_of("curious"@) == Topic::Curious,
        forall|i: int| #![trigger lines_for(topic_of("wave"@))[i]] lines_for(topic_of("wave"@))[i] == lines_for(topic_of("click"@))[i],
        forall|i: int| #![trigger lines_for(topic_of("charging_start"@))[i]] lines_for(topic_of("charging_start"@))[i] == lines_for(topic_of("charging"@))[i],
        forall|i: int| #![trigger lines_for(topic_of("tired"@))[i]] lines_for(topic_of("tired"@))[i] == lines_for(topic_of("battery_low"@))[i],
        forall|i: int| #![trigger lines_for(topic_of("wifi_lost"@))[i]] lines_for(topic_of("wifi_lost"@))[i] == lines_for(topic_of("wifi_search"@))[i],
        forall|i: int| #![trigger lines_for(topic_of("memory_critical"@))[i]] lines_for(topic_of("memory_critical"@))[i] == lines_for(topic_of("memory_high"@))[i],
        forall|i: int| #![trigger lines_for(topic_of("cpu_critical"@))[i]] lines_for(topic_of("cpu_critical"@))[i] == lines_for(topic_of("cpu_high"@))[i],
        forall|i: int| #![trigger lines_for(topic_of("desk"@))[i]] lines_for(topic_of("desk"@))[i] == lines_for(topic_of("cpu_high"@))[i],
        forall|i: int| #![trigger lines_for(topic_of("headphones_idle"@))[i]] lines_for(topic_of("headphones_idle"@))[i] == lines_for(topic_of("dance"@))[i],
        forall|i: int| #![trigger lines_for(topic_of("headphones_reaction"@))[i]] lines_for(topic_of("headphones_reaction"@))[i] == lines_for(topic_of("dance"@))[i],
        forall|i: int| #![trigger lines_for(topic_of("nap"@))[i]] lines_for(topic_of("nap"@))[i] == lines_for(topic_of("sleep"@))[i],
        forall|i: int| #![trigger lines_for(topic_of("play"@))[i]] lines_for(topic_of("play"@))[i] == lines_for(topic_of("celebrate"@))[i],
        forall|mood: Seq<char>| #[trigger] topic_of(mood) == Topic::Company || mood == "hover"@ || mood == "click"@ || mood == "wave"@ || mood == "charging"@ || mood == "charging_start"@ || mood == "battery_low"@ || mood == "tired"@ || mood == "wifi_search"@ || mood == "wifi_lost"@ || mood == "wifi_restored"@ || mood == "memory_high"@ || mood == "memory_critical"@ || mood == "cpu_high"@ || mood == "cpu_critical"@ || mood == "desk"@ || mood == "dance"@ || mood == "headphones_idle"@ || mood == "headphones_reaction"@ || mood == "sleep"@ || mood == "nap"@ || mood == "celebrate"@ || mood == "play"@ || mood == "walk"@ || mood == "curious"@,
{
    reveal_strlit("hover");
    reveal_strlit("click");
    reveal_strlit("wave");
    reveal_strlit("charging");
    reveal_strlit("charging_start");
    reveal_strlit("battery_low");
    reveal_strlit("tired");
    reveal_strlit("wifi_search");
    reveal_strlit("wifi_lost");
    reveal_strlit("wifi_restored");
    reveal_strlit("memory_high");
    reveal_strlit("memory_critical");
    reveal_strlit("cpu_high");
    reveal_strlit("cpu_critical");
    reveal_strlit("desk");
    reveal_strlit("dance");
    reveal_strlit("headphones_idle");
    reveal_strlit("headphones_reaction");
    reveal_strlit("sleep");
    reveal_strlit("nap");
    reveal_strlit("celebrate");
    reveal_strlit("play");
    reveal_strlit("walk");
    reveal_strlit("curious");
    assert("hover"@.len() == 5);
    assert("click"@.len() == 5);
    assert("wave"@.len() == 4);
    assert("charging"@.len() == 8);
    assert("charging_start"@.len() == 14);
    assert("battery_low"@.len() == 11);
    assert("tired"@.len() == 5);
    assert("wifi_search"@.len() == 11);
    assert("wifi_lost"@.len() == 9);
    assert("wifi_restored"@.len() == 13);
    assert("memory_high"@.len() == 11);
    assert("memory_critical"@.len() == 15);
    assert("cpu_high"@.len() == 8);
    assert("cpu_critical"@.len() == 12);
    assert("desk"@.len() == 4);
    assert("dance"@.len() == 5);
    assert("headphones_idle"@.len() == 15);
    assert("headphones_reaction"@.len() == 19);
    assert("sleep"@.len() == 5);
    assert("nap"@.len() == 3);
    assert("celebrate"@.len() == 9);
    assert("play"@.len() == 4);
    assert("walk"@.len() == 4);
    assert("curious"@.len() == 7);
    assert("hover"@[0] == 'h' && "click"@[0] == 'c');
    assert("hover"@[0] == 'h' && "tired"@[0] == 't');
    assert("hover"@[0] == 'h' && "dance"@[0] == 'd');
    assert("hover"@[0] == 'h' && "sleep"@[0] == 's');
    assert("click"@[0] == 'c' && "tired"@[0] == 't');
    assert("click"@[0] == 'c' && "dance"@[0] == 'd');
    assert("click"@[0] == 'c' && "sleep"@[0] == 's');
    assert("wave"@[0] == 'w' && "desk"@[0] == 'd');
    assert("wave"@[0] == 'w' && "play"@[0] == 'p');
    assert("wave"@[2] == 'v' && "walk"@[2] == 'l');
    assert("charging"@[1] == 'h' && "cpu_high"@[1] == 'p');
    assert("battery_low"@[0] == 'b' && "wifi_search"@[0] == 'w');
    assert("battery_low"@[0] == 'b' && "memory_high"@[0] == 'm');
    assert("tired"@[0] == 't' && "dance"@[0] == 'd');
    assert("tired"@[0] == 't' && "sleep"@[0] == 's');
    assert("wifi_search"@[0] == 'w' && "memory_high"@[0] == 'm');
    assert("wifi_lost"@[0] == 'w' && "celebrate"@[0] == 'c');
    assert("memory_critical"@[0] == 'm' && "headphones_idle"@[0] == 'h');
    assert("desk"@[0] == 'd' && "play"@[0] == 'p');
    assert("desk"@[0] == 'd' && "walk"@[0] == 'w');
    assert("dance"@[0] == 'd' && "sleep"@[0] == 's');
    assert("play"@[0] == 'p' && "walk"@[0] == 'w');
}

/// 1 when `e` is cooling down at `now`, else 0.
pub open spec fn cools(v: DirectorView, e: Event, now: u64) -> int {
    if v.cooldowns.contains_key(e) && now < v.cooldowns[e] {
        1
    } else {
        0
    }
}

/// How many events are cooling down at `now`.
pub open spec fn cooling_count(v: DirectorView, now: u64) -> int {
    cools(v, Event::Lost, now) + cools(v, Event::Restored, now) + cools(v, Event::Charge, now)
        + cools(v, Event::Full, now) + cools(v, Event::Headphones, now) + cools(
        v,
        Event::Wake,
        now,
    ) + cools(v, Event::Muted, now) + cools(v, Event::Loud, now) + cools(
        v,
        Event::Accessory,
        now,
    )
}

/// The report entry of an event: its animation name and the whole seconds left
/// of its cooldown, rounded up.
pub open spec fn cooldown_entry(v: DirectorView, e: Event, now: u64) -> (&'static str, u64) {
    (e.spec_details().0, ((v.cooldowns[e] - now + 999) / 1000) as u64)
}

proof fn lemma_sort_small(s: Seq<u64>)
    requires
        s.len() <= 3,
    ensures
        sort_small(s).len() == s.len(),
        forall|i: int| 0 <= i < s.len() ==> sort_small(s).contains(#[trigger] s[i]),
        forall|i: int| 0 <= i < s.len() ==> s.contains(#[trigger] sort_small(s)[i]),
{
    let t = sort_small(s);
    if s.len() == 3 {
        assert(t[0] == s[0] || t[1] == s[0] || t[2] == s[0]);
        assert(t[0] == s[1] || t[1] == s[1] || t[2] == s[1]);
        assert(t[0] == s[2] || t[1] == s[2] || t[2] == s[2]);
        assert(s[0] == t[0] || s[1] == t[0] || s[2] == t[0]);
        assert(s[0] == t[1] || s[1] == t[1] || s[2] == t[1]);
        assert(s[0] == t[2] || s[1] == t[2] || s[2] == t[2]);
    } else if s.len() == 2 {
        assert(t[0] == s[0] || t[1] == s[0]);
        assert(t[0] == s[1] || t[1] == s[1]);
        assert(s[0] == t[0] || s[1] == t[0]);
        assert(s[0] == t[1] || s[1] == t[1]);
    } else if s.len() == 1 {
        assert(t[0] == s[0]);
    }
}

proof fn lemma_rounded_up(ms: u64)
    ensures
        ceil_seconds(ms) == (ms + 999) / 1000,
{
}

/// The report's seconds for the three events that share "headphones_reaction".
spec fn shared_seconds(v: DirectorView, now: u64) -> Seq<u64> {
    seconds_entry(v, Event::Headphones, now) + seconds_entry(v, Event::Loud, now)
        + seconds_entry(v, Event::Accessory, now)
}

proof fn lemma_entry_seconds(v: DirectorView, e: Event, now: u64)
    requires
        cooling(v, e, now),
    ensures
        remaining_seconds(v, e, now) == cooldown_entry(v, e, now).1,
        report_entry(v, e, now) == seq![cooldown_entry(v, e, now)],
{
    lemma_rounded_up((v.cooldowns[e] - now) as u64);
}

/// Every cooling event is in the report.
proof fn lemma_report_complete(v: DirectorView, e: Event, now: u64)
    requires
        cooling(v, e, now),
    ensures
        spec_cooldown_report(v, now).contains(cooldown_entry(v, e, now)),
{
    lemma_entry_seconds(v, e, now);
    let r = spec_cooldown_report(v, now);
    let p1 = report_entry(v, Event::Muted, now);
    let p2 = report_entry(v, Event::Full, now);
    let p3 = report_entry(v, Event::Charge, now);
    let shared = shared_seconds(v, now);
    let p4 = sort_small(shared).map_values(|x: u64| ("headphones_reaction", x));
    let p5 = report_entry(v, Event::Wake, now);
    let p6 = report_entry(v, Event::Lost, now);
    let p7 = report_entry(v, Event::Restored, now);
    assert(r == p1 + p2 + p3 + p4 + p5 + p6 + p7);
    let a = p1.len() as int;
    let b = a + p2.len();
    let c = b + p3.len();
    let d = c + p4.len();
    let f = d + p5.len();
    let g = f + p6.len();
    let x = cooldown_entry(v, e, now);
    match e {
        Event::Muted => assert(r[0] == x),
        Event::Full => assert(r[a] == x),
        Event::Charge => assert(r[b] == x),
        Event::Wake => assert(r[d] == x),
        Event::Lost => assert(r[f] == x),
        Event::Restored => assert(r[g] == x),
        _ => {
            lemma_sort_small(shared);
            let h = seconds_entry(v, Event::Headphones, now).len() as int;
            let l = seconds_entry(v, Event::Loud, now).len() as int;
            let k: int = if e == Event::Headphones {
                0
            } else if e == Event::Loud {
                h
            } else {
                h + l
            };
            assert(shared[k] == x.1);
            assert(sort_small(shared).contains(shared[k]));
            let j = choose|j: int| 0 <= j < sort_small(shared).len() && sort_small(shared)[j] == x.1;
            assert(p4[j] == x);
            assert(r[c + j] == x);
        },
    }
}

/// `x` is the report entry of an event that is cooling down.
pub open spec fn entry_of_cooling_event(v: DirectorView, now: u64, x: (&'static str, u64)) -> bool {
    exists|e: Event|
        v.cooldowns.contains_key(e) && now < v.cooldowns[e] && x == #[trigger] cooldown_entry(
            v,
            e,
            now,
        )
}

/// Every entry of the report belongs to a cooling event.
proof fn lemma_report_sound(v: DirectorView, now: u64, i: int)
    requires
        0 <= i < spec_cooldown_report(v, now).len(),
    ensures
        entry_of_cooling_event(v, now, spec_cooldown_report(v, now)[i]),
{
    let r = spec_cooldown_report(v, now);
    let p1 = report_entry(v, Event::Muted, now);
    let p2 = report_entry(v, Event::Full, now);
    let p3 = report_entry(v, Event::Charge, now);
    let shared = shared_seconds(v, now);
    let p4 = sort_small(shared).map_values(|x: u64| ("headphones_reaction", x));
    let p5 = report_entry(v, Event::Wake, now);
    let p6 = report_entry(v, Event::Lost, now);
    let p7 = report_entry(v, Event::Restored, now);
    assert(r == p1 + p2 + p3 + p4 + p5 + p6 + p7);
    let a = p1.len() as int;
    let b = a + p2.len();
    let c = b + p3.len();
    let d = c + p4.len();
    let f = d + p5.len();
    let g = f + p6.len();
    let e = if i < a {
        Event::Muted
    } else if i < b {
        Event::Full
    } else if i < c {
        Event::Charge
    } else if i < d {
        lemma_sort_small(shared);
        let x = sort_small(shared)[i - c];
        assert(shared.contains(x));
        let k = choose|k: int| 0 <= k < shared.len() && shared[k] == x;
        let h = seconds_entry(v, Event::Headphones, now).len() as int;
        let l = seconds_entry(v, Event::Loud, now).len() as int;
        if k < h {
            Event::Headphones
        } else if k < h + l {
            Event::Loud
        } else {
            Event::Accessory
        }
    } else if i < f {
        Event::Wake
    } else if i < g {
        Event::Lost
    } else {
        Event::Restored
    };
    assert(cooling(v, e, now));
    lemma_entry_seconds(v, e, now);
    assert(r[i] == cooldown_entry(v, e, now));
}

proof fn lemma_report_len(v: DirectorView, now: u64)
    ensures
        spec_cooldown_report(v, now).len() == cooling_count(v, now),
{
    lemma_sort_small(shared_seconds(v, now));
}

/// The cooldown report lists exactly the events that are cooling down: every
/// cooling event appears with its animation name and the whole seconds left,
/// rounded up; every entry is such an event's; and there is one entry per
/// cooling event.
pub proof fn law_cooldown_report(v: DirectorView, now: u64)
    ensures
        forall|e: Event|
            v.cooldowns.contains_key(e) && now < v.cooldowns[e] ==> spec_cooldown_report(
                v,
                now,
            ).contains(#[trigger] cooldown_entry(v, e, now)),
        forall|i: int|
            0 <= i < spec_cooldown_report(v, now).len() ==> entry_of_cooling_event(
                v,
                now,
                #[trigger] spec_cooldown_report(v, now)[i],
            ),
        spec_cooldown_report(v, now).len() == cooling_count(v, now),
{
    assert forall|e: Event|
        v.cooldowns.contains_key(e) && now < v.cooldowns[e] implies spec_cooldown_report(
        v,
        now,
    ).contains(#[trigger] cooldown_entry(v, e, now)) by {
        lemma_report_complete(v, e, now);
    }
    assert forall|i: int| 0 <= i < spec_cooldown_report(v, now).len() implies entry_of_cooling_event(
        v,
        now,
        #[trigger] spec_cooldown_report(v, now)[i],
    ) by {
        lemma_report_sound(v, now, i);
    }
    lemma_report_len(v, now);
}

/// Dialogue wraps around: after the last line of a topic comes its first again.
pub proof fn law_dialogue_wraps(mood: Seq<char>, index: int)
    requires
        index >= 0,
    ensures
        ({
            let lines = crate::dialogue::lines_for(crate::dialogue::topic_of(mood));
            lines[index % lines.len() as int] == lines[(index + lines.len()) % lines.len() as int]
        }),
{
    let lines = crate::dialogue::lines_for(crate::dialogue::topic_of(mood));
    assert(lines.len() > 0);
    vstd::arithmetic::div_mod::lemma_mod_add_multiples_vanish(index, lines.len() as int);
}

} // verus!