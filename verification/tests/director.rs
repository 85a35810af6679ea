use scopobot::director::{Director, Intensity};
use scopobot::reading::Reading;
use scopobot::state::{Battery, State, Weather};

fn pct(p: i64) -> Option<Reading> {
    Some(Reading::Value(p * 100))
}

#[test]
fn event_wins_then_returns_to_persistent_state() {
    let mut d = Director::default();
    let mut s = State::demo();
    d.update(&s, 0);
    s.connected = Some(false);
    s.battery = Some(Battery {
        level: Reading::Value(800),
        charging: false,
    });
    assert_eq!(d.update(&s, 100).animation, "wifi_lost");
    assert_eq!(d.update(&s, 2600).animation, "battery_low");
}

#[test]
fn hysteresis_requires_sustained_load_and_recovery() {
    let mut d = Director::default();
    let mut s = State::demo();
    s.cpu = pct(90);
    assert_eq!(d.update(&s, 0).animation, "idle");
    s.cpu = pct(79);
    d.update(&s, 4000);
    s.cpu = pct(90);
    d.update(&s, 5000);
    assert_eq!(d.update(&s, 9999).animation, "idle");
    assert_eq!(d.update(&s, 10000).animation, "cpu_high");
    s.cpu = pct(30);
    d.update(&s, 11000);
    assert_eq!(d.update(&s, 20000).animation, "cpu_high");
    assert_eq!(d.update(&s, 21000).animation, "idle");
}

#[test]
fn cooldown_suppresses_animation_but_not_state() {
    let mut d = Director::default();
    let mut s = State::demo();
    d.update(&s, 0);
    s.connected = Some(false);
    d.update(&s, 100);
    s.connected = Some(true);
    d.update(&s, 3000);
    s.connected = Some(false);
    assert_eq!(d.update(&s, 5000).animation, "wifi_search");
}

#[test]
fn queued_events_do_not_interrupt_and_stale_events_drop() {
    let mut d = Director::default();
    let mut s = State::demo();
    d.update(&s, 0);
    s.connected = Some(false);
    d.update(&s, 100);
    s.battery.as_mut().unwrap().charging = true;
    assert_eq!(d.update(&s, 200).animation, "wifi_lost");
    s.battery.as_mut().unwrap().charging = false;
    assert_eq!(d.update(&s, 2600).animation, "wifi_search");
    assert!(d.queued().is_empty());
}

#[test]
fn missing_signals_are_not_low_battery_or_offline() {
    let mut d = Director::default();
    assert_eq!(d.update(&State::default(), 0).animation, "idle");
}

#[test]
fn modifiers_survive_high_priority_events() {
    let mut d = Director::default();
    let mut s = State::demo();
    s.headphones = Some(true);
    s.weather = Some(Weather::Rain);
    d.update(&s, 0);
    s.connected = Some(false);
    let decision = d.update(&s, 100);
    assert_eq!(decision.animation, "wifi_lost");
    assert!(decision.rain && decision.headphones);
}

#[test]
fn sparse_updates_start_a_complete_blink_and_ambient_activity() {
    let mut director = Director::default();
    let state = State {
        hour: 12,
        ..State::default()
    };
    assert_eq!(director.update(&state, 0).animation, "idle");
    assert_eq!(director.update(&state, 12_200).animation, "blink");
    assert_eq!(director.update(&state, 12_400).animation, "blink");
    assert_eq!(director.update(&state, 12_600).animation, "idle");
    assert!(["wave", "walk", "celebrate"].contains(&director.update(&state, 31_000).animation));
}

#[test]
fn playback_dances_but_headphones_and_mute_are_not_playback() {
    let mut director = Director::default();
    let mut state = State::demo();
    state.audio_playing = Some(true);
    assert_eq!(director.update(&state, 0).animation, "dance");
    state.audio_playing = Some(false);
    assert_ne!(director.update(&state, 100).animation, "dance");
    state.headphones = Some(true);
    assert_ne!(director.update(&state, 200).animation, "dance");
    state.audio_playing = Some(true);
    state.volume = pct(0);
    assert_ne!(director.update(&state, 5000).animation, "dance");
    state.volume = pct(35);
    state.battery = Some(Battery {
        level: Reading::Value(500),
        charging: false,
    });
    assert_eq!(director.update(&state, 6000).animation, "battery_low");
}

#[test]
fn ram_warning_is_distinct_sustained_and_recovers_without_flapping() {
    let mut director = Director::default();
    let mut state = State::demo();
    state.memory = pct(90);
    assert!(!director.update(&state, 0).memory_busy);
    let warning = director.update(&state, 5000);
    assert_eq!(warning.animation, "memory_high");
    assert!(warning.memory_busy && !warning.cpu_busy);
    state.memory = pct(97);
    assert_eq!(director.update(&state, 6000).animation, "memory_critical");
    state.memory = pct(78);
    assert!(director.update(&state, 7000).memory_busy);
    state.memory = pct(65);
    assert!(director.update(&state, 8000).memory_busy);
    assert!(!director.update(&state, 18000).memory_busy);
    state.memory = None;
    assert!(!director.update(&state, 19000).memory_busy);
}

#[test]
fn cooldowns_list_cooling_events_by_name_with_rounded_up_seconds() {
    let mut d = Director::default();
    let mut s = State::demo();
    d.update(&s, 0);
    s.connected = Some(false);
    d.update(&s, 100);
    assert_eq!(d.cooldowns(100), vec![("wifi_lost", 60)]);
    assert_eq!(d.cooldowns(1100), vec![("wifi_lost", 59)]);
    assert_eq!(d.cooldowns(1000), vec![("wifi_lost", 60)]);
    assert!(d.cooldowns(60_100).is_empty());
}

#[test]
fn critical_cpu_raises_intensity_and_heat() {
    let mut d = Director::new(7);
    let mut s = State::demo();
    s.cpu = pct(97);
    d.update(&s, 0);
    let decision = d.update(&s, 5000);
    assert_eq!(decision.animation, "cpu_critical");
    assert_eq!(decision.priority, 65);
    assert_eq!(decision.intensity, Intensity::Critical);
    assert!(decision.heat && decision.cpu_busy);
}
