use scopobot::companion::{
    advice, badges, battery_badge, gauges, overlays, percent, reading_rows, step_frame,
    usage_note, whole, Interaction, Overlays, CPU_WARNING, RAM_WARNING,
};
use scopobot::director::{Decision, Intensity};
use scopobot::pack::{Animation, CharacterPack, Manifest};
use scopobot::reading::Reading;
use scopobot::state::{Battery, BluetoothCategory, State};
use std::path::PathBuf;

fn decision(animation: &'static str, priority: u8) -> Decision {
    Decision {
        animation,
        reason: "test",
        priority,
        intensity: Intensity::Calm,
        headphones: false,
        rain: false,
        heat: false,
        charging: false,
        cpu_busy: false,
        memory_busy: false,
    }
}

fn animation(durations: Vec<u64>, looping: bool) -> Animation {
    Animation {
        file: "sprites/a.png".into(),
        frames: durations.len() as u32,
        durations_ms: durations,
        looping,
        regions: None,
    }
}

fn pack() -> CharacterPack {
    CharacterPack {
        root: PathBuf::from("/tmp"),
        manifest: Manifest {
            id: "test".into(),
            name: "Test".into(),
            author: "".into(),
            description: "".into(),
            sprite_size: [32, 32],
            scale: 4,
            animations: vec![
                ("idle".into(), animation(vec![1000, 1000], true)),
                ("wave".into(), animation(vec![500, 500, 1000], false)),
            ],
            captions: vec![],
            kind: "".into(),
        },
        sheets: vec![],
    }
}

#[test]
fn click_waves_and_speaks_the_next_greeting() {
    let mut i = Interaction::new();
    i.click(100);
    assert_eq!(i.activity.as_ref().unwrap().name, "wave");
    assert_eq!(i.bubble.unwrap().text, "Hi! What are we making today?");
    i.click(200);
    assert_eq!(i.bubble.unwrap().text, "One tiny high five!");
    assert_eq!(i.bubble.unwrap().shown, 200);
    assert_eq!(i.dialogue_index, 2);
}

#[test]
fn speech_disappears_after_five_seconds() {
    let mut i = Interaction::new();
    i.talk("wave", 1000);
    i.expire_speech(5999);
    assert!(i.bubble.is_some());
    i.expire_speech(6000);
    assert!(i.bubble.is_none());
    i.talk("wave", 7000);
    i.dismiss_speech();
    assert!(i.bubble.is_none());
    assert_eq!(i.dialogue_index, 2);
}

#[test]
fn hovering_starts_curiosity_only_on_arrival() {
    let mut i = Interaction::new();
    assert!(i.hover(true, 10));
    assert_eq!(i.activity.as_ref().unwrap().name, "curious");
    i.activity = None;
    assert!(!i.hover(true, 20));
    assert!(i.activity.is_none());
    assert!(!i.hover(false, 30));
    i.paused = true;
    assert!(!i.hover(true, 40));
    assert!(i.activity.is_none());
}

#[test]
fn reactions_last_their_animation_and_at_least_a_second() {
    let p = pack();
    let mut i = Interaction::new();
    i.click(0);
    i.finish_activity(&p, 2000);
    assert!(i.activity.is_some());
    i.finish_activity(&p, 2001);
    assert!(i.activity.is_none());
    i.start_activity("sleep", 0);
    i.finish_activity(&p, 2000);
    assert!(i.activity.is_some());
    i.finish_activity(&p, 2001);
    assert!(i.activity.is_none());
    i.start_activity("curious", 5000);
    i.finish_activity(&p, 5000 + 1999);
    assert!(i.activity.is_some());
}

#[test]
fn short_reactions_still_hold_for_the_minimum() {
    let mut p = pack();
    p.manifest.animations[1].1 = animation(vec![100, 100], false);
    let mut i = Interaction::new();
    i.click(0);
    i.finish_activity(&p, 1200);
    assert!(i.activity.is_some());
    i.finish_activity(&p, 1201);
    assert!(i.activity.is_none());
}

#[test]
fn requested_animation_follows_forced_then_reaction_then_dance() {
    let mut i = Interaction::new();
    let calm = decision("idle", 10);
    let urgent = decision("wifi_lost", 90);
    assert_eq!(i.requested(&calm), "idle");
    i.dance_party = true;
    assert_eq!(i.requested(&calm), "dance");
    assert_eq!(i.requested(&urgent), "wifi_lost");
    assert_eq!(i.requested(&decision("battery_low", 60)), "battery_low");
    assert_eq!(i.requested(&decision("sleep", 59)), "dance");
    i.start_activity("celebrate", 0);
    assert_eq!(i.requested(&urgent), "celebrate");
    assert_eq!(i.bubble.unwrap().text, "Tiny victory dance!");
    i.forced = Some("walk".into());
    assert_eq!(i.requested(&urgent), "walk");
    i.start_activity("wave", 10);
    assert!(i.forced.is_none());
}

#[test]
fn stepping_frames_wraps_and_reports_the_start() {
    let a = animation(vec![900, 100, 1800], true);
    assert_eq!(step_frame(&a, 0), (1, 900));
    assert_eq!(step_frame(&a, 1), (2, 1000));
    assert_eq!(step_frame(&a, 2), (0, 0));
}

#[test]
fn health_notes_distinguish_spikes_from_sustained_use() {
    assert_eq!(usage_note(Some(Reading::Value(8500)), false, CPU_WARNING), "Brief spike — watching before warning");
    assert_eq!(usage_note(Some(Reading::Value(8000)), false, CPU_WARNING), "Comfortable usage");
    assert_eq!(usage_note(Some(Reading::Value(8500)), false, RAM_WARNING), "Comfortable usage");
    assert_eq!(usage_note(Some(Reading::Value(100)), true, RAM_WARNING), "Sustained high usage");
    assert_eq!(usage_note(None, true, CPU_WARNING), "Waiting for a reading");
    let mut d = decision("idle", 0);
    let s = State {
        cpu: Some(Reading::Value(9000)),
        ..State::default()
    };
    let g = gauges(&s, &d);
    assert_eq!(g[0].label, "CPU");
    assert_eq!(g[0].note, "Brief spike — watching before warning");
    assert_eq!(g[1].label, "RAM");
    assert_eq!(g[1].note, "Waiting for a reading");
    assert_eq!(advice(&d), vec!["No sustained CPU or RAM warning right now."]);
    d.cpu_busy = true;
    d.memory_busy = true;
    let a = advice(&d);
    assert_eq!(a.len(), 2);
    assert!(a[0].starts_with("RAM:"));
    assert!(a[1].starts_with("CPU:"));
}

#[test]
fn whole_numbers_round_halves_to_even() {
    assert_eq!(whole(Reading::Value(8550)), "86");
    assert_eq!(whole(Reading::Value(8450)), "84");
    assert_eq!(whole(Reading::Value(8451)), "85");
    assert_eq!(whole(Reading::Value(0)), "0");
    assert_eq!(whole(Reading::Value(10000)), "100");
    assert_eq!(whole(Reading::Value(-40)), "-0");
    assert_eq!(whole(Reading::Value(-250)), "-2");
    assert_eq!(whole(Reading::PositiveInfinity), "inf");
    assert_eq!(whole(Reading::NotANumber), "NaN");
    assert_eq!(whole(Reading::Between(8549)), "85");
    assert_eq!(whole(Reading::Between(8550)), "86");
    assert_eq!(whole(Reading::Between(8450)), "85");
    assert_eq!(whole(Reading::Between(-41)), "-0");
    assert_eq!(whole(Reading::Between(-51)), "-1");
    assert_eq!(percent(Some(Reading::Value(1200))), "12%");
    assert_eq!(percent(None), "Unavailable");
}

#[test]
fn badges_show_sustained_warnings_and_battery_needs() {
    let mut d = decision("idle", 0);
    let s = State {
        cpu: Some(Reading::Value(9800)),
        ..State::default()
    };
    assert!(badges(&s, &d).is_empty());
    d.cpu_busy = true;
    d.memory_busy = true;
    assert_eq!(badges(&s, &d), vec!["CPU 98%".to_string(), "RAM busy".to_string()]);
    let low = State {
        battery: Some(Battery {
            level: Reading::Value(1999),
            charging: false,
        }),
        ..State::default()
    };
    assert!(battery_badge(&low).is_some());
    let fine = State {
        battery: Some(Battery {
            level: Reading::Value(2000),
            charging: false,
        }),
        ..State::default()
    };
    assert!(battery_badge(&fine).is_none());
    let plugged = State {
        battery: Some(Battery {
            level: Reading::Value(9000),
            charging: true,
        }),
        ..State::default()
    };
    assert!(battery_badge(&plugged).is_some());
    assert!(battery_badge(&State::default()).is_none());
}

#[test]
fn reading_rows_describe_every_signal() {
    let rows = reading_rows(&State::demo());
    let texts: Vec<(&str, &str)> = rows.iter().map(|(l, t)| (*l, t.as_str())).collect();
    assert_eq!(
        texts,
        vec![
            ("Battery", "72%"),
            ("CPU", "12%"),
            ("Memory", "40%"),
            ("Network", "Local connection"),
            ("Volume", "35%"),
            ("Headphones", "Not detected"),
            ("Bluetooth", "None / unavailable"),
            ("Time", "12:00"),
        ]
    );
    let s = State {
        battery: Some(Battery {
            level: Reading::Value(5049),
            charging: true,
        }),
        connected: Some(false),
        headphones: Some(true),
        bluetooth: Some(BluetoothCategory::Audio),
        hour: 7,
        ..State::default()
    };
    let rows = reading_rows(&s);
    assert_eq!(rows[0].1, "50% · charging");
    assert_eq!(rows[1].1, "Unavailable");
    assert_eq!(rows[3].1, "Offline");
    assert_eq!(rows[5].1, "Connected");
    assert_eq!(rows[6].1, "Audio");
    assert_eq!(rows[7].1, "07:00");
}

#[test]
fn overlays_follow_the_decision_but_not_prop_packs() {
    let mut d = decision("idle", 0);
    d.headphones = true;
    d.rain = true;
    d.heat = true;
    assert_eq!(
        overlays(&d, "idle", ""),
        Some(Overlays {
            headphones: true,
            rain: true,
            heat: true
        })
    );
    assert_eq!(overlays(&d, "cpu_high", "").map(|o| o.heat), Some(false));
    assert_eq!(overlays(&d, "cp", "").map(|o| o.heat), Some(true));
    assert_eq!(overlays(&d, "idle", "props"), None);
}

#[test]
fn captions_fall_back_to_the_reason() {
    let mut p = pack();
    p.manifest.captions = vec![("wave".into(), "Hello there".into())];
    assert_eq!(p.manifest.caption("wave", "Calm"), "Hello there");
    assert_eq!(p.manifest.caption("idle", "Calm"), "Calm");
}
