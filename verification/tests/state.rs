use scopobot::director::Director;
use scopobot::reading::Reading;
use scopobot::state::{Battery, PowerMode, State};

#[test]
fn invalid_readings_do_not_become_real_conditions() {
    let mut s = State {
        cpu: Some(Reading::NotANumber),
        memory: Some(Reading::Value(30000)),
        battery: Some(Battery {
            level: Reading::PositiveInfinity,
            charging: false,
        }),
        hour: 255,
        ..State::default()
    };
    s.normalize();
    assert_eq!(s.cpu, None);
    assert_eq!(s.battery, None);
    assert_eq!(s.memory, Some(Reading::Value(10000)));
    assert_eq!(s.hour, 23);
}

#[test]
fn automatic_power_respects_charging_and_manual_override() {
    let mut s = State::demo();
    s.battery = Some(Battery {
        level: Reading::Value(500),
        charging: false,
    });
    assert_eq!(PowerMode::Auto.effective(&s), PowerMode::Ultra);
    assert_eq!(PowerMode::Normal.effective(&s), PowerMode::Normal);
    s.battery.as_mut().unwrap().charging = true;
    assert_eq!(PowerMode::Auto.effective(&s), PowerMode::Normal);
}

#[test]
fn saver_between_eight_and_twenty_percent() {
    let mut s = State::demo();
    s.battery = Some(Battery {
        level: Reading::Value(1999),
        charging: false,
    });
    assert_eq!(PowerMode::Auto.effective(&s), PowerMode::Saver);
    s.battery = Some(Battery {
        level: Reading::Value(800),
        charging: false,
    });
    assert_eq!(PowerMode::Auto.effective(&s), PowerMode::Saver);
    s.battery = Some(Battery {
        level: Reading::Value(2000),
        charging: false,
    });
    assert_eq!(PowerMode::Auto.effective(&s), PowerMode::Normal);
    s.battery = Some(Battery {
        level: Reading::NegativeInfinity,
        charging: false,
    });
    assert_eq!(PowerMode::Auto.effective(&s), PowerMode::Ultra);
    assert_eq!(PowerMode::Auto.effective(&State::default()), PowerMode::Normal);
}

#[test]
fn polling_and_frame_intervals_follow_power_mode() {
    assert_eq!(PowerMode::Normal.sensor_seconds(), 3);
    assert_eq!(PowerMode::Auto.sensor_seconds(), 3);
    assert_eq!(PowerMode::Saver.sensor_seconds(), 10);
    assert_eq!(PowerMode::Ultra.sensor_seconds(), 30);
    assert_eq!(PowerMode::Normal.frame_floor_ms(), 50);
    assert_eq!(PowerMode::Saver.frame_floor_ms(), 750);
    assert_eq!(PowerMode::Ultra.frame_floor_ms(), 5000);
}

#[test]
fn normalize_limits_percentages_and_calendar() {
    let mut s = State {
        volume: Some(Reading::Value(-250)),
        memory: None,
        battery: Some(Battery {
            level: Reading::Value(12000),
            charging: true,
        }),
        day: 9,
        ..State::default()
    };
    s.normalize();
    assert_eq!(s.volume, Some(Reading::Value(0)));
    assert_eq!(s.memory, None);
    assert_eq!(
        s.battery,
        Some(Battery {
            level: Reading::Value(10000),
            charging: true
        })
    );
    assert_eq!(s.day, 6);
    let again = s;
    s.normalize();
    assert_eq!(s, again);
}

#[test]
fn readings_between_hundredths_meet_thresholds_exactly() {
    // 80.004 % is above 80 %; 7.996 % is below 8 %.
    assert!(Reading::Between(8000).exceeds(8000));
    assert!(!Reading::Value(8000).exceeds(8000));
    assert!(Reading::Between(799).under(800));
    assert!(!Reading::Between(800).under(800));
    assert!(Reading::Between(9500).reaches(9500));
    assert!(!Reading::Between(9499).reaches(9500));
    assert!(!Reading::Between(9999).at_most(9999));
    assert!(Reading::Between(9999).at_most(10000));
    let mut s = State {
        cpu: Some(Reading::Between(10000)),
        memory: Some(Reading::Between(-1)),
        volume: Some(Reading::Between(4200)),
        ..State::default()
    };
    s.normalize();
    assert_eq!(s.cpu, Some(Reading::Value(10000)));
    assert_eq!(s.memory, Some(Reading::Value(0)));
    assert_eq!(s.volume, Some(Reading::Between(4200)));
    let mut low = State::demo();
    low.battery = Some(Battery {
        level: Reading::Between(799),
        charging: false,
    });
    assert_eq!(PowerMode::Auto.effective(&low), PowerMode::Ultra);
}

#[test]
fn memory_just_above_the_warning_still_warns() {
    let mut d = Director::default();
    let mut s = State::demo();
    s.memory = Some(Reading::Between(8500));
    d.update(&s, 0);
    assert!(d.update(&s, 5000).memory_busy);
}
