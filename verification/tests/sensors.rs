use scopobot::reading::Reading;
use scopobot::sensors::{
    connection_state, memory_percent, weather_name, DeviceReadings, InterfaceState, Sampler,
    SensorSnapshot, SlowReadings, WeatherUpdate,
};
use scopobot::state::{Battery, BluetoothCategory, Weather};

fn device(playback: Option<bool>) -> DeviceReadings {
    DeviceReadings {
        hour: 9,
        day: 3,
        cpu: Reading::Value(2500),
        memory: Some(Reading::Value(5000)),
        connected: Some(true),
        playback,
    }
}

fn slow() -> SlowReadings {
    SlowReadings {
        battery: Some(Battery {
            level: Reading::Value(5000),
            charging: true,
        }),
        volume: Some(Reading::Value(12000)),
        headphones: Some(false),
        bluetooth: Some(BluetoothCategory::Audio),
    }
}

#[test]
fn first_sample_has_no_cpu_and_reads_battery_and_accessories() {
    let mut sampler = Sampler::new();
    let mut snapshot = SensorSnapshot::default();
    assert_eq!(snapshot.samples, 0);
    assert_eq!(snapshot.note, "Waiting for the first local reading");
    assert!(sampler.slow_due(0));
    sampler.sample(&mut snapshot, Some(device(None)), Some(slow()), WeatherUpdate::Off, 0);
    assert_eq!(snapshot.state.cpu, None);
    assert_eq!(snapshot.state.memory, Some(Reading::Value(5000)));
    assert_eq!(snapshot.state.hour, 9);
    assert_eq!(snapshot.state.day, 3);
    assert_eq!(snapshot.state.volume, Some(Reading::Value(10000)));
    assert_eq!(snapshot.state.bluetooth, Some(BluetoothCategory::Audio));
    assert_eq!(snapshot.state.audio_playing, None);
    assert_eq!(snapshot.samples, 1);
    assert_eq!(
        snapshot.note,
        "Local readings only. Network means an active local interface, not verified internet access."
    );
    assert_eq!(snapshot.weather_status, "Weather is off");
    assert!(!sampler.slow_due(29_999));
    assert!(sampler.slow_due(30_000));
    sampler.sample(&mut snapshot, Some(device(Some(false))), None, WeatherUpdate::Off, 3000);
    assert_eq!(snapshot.state.cpu, Some(Reading::Value(2500)));
    assert_eq!(snapshot.state.battery.unwrap().charging, true);
    assert_eq!(snapshot.state.audio_playing, Some(false));
    assert_eq!(snapshot.samples, 2);
}

#[test]
fn playback_is_held_for_six_seconds() {
    let mut sampler = Sampler::new();
    let mut snapshot = SensorSnapshot::default();
    sampler.sample(&mut snapshot, Some(device(Some(true))), None, WeatherUpdate::Off, 1000);
    assert_eq!(snapshot.state.audio_playing, Some(true));
    sampler.sample(&mut snapshot, Some(device(Some(false))), None, WeatherUpdate::Off, 6999);
    assert_eq!(snapshot.state.audio_playing, Some(true));
    sampler.sample(&mut snapshot, Some(device(None)), None, WeatherUpdate::Off, 7000);
    assert_eq!(snapshot.state.audio_playing, None);
    sampler.sample(&mut snapshot, Some(device(Some(false))), None, WeatherUpdate::Off, 7001);
    assert_eq!(snapshot.state.audio_playing, Some(false));
}

#[test]
fn readings_off_clear_the_state() {
    let mut sampler = Sampler::new();
    let mut snapshot = SensorSnapshot::default();
    sampler.sample(&mut snapshot, Some(device(Some(true))), Some(slow()), WeatherUpdate::Off, 0);
    assert!(snapshot.state.battery.is_some());
    sampler.sample(&mut snapshot, None, Some(slow()), WeatherUpdate::Off, 10);
    assert_eq!(snapshot.state.battery, None);
    assert_eq!(snapshot.state.cpu, None);
    assert_eq!(snapshot.state.connected, None);
    assert_eq!(snapshot.state.hour, 12);
    assert_eq!(snapshot.note, "Device readings paused");
    assert_eq!(sampler.audio_until, None);
}

#[test]
fn weather_status_names_city_and_condition_and_failures_clear_it() {
    let mut sampler = Sampler::new();
    let mut snapshot = SensorSnapshot::default();
    assert!(sampler.weather_due(0));
    let fetched = WeatherUpdate::Fetched {
        name: "Lisbon".into(),
        country: "Portugal".into(),
        condition: Some(Weather::Rain),
    };
    sampler.sample(&mut snapshot, Some(device(None)), None, fetched, 0);
    assert_eq!(snapshot.state.weather, Some(Weather::Rain));
    assert_eq!(snapshot.weather_status, "Lisbon, Portugal · Rain");
    assert!(!sampler.weather_due(1_799_999));
    assert!(sampler.weather_due(1_800_000));
    sampler.sample(&mut snapshot, Some(device(None)), None, WeatherUpdate::NotDue, 5000);
    assert_eq!(snapshot.state.weather, Some(Weather::Rain));
    assert_eq!(snapshot.weather_status, "Lisbon, Portugal · Rain");
    let failed = WeatherUpdate::Fetched {
        name: "Lisbon".into(),
        country: "Portugal".into(),
        condition: None,
    };
    sampler.sample(&mut snapshot, Some(device(None)), None, failed, 1_800_000);
    assert_eq!(snapshot.state.weather, None);
    assert_eq!(snapshot.weather_status, "Weather unavailable. Retrying in 30 minutes.");
    assert_eq!(weather_name(Weather::Thunder), "Thunder");
}

#[test]
fn new_settings_refetch_weather_and_restart_readings() {
    let mut sampler = Sampler::new();
    let mut snapshot = SensorSnapshot::default();
    let fetched = WeatherUpdate::Fetched {
        name: "Oslo".into(),
        country: "Norway".into(),
        condition: Some(Weather::Snow),
    };
    sampler.sample(&mut snapshot, Some(device(None)), Some(slow()), fetched, 0);
    assert!(!sampler.weather_due(10));
    sampler.reconfigure(true, false);
    assert!(sampler.weather_due(10));
    assert!(!sampler.slow_due(10));
    sampler.reconfigure(false, true);
    assert!(sampler.slow_due(10));
    sampler.sample(&mut snapshot, Some(device(None)), None, WeatherUpdate::Off, 20);
    assert_eq!(snapshot.state.cpu, None);
}

#[test]
fn connection_needs_a_usable_interface() {
    let lo = InterfaceState {
        up: true,
        running: true,
        loopback: true,
        has_address: true,
    };
    let wifi = InterfaceState {
        up: true,
        running: true,
        loopback: false,
        has_address: true,
    };
    let down = InterfaceState {
        up: false,
        ..wifi
    };
    assert_eq!(connection_state(&[]), None);
    assert_eq!(connection_state(&[lo, down]), Some(false));
    assert_eq!(connection_state(&[lo, down, wifi]), Some(true));
    assert_eq!(memory_percent(1, 3), Some(Reading::Between(3333)));
    assert_eq!(memory_percent(85_004, 100_000), Some(Reading::Between(8500)));
    assert_eq!(memory_percent(17, 20), Some(Reading::Value(8500)));
    assert_eq!(memory_percent(8, 8), Some(Reading::Value(10000)));
    assert_eq!(memory_percent(5, 0), None);
}

#[test]
fn weather_outlives_switching_readings_off() {
    let mut sampler = Sampler::new();
    let mut snapshot = SensorSnapshot::default();
    let fetched = WeatherUpdate::Fetched {
        name: "Bergen".into(),
        country: "Norway".into(),
        condition: Some(Weather::Rain),
    };
    sampler.sample(&mut snapshot, Some(device(None)), None, fetched, 0);
    sampler.sample(&mut snapshot, None, None, WeatherUpdate::NotDue, 3000);
    assert_eq!(snapshot.state.weather, Some(Weather::Rain));
    assert_eq!(snapshot.state.cpu, None);
    assert_eq!(snapshot.weather_status, "Bergen, Norway · Rain");
    sampler.sample(&mut snapshot, None, None, WeatherUpdate::Off, 6000);
    assert_eq!(snapshot.state.weather, None);
}
