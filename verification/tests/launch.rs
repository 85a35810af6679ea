use scopobot::launch::{mode, LaunchError, Mode};

#[test]
fn modes_are_explicit_and_conflicts_fail() {
    let a = |values: &[&str]| values.iter().map(|s| s.to_string()).collect::<Vec<_>>();
    assert_eq!(mode(&a(&[])).unwrap(), Mode::Desktop);
    assert_eq!(mode(&a(&["--mode", "terminal"])).unwrap(), Mode::Terminal);
    assert_eq!(mode(&a(&["--terminal"])).unwrap(), Mode::Terminal);
    assert!(mode(&a(&["--mode", "desktop", "--terminal"])).is_err());
    assert!(mode(&a(&["--mode"])).is_err());
    assert!(mode(&a(&["--mode", "unknown"])).is_err());
}

#[test]
fn launch_errors_name_the_problem() {
    let a = |values: &[&str]| values.iter().map(|s| s.to_string()).collect::<Vec<_>>();
    assert_eq!(mode(&a(&["--plain"])), Ok(Mode::Terminal));
    assert_eq!(mode(&a(&["--mode", "desktop"])), Ok(Mode::Desktop));
    assert_eq!(mode(&a(&["--mode", "desktop", "--plain"])), Err(LaunchError::Conflict));
    assert_eq!(mode(&a(&["--lab", "--mode"])), Err(LaunchError::UnknownMode));
    assert_eq!(LaunchError::Conflict.message(), "Choose one mode: desktop or terminal");
    assert_eq!(LaunchError::UnknownMode.message(), "Use --mode desktop or --mode terminal");
}

#[test]
fn dialogue_cycles_through_the_topic_lines() {
    assert_eq!(scopobot::dialogue::line("hover", 0), "Oh, hello you!");
    assert_eq!(scopobot::dialogue::line("hover", 6), "Oh, hello you!");
    assert_eq!(scopobot::dialogue::line("wave", 1), "One tiny high five!");
    assert_eq!(scopobot::dialogue::line("click", 1), "One tiny high five!");
    assert_eq!(scopobot::dialogue::line("wifi_restored", 4), "Signal found. Tiny victory!");
    assert_eq!(scopobot::dialogue::line("something else", 7), "No rush. We can take our time.");
    assert_eq!(scopobot::dialogue::line("something else", 8), "Happy to keep you company.");
}

#[test]
fn more_than_fifty_different_lines() {
    let moods = [
        "hover", "click", "charging", "battery_low", "wifi_search", "wifi_restored",
        "memory_high", "cpu_high", "dance", "sleep", "celebrate", "walk", "curious", "idle",
    ];
    let mut seen = std::collections::HashSet::new();
    for mood in moods {
        for i in 0..8 {
            let text = scopobot::dialogue::line(mood, i);
            assert!(!text.is_empty());
            assert_ne!(text, scopobot::dialogue::line(mood, i + 1));
            seen.insert(text);
        }
    }
    assert_eq!(seen.len(), 62);
}
