use scopobot::reading::Reading;
use scopobot::settings::settled_scale;
use scopobot::state::Weather;
use scopobot::weather::{check_coordinates, check_query, condition, trimmed_len, WeatherError};

#[test]
fn city_search_needs_two_letters() {
    assert_eq!(check_query("  a \t"), Err(WeatherError::QueryTooShort));
    assert_eq!(check_query(""), Err(WeatherError::QueryTooShort));
    assert_eq!(check_query(" Rome "), Ok(()));
    assert_eq!(check_query("\u{3000}Ué"), Ok(()));
    assert_eq!(trimmed_len("  Oslo\n"), 4);
}

#[test]
fn coordinates_must_be_on_the_globe() {
    assert_eq!(check_coordinates(Reading::Value(-9000), Reading::Value(18000)), Ok(()));
    assert_eq!(
        check_coordinates(Reading::Value(9001), Reading::Value(0)),
        Err(WeatherError::InvalidCoordinates)
    );
    assert_eq!(
        check_coordinates(Reading::Value(0), Reading::Value(-18001)),
        Err(WeatherError::InvalidCoordinates)
    );
    assert_eq!(
        check_coordinates(Reading::NotANumber, Reading::Value(0)),
        Err(WeatherError::InvalidCoordinates)
    );
}

#[test]
fn weather_codes_and_temperatures_map_to_conditions() {
    assert_eq!(condition(Some(95), None), Ok(Weather::Thunder));
    assert_eq!(condition(Some(73), None), Ok(Weather::Snow));
    assert_eq!(condition(Some(86), None), Ok(Weather::Snow));
    assert_eq!(condition(Some(61), Some(Reading::Value(4000))), Ok(Weather::Rain));
    assert_eq!(condition(Some(81), None), Ok(Weather::Rain));
    assert_eq!(condition(Some(2), None), Ok(Weather::Cloudy));
    assert_eq!(condition(Some(45), None), Ok(Weather::Cloudy));
    assert_eq!(condition(Some(0), Some(Reading::Value(3001))), Ok(Weather::Hot));
    assert_eq!(condition(Some(0), Some(Reading::Value(3000))), Ok(Weather::Clear));
    assert_eq!(condition(Some(0), Some(Reading::Value(499))), Ok(Weather::Cold));
    assert_eq!(condition(Some(0), Some(Reading::Value(500))), Ok(Weather::Clear));
    assert_eq!(condition(Some(0), None), Ok(Weather::Clear));
    assert_eq!(condition(None, Some(Reading::Value(3500))), Err(WeatherError::NoCondition));
}

#[test]
fn saved_scale_is_settled() {
    assert_eq!(settled_scale(5, false), 5);
    assert_eq!(settled_scale(1, false), 2);
    assert_eq!(settled_scale(12, false), 8);
    assert_eq!(settled_scale(6, true), 2);
}
