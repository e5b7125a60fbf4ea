use weather_station::observation::{
    error_line, fetch_outcome, FetchError, Main, Weather, WeatherObservation, WeatherResponse,
    Wind,
};
use weather_station::reading::Reading;

fn reading(x: f64) -> Reading {
    Reading::from_bits(x.to_bits())
}

fn response(conditions: &[&str]) -> WeatherResponse {
    WeatherResponse {
        weather: conditions.iter().map(|c| Weather { description: c.to_string() }).collect(),
        main: Main { temp: reading(22.5), humidity: reading(60.0), pressure: reading(1012.0) },
        wind: Wind { speed: reading(3.4) },
        name: "London".to_string(),
    }
}

fn london(condition: &str) -> WeatherObservation {
    WeatherObservation {
        location_name: "London".to_string(),
        condition: condition.to_string(),
        temperature: reading(22.5),
        humidity: reading(60.0),
        pressure: reading(1012.0),
        wind_speed: reading(3.4),
    }
}

#[test]
fn empty_condition_list_is_a_decode_error() {
    let r = response(&[]).into_observation();
    assert_eq!(
        r,
        Err(FetchError::Decode { cause: "the service reported no weather condition".to_string() })
    );
    let e = r.unwrap_err();
    assert!(e.is_decode());
    assert_eq!(e.message(), "the service reported no weather condition");
}

#[test]
fn one_condition_gives_the_observation() {
    assert_eq!(response(&["clear sky"]).into_observation(), Ok(london("clear sky")));
}

#[test]
fn the_first_of_several_conditions_counts() {
    assert_eq!(response(&["mist", "rain", "snow"]).into_observation(), Ok(london("mist")));
    assert_eq!(response(&["rain", "mist"]).into_observation(), Ok(london("rain")));
}

#[test]
fn an_empty_description_is_still_a_condition() {
    assert_eq!(response(&[""]).into_observation(), Ok(london("")));
}

#[test]
fn fetch_outcome_keeps_a_transport_failure() {
    let e = FetchError::Transport { cause: "operation timed out".to_string() };
    assert_eq!(fetch_outcome(Err(e.clone())), Err(e));
    let d = FetchError::Decode { cause: "missing field `main`".to_string() };
    assert_eq!(fetch_outcome(Err(d.clone())), Err(d));
}

#[test]
fn fetch_outcome_checks_the_answer() {
    assert_eq!(fetch_outcome(Ok(response(&["haze"]))), Ok(london("haze")));
    let r = fetch_outcome(Ok(response(&[])));
    assert!(matches!(r, Err(FetchError::Decode { .. })));
}

#[test]
fn error_line_names_the_cause() {
    let e = FetchError::Transport { cause: "operation timed out".to_string() };
    assert_eq!(error_line(&e), "Error fetching weather data: operation timed out");
    assert!(!e.is_decode());
    let d = FetchError::Decode { cause: "expected value at line 1 column 1".to_string() };
    assert_eq!(error_line(&d), "Error fetching weather data: expected value at line 1 column 1");
    assert_eq!(d.message(), "expected value at line 1 column 1");
}
