use weather_station::bucket::ColorClass;
use weather_station::observation::WeatherObservation;
use weather_station::reading::Reading;
use weather_station::render::{display_weather_info, render};
use weather_station::style::paint;
use weather_station::session::{banner_shown, Action, Prompt, State};

fn reading(x: f64) -> Reading {
    Reading::from_bits(x.to_bits())
}

fn observation(condition: &str) -> WeatherObservation {
    WeatherObservation {
        location_name: "London".to_string(),
        condition: condition.to_string(),
        temperature: reading(22.5),
        humidity: reading(60.0),
        pressure: reading(1012.0),
        wind_speed: reading(3.4),
    }
}

#[test]
fn paint_with_colours_on() {
    colored::control::set_override(true);
    assert_eq!(paint("sun", ColorClass::Yellow), "\u{1b}[93msun\u{1b}[0m");
    assert_eq!(paint("sun", ColorClass::Blue), "\u{1b}[94msun\u{1b}[0m");
    assert_eq!(paint("sun", ColorClass::Dim), "\u{1b}[2msun\u{1b}[0m");
    assert_eq!(paint("sun", ColorClass::Cyan), "\u{1b}[96msun\u{1b}[0m");
    assert_eq!(paint("sun", ColorClass::Default), "sun");
    assert_eq!(paint("", ColorClass::Cyan), "\u{1b}[96m\u{1b}[0m");
    assert_eq!(paint("", ColorClass::Default), "");
}

#[test]
fn paint_keeps_the_colour_behind_a_reset_in_the_text() {
    colored::control::set_override(true);
    assert_eq!(
        paint("a\u{1b}[0mb", ColorClass::Yellow),
        "\u{1b}[93ma\u{1b}[0m\u{1b}[93mb\u{1b}[0m"
    );
    assert_eq!(
        paint("\u{1b}[0m\u{1b}[0m", ColorClass::Dim),
        "\u{1b}[2m\u{1b}[0m\u{1b}[2m\u{1b}[0m\u{1b}[2m\u{1b}[0m"
    );
    assert_eq!(
        paint("x\u{1b}[0m", ColorClass::Blue),
        "\u{1b}[94mx\u{1b}[0m\u{1b}[94m\u{1b}[0m"
    );
    assert_eq!(paint("\u{1b}[0", ColorClass::Cyan), "\u{1b}[96m\u{1b}[0\u{1b}[0m");
    assert_eq!(paint("\u{1b}[1m!", ColorClass::Cyan), "\u{1b}[96m\u{1b}[1m!\u{1b}[0m");
    assert_eq!(paint("a\u{1b}[0mb", ColorClass::Default), "a\u{1b}[0mb");
}

#[test]
fn paint_counts_characters_not_bytes() {
    colored::control::set_override(true);
    assert_eq!(
        paint("\u{e9}\u{1b}[0m\u{1f525}\u{1b}[0m\u{b0}", ColorClass::Cyan),
        "\u{1b}[96m\u{e9}\u{1b}[0m\u{1b}[96m\u{1f525}\u{1b}[0m\u{1b}[96m\u{b0}\u{1b}[0m"
    );
    assert_eq!(paint("\u{2744}\u{fe0f}", ColorClass::Dim), "\u{1b}[2m\u{2744}\u{fe0f}\u{1b}[0m");
}

#[test]
fn report_in_the_colour_of_its_condition() {
    colored::control::set_override(true);
    for (condition, code) in [
        ("clear sky", "93"),
        ("broken clouds", "94"),
        ("fog", "2"),
        ("thunderstorm", "96"),
    ] {
        let o = observation(condition);
        assert_eq!(
            display_weather_info(&o),
            format!("\u{1b}[{}m{}\u{1b}[0m", code, render(&o))
        );
    }
    let o = observation("drizzle");
    assert_eq!(display_weather_info(&o), render(&o));
}

#[test]
fn london_is_shown_bright_yellow() {
    colored::control::set_override(true);
    let shown = display_weather_info(&observation("clear sky"));
    assert_eq!(
        shown,
        "\u{1b}[93mWeather in London: clear sky \u{1f324}\u{fe0f}\n        > Temperature: 22.5 \u{b0}C,\n        > Humidity: 60.0 %,\n        > Pressure: 1012.0 hPa,\n        > Wind Speed: 3.4 m/s\u{1b}[0m"
    );
    let state = State::Displaying { observation: observation("clear sky") };
    assert_eq!(state.action(), Action::Write(shown));
}

#[test]
fn questions_and_greeting_in_their_colours() {
    colored::control::set_override(true);
    assert_eq!(banner_shown(), "\u{1b}[93mWelcome to Weather Station!\u{1b}[0m");
    assert_eq!(Prompt::City.shown(), "\u{1b}[92mPlease enter the name of the city:\u{1b}[0m");
    assert_eq!(Prompt::Country.shown(), "\u{1b}[102mPlease enter the country:\u{1b}[0m");
    assert_eq!(
        Prompt::Continue.shown(),
        "Do you want to search for weather in another city? (yes/no):"
    );
}
