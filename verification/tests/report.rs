use weather_station::bucket::{ColorClass, TemperatureEmoji};
use weather_station::observation::WeatherObservation;
use weather_station::reading::Reading;
use weather_station::render::{display_bucket, display_weather_info, render, DisplayBucket};

fn reading(x: f64) -> Reading {
    Reading::from_bits(x.to_bits())
}

fn observation(name: &str, condition: &str, t: f64, h: f64, p: f64, w: f64) -> WeatherObservation {
    WeatherObservation {
        location_name: name.to_string(),
        condition: condition.to_string(),
        temperature: reading(t),
        humidity: reading(h),
        pressure: reading(p),
        wind_speed: reading(w),
    }
}

fn template(name: &str, condition: &str, emoji: &str, t: f64, h: f64, p: f64, w: f64) -> String {
    format!(
        "Weather in {}: {} {}\n        > Temperature: {:.1} \u{b0}C,\n        > Humidity: {:.1} %,\n        > Pressure: {:.1} hPa,\n        > Wind Speed: {:.1} m/s",
        name, condition, emoji, t, h, p, w
    )
}

#[test]
fn report_for_london() {
    let o = observation("London", "clear sky", 22.5, 60.0, 1012.0, 3.4);
    let expected = "Weather in London: clear sky \u{1f324}\u{fe0f}\n        > Temperature: 22.5 \u{b0}C,\n        > Humidity: 60.0 %,\n        > Pressure: 1012.0 hPa,\n        > Wind Speed: 3.4 m/s";
    assert_eq!(render(&o), expected);
    assert_eq!(
        display_bucket(&o),
        DisplayBucket { color_class: ColorClass::Yellow, temperature_emoji: TemperatureEmoji::Mild }
    );
    assert!(render(&o).starts_with("Weather in London: clear sky \u{1f324}\u{fe0f}\n"));
}

#[test]
fn report_has_five_lines_in_fixed_order() {
    let text = render(&observation("Oslo", "snow", -3.26, 81.0, 998.4, 12.05));
    let lines: Vec<&str> = text.split('\n').collect();
    assert_eq!(lines.len(), 5);
    assert_eq!(lines[0], "Weather in Oslo: snow \u{2744}\u{fe0f}");
    assert_eq!(lines[1], "        > Temperature: -3.3 \u{b0}C,");
    assert_eq!(lines[2], "        > Humidity: 81.0 %,");
    assert_eq!(lines[3], "        > Pressure: 998.4 hPa,");
    assert_eq!(lines[4], "        > Wind Speed: 12.1 m/s");
}

#[test]
fn report_follows_the_template() {
    let cases = [
        ("Cairo", "sand", "\u{1f525}", 41.27, 9.0, 1003.0, 7.77),
        ("Lima", "mist", "\u{1f325}\u{fe0f}", 17.95, 93.0, 1015.0, 2.06),
        ("Nuuk", "light snow", "\u{2744}\u{fe0f}", -12.04, 70.5, 1021.25, 0.0),
        ("", "", "\u{2601}\u{fe0f}", 0.0, 0.0, 0.0, 0.0),
        ("Rome", "few clouds", "\u{1f324}\u{fe0f}", 29.96, 45.0, 1009.0, 4.12),
    ];
    for (name, condition, emoji, t, h, p, w) in cases {
        let o = observation(name, condition, t, h, p, w);
        assert_eq!(render(&o), template(name, condition, emoji, t, h, p, w));
    }
}

#[test]
fn report_is_the_same_for_the_same_observation() {
    let a = observation("Quito", "rain", 13.4, 88.0, 1027.0, 1.5);
    let b = observation("Quito", "rain", 13.4, 88.0, 1027.0, 1.5);
    assert_eq!(render(&a), render(&b));
    assert_eq!(render(&a), render(&a.clone()));
    assert_eq!(display_bucket(&a), display_bucket(&b));
}

#[test]
fn bucket_of_thunderstorm_below_zero() {
    let o = observation("Tromso", "thunderstorm", -5.0, 80.0, 990.0, 9.0);
    assert_eq!(
        display_bucket(&o),
        DisplayBucket {
            color_class: ColorClass::Cyan,
            temperature_emoji: TemperatureEmoji::Freezing
        }
    );
}

#[test]
fn shown_report_is_the_plain_one_or_the_coloured_one() {
    let o = observation("London", "clear sky", 22.5, 60.0, 1012.0, 3.4);
    let plain = render(&o);
    let shown = display_weather_info(&o);
    assert!(shown == plain || shown == format!("\u{1b}[93m{}\u{1b}[0m", plain));
}

#[test]
fn unknown_condition_is_never_coloured() {
    let o = observation("London", "volcanic ash", 22.5, 60.0, 1012.0, 3.4);
    assert_eq!(display_weather_info(&o), render(&o));
}
