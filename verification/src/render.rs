//! The text shown for an observation.

use vstd::prelude::*;
use vstd::string::*;
use crate::bucket::{
    color_class, color_class_of, get_temp_emoji, lemma_default_iff_unlisted, listed_condition,
    temp_emoji_of, ColorClass, TemperatureEmoji,
};
use crate::style::{paint, shown_as};
use crate::decimal::{one_decimal, one_decimal_text};
use crate::observation::{ObservationView, WeatherObservation};

verus! {

/// The two categories that decide how an observation looks. Both are
/// computed from the observation whenever it is shown.
#[derive(Clone, Copy, Debug, PartialEq, Eq, Structural)]
pub struct DisplayBucket {
    pub color_class: ColorClass,
    pub temperature_emoji: TemperatureEmoji,
}

/// The categories of an observation: the colour of its condition and the
/// picture of its temperature.
pub open spec fn display_bucket_of(o: ObservationView) -> DisplayBucket {
    DisplayBucket {
        color_class: color_class_of(o.condition),
        temperature_emoji: temp_emoji_of(o.temperature),
    }
}

/// The categories of an observation.
pub fn display_bucket(observation: &WeatherObservation) -> (b: DisplayBucket)
    ensures
        b == display_bucket_of(observation@),
{
    DisplayBucket {
        color_class: color_class(observation.condition.as_str()),
        temperature_emoji: get_temp_emoji(observation.temperature),
    }
}

/// The report on an observation, uncoloured: a heading with the place, the
/// condition and the picture of the temperature, then temperature, humidity,
/// pressure and wind speed, each on an indented line of its own with one
/// digit after the point.
pub open spec fn weather_text(o: ObservationView) -> Seq<char> {
    "Weather in "@ + o.location_name + ": "@ + o.condition + " "@ + temp_emoji_of(
        o.temperature,
    ).glyph_text() + "\n        > Temperature: "@ + one_decimal_text(o.temperature)
        + " \u{b0}C,\n        > Humidity: "@ + one_decimal_text(o.humidity)
        + " %,\n        > Pressure: "@ + one_decimal_text(o.pressure)
        + " hPa,\n        > Wind Speed: "@ + one_decimal_text(o.wind_speed) + " m/s"@
}

/// The uncoloured report on an observation.
pub fn render(observation: &WeatherObservation) -> (text: String)
    ensures
        text@ == weather_text(observation@),
{
    let emoji = get_temp_emoji(observation.temperature);
    let temperature = one_decimal(observation.temperature);
    let humidity = one_decimal(observation.humidity);
    let pressure = one_decimal(observation.pressure);
    let wind_speed = one_decimal(observation.wind_speed);
    let mut text = String::from_str("Weather in ");
    text.append(observation.location_name.as_str());
    text.append(": ");
    text.append(observation.condition.as_str());
    text.append(" ");
    text.append(emoji.glyph());
    text.append("\n        > Temperature: ");
    text.append(temperature.as_str());
    text.append(" \u{b0}C,\n        > Humidity: ");
    text.append(humidity.as_str());
    text.append(" %,\n        > Pressure: ");
    text.append(pressure.as_str());
    text.append(" hPa,\n        > Wind Speed: ");
    text.append(wind_speed.as_str());
    text.append(" m/s");
    text
}

/// The report on an observation as the terminal gets it: the uncoloured
/// report, in the colour of the observation's condition where the process
/// colours its output.
pub fn display_weather_info(observation: &WeatherObservation) -> (shown: String)
    ensures
        shown_as(shown@, weather_text(observation@), color_class_of(observation@.condition)),
{
    let text = render(observation);
    let class = color_class(observation.condition.as_str());
    paint(text.as_str(), class)
}

/// The report is a function of what the observation holds: two
/// observations with the same place, condition and measurements have the
/// same report.
pub proof fn lemma_render_deterministic(a: WeatherObservation, b: WeatherObservation)
    requires
        a@ == b@,
    ensures
        weather_text(a@) == weather_text(b@),
        display_bucket_of(a@) == display_bucket_of(b@),
{
}

/// An observation whose condition is not listed is shown as its uncoloured
/// report, whether the process colours its output or not.
pub proof fn lemma_unlisted_condition_is_plain(o: ObservationView, shown: Seq<char>)
    requires
        !listed_condition(o.condition),
        shown_as(shown, weather_text(o), color_class_of(o.condition)),
    ensures
        shown == weather_text(o),
{
    lemma_default_iff_unlisted(o.condition);
}

} // verus!
