//! The two display categories of an observation: the picture chosen by the
//! temperature and the colour chosen by the condition.

use vstd::prelude::*;
use vstd::arithmetic::power2::lemma_pow2_pos;
use crate::reading::{unit, Reading};
use crate::text::same_text;

verus! {

/// The temperature ranges that get a picture of their own.
#[derive(Clone, Copy, Debug, PartialEq, Eq, Structural)]
pub enum TemperatureEmoji {
    /// Below 0 degrees Celsius.
    Freezing,
    /// From 0 up to, not including, 10.
    Cold,
    /// From 10 up to, not including, 20.
    Cool,
    /// From 20 up to, not including, 30.
    Mild,
    /// 30 and above.
    Hot,
}

/// The colour in which a weather report is shown.
#[derive(Clone, Copy, Debug, PartialEq, Eq, Structural)]
pub enum ColorClass {
    Yellow,
    Blue,
    Dim,
    Cyan,
    /// No styling at all.
    Default,
}

/// The range a temperature falls in. Each range includes its lower bound and
/// excludes its upper bound. A NaN is below nothing and lands in `Hot`.
pub open spec fn temp_emoji_of(temperature: Reading) -> TemperatureEmoji {
    if temperature.below(0) {
        TemperatureEmoji::Freezing
    } else if temperature.below(10) {
        TemperatureEmoji::Cold
    } else if temperature.below(20) {
        TemperatureEmoji::Cool
    } else if temperature.below(30) {
        TemperatureEmoji::Mild
    } else {
        TemperatureEmoji::Hot
    }
}

/// The colour of a condition. Only these sixteen descriptions, letter for
/// letter, have one.
pub open spec fn color_class_of(condition: Seq<char>) -> ColorClass {
    if condition == "clear sky"@ {
        ColorClass::Yellow
    } else if condition == "clouds"@
        || condition == "scatter clouds"@
        || condition == "broken clouds"@
    {
        ColorClass::Blue
    } else if condition == "overcast clouds"@
        || condition == "mist"@
        || condition == "haze"@
        || condition == "smoke"@
        || condition == "sand"@
        || condition == "dust"@
        || condition == "fog"@
        || condition == "squalls"@
    {
        ColorClass::Dim
    } else if condition == "shower rain"@
        || condition == "rain"@
        || condition == "thunderstorm"@
        || condition == "snow"@
    {
        ColorClass::Cyan
    } else {
        ColorClass::Default
    }
}

impl TemperatureEmoji {
    /// The characters of the picture.
    pub open spec fn glyph_text(self) -> Seq<char> {
        match self {
            TemperatureEmoji::Freezing => "\u{2744}\u{fe0f}"@,
            TemperatureEmoji::Cold => "\u{2601}\u{fe0f}"@,
            TemperatureEmoji::Cool => "\u{1f325}\u{fe0f}"@,
            TemperatureEmoji::Mild => "\u{1f324}\u{fe0f}"@,
            TemperatureEmoji::Hot => "\u{1f525}"@,
        }
    }

    /// The picture: a snowflake, a cloud, a sun behind a large cloud, a sun
    /// behind a small cloud, or a fire.
    pub fn glyph(&self) -> (s: &'static str)
        ensures
            s@ == self.glyph_text(),
    {
        match self {
            TemperatureEmoji::Freezing => "\u{2744}\u{fe0f}",
            TemperatureEmoji::Cold => "\u{2601}\u{fe0f}",
            TemperatureEmoji::Cool => "\u{1f325}\u{fe0f}",
            TemperatureEmoji::Mild => "\u{1f324}\u{fe0f}",
            TemperatureEmoji::Hot => "\u{1f525}",
        }
    }
}

/// The picture for a temperature in degrees Celsius.
pub fn get_temp_emoji(temperature: Reading) -> (emoji: TemperatureEmoji)
    ensures
        emoji == temp_emoji_of(temperature),
{
    if temperature.less_than(0) {
        TemperatureEmoji::Freezing
    } else if temperature.less_than(10) {
        TemperatureEmoji::Cold
    } else if temperature.less_than(20) {
        TemperatureEmoji::Cool
    } else if temperature.less_than(30) {
        TemperatureEmoji::Mild
    } else {
        TemperatureEmoji::Hot
    }
}

/// The colour for a condition as the service words it.
pub fn color_class(condition: &str) -> (class: ColorClass)
    ensures
        class == color_class_of(condition@),
{
    if same_text(condition, "clear sky") {
        ColorClass::Yellow
    } else if same_text(condition, "clouds")
        || same_text(condition, "scatter clouds")
        || same_text(condition, "broken clouds")
    {
        ColorClass::Blue
    } else if same_text(condition, "overcast clouds")
        || same_text(condition, "mist")
        || same_text(condition, "haze")
        || same_text(condition, "smoke")
        || same_text(condition, "sand")
        || same_text(condition, "dust")
        || same_text(condition, "fog")
        || same_text(condition, "squalls")
    {
        ColorClass::Dim
    } else if same_text(condition, "shower rain")
        || same_text(condition, "rain")
        || same_text(condition, "thunderstorm")
        || same_text(condition, "snow")
    {
        ColorClass::Cyan
    } else {
        ColorClass::Default
    }
}

/// The pictures divide the temperatures at 0, 10, 20 and 30 degrees. Each
/// range holds its lower bound and not its upper one, and every temperature
/// lies in exactly one of them. A reading that is no number gets the picture
/// of the highest range.
pub proof fn lemma_temperature_ranges(t: Reading)
    ensures
        t.is_nan() ==> temp_emoji_of(t) == TemperatureEmoji::Hot,
        !t.is_nan() ==> (temp_emoji_of(t) == TemperatureEmoji::Freezing <==> t.units() < 0),
        !t.is_nan() ==> (temp_emoji_of(t) == TemperatureEmoji::Cold <==> 0 <= t.units() < 10
            * unit()),
        !t.is_nan() ==> (temp_emoji_of(t) == TemperatureEmoji::Cool <==> 10 * unit() <= t.units()
            < 20 * unit()),
        !t.is_nan() ==> (temp_emoji_of(t) == TemperatureEmoji::Mild <==> 20 * unit() <= t.units()
            < 30 * unit()),
        !t.is_nan() ==> (temp_emoji_of(t) == TemperatureEmoji::Hot <==> 30 * unit() <= t.units()),
{
    lemma_pow2_pos(1074);
}

/// The condition is one of the sixteen that have a colour.
pub open spec fn listed_condition(condition: Seq<char>) -> bool {
    ||| condition == "clear sky"@
    ||| condition == "clouds"@
    ||| condition == "scatter clouds"@
    ||| condition == "broken clouds"@
    ||| condition == "overcast clouds"@
    ||| condition == "mist"@
    ||| condition == "haze"@
    ||| condition == "smoke"@
    ||| condition == "sand"@
    ||| condition == "dust"@
    ||| condition == "fog"@
    ||| condition == "squalls"@
    ||| condition == "shower rain"@
    ||| condition == "rain"@
    ||| condition == "thunderstorm"@
    ||| condition == "snow"@
}

/// A condition has the default colour class exactly when it is none of the
/// listed ones.
pub proof fn lemma_default_iff_unlisted(condition: Seq<char>)
    ensures
        color_class_of(condition) == ColorClass::Default <==> !listed_condition(condition),
{
}

} // verus!
