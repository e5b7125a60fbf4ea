use weather_station::decimal::one_decimal;
use weather_station::reading::Reading;

fn shown(x: f64) -> String {
    one_decimal(Reading::from_bits(x.to_bits()))
}

#[test]
fn one_decimal_of_plain_values() {
    assert_eq!(shown(22.5), "22.5");
    assert_eq!(shown(60.0), "60.0");
    assert_eq!(shown(1012.0), "1012.0");
    assert_eq!(shown(3.4), "3.4");
    assert_eq!(shown(0.0), "0.0");
    assert_eq!(shown(-5.0), "-5.0");
    assert_eq!(shown(9.999), "10.0");
    assert_eq!(shown(-0.04), "-0.0");
}

#[test]
fn one_decimal_rounds_half_to_even() {
    assert_eq!(shown(0.25), "0.2");
    assert_eq!(shown(0.75), "0.8");
    assert_eq!(shown(1.25), "1.2");
    assert_eq!(shown(2.5), "2.5");
    assert_eq!(shown(0.35), "0.3");
    assert_eq!(shown(0.45), "0.5");
    assert_eq!(shown(0.05), "0.1");
    assert_eq!(shown(0.15), "0.1");
}

#[test]
fn one_decimal_of_what_is_no_number() {
    assert_eq!(shown(f64::NAN), "NaN");
    assert_eq!(shown(-f64::NAN), "NaN");
    assert_eq!(shown(f64::INFINITY), "inf");
    assert_eq!(shown(f64::NEG_INFINITY), "-inf");
    assert_eq!(shown(-0.0), "-0.0");
}

#[test]
fn one_decimal_agrees_with_std_at_the_edges() {
    let edges = [
        f64::MAX,
        f64::MIN,
        f64::MIN_POSITIVE,
        f64::EPSILON,
        5e-324,
        4503599627370496.0,
        9007199254740992.0,
        9007199254740993.0,
        1e15,
        1e16,
        1e22,
        1e23,
        1e300,
        0.049999999999999996,
        0.05,
        0.95,
        0.9500000000000001,
        99.95,
        99.94999999999999,
        1e-7,
    ];
    for x in edges {
        assert_eq!(shown(x), format!("{:.1}", x));
        assert_eq!(shown(-x), format!("{:.1}", -x));
    }
}

#[test]
fn one_decimal_agrees_with_std_on_many_bit_patterns() {
    let mut state: u64 = 0x9e3779b97f4a7c15;
    let mut n = 0;
    while n < 20000 {
        state ^= state << 13;
        state ^= state >> 7;
        state ^= state << 17;
        let x = f64::from_bits(state);
        assert_eq!(shown(x), format!("{:.1}", x));
        n += 1;
    }
}

#[test]
fn one_decimal_agrees_with_std_on_weather_like_values() {
    let mut i: i64 = -60000;
    while i <= 60000 {
        let x = (i as f64) / 1000.0;
        assert_eq!(shown(x), format!("{:.1}", x));
        let y = (i as f64) / 8.0;
        assert_eq!(shown(y), format!("{:.1}", y));
        i += 7;
    }
}
