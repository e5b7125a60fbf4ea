use weather_station::query::{request_url, Query};

#[test]
fn url_for_london() {
    assert_eq!(
        request_url("London", "GB", "k3y"),
        "https://api.openweathermap.org/data/2.5/weather?q=London,GB&units=metric&appid=k3y"
    );
}

#[test]
fn url_takes_the_inputs_as_they_are() {
    assert_eq!(
        request_url("", "", ""),
        "https://api.openweathermap.org/data/2.5/weather?q=,&units=metric&appid="
    );
    assert_eq!(
        request_url("New York", "us", "a&b"),
        "https://api.openweathermap.org/data/2.5/weather?q=New York,us&units=metric&appid=a&b"
    );
    assert_eq!(
        request_url("K\u{f8}benhavn", "DK", "x"),
        "https://api.openweathermap.org/data/2.5/weather?q=K\u{f8}benhavn,DK&units=metric&appid=x"
    );
}

#[test]
fn query_builds_the_same_url() {
    let q = Query { city: "Paris".to_string(), country_code: "FR".to_string() };
    assert_eq!(q.url("abc"), request_url("Paris", "FR", "abc"));
    assert_eq!(q.duplicate(), q);
}
