//! The request that asks the weather service about one place.

use vstd::prelude::*;
use vstd::string::*;

verus! {

/// A place to look up: a city and the ISO code of its country, as typed.
#[derive(Clone, Debug, PartialEq, Eq)]
pub struct Query {
    pub city: String,
    pub country_code: String,
}

/// A query as the specifications see it.
pub struct QueryView {
    pub city: Seq<char>,
    pub country_code: Seq<char>,
}

impl View for Query {
    type V = QueryView;

    open spec fn view(&self) -> QueryView {
        QueryView { city: self.city@, country_code: self.country_code@ }
    }
}

/// The address that asks for the current weather of a place in metric
/// units: the city and the country code separated by a comma, then the
/// units, then the key.
pub open spec fn request_url_text(
    city: Seq<char>,
    country_code: Seq<char>,
    api_key: Seq<char>,
) -> Seq<char> {
    "https://api.openweathermap.org/data/2.5/weather?q="@ + city + ","@ + country_code
        + "&units=metric&appid="@ + api_key
}

/// The address to fetch for a city, a country code and the service key. The
/// three are put in as they are given.
pub fn request_url(city: &str, country_code: &str, api_key: &str) -> (url: String)
    ensures
        url@ == request_url_text(city@, country_code@, api_key@),
{
    let mut url = String::from_str("https://api.openweathermap.org/data/2.5/weather?q=");
    url.append(city);
    url.append(",");
    url.append(country_code);
    url.append("&units=metric&appid=");
    url.append(api_key);
    url
}

impl Query {
    /// A second copy of the query.
    pub fn duplicate(&self) -> (q: Query)
        ensures
            q@ == self@,
    {
        Query { city: self.city.clone(), country_code: self.country_code.clone() }
    }

    /// The address to fetch for this query with the service key.
    pub fn url(&self, api_key: &str) -> (url: String)
        ensures
            url@ == request_url_text(self@.city, self@.country_code, api_key@),
    {
        request_url(self.city.as_str(), self.country_code.as_str(), api_key)
    }
}

} // verus!
