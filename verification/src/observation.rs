//! What the weather service answers, and the observation taken from it.

use vstd::prelude::*;
use vstd::string::*;
use crate::reading::Reading;

verus! {

/// One entry of the answer's list of conditions.
#[derive(Clone, Debug, PartialEq, Eq)]
pub struct Weather {
    pub description: String,
}

/// The main measurements of the answer.
#[derive(Clone, Copy, Debug, PartialEq, Eq)]
pub struct Main {
    pub temp: Reading,
    pub humidity: Reading,
    pub pressure: Reading,
}

/// The wind of the answer.
#[derive(Clone, Copy, Debug, PartialEq, Eq)]
pub struct Wind {
    pub speed: Reading,
}

/// The answer of the weather service, decoded: as many conditions as it
/// sent, the measurements, and the name of the place.
#[derive(Clone, Debug, PartialEq, Eq)]
pub struct WeatherResponse {
    pub weather: Vec<Weather>,
    pub main: Main,
    pub wind: Wind,
    pub name: String,
}

/// One weather reading for a place: the first condition of the answer and
/// its measurements.
#[derive(Clone, Debug, PartialEq, Eq)]
pub struct WeatherObservation {
    pub location_name: String,
    pub condition: String,
    pub temperature: Reading,
    pub humidity: Reading,
    pub pressure: Reading,
    pub wind_speed: Reading,
}

/// An observation as the specifications see it.
pub struct ObservationView {
    pub location_name: Seq<char>,
    pub condition: Seq<char>,
    pub temperature: Reading,
    pub humidity: Reading,
    pub pressure: Reading,
    pub wind_speed: Reading,
}

impl View for WeatherObservation {
    type V = ObservationView;

    open spec fn view(&self) -> ObservationView {
        ObservationView {
            location_name: self.location_name@,
            condition: self.condition@,
            temperature: self.temperature,
            humidity: self.humidity,
            pressure: self.pressure,
            wind_speed: self.wind_speed,
        }
    }
}

/// Why a lookup gave no observation.
#[derive(Clone, Debug, PartialEq, Eq)]
pub enum FetchError {
    /// The service could not be reached, or it refused the request.
    Transport { cause: String },
    /// The service answered, but not with a usable weather report.
    Decode { cause: String },
}

/// A lookup failure as the specifications see it.
pub enum FetchErrorView {
    Transport { cause: Seq<char> },
    Decode { cause: Seq<char> },
}

impl View for FetchError {
    type V = FetchErrorView;

    open spec fn view(&self) -> FetchErrorView {
        match self {
            FetchError::Transport { cause } => FetchErrorView::Transport { cause: cause@ },
            FetchError::Decode { cause } => FetchErrorView::Decode { cause: cause@ },
        }
    }
}

impl FetchErrorView {
    /// The cause, whatever the kind of failure.
    pub open spec fn cause(self) -> Seq<char> {
        match self {
            FetchErrorView::Transport { cause } => cause,
            FetchErrorView::Decode { cause } => cause,
        }
    }
}

/// What is said of an answer that lists no condition.
pub open spec fn no_condition_cause() -> Seq<char> {
    "the service reported no weather condition"@
}

/// The line that reports a failed lookup.
pub open spec fn error_line_text(e: FetchErrorView) -> Seq<char> {
    "Error fetching weather data: "@ + e.cause()
}

/// The outcome of a lookup as the specifications see it.
pub open spec fn outcome_view(r: Result<WeatherObservation, FetchError>) -> Result<
    ObservationView,
    FetchErrorView,
> {
    match r {
        Ok(o) => Ok(o@),
        Err(e) => Err(e@),
    }
}

impl WeatherResponse {
    /// The observation in an answer: its first condition with the
    /// measurements, or a decoding failure if it lists no condition.
    pub open spec fn observed(self) -> Result<ObservationView, FetchErrorView> {
        if self.weather@.len() == 0 {
            Err(FetchErrorView::Decode { cause: no_condition_cause() })
        } else {
            Ok(
                ObservationView {
                    location_name: self.name@,
                    condition: self.weather@[0].description@,
                    temperature: self.main.temp,
                    humidity: self.main.humidity,
                    pressure: self.main.pressure,
                    wind_speed: self.wind.speed,
                },
            )
        }
    }

    /// Takes the observation out of an answer. An answer without any
    /// condition is a decoding failure.
    pub fn into_observation(self) -> (r: Result<WeatherObservation, FetchError>)
        ensures
            outcome_view(r) == self.observed(),
            r is Ok <==> self.weather@.len() > 0,
            r is Err ==> r->Err_0@ is Decode,
    {
        let mut conditions = self.weather;
        if conditions.len() == 0 {
            Err(
                FetchError::Decode {
                    cause: String::from_str("the service reported no weather condition"),
                },
            )
        } else {
            let first = conditions.swap_remove(0);
            Ok(
                WeatherObservation {
                    location_name: self.name,
                    condition: first.description,
                    temperature: self.main.temp,
                    humidity: self.main.humidity,
                    pressure: self.main.pressure,
                    wind_speed: self.wind.speed,
                },
            )
        }
    }
}

/// The outcome of a lookup, from what the transport handed back.
pub open spec fn fetch_outcome_of(
    answer: Result<WeatherResponse, FetchError>,
) -> Result<ObservationView, FetchErrorView> {
    match answer {
        Ok(response) => response.observed(),
        Err(e) => Err(e@),
    }
}

/// Turns what the transport handed back into the outcome of the lookup: a
/// failure stays as it is, an answer gives its observation or fails to
/// decode.
pub fn fetch_outcome(answer: Result<WeatherResponse, FetchError>) -> (r: Result<
    WeatherObservation,
    FetchError,
>)
    ensures
        outcome_view(r) == fetch_outcome_of(answer),
{
    match answer {
        Ok(response) => response.into_observation(),
        Err(e) => Err(e),
    }
}

impl FetchError {
    /// The cause of the failure, in words.
    pub fn message(&self) -> (s: String)
        ensures
            s@ == self@.cause(),
    {
        match self {
            FetchError::Transport { cause } => cause.clone(),
            FetchError::Decode { cause } => cause.clone(),
        }
    }

    /// Whether the failure lies in the answer, not in reaching the service.
    pub fn is_decode(&self) -> (r: bool)
        ensures
            r == (self@ is Decode),
    {
        match self {
            FetchError::Transport { .. } => false,
            FetchError::Decode { .. } => true,
        }
    }
}

/// The line that reports a failed lookup to the user.
pub fn error_line(e: &FetchError) -> (s: String)
    ensures
        s@ == error_line_text(e@),
{
    let mut s = String::from_str("Error fetching weather data: ");
    let cause = e.message();
    s.append(cause.as_str());
    s
}

/// An answer that lists no condition never gives an observation: whatever
/// else it holds, the lookup ends in a decoding failure.
pub proof fn lemma_no_condition_is_decode_failure(response: WeatherResponse)
    requires
        response.weather@.len() == 0,
    ensures
        response.observed() == Err::<ObservationView, FetchErrorView>(
            FetchErrorView::Decode { cause: no_condition_cause() },
        ),
        fetch_outcome_of(Ok(response)) is Err,
{
}

/// A failure of the transport is the outcome of the lookup as it stands.
pub proof fn lemma_transport_failure_stays(e: FetchError)
    ensures
        fetch_outcome_of(Err(e)) == Err::<ObservationView, FetchErrorView>(e@),
{
}

} // verus!
