//! The conversation with the user as a state machine: what to do in each
//! state, and which state follows when that has been done.
//!
//! The machine does no input or output itself. Its caller performs the
//! action of the current state and hands back what came of it as an event.

use vstd::prelude::*;
use vstd::string::*;
use crate::bucket::color_class_of;
use crate::observation::{
    error_line, error_line_text, fetch_outcome, fetch_outcome_of, FetchError, FetchErrorView,
    ObservationView, WeatherObservation, WeatherResponse,
};
use crate::query::{Query, QueryView};
use crate::render::{display_weather_info, weather_text};
use crate::style::{bright_green, bright_yellow, on_bright_green, shown_as, styled_or_plain};
use crate::text::{says_yes, trim, trimmed, wants_another};

verus! {

/// The questions put to the user.
#[derive(Clone, Copy, Debug, PartialEq, Eq, Structural)]
pub enum Prompt {
    City,
    Country,
    Continue,
}

impl Prompt {
    /// The wording of the question.
    pub open spec fn wording(self) -> Seq<char> {
        match self {
            Prompt::City => "Please enter the name of the city:"@,
            Prompt::Country => "Please enter the country:"@,
            Prompt::Continue => "Do you want to search for weather in another city? (yes/no):"@,
        }
    }

    /// What a terminal may be sent for the question: the question for the
    /// city in bright green, the one for the country on a bright green
    /// background, where the process colours its output; else, and for the
    /// third question always, the wording as it is.
    pub open spec fn shown_by(self, shown: Seq<char>) -> bool {
        match self {
            Prompt::City => styled_or_plain(shown, self.wording(), seq!['9', '2']),
            Prompt::Country => styled_or_plain(shown, self.wording(), seq!['1', '0', '2']),
            Prompt::Continue => shown == self.wording(),
        }
    }

    /// The question as the terminal gets it.
    pub fn shown(&self) -> (s: String)
        ensures
            self.shown_by(s@),
    {
        match self {
            Prompt::City => bright_green(self.text()),
            Prompt::Country => on_bright_green(self.text()),
            Prompt::Continue => String::from_str(self.text()),
        }
    }

    /// The wording of the question.
    pub fn text(&self) -> (s: &'static str)
        ensures
            s@ == self.wording(),
    {
        match self {
            Prompt::City => "Please enter the name of the city:",
            Prompt::Country => "Please enter the country:",
            Prompt::Continue => "Do you want to search for weather in another city? (yes/no):",
        }
    }
}

/// The greeting shown once, before the first question.
pub open spec fn banner_text() -> Seq<char> {
    "Welcome to Weather Station!"@
}

/// The greeting shown once, before the first question.
pub fn banner() -> (s: &'static str)
    ensures
        s@ == banner_text(),
{
    "Welcome to Weather Station!"
}

/// The greeting as the terminal gets it: in bright yellow where the process
/// colours its output.
pub fn banner_shown() -> (s: String)
    ensures
        styled_or_plain(s@, banner_text(), seq!['9', '3']),
{
    bright_yellow(banner())
}

/// The closing message.
pub open spec fn farewell_text() -> Seq<char> {
    "Thank you for using our software!"@
}

/// Where the conversation stands.
#[derive(Clone, Debug, PartialEq, Eq)]
pub enum State {
    /// About to ask for the city.
    PromptCity,
    /// About to ask for the country of the city that was given.
    PromptCountry { city: String },
    /// About to look the place up.
    Fetching { query: Query },
    /// About to show the observation that the lookup gave.
    Displaying { observation: WeatherObservation },
    /// About to report why the lookup failed.
    ReportingError { error: FetchError },
    /// About to ask whether to go on.
    PromptContinue,
    /// Over.
    Terminated,
}

/// A state as the specifications see it.
pub enum StateView {
    PromptCity,
    PromptCountry { city: Seq<char> },
    Fetching { query: QueryView },
    Displaying { observation: ObservationView },
    ReportingError { error: FetchErrorView },
    PromptContinue,
    Terminated,
}

impl View for State {
    type V = StateView;

    open spec fn view(&self) -> StateView {
        match self {
            State::PromptCity => StateView::PromptCity,
            State::PromptCountry { city } => StateView::PromptCountry { city: city@ },
            State::Fetching { query } => StateView::Fetching { query: query@ },
            State::Displaying { observation } => StateView::Displaying {
                observation: observation@,
            },
            State::ReportingError { error } => StateView::ReportingError { error: error@ },
            State::PromptContinue => StateView::PromptContinue,
            State::Terminated => StateView::Terminated,
        }
    }
}

/// What came of an action.
#[derive(Debug, PartialEq, Eq)]
pub enum Event {
    /// A line was read from the user.
    Line(String),
    /// The lookup ended: with the decoded answer of the service, or with the
    /// reason why there is none.
    Fetched(Result<WeatherResponse, FetchError>),
    /// The text was written.
    Written,
}

/// An event as the specifications see it. A lookup counts by its outcome.
pub enum EventView {
    Line(Seq<char>),
    Fetched(Result<ObservationView, FetchErrorView>),
    Written,
}

impl View for Event {
    type V = EventView;

    open spec fn view(&self) -> EventView {
        match self {
            Event::Line(line) => EventView::Line(line@),
            Event::Fetched(answer) => EventView::Fetched(fetch_outcome_of(*answer)),
            Event::Written => EventView::Written,
        }
    }
}

/// What the caller is to do.
#[derive(Clone, Debug, PartialEq, Eq)]
pub enum Action {
    /// Show the question and read one line.
    ReadLine(Prompt),
    /// Ask the weather service about the place.
    Fetch(Query),
    /// Write the text to the output.
    Write(String),
    /// Write the text to the error stream.
    WriteError(String),
    /// Write the closing message and stop.
    Finish(String),
}

/// The state that follows `state` when `event` has come in. An event that
/// the state does not wait for changes nothing.
pub open spec fn next_state(state: StateView, event: EventView) -> StateView {
    match (state, event) {
        (StateView::PromptCity, EventView::Line(line)) => StateView::PromptCountry {
            city: trimmed(line),
        },
        (StateView::PromptCountry { city }, EventView::Line(line)) => StateView::Fetching {
            query: QueryView { city: city, country_code: trimmed(line) },
        },
        (StateView::Fetching { .. }, EventView::Fetched(Ok(observation))) => StateView::Displaying {
            observation: observation,
        },
        (StateView::Fetching { .. }, EventView::Fetched(Err(error))) => StateView::ReportingError {
            error: error,
        },
        (StateView::Displaying { .. }, EventView::Written) => StateView::PromptContinue,
        (StateView::ReportingError { .. }, EventView::Written) => StateView::PromptContinue,
        (StateView::PromptContinue, EventView::Line(line)) => if says_yes(line) {
            StateView::PromptCity
        } else {
            StateView::Terminated
        },
        _ => state,
    }
}

/// Whether `action` is what `state` asks for.
pub open spec fn asked_for(state: StateView, action: Action) -> bool {
    match state {
        StateView::PromptCity => action == Action::ReadLine(Prompt::City),
        StateView::PromptCountry { .. } => action == Action::ReadLine(Prompt::Country),
        StateView::Fetching { query } => action matches Action::Fetch(q) && q@ == query,
        StateView::Displaying { observation } => action matches Action::Write(text) && shown_as(
            text@,
            weather_text(observation),
            color_class_of(observation.condition),
        ),
        StateView::ReportingError { error } => action matches Action::WriteError(text) && text@
            == error_line_text(error),
        StateView::PromptContinue => action == Action::ReadLine(Prompt::Continue),
        StateView::Terminated => action matches Action::Finish(text) && text@ == farewell_text(),
    }
}

impl State {
    /// The state in which every conversation starts.
    pub fn initial() -> (s: State)
        ensures
            s@ == StateView::PromptCity,
    {
        State::PromptCity
    }

    /// Whether the conversation is over.
    pub fn is_terminated(&self) -> (r: bool)
        ensures
            r == (self@ is Terminated),
    {
        match self {
            State::Terminated => true,
            _ => false,
        }
    }

    /// What the caller is to do in this state.
    pub fn action(&self) -> (a: Action)
        ensures
            asked_for(self@, a),
    {
        match self {
            State::PromptCity => Action::ReadLine(Prompt::City),
            State::PromptCountry { .. } => Action::ReadLine(Prompt::Country),
            State::Fetching { query } => Action::Fetch(query.duplicate()),
            State::Displaying { observation } => Action::Write(display_weather_info(observation)),
            State::ReportingError { error } => Action::WriteError(error_line(error)),
            State::PromptContinue => Action::ReadLine(Prompt::Continue),
            State::Terminated => Action::Finish(
                String::from_str("Thank you for using our software!"),
            ),
        }
    }

    /// The state that follows when `event` has come in.
    pub fn next(self, event: Event) -> (s: State)
        ensures
            s@ == next_state(self@, event@),
    {
        match self {
            State::PromptCity => match event {
                Event::Line(line) => State::PromptCountry {
                    city: String::from_str(trim(line.as_str())),
                },
                _ => State::PromptCity,
            },
            State::PromptCountry { city } => match event {
                Event::Line(line) => State::Fetching {
                    query: Query { city: city, country_code: String::from_str(trim(line.as_str())) },
                },
                _ => State::PromptCountry { city },
            },
            State::Fetching { query } => match event {
                Event::Fetched(answer) => match fetch_outcome(answer) {
                    Ok(observation) => State::Displaying { observation },
                    Err(error) => State::ReportingError { error },
                },
                _ => State::Fetching { query },
            },
            State::Displaying { observation } => match event {
                Event::Written => State::PromptContinue,
                _ => State::Displaying { observation },
            },
            State::ReportingError { error } => match event {
                Event::Written => State::PromptContinue,
                _ => State::ReportingError { error },
            },
            State::PromptContinue => match event {
                Event::Line(line) => if wants_another(line.as_str()) {
                    State::PromptCity
                } else {
                    State::Terminated
                },
                _ => State::PromptContinue,
            },
            State::Terminated => State::Terminated,
        }
    }
}

/// After the question whether to go on, an answer that says yes starts over
/// with the city, and every other answer ends the conversation.
pub proof fn lemma_answer_decides(line: Seq<char>)
    ensures
        says_yes(line) ==> next_state(StateView::PromptContinue, EventView::Line(line))
            == StateView::PromptCity,
        !says_yes(line) ==> next_state(StateView::PromptContinue, EventView::Line(line))
            == StateView::Terminated,
{
}

/// Nothing but an answer that does not say yes ends a conversation. A lookup
/// that fails does not.
pub proof fn lemma_only_an_answer_terminates(state: StateView, event: EventView)
    requires
        !(state is Terminated),
        next_state(state, event) is Terminated,
    ensures
        state is PromptContinue,
        event is Line,
        !says_yes(event->Line_0),
{
}

/// However a lookup ends, its outcome is shown or reported, and then the
/// user is asked whether to go on.
pub proof fn lemma_lookup_leads_to_question(
    query: QueryView,
    outcome: Result<ObservationView, FetchErrorView>,
)
    ensures
        match outcome {
            Ok(observation) => next_state(
                StateView::Fetching { query },
                EventView::Fetched(outcome),
            ) == (StateView::Displaying { observation }),
            Err(error) => next_state(StateView::Fetching { query }, EventView::Fetched(outcome))
                == (StateView::ReportingError { error }),
        },
        next_state(
            next_state(StateView::Fetching { query }, EventView::Fetched(outcome)),
            EventView::Written,
        ) == StateView::PromptContinue,
{
}

/// Once over, a conversation stays over.
pub proof fn lemma_terminated_is_final(event: EventView)
    ensures
        next_state(StateView::Terminated, event) == StateView::Terminated,
{
}

} // verus!
