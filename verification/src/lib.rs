//! A weather station for the terminal, without the terminal: everything the
//! program decides and everything it says, as functions with contracts.
//!
//! - [`query`] builds the address that asks the weather service about a place.
//! - [`observation`] holds what the service answers and takes the observation
//!   out of it, or says why there is none.
//! - [`reading`] models the measurements, which arrive as binary64 numbers, by
//!   their bits, and [`decimal`] writes them with one digit after the point.
//! - [`bucket`] sorts temperatures and conditions into display categories.
//! - [`render`] lays out the report on an observation and [`style`] colours it.
//! - [`text`] trims what the user types and reads the answer to a yes-or-no
//!   question.
//! - [`session`] is the conversation as a state machine. Its caller reads,
//!   fetches and writes; the machine says what to do next.

pub mod arith;
pub mod bucket;
pub mod decimal;
pub mod observation;
pub mod query;
pub mod reading;
pub mod render;
pub mod session;
pub mod style;
pub mod text;
