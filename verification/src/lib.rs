//! Office-attendance tracking against a quarterly quota.
//!
//! The heart of the crate is the quarter compliance engine in [`calc`]: it
//! turns a date range, badge-in records, holidays and vacations into counts,
//! ratios, a compliance status and a projected completion date. Around it
//! stand the records themselves ([`data`]), the reports of the commands
//! ([`cmd`]) and the state machine of the terminal screen ([`ui`]).
//!
//! Dates are day numbers of the proleptic Gregorian calendar
//! ([`date::Date`]); the calendar itself (weekdays, the `YYYY-MM-DD` text of
//! a date) comes from `chrono`, behind a handful of wrappers in [`date`].
//! Ratios are exact ([`calc::metrics::Ratio`]), and [`format`] writes them
//! as decimal numbers.
//!
//! The crate reads no file and draws nothing: records come in as values,
//! and texts, colours and requests go out as values.

pub mod calc;
pub mod cmd;
pub mod data;
pub mod date;
pub mod format;
pub mod text;
pub mod ui;
