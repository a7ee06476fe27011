//! A small recurrence-rule language embedded in free-form notes: lines carry a
//! trigger token and a date, weekday, time or cadence pattern, and a matcher
//! decides for a reference instant whether the rule fires.

pub mod calendar;
pub mod config;
pub mod extract;
pub mod fire;
pub mod laws;
pub mod rule;
pub mod scan;
pub mod todo_text;
pub mod token;

