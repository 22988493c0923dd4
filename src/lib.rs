//! Due-today filtering of weekly repeating tasks, and the cookie session check
//! of a small personal task dashboard.

pub mod calendar;
pub mod schedule;
pub mod session;
pub mod remote;
