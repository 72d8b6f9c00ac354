//! Discovery and normalization pipeline for time-limited free-game offers.
//!
//! The library covers the storefront-independent core: the identifier
//! normalizer, calendar-date handling with year-rollover correction,
//! the per-store eligibility filters and extraction heuristics, the
//! canonical record codec used at the catalog boundary, and the poll
//! orchestrator's state machine. Network transport stays outside.

pub mod chars;
pub mod strings;
pub mod date;
pub mod identifier;
pub mod model;
pub mod epic;
pub mod gog;
pub mod steam;
pub mod codec;
pub mod text;
pub mod clock;
pub mod orchestrator;
