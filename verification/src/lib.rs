//! Decision core of a chat bot that relays images to reverse-image-search
//! providers: a sliding-window rate limiter, the response state machine of
//! one interaction, the lookup that validates a reference and renders the
//! results, and the router that maps command names to command flows.
//!
//! Nothing here performs I/O: a caller performs the platform calls and
//! backend lookups that the library asks for and reports back what happened.
//! The one thing that the library reads from its surroundings is the
//! monotonic clock, by which the rate limiter tells time.

pub mod clock;
pub mod commands;
pub mod config;
pub mod error;
pub mod events;
pub mod handle;
pub mod ranking;
pub mod rate_limiter;
pub mod reply;
pub mod sauce_finder;
pub mod text;
