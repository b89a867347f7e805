//! An incremental crawler for per-subscriber reading feeds: it decides which
//! requests to send for a feed, compares a fetched page with the subscriber's
//! cursor to find what is new, and decides which subscribers to poll.

pub mod book;
pub mod diff;
pub mod feed;
pub mod fetch;
pub mod poll;
pub mod schedule;
pub mod user;
