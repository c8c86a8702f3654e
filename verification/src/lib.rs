//! Rank-card rendering for the puddle.farm player statistics service.
//!
//! The library holds the request-independent logic of a small HTTP edge
//! service: classifying a numeric rating into a named rank tier, selecting
//! the rating entry for a requested character, rendering the result as an
//! HTML document with Open Graph tags or as a Discord embed payload, and
//! mapping upstream failures to HTTP replies. Network I/O and JSON wire
//! decoding live outside the library.

pub mod model;
pub mod numfmt;
pub mod rank;
pub mod render;
pub mod respond;
pub mod select;
