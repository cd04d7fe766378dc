//! Scoreboard: the decision logic of a live-sports backend.
//!
//! Matches move through `Scheduled`, `Live` and `Finished` as time passes;
//! scores may only change while a match is live; clients subscribe to the
//! matches they follow over a socket and receive score and commentary updates.
//! This crate holds that logic, with contracts proved by Verus. Storage,
//! HTTP and socket plumbing live around it.

pub mod constants;
pub mod entity;
pub mod match_status;
pub mod response;
pub mod routes;
pub mod scoring;
pub mod time;
pub mod validation;
pub mod ws;
