//! The engine of an update checker. It follows sources on several platforms
//! (feeds, channels, artists, titles), decides since when each of them is
//! checked, records what a check found, and turns the results of a run into
//! what is shown to the user.
//!
//! The engine itself asks no platform and prints nothing: whoever runs it
//! makes the requests, hands in what they gave, and puts out what the engine
//! has to tell. Everything in between is here, and verified.

pub mod args;
pub mod present;
pub mod reconcile;
pub mod report;
pub mod run;
pub mod search;
pub mod sources;
pub mod text;
pub mod time;
pub mod update;
pub mod util;
