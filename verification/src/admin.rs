//! The administrator's run: it logs in, reads the scores of the members, and
//! turns them into the daily reports.

pub mod config;
pub mod cron;
pub mod fetcher;
pub mod session;
pub mod state;
pub mod xx;
pub mod xxscore;

use vstd::prelude::*;

verus! {

/// The probes that a service answers to its supervisor. Each probe either
/// gives its finding or the reason why it could not be made.
pub trait Health {
    fn liveness() -> Result<bool, String>;

    fn readiness() -> Result<bool, String>;
}

} // verus!
