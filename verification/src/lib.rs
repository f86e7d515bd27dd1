//! A minimal log-ingestion library: it renders an inbound log message into a
//! timestamped entry for an append-only log file, decides the HTTP response
//! from the persistence outcome, and builds a best-effort notification of the
//! persisted entry for an external messaging endpoint.

pub mod clock;
pub mod entry;
pub mod handler;
pub mod notify;
pub mod timestamp;

use vstd::prelude::*;

verus! {

/// Body of the health endpoint: always the fixed text `OK`, independent of
/// any log-file or notification state.
pub fn health() -> (r: &'static str)
    ensures
        r@ == "OK"@,
{
    "OK"
}

} // verus!
