//! Wall-clock time for the `created` fields.

use vstd::prelude::*;

verus! {

/// Relies on std::time::SystemTime::now and duration_since(UNIX_EPOCH):
/// the seconds since the Unix epoch, zero for a clock set before it.
#[verifier::external_body]
fn system_seconds() -> (r: u64) {
    match std::time::SystemTime::now().duration_since(std::time::UNIX_EPOCH) {
        Ok(d) => d.as_secs(),
        Err(_) => 0,
    }
}

/// Current Unix time in seconds.
pub fn now_unix() -> (r: u64) {
    system_seconds()
}

} // verus!
