//! Wall-clock readings for timestamps and latency measurement.

use vstd::prelude::*;

verus! {

/// Relies on `web_time::SystemTime::now` and
/// `SystemTime::duration_since`: milliseconds since the Unix epoch by the
/// machine's clock, and zero when the clock reads earlier than the epoch.
/// Nothing is assumed about the value: it depends on when the call runs.
#[verifier::external_body]
pub fn now_unix_millis() -> u64 {
    match web_time::SystemTime::now().duration_since(web_time::UNIX_EPOCH) {
        Ok(d) => d.as_millis() as u64,
        Err(_) => 0,
    }
}

/// Milliseconds elapsed since `start_ms`, by the machine's clock; zero
/// when the clock has moved backwards meanwhile.
pub fn elapsed_since(start_ms: u64) -> (r: u64) {
    let now = now_unix_millis();
    if now >= start_ms {
        now - start_ms
    } else {
        0
    }
}

} // verus!
