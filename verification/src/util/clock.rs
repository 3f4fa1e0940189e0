use vstd::prelude::*;

verus! {

/// Microseconds since the Unix epoch by the system clock (zero if the clock
/// stands before the epoch). Nothing is stated of the value: it is the time.
#[verifier::external_body]
pub(crate) fn now_micros() -> u64 {
    std::time::SystemTime::now()
        .duration_since(std::time::UNIX_EPOCH)
        .unwrap_or_default()
        .as_micros() as u64
}

/// Seconds since the Unix epoch by the system clock (zero if the clock stands
/// before the epoch). Nothing is stated of the value: it is the time.
#[verifier::external_body]
pub(crate) fn now_secs() -> u64 {
    std::time::SystemTime::now()
        .duration_since(std::time::UNIX_EPOCH)
        .unwrap_or_default()
        .as_secs()
}

} // verus!
