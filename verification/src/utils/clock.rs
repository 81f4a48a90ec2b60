use std::time::Duration;
use std::time::Instant;

use vstd::prelude::*;

verus! {

/// `std::time::Instant`: a point on the machine's monotonic clock. Nothing is
/// known of its value: it is only ever handed back to `elapsed_nanos`.
#[verifier::external_type_specification]
#[verifier::external_body]
pub struct ExInstant(Instant);

/// Reads the monotonic clock (`Instant::now`). Nothing is known of the
/// reading.
#[verifier::external_body]
pub(crate) fn now() -> (instant: Instant) {
    Instant::now()
}

/// How many nanoseconds have passed since `start` (`Instant::elapsed`, then
/// `Duration::as_nanos`). Nothing is known of the reading.
#[verifier::external_body]
pub(crate) fn elapsed_nanos(start: &Instant) -> (nanos: u128) {
    start.elapsed().as_nanos()
}

/// How `Duration`'s `Debug` writes a duration of the given number of
/// nanoseconds, such as `1.5ms`.
pub uninterp spec fn duration_debug_text(nanos: u64) -> Seq<char>;

/// Writes a duration of `nanos` nanoseconds (`Duration::from_nanos`) as
/// `Duration`'s `Debug` does. Trusted: the text depends on the number of
/// nanoseconds alone.
#[verifier::external_body]
pub(crate) fn format_duration(nanos: u64) -> (text: String)
    ensures
        text@ == duration_debug_text(nanos),
{
    format!("{:?}", Duration::from_nanos(nanos))
}

} // verus!
