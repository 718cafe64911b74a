//! The current moment, read from the system clock.
use crate::animation::Moment;
use vstd::prelude::*;

verus! {

/// Relies on `SystemTime::now`: the time since the Unix epoch, in
/// nanoseconds. Nothing is known of the value, nor that two readings are
/// ordered.
#[verifier::external_body]
pub(crate) fn now() -> (r: Moment) {
    match std::time::SystemTime::now().duration_since(std::time::UNIX_EPOCH) {
        Ok(d) => Moment { nanos: d.as_nanos() as u64 },
        Err(_) => Moment { nanos: 0 },
    }
}

} // verus!
