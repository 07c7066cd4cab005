//! Host values that a program can hold but not look into.

use vstd::prelude::*;

verus! {

/// A point in time of the host's monotonic clock.
#[verifier::external_type_specification]
#[verifier::external_body]
pub struct ExInstant(std::time::Instant);

/// A reading of the host's wall clock.
#[verifier::external_type_specification]
#[verifier::external_body]
pub struct ExSystemTime(std::time::SystemTime);

/// `std::time::Instant::now`: the present reading of the monotonic clock.
/// Nothing is known of the reading.
#[verifier::external_body]
pub(crate) fn instant_now() -> std::time::Instant {
    std::time::Instant::now()
}

/// `std::time::Instant::elapsed`: the time that has passed since the
/// reading. Nothing is known of it.
#[verifier::external_body]
pub(crate) fn instant_elapsed(instant: &std::time::Instant) -> std::time::Duration {
    instant.elapsed()
}

/// `std::time::SystemTime::now`: the present reading of the wall clock.
/// Nothing is known of the reading.
#[verifier::external_body]
pub(crate) fn system_now() -> std::time::SystemTime {
    std::time::SystemTime::now()
}

/// `std::time::SystemTime::duration_since` against the Unix epoch: the
/// time between the epoch and the reading, or nothing where the reading
/// lies before the epoch.
#[verifier::external_body]
pub(crate) fn since_epoch(reading: &std::time::SystemTime) -> Option<std::time::Duration> {
    match reading.duration_since(std::time::SystemTime::UNIX_EPOCH) {
        Ok(elapsed) => Some(elapsed),
        Err(_) => None,
    }
}

/// `std::time::Duration::as_micros`: the whole microseconds of a span.
#[verifier::external_body]
pub(crate) fn duration_micros(span: &std::time::Duration) -> u128 {
    span.as_micros()
}

/// `std::time::Duration::as_secs`: the whole seconds of a span.
#[verifier::external_body]
pub(crate) fn duration_secs(span: &std::time::Duration) -> u64 {
    span.as_secs()
}

/// `std::time::Duration::subsec_nanos`: the nanoseconds of a span beyond
/// its whole seconds.
#[verifier::external_body]
pub(crate) fn duration_nanos(span: &std::time::Duration) -> u32 {
    span.subsec_nanos()
}

/// A value of the host that a program can hold: one that can be copied.
pub trait Native: Sized {
    /// A copy of the value.
    fn clone_box(&self) -> (r: Self)
        ensures
            r == *self,
    ;
}

impl Native for std::time::Instant {
    fn clone_box(&self) -> (r: Self) {
        *self
    }
}

/// An opaque handle to a host value. The one kind of host value is a
/// reading of the monotonic clock, which `instant()` hands out and
/// `elapsed(..)` takes back.
#[derive(Debug)]
pub struct NativeObject {
    value: std::time::Instant,
}

impl Clone for NativeObject {
    fn clone(&self) -> (r: Self)
        ensures
            r == *self,
    {
        NativeObject { value: self.value.clone_box() }
    }
}

impl NativeObject {
    /// The host value inside the handle.
    pub closed spec fn value(&self) -> std::time::Instant {
        self.value
    }

    /// A handle to `value`.
    pub fn new(value: std::time::Instant) -> (r: Self)
        ensures
            r.value() == value,
    {
        Self { value }
    }

    /// The host value inside the handle.
    pub fn extract(self) -> (r: std::time::Instant)
        ensures
            r == self.value(),
    {
        self.value
    }
}

} // verus!
