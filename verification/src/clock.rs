//! The wall clock, in milliseconds since the Unix epoch.

use vstd::prelude::*;

verus! {

/// `std::time::SystemTime::elapsed` on `UNIX_EPOCH`: the time since the epoch in whole seconds
/// and the nanoseconds beyond them, or the message of the error that a clock before the epoch
/// gives.
///
/// Trusted: the nanoseconds are less than one second. Which time it is stays open; that the clock
/// gave it is what [`given_by_clock`](crate::provenance::given_by_clock) keeps of it.
#[verifier::external_body]
fn since_epoch() -> (r: Result<(u64, u32), String>)
    ensures
        r matches Ok(time) ==> time.1 < 1_000_000_000,
        crate::provenance::given_by_clock(
            match r {
                Ok(time) => Ok(time),
                Err(message) => Err(message@),
            },
        ),
{
    match std::time::UNIX_EPOCH.elapsed() {
        Ok(time) => Ok((time.as_secs(), time.subsec_nanos())),
        Err(e) => Err(e.to_string()),
    }
}

/// The whole milliseconds in a span of time.
pub fn whole_millis(seconds: u64, nanos: u32) -> (r: u128)
    ensures
        r == seconds * 1000 + nanos / 1_000_000,
{
    seconds as u128 * 1000 + (nanos / 1_000_000) as u128
}

/// Whether a clock that counts its seconds in 64 bits can show this time.
pub open spec fn on_the_clock(millis: u128) -> bool {
    millis <= u64::MAX * 1000 + 999
}

/// The milliseconds that a reading of the clock gives: those of the time that was read, or the
/// message of the clock's error.
pub open spec fn reading_millis(reading: Result<(u64, u32), Seq<char>>) -> Result<u128, Seq<char>> {
    match reading {
        Ok(time) => Ok((time.0 * 1000 + time.1 / 1_000_000) as u128),
        Err(message) => Err(message),
    }
}

/// The model of a result whose error is a message.
pub open spec fn message_view<T>(r: Result<T, String>) -> Result<T, Seq<char>> {
    match r {
        Ok(value) => Ok(value),
        Err(message) => Err(message@),
    }
}

/// Whether the system's clock gave this outcome: the milliseconds of a time that was read from it,
/// or the message of its error.
pub open spec fn clock_gave(outcome: Result<u128, Seq<char>>) -> bool {
    exists|reading: Result<(u64, u32), Seq<char>>|
        #[trigger] crate::provenance::given_by_clock(reading) && outcome == reading_millis(reading)
}

/// The milliseconds since the epoch that a reading of the clock, in seconds and the nanoseconds
/// beyond them, gives.
pub fn millis_from(reading: Result<(u64, u32), String>) -> (r: Result<u128, String>)
    ensures
        message_view(r) == reading_millis(message_view(reading)),
        match reading {
            Ok(time) => r matches Ok(millis) && millis == time.0 * 1000 + time.1 / 1_000_000,
            Err(message) => r matches Err(text) && text@ == message@,
        },
{
    match reading {
        Ok(time) => Ok(whole_millis(time.0, time.1)),
        Err(message) => Err(message),
    }
}

/// The milliseconds since the epoch, or the message of the clock's error.
///
/// The clock decides which: the result is that of [`millis_from`] on what the clock gave.
pub fn unix_millis() -> (r: Result<u128, String>)
    ensures
        r matches Ok(millis) ==> on_the_clock(millis),
        match r {
            Ok(millis) => clock_gave(Ok(millis)),
            Err(message) => clock_gave(Err(message@)),
        },
{
    let reading = since_epoch();
    let ghost model = message_view(reading);
    assert(crate::provenance::given_by_clock(model));
    let r = millis_from(reading);
    assert(message_view(r) == reading_millis(model));
    r
}

} // verus!
