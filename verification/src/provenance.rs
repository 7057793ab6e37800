//! Where a value came from that no argument determines.
//!
//! What these say of a value stays inside this module. Elsewhere each of them is known only of a
//! value that its source gave, so a function that states one of them of its result has that
//! result from the source.

use vstd::prelude::*;

verus! {

/// Whether the system's clock gave this reading: seconds since the epoch with the nanoseconds
/// beyond them, or the message of its error.
pub closed spec fn given_by_clock(reading: Result<(u64, u32), Seq<char>>) -> bool {
    reading matches Ok(time) ==> time.1 < 1_000_000_000
}

/// Whether the generator of key pairs gave this PKCS#8 document, or failed with this reason.
pub closed spec fn given_by_generator(drawn: Result<Seq<u8>, Seq<char>>) -> bool {
    match drawn {
        Ok(document) => crate::crypto::ed25519_public_key(document) is Ok,
        Err(reason) => reason == "Unspecified"@,
    }
}

/// Whether the random generator drew this number for this range.
pub closed spec fn drawn_between(low: u16, high: u16, number: u16) -> bool {
    low <= number < high
}

} // verus!
