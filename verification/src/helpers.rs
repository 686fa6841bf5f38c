//! The two things the library takes from outside itself: the time of day and
//! fresh correlation ids.

use std::time::{Duration, SystemTime};
use vstd::prelude::*;

verus! {

/// `std::time::SystemTime`, a reading of the system clock. Opaque here.
#[verifier::external_type_specification]
#[verifier::external_body]
pub struct ExSystemTime(std::time::SystemTime);

/// `std::time::SystemTime::now`: the system clock's reading. Nothing is
/// claimed of it.
#[verifier::external_body]
fn system_now() -> SystemTime {
    SystemTime::now()
}

/// `SystemTime::duration_since` with the Unix epoch as the earlier time: how
/// far `time` lies after the epoch, or nothing if it lies before it. Nothing
/// more is claimed of the result.
#[verifier::external_body]
fn since_unix_epoch(time: &SystemTime) -> Option<Duration> {
    time.duration_since(std::time::UNIX_EPOCH).ok()
}

/// `Duration::as_secs`: the whole seconds in the duration. A duration is
/// opaque here, so nothing is claimed of the number.
pub assume_specification[ Duration::as_secs ](duration: &Duration) -> (secs: u64);

/// The time since the Unix epoch by the system clock, or nothing if the clock
/// is set to a time before the epoch.
pub fn get_unix_timestamp() -> Option<Duration> {
    let now = system_now();
    since_unix_epoch(&now)
}

/// Whole seconds since the Unix epoch by the system clock, or nothing if the
/// clock is set to a time before the epoch.
pub fn get_timestamp() -> Option<u64> {
    match get_unix_timestamp() {
        Some(elapsed) => Some(elapsed.as_secs()),
        None => None,
    }
}

/// The characters a correlation id is made of: `_`, `-`, the ten digits and
/// the upper and lower case ASCII letters.
pub open spec fn is_id_char(c: char) -> bool {
    c == '_' || c == '-' || ('0' <= c && c <= '9') || ('a' <= c && c <= 'z') || ('A' <= c && c
        <= 'Z')
}

/// The length of a freshly minted correlation id, in characters.
pub const CORRELATION_ID_LEN: usize = 21;

/// The shape of a freshly minted correlation id.
pub open spec fn is_correlation_id(id: Seq<char>) -> bool {
    &&& id.len() == CORRELATION_ID_LEN
    &&& forall|i: int| 0 <= i < id.len() ==> is_id_char(#[trigger] id[i])
}

/// `nanoid::format` with the crate's default random source, its URL-safe
/// alphabet and its default size, which is what `nanoid!()` stands for. The
/// result is random: all that is claimed is its length of 21 characters and
/// that each is one of the alphabet's 64.
#[verifier::external_body]
pub(crate) fn fresh_correlation_id() -> (id: String)
    ensures
        is_correlation_id(id@),
{
    nanoid::format(nanoid::rngs::default, &nanoid::alphabet::SAFE, 21)
}

} // verus!
