//! The process's view of time and chance: the wall clock, a monotonic clock
//! and random bytes. Nothing here is a function of its arguments, so nothing
//! about the values is promised beyond their shape.

use vstd::prelude::*;
use rand::RngCore;

verus! {

/// A point on the monotonic clock (`std::time::Instant`).
#[verifier::external_type_specification]
#[verifier::external_body]
pub struct ExInstant(std::time::Instant);

/// `std::time::Instant::now`.
#[verifier::external_body]
pub(crate) fn instant_now() -> std::time::Instant {
    std::time::Instant::now()
}

/// `std::time::Instant::elapsed`, in whole microseconds.
#[verifier::external_body]
pub(crate) fn micros_since(origin: &std::time::Instant) -> u64 {
    origin.elapsed().as_micros() as u64
}

/// Upper bound (exclusive) of the Unix time in seconds that `chrono` can hold:
/// its years end at 262143.
pub open spec fn max_unix_secs() -> int {
    0x800_0000_0000
}

/// `chrono::Utc::now().timestamp()`: seconds since the Unix epoch. `Utc::now`
/// takes the system time since the epoch (and panics before it) and builds a
/// `DateTime` that must lie in chrono's range of years, so the value is not
/// negative and below `max_unix_secs()`.
#[verifier::external_body]
pub(crate) fn unix_now_secs() -> (res: i64)
    ensures
        0 <= res < max_unix_secs(),
{
    chrono::Utc::now().timestamp()
}

/// `rand::rngs::OsRng::fill_bytes` on `len` zero bytes: `len` bytes from the
/// operating system's random source.
#[verifier::external_body]
pub(crate) fn os_random_bytes(len: usize) -> (res: Vec<u8>)
    ensures
        res@.len() == len,
{
    let mut bytes = vec![0u8; len];
    rand::rngs::OsRng.fill_bytes(&mut bytes);
    bytes
}

/// `rand::thread_rng().fill_bytes` on `len` zero bytes: `len` bytes from the
/// thread-local generator that `rand::random` uses.
#[verifier::external_body]
pub(crate) fn thread_random_bytes(len: usize) -> (res: Vec<u8>)
    ensures
        res@.len() == len,
{
    let mut bytes = vec![0u8; len];
    rand::thread_rng().fill_bytes(&mut bytes);
    bytes
}

/// Whether a 128-bit UUID is of version 4 (random) and of the RFC 4122 variant.
pub open spec fn is_uuid_v4(u: u128) -> bool {
    (u >> 76u128) & 0xfu128 == 4 && (u >> 62u128) & 3u128 == 2
}

/// `uuid::Uuid::new_v4`, as a big-endian 128-bit value. Its source masks a
/// random `u128` and sets the version nibble to 4 and the variant bits to
/// `10`; the other 122 bits are random and nothing is stated of them.
#[verifier::external_body]
pub(crate) fn random_uuid() -> (res: u128)
    ensures
        is_uuid_v4(res),
{
    uuid::Uuid::new_v4().as_u128()
}

/// Whether a 128-bit UUID is of version 7 (Unix-time ordered) and of the
/// RFC 4122 variant.
pub open spec fn is_uuid_v7(u: u128) -> bool {
    (u >> 76u128) & 0xfu128 == 7 && (u >> 62u128) & 3u128 == 2
}

/// `uuid::Uuid::now_v7`, as a big-endian 128-bit value. Its source
/// (`timestamp::encode_unix_timestamp_millis`) puts the current Unix time in
/// milliseconds in the top 48 bits, the version nibble 7 and the variant bits
/// `10`; the timestamp and the counter and random bits depend on the clock and
/// on chance, and nothing is stated of them.
#[verifier::external_body]
pub(crate) fn time_ordered_uuid() -> (res: u128)
    ensures
        is_uuid_v7(res),
{
    uuid::Uuid::now_v7().as_u128()
}

} // verus!
