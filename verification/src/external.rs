use vstd::prelude::*;

verus! {

/// Relies on ulid::Ulid::generate and ulid::Ulid::to_string: a fresh random
/// identifier, rendered as its 26-character Crockford base32 form. The value
/// depends on the clock and on randomness, so nothing more than its length
/// is promised.
#[verifier::external_body]
pub fn ulid_new() -> (r: String)
    ensures
        r@.len() == 26,
{
    ulid::Ulid::generate().to_string()
}

/// Relies on bson::oid::ObjectId::new and ObjectId::to_hex: a fresh object
/// id in its 24-character hexadecimal form. The value depends on the clock,
/// the process and a counter, so nothing more than its length is promised.
#[verifier::external_body]
pub fn object_id_new() -> (r: String)
    ensures
        r@.len() == 24,
{
    bson::oid::ObjectId::new().to_hex()
}

/// Relies on nanoid::format with the crate's default URL-safe 64-symbol
/// alphabet and secure random source: an opaque token of exactly the
/// requested length. The value is random, so nothing more than its length
/// is promised.
#[verifier::external_body]
pub fn nano_id(size: usize) -> (r: String)
    requires
        size > 0,
    ensures
        r@.len() == size,
{
    nanoid::format(nanoid::rngs::default, &nanoid::alphabet::SAFE, size)
}

/// Relies on chrono::Utc::now and DateTime::timestamp_millis: the current
/// time as milliseconds since the epoch. The value depends on the clock, so
/// nothing is promised of it.
#[verifier::external_body]
pub fn now_millis() -> (r: i64)
{
    chrono::Utc::now().timestamp_millis()
}

/// Relies on iso8601_timestamp::Timestamp::now_utc and its Display
/// rendering: the current time in its ISO 8601 form. The value depends on
/// the clock, so nothing is promised of it.
#[verifier::external_body]
pub fn now_iso8601() -> (r: String)
{
    iso8601_timestamp::Timestamp::now_utc().to_string()
}

} // verus!
