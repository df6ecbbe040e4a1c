//! The process clock: seconds, microseconds and nanoseconds since the
//! epoch, taken on trust from the standard library, and the parse of the
//! kernel's uptime text.

use vstd::prelude::*;

use crate::text::{parse_u64_str, spec_parse_u64, spec_split, split_str};

verus! {

/// The whole seconds of one `/proc/uptime` text: the digits before the
/// first dot, and zero when they do not parse.
pub fn get_uptime(contents: &str) -> (r: u64)
    ensures
        ({
            let pieces = spec_split(contents@, '.');
            r == (if pieces.len() >= 1 {
                match spec_parse_u64(pieces[0]) {
                    Some(v) => v,
                    None => 0u64,
                }
            } else {
                0u64
            })
        }),
{
    let pieces = split_str(contents, '.');
    if pieces.len() >= 1 {
        proof {
            assert(pieces.deep_view()[0] == pieces@[0]@);
        }
        match parse_u64_str(pieces[0].as_str()) {
            Some(v) => v,
            None => 0,
        }
    } else {
        0
    }
}

/// Relies on std::time::SystemTime: the whole seconds of the time since the
/// Unix epoch. A clock before the epoch reads as zero.
#[verifier::external_body]
pub fn get_secs_since_epoch() -> u64 {
    match std::time::SystemTime::now().duration_since(std::time::SystemTime::UNIX_EPOCH) {
        Ok(n) => n.as_secs(),
        _ => 0,
    }
}

/// Relies on std::time::SystemTime: the time since the Unix epoch in
/// nanoseconds. A clock before the epoch reads as zero.
#[verifier::external_body]
pub fn get_naosecs_since_epoch() -> u128 {
    match std::time::SystemTime::now().duration_since(std::time::SystemTime::UNIX_EPOCH) {
        Ok(n) => n.as_nanos(),
        _ => 0,
    }
}

/// Relies on std::time::SystemTime: the time since the Unix epoch in
/// microseconds. A clock before the epoch reads as zero.
#[verifier::external_body]
pub fn get_microsecs_since_epoch() -> u128 {
    match std::time::SystemTime::now().duration_since(std::time::SystemTime::UNIX_EPOCH) {
        Ok(n) => n.as_micros(),
        _ => 0,
    }
}

} // verus!
