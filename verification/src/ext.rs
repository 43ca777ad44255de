//! The crate's trusted boundary: the few outside calls the core relies on,
//! each behind a wrapper whose contract states what the callee's source
//! shows.

use vstd::prelude::*;

use rand::distributions::DistString;

verus! {

/// The display width of a character in terminal columns; zero for a
/// control character.
pub uninterp spec fn display_width(c: char) -> usize;

/// Relies on unicode_width's `UnicodeWidthChar::width`: the result is a
/// table lookup that depends on the character alone, the tables yield at
/// most three columns, and a control character (`None`) counts as zero
/// here.
#[verifier::external_body]
pub fn measure_char_width(c: char) -> (r: usize)
    ensures
        r == display_width(c),
        r <= 3,
{
    unicode_width::UnicodeWidthChar::width(c).unwrap_or(0)
}

/// Relies on rand's `Alphanumeric::sample_string`: it returns a string of
/// exactly the requested number of randomly drawn characters, each a
/// single ASCII letter or digit.  Nothing else can be promised of a random
/// value.
#[verifier::external_body]
pub fn generate_session_id() -> (r: String)
    ensures
        r@.len() == 32,
{
    rand::distributions::Alphanumeric.sample_string(&mut rand::thread_rng(), 32)
}

/// Relies on chrono's `Utc::now` and `timestamp`: seconds since the epoch
/// as the clock reports them.  Nothing can be promised of the clock.
#[verifier::external_body]
pub fn now_timestamp() -> (r: i64) {
    chrono::Utc::now().timestamp()
}

/// Relies on `Iterator::collect` for `String`: the characters are taken in
/// order, nothing added or dropped.
#[verifier::external_body]
pub fn collect_chars(v: &Vec<char>) -> (r: String)
    ensures
        r@ == v@,
{
    v.iter().collect()
}

/// Relies on `str::chars` and `Iterator::collect`: the characters are
/// yielded in order, nothing added or dropped.
#[verifier::external_body]
pub fn chars_of(s: &str) -> (r: Vec<char>)
    ensures
        r@ == s@,
{
    s.chars().collect()
}

} // verus!
