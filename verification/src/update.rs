//! When to look for a newer release.
//!
//! The time of the last look is kept in a file as seconds since the epoch.
//! Reading the clock and the file is the caller's part; this module decides
//! from the two numbers whether a look is due.

use vstd::prelude::*;

verus! {

/// The name of the file that records the time of the last look.
pub const UPDATE_CHECK_FILENAME: &'static str = "last_update_check";

/// The fewest seconds between two looks: one hour.
pub const CHECK_INTERVAL_SECS: u64 = 3600;

/// A text without the white space at its two ends, as `str::trim` gives it.
pub uninterp spec fn trimmed(text: Seq<char>) -> Seq<char>;

/// The number that a text spells in decimal digits, as `str::parse::<u64>`
/// reads it, or `None` where the text spells none.
pub uninterp spec fn decimal_u64(text: Seq<char>) -> Option<u64>;

/// `str::trim`: the text between the leading and the trailing white space.
#[verifier::external_body]
fn trim(text: &str) -> (r: &str)
    ensures
        r@ == trimmed(text@),
{
    text.trim()
}

/// `str::parse::<u64>`: the number that the text spells, if it spells one.
#[verifier::external_body]
fn parse_u64(text: &str) -> (r: Option<u64>)
    ensures
        r == decimal_u64(text@),
{
    text.parse::<u64>().ok()
}

/// The time of the last look that the contents of the time file record, or
/// `None` where they are no number.
pub fn last_check_in(contents: &str) -> (last_check: Option<u64>)
    ensures
        last_check == decimal_u64(trimmed(contents@)),
{
    parse_u64(trim(contents))
}

/// Whether the last look is recent: not in the future and less than the
/// interval ago.
pub open spec fn is_recent(now_secs: u64, last_check: u64) -> bool {
    now_secs >= last_check && now_secs - last_check < CHECK_INTERVAL_SECS
}

/// Whether a look for a newer release is due: always without a recorded
/// look, and otherwise unless the recorded one is recent.
pub fn update_check_due(now_secs: u64, last_check: Option<u64>) -> (due: bool)
    ensures
        due == match last_check {
            Some(last_check) => !is_recent(now_secs, last_check),
            None => true,
        },
{
    match last_check {
        Some(last_check) => !(now_secs >= last_check && now_secs - last_check
            < CHECK_INTERVAL_SECS),
        None => true,
    }
}

} // verus!
