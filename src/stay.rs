//! Calendar days and half-open stays.
use chrono::Datelike;
use vstd::prelude::*;

verus! {

/// Two half-open stays `[a_in, a_out)` and `[b_in, b_out)` share a night.
pub open spec fn overlaps(a_in: int, a_out: int, b_in: int, b_out: int) -> bool {
    !(b_out <= a_in || a_out <= b_in)
}

/// Whether the stays `[a_in, a_out)` and `[b_in, b_out)` share at least one night.
pub fn ranges_overlap(a_in: i32, a_out: i32, b_in: i32, b_out: i32) -> (r: bool)
    ensures
        r == overlaps(a_in as int, a_out as int, b_in as int, b_out as int),
{
    !(b_out <= a_in || a_out <= b_in)
}

/// Overlap is symmetric: the order in which two stays are compared does not matter.
pub proof fn lemma_overlap_symmetric(a_in: int, a_out: int, b_in: int, b_out: int)
    ensures
        overlaps(a_in, a_out, b_in, b_out) == overlaps(b_in, b_out, a_in, a_out),
{
}

/// A stay that ends on the day another begins does not overlap it, in either order.
pub proof fn lemma_back_to_back_stays_do_not_overlap(a_in: int, a_out: int, b_out: int)
    ensures
        !overlaps(a_in, a_out, a_out, b_out),
        !overlaps(a_out, b_out, a_in, a_out),
{
}

/// The night that starts on day `d` belongs to the stay `[s_in, s_out)`.
pub open spec fn night_in(d: int, s_in: int, s_out: int) -> bool {
    s_in <= d < s_out
}

/// Two stays overlap exactly when some night lies in both.
pub proof fn lemma_overlap_means_shared_night(a_in: int, a_out: int, b_in: int, b_out: int)
    requires
        a_in < a_out,
        b_in < b_out,
    ensures
        overlaps(a_in, a_out, b_in, b_out) <==> exists|d: int|
            #[trigger] night_in(d, a_in, a_out) && night_in(d, b_in, b_out),
{
    if overlaps(a_in, a_out, b_in, b_out) {
        let d = if a_in < b_in { b_in } else { a_in };
        assert(night_in(d, a_in, a_out) && night_in(d, b_in, b_out));
    }
}

/// The day number of a `YYYY-MM-DD` date, counted from January 1 of year 1, or `None` when
/// the text is no such date.
pub uninterp spec fn calendar_day(s: Seq<char>) -> Option<i32>;

/// Relies on chrono's `NaiveDate::parse_from_str` with the pattern `%Y-%m-%d`, the date then
/// numbered by `Datelike::num_days_from_ce`, so that a later date has a larger number and the
/// difference of two numbers is the count of days between them.
#[verifier::external_body]
pub(crate) fn parse_day(s: &str) -> (r: Option<i32>)
    ensures
        r == calendar_day(s@),
{
    match chrono::NaiveDate::parse_from_str(s, "%Y-%m-%d") {
        Ok(d) => Some(d.num_days_from_ce()),
        Err(_) => None,
    }
}

} // verus!
