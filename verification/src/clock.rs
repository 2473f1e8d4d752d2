//! The time of day, read from the machine's clock and written by the `time`
//! crate.
//!
//! Of the text that comes out nothing is promised: what the clock shows
//! differs from call to call. The journal takes the time of day as a text and
//! is verified for every text. What is said here is when no text comes out.

use vstd::prelude::*;

verus! {

/// `time::OffsetDateTime`, an instant with its offset from UTC. Nothing is
/// said of what it holds.
#[verifier::external_type_specification]
#[verifier::external_body]
pub struct ExOffsetDateTime(time::OffsetDateTime);

/// `time::format_description::BorrowedFormatItem`, one item of a description
/// of how an instant is written. Nothing is said of what it holds.
#[verifier::external_type_specification]
#[verifier::external_body]
pub struct ExBorrowedFormatItem<'a>(time::format_description::BorrowedFormatItem<'a>);

/// `OffsetDateTime::now_utc` reads the clock of the machine.
#[verifier::external_body]
pub(crate) fn now() -> (instant: time::OffsetDateTime) {
    time::OffsetDateTime::now_utc()
}

/// The description after which the time of day is written: hours, minutes
/// and seconds, with colons between them.
pub const TIME_OF_DAY: &'static str = "[hour]:[minute]:[second]";

/// Whether `text` is a description that `format_description::parse_borrowed`
/// reads in the first version of the syntax.
pub uninterp spec fn description_reads(text: Seq<char>) -> bool;

/// `format_description::parse_borrowed` reads a description in the first
/// version of the syntax; nothing is returned where it reports an error.
/// Whether it reads a text depends on the text alone.
#[verifier::external_body]
pub(crate) fn description(
    text: &'static str,
) -> (items: Option<Vec<time::format_description::BorrowedFormatItem<'static>>>)
    ensures
        items is Some <==> description_reads(text@),
{
    time::format_description::parse_borrowed::<1>(text).ok()
}

/// `OffsetDateTime::format` writes the instant as the description says;
/// nothing is returned where it reports an error.
#[verifier::external_body]
pub(crate) fn written(
    instant: time::OffsetDateTime,
    items: &Vec<time::format_description::BorrowedFormatItem<'static>>,
) -> (text: Option<String>) {
    instant.format(items).ok()
}

/// The time of day that the clock shows, in UTC, written after
/// [`TIME_OF_DAY`]; nothing where it can not be written.
///
/// The description is read first. Where it is not read, the clock is not
/// looked at and nothing is returned. Where it is read, what comes out is
/// what `time` writes for the instant that the clock shows, of which nothing
/// is known here.
pub(crate) fn time_of_day() -> (stamp: Option<String>)
    ensures
        !description_reads(TIME_OF_DAY@) ==> stamp is None,
{
    match description(TIME_OF_DAY) {
        Some(items) => written(now(), &items),
        None => None,
    }
}

} // verus!
