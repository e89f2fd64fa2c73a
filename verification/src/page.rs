//! Reading message HTML, and naming screenshots by the local time.
use vstd::prelude::*;

use crate::protocol::opt_seq;
use crate::decimal::{decimal, digit_char};
use crate::selectors::{
    screenshot_filename, screenshot_filename_spec, AUTHOR_TITLE_SELECTOR, SCREENSHOT_STAMP_FORMAT,
};

verus! {

/// What `scraper` gives for the text of the first element that matches CSS
/// selector `selector` in HTML fragment `fragment`: `None` where the selector
/// does not parse or nothing matches.
pub uninterp spec fn first_selected_text(fragment: Seq<char>, selector: Seq<char>) -> Option<Seq<char>>;

/// Calls `scraper`: `Html::parse_fragment` on `fragment`, `Selector::parse`
/// on `selector`, then the text (all text nodes, concatenated) of the first
/// element that `Html::select` yields. The result is what
/// `first_selected_text` names for the two strings; nothing more is claimed
/// of HTML parsing or selector matching.
#[verifier::external_body]
fn select_first_text(fragment: &str, selector: &str) -> (text: Option<String>)
    ensures
        opt_seq(text) == first_selected_text(fragment@, selector@),
{
    let html = scraper::Html::parse_fragment(fragment);
    let sel = scraper::Selector::parse(selector).ok()?;
    let first = html.select(&sel).next()?;
    Some(first.text().collect::<String>())
}

/// The author title of a message, read off the message's HTML: the text of
/// its first element of class `bx-im-chat-title__text`, if any.
pub fn extract_author(input: String) -> (author: Option<String>)
    ensures
        opt_seq(author) == first_selected_text(input@, AUTHOR_TITLE_SELECTOR@),
{
    select_first_text(input.as_str(), AUTHOR_TITLE_SELECTOR)
}

/// Two decimal digits of `n` (`n < 100`), zero-padded.
pub open spec fn two_digits(n: nat) -> Seq<char> {
    seq![digit_char(n / 10), digit_char(n % 10)]
}

/// A year as `%Y` writes it: zero-padded to four digits up to 9999, and with
/// a `+` sign after that.
pub open spec fn year_text(year: nat) -> Seq<char> {
    if year <= 9999 {
        seq![
            digit_char(year / 1000),
            digit_char((year / 100) % 10),
            digit_char((year / 10) % 10),
            digit_char(year % 10),
        ]
    } else {
        "+"@ + decimal(year)
    }
}

/// A date and time written as `%Y%m%d_%H%M%S`.
pub open spec fn stamp_text(year: nat, month: nat, day: nat, hour: nat, minute: nat, second: nat) -> Seq<char> {
    year_text(year) + two_digits(month) + two_digits(day) + "_"@ + two_digits(hour) + two_digits(minute)
        + two_digits(second)
}

/// Whether `stamp` is some date and time (of a year chrono supports, month
/// 1 to 12, day 1 to 31, hour below 24, minute below 60, second at most 60)
/// written as `%Y%m%d_%H%M%S`.
pub open spec fn is_time_stamp(stamp: Seq<char>) -> bool {
    exists|year: nat, month: nat, day: nat, hour: nat, minute: nat, second: nat|
        year <= 262143 && 1 <= month <= 12 && 1 <= day <= 31 && hour < 24 && minute < 60 && second <= 60
            && stamp == #[trigger] stamp_text(year, month, day, hour, minute, second)
}

/// Calls `chrono::Local::now()` and formats it with `format`, which must be
/// `%Y%m%d_%H%M%S` (a format chrono rejects would panic). Which time it is
/// reads the clock and is not claimed; its form is, as chrono's strftime
/// table documents each field: `%Y` the year zero-padded to four digits
/// (signed past 9999), the others zero-padded to two digits.
#[verifier::external_body]
fn local_time_text(format: &str) -> (stamp: String)
    requires
        format@ == SCREENSHOT_STAMP_FORMAT@,
    ensures
        is_time_stamp(stamp@),
{
    chrono::Local::now().format(format).to_string()
}

/// Name of a screenshot taken now: `base`, an underscore, the local date and
/// time written `%Y%m%d_%H%M%S`, `.png`.
pub fn screenshot_name(base: &str) -> (name: String)
    ensures
        exists|stamp: Seq<char>| is_time_stamp(stamp) && name@ == screenshot_filename_spec(base@, stamp),
{
    let stamp = local_time_text(SCREENSHOT_STAMP_FORMAT);
    let name = screenshot_filename(base, stamp.as_str());
    assert(is_time_stamp(stamp@) && name@ == screenshot_filename_spec(base@, stamp@));
    name
}

} // verus!
