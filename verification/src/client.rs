use vstd::prelude::*;
use vstd::string::*;

use crate::feed::Category;
use crate::text::digit_char;
use crate::text::digit_str;

verus! {

/// The zero-padded two-digit decimal rendering of a value below 100.
pub open spec fn spec_two_digits(n: int) -> Seq<char>
    recommends
        0 <= n < 100,
{
    seq![digit_char(n / 10), digit_char(n % 10)]
}

pub fn two_digits(n: u32) -> (r: String)
    requires
        n < 100,
    ensures
        r@ == spec_two_digits(n as int),
{
    let mut s = String::from_str(digit_str(n / 10));
    s.append(digit_str(n % 10));
    proof {
        assert(s@ =~= spec_two_digits(n as int));
    }
    s
}

/// The request target: the fixed endpoint of the English-language
/// "on this day" feed, with the category's lower-case name and the
/// zero-padded month and day substituted in.
pub open spec fn spec_url(cat: Category, month: int, day: int) -> Seq<char> {
    "https://api.wikimedia.org/feed/v1/wikipedia/en/onthisday/"@ + cat.spec_name() + "/"@
        + spec_two_digits(month) + "/"@ + spec_two_digits(day)
}

pub fn build_url(cat: Category, month: u32, day: u32) -> (r: String)
    requires
        1 <= month <= 12,
        1 <= day <= 31,
    ensures
        r@ == spec_url(cat, month as int, day as int),
{
    let mut s = String::from_str("https://api.wikimedia.org/feed/v1/wikipedia/en/onthisday/");
    s.append(cat.name());
    s.append("/");
    let m = two_digits(month);
    s.append(m.as_str());
    s.append("/");
    let d = two_digits(day);
    s.append(d.as_str());
    proof {
        assert(s@ =~= spec_url(cat, month as int, day as int));
    }
    s
}

/// The header value identifying this client by name and version, which the
/// upstream service asks every client to send.
pub fn user_agent() -> (r: &'static str)
    ensures
        r@ == "on-this-day-cli/0.1.0 (A Rust CLI tool to fetch daily historical events)"@,
{
    "on-this-day-cli/0.1.0 (A Rust CLI tool to fetch daily historical events)"
}

/// Whether an HTTP status code counts as success: the 2xx range.
pub fn status_is_success(code: u16) -> (r: bool)
    ensures
        r == (200 <= code && code < 300),
{
    200 <= code && code < 300
}

/// Relies on chrono: `Utc::now` reads the clock, and `Datelike::month` and
/// `Datelike::day` return the month number from 1 to 12 and the day of
/// month from 1 to 31.
#[verifier::external_body]
fn today_utc() -> (r: (u32, u32))
    ensures
        1 <= r.0 <= 12,
        1 <= r.1 <= 31,
{
    let now = chrono::Utc::now();
    (chrono::Datelike::month(&now), chrono::Datelike::day(&now))
}

/// The request for today: the current UTC month and day together with the
/// URL that selects the category on that date.
pub fn today_request(cat: Category) -> (r: (String, u32, u32))
    ensures
        1 <= r.1 <= 12,
        1 <= r.2 <= 31,
        r.0@ == spec_url(cat, r.1 as int, r.2 as int),
{
    let (month, day) = today_utc();
    let url = build_url(cat, month, day);
    (url, month, day)
}

} // verus!
