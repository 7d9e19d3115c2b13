use vstd::prelude::*;
use vstd::string::*;

use crate::client::spec_two_digits;
use crate::client::two_digits;
use crate::feed::Category;
use crate::feed::EventRecord;
use crate::text::digit_char;
use crate::text::digit_str;

verus! {

/// The decimal rendering of a natural number, most significant digit first,
/// with no leading zero except on zero itself.
pub open spec fn dec_nat(n: nat) -> Seq<char>
    decreases n,
{
    if n < 10 {
        seq![digit_char(n as int)]
    } else {
        dec_nat(n / 10).push(digit_char((n % 10) as int))
    }
}

/// The decimal rendering of an integer: a minus sign ahead of the digits
/// when it is negative.
pub open spec fn dec_int(n: int) -> Seq<char> {
    if n >= 0 {
        dec_nat(n as nat)
    } else {
        seq!['-'] + dec_nat((-n) as nat)
    }
}

pub fn render_u32(n: u32) -> (r: String)
    ensures
        r@ == dec_nat(n as nat),
    decreases n,
{
    if n < 10 {
        String::from_str(digit_str(n))
    } else {
        let mut s = render_u32(n / 10);
        s.append(digit_str(n % 10));
        proof {
            assert(s@ =~= dec_nat(n as nat));
        }
        s
    }
}

pub fn render_i32(n: i32) -> (r: String)
    ensures
        r@ == dec_int(n as int),
{
    if n >= 0 {
        render_u32(n as u32)
    } else {
        let magnitude = (-(n as i64)) as u32;
        let mut s = String::from_str("-");
        let digits = render_u32(magnitude);
        s.append(digits.as_str());
        proof {
            reveal_strlit("-");
            assert(s@ =~= dec_int(n as int));
        }
        s
    }
}

/// The header naming the date of the request, with zero-padded month and day.
pub open spec fn spec_header_line(month: int, day: int) -> Seq<char> {
    "--- On This Day: "@ + spec_two_digits(month) + "/"@ + spec_two_digits(day) + " ---"@
}

pub fn header_line(month: u32, day: u32) -> (r: String)
    requires
        month < 100,
        day < 100,
    ensures
        r@ == spec_header_line(month as int, day as int),
{
    let mut s = String::from_str("--- On This Day: ");
    let m = two_digits(month);
    s.append(m.as_str());
    s.append("/");
    let d = two_digits(day);
    s.append(d.as_str());
    s.append(" ---");
    proof {
        assert(s@ =~= spec_header_line(month as int, day as int));
    }
    s
}

/// The line for a selected record: `Year {year}: {text}` when the record
/// carries a year, the bare text otherwise.
pub open spec fn spec_event_line(e: EventRecord) -> Seq<char> {
    match e.year {
        Some(y) => "Year "@ + dec_int(y as int) + ": "@ + e.text@,
        None => e.text@,
    }
}

pub fn event_line(e: &EventRecord) -> (r: String)
    ensures
        r@ == spec_event_line(*e),
{
    match e.year {
        Some(y) => {
            let mut s = String::from_str("Year ");
            let year = render_i32(y);
            s.append(year.as_str());
            s.append(": ");
            s.append(e.text.as_str());
            proof {
                assert(s@ =~= spec_event_line(*e));
            }
            s
        },
        None => e.text.clone(),
    }
}

/// The notice printed ahead of the request, naming the category and the
/// zero-padded date.
pub open spec fn spec_fetching_notice(cat: Category, month: int, day: int) -> Seq<char> {
    "Fetching event(s) of type '"@ + cat.spec_name() + "' for today ("@ + spec_two_digits(month)
        + "/"@ + spec_two_digits(day) + ")..."@
}

pub fn fetching_notice(cat: Category, month: u32, day: u32) -> (r: String)
    requires
        month < 100,
        day < 100,
    ensures
        r@ == spec_fetching_notice(cat, month as int, day as int),
{
    let mut s = String::from_str("Fetching event(s) of type '");
    s.append(cat.name());
    s.append("' for today (");
    let m = two_digits(month);
    s.append(m.as_str());
    s.append("/");
    let d = two_digits(day);
    s.append(d.as_str());
    s.append(")...");
    proof {
        assert(s@ =~= spec_fetching_notice(cat, month as int, day as int));
    }
    s
}

/// The diagnostic for a non-2xx response, reporting the numeric status code.
pub open spec fn spec_fetch_failure_message(code: int) -> Seq<char> {
    "Error: Failed to fetch data from Wikipedia API. Status: "@ + dec_nat(code as nat)
}

pub fn fetch_failure_message(code: u16) -> (r: String)
    ensures
        r@ == spec_fetch_failure_message(code as int),
{
    let mut s = String::from_str("Error: Failed to fetch data from Wikipedia API. Status: ");
    let digits = render_u32(code as u32);
    s.append(digits.as_str());
    proof {
        assert(s@ =~= spec_fetch_failure_message(code as int));
    }
    s
}

/// The notice for an empty flattened list.
pub fn no_events_message() -> (r: &'static str)
    ensures
        r@ == "No historical events found for today with the selected type."@,
{
    "No historical events found for today with the selected type."
}

/// The diagnostic for a non-empty list from which the selection rule chose
/// nothing.
pub fn no_selection_message() -> (r: &'static str)
    ensures
        r@ == "Could not select an event from the available data."@,
{
    "Could not select an event from the available data."
}

} // verus!
