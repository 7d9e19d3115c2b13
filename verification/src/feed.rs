use vstd::prelude::*;

use crate::text::lower_seq;
use crate::text::eq_ignore_ascii_case;

verus! {

/// One historical fact: a text and, where the feed gives one, a year.
#[derive(Debug, PartialEq, Eq)]
pub struct EventRecord {
    pub text: String,
    pub year: Option<i32>,
}

/// The bucket of the feed that the user asks for.
#[derive(Clone, Copy, Debug, PartialEq, Eq, Structural)]
pub enum Category {
    All,
    Selected,
    Births,
    Deaths,
    Holidays,
    Events,
}

/// The decoded shape of the feed payload: up to five optional buckets of
/// records. An absent bucket counts as empty.
pub struct FeedResponse {
    pub selected: Option<Vec<EventRecord>>,
    pub births: Option<Vec<EventRecord>>,
    pub deaths: Option<Vec<EventRecord>>,
    pub holidays: Option<Vec<EventRecord>>,
    pub events: Option<Vec<EventRecord>>,
}

/// The records an optional bucket contributes: its own, or none when absent.
pub open spec fn bucket_seq(b: Option<Vec<EventRecord>>) -> Seq<EventRecord> {
    match b {
        Some(v) => v@,
        None => Seq::empty(),
    }
}

/// The flattening rule: a specific category contributes only its own bucket;
/// `All` concatenates every bucket in the fixed order
/// selected, births, deaths, holidays, events.
pub open spec fn spec_flatten(r: FeedResponse, cat: Category) -> Seq<EventRecord> {
    match cat {
        Category::All => bucket_seq(r.selected) + bucket_seq(r.births) + bucket_seq(r.deaths)
            + bucket_seq(r.holidays) + bucket_seq(r.events),
        Category::Selected => bucket_seq(r.selected),
        Category::Births => bucket_seq(r.births),
        Category::Deaths => bucket_seq(r.deaths),
        Category::Holidays => bucket_seq(r.holidays),
        Category::Events => bucket_seq(r.events),
    }
}

fn take_bucket(out: &mut Vec<EventRecord>, b: Option<Vec<EventRecord>>)
    ensures
        final(out)@ == old(out)@ + bucket_seq(b),
{
    match b {
        Some(mut v) => {
            out.append(&mut v);
        },
        None => {
            proof {
                assert(old(out)@ + bucket_seq(b) =~= old(out)@);
            }
        },
    }
}

/// Merge the buckets that the requested category contributes into one ordered
/// list, keeping each bucket's own order.
pub fn flatten(r: FeedResponse, cat: Category) -> (out: Vec<EventRecord>)
    ensures
        out@ == spec_flatten(r, cat),
{
    let mut out: Vec<EventRecord> = Vec::new();
    match cat {
        Category::All => {
            take_bucket(&mut out, r.selected);
            take_bucket(&mut out, r.births);
            take_bucket(&mut out, r.deaths);
            take_bucket(&mut out, r.holidays);
            take_bucket(&mut out, r.events);
        },
        Category::Selected => take_bucket(&mut out, r.selected),
        Category::Births => take_bucket(&mut out, r.births),
        Category::Deaths => take_bucket(&mut out, r.deaths),
        Category::Holidays => take_bucket(&mut out, r.holidays),
        Category::Events => take_bucket(&mut out, r.events),
    }
    proof {
        assert(out@ =~= spec_flatten(r, cat));
    }
    out
}

impl Category {
    /// The lower-case name of the category, as it stands in the request URL.
    pub open spec fn spec_name(self) -> Seq<char> {
        match self {
            Category::All => "all"@,
            Category::Selected => "selected"@,
            Category::Births => "births"@,
            Category::Deaths => "deaths"@,
            Category::Holidays => "holidays"@,
            Category::Events => "events"@,
        }
    }

    pub fn name(&self) -> (r: &'static str)
        ensures
            r@ == self.spec_name(),
    {
        match self {
            Category::All => "all",
            Category::Selected => "selected",
            Category::Births => "births",
            Category::Deaths => "deaths",
            Category::Holidays => "holidays",
            Category::Events => "events",
        }
    }

    /// The category a name denotes, compared without regard to ASCII case;
    /// `None` for a name outside the six allowed ones.
    pub open spec fn spec_parse(s: Seq<char>) -> Option<Category> {
        if lower_seq(s) == "all"@ {
            Some(Category::All)
        } else if lower_seq(s) == "selected"@ {
            Some(Category::Selected)
        } else if lower_seq(s) == "births"@ {
            Some(Category::Births)
        } else if lower_seq(s) == "deaths"@ {
            Some(Category::Deaths)
        } else if lower_seq(s) == "holidays"@ {
            Some(Category::Holidays)
        } else if lower_seq(s) == "events"@ {
            Some(Category::Events)
        } else {
            None
        }
    }

    pub fn from_name(s: &str) -> (r: Option<Category>)
        ensures
            r == Category::spec_parse(s@),
    {
        proof {
            lemma_category_names_are_lower();
        }
        if eq_ignore_ascii_case(s, "all") {
            Some(Category::All)
        } else if eq_ignore_ascii_case(s, "selected") {
            Some(Category::Selected)
        } else if eq_ignore_ascii_case(s, "births") {
            Some(Category::Births)
        } else if eq_ignore_ascii_case(s, "deaths") {
            Some(Category::Deaths)
        } else if eq_ignore_ascii_case(s, "holidays") {
            Some(Category::Holidays)
        } else if eq_ignore_ascii_case(s, "events") {
            Some(Category::Events)
        } else {
            None
        }
    }
}

/// Each of the six allowed category names is already in lower case, so
/// folding it changes nothing.
pub proof fn lemma_category_names_are_lower()
    ensures
        lower_seq("all"@) == "all"@,
        lower_seq("selected"@) == "selected"@,
        lower_seq("births"@) == "births"@,
        lower_seq("deaths"@) == "deaths"@,
        lower_seq("holidays"@) == "holidays"@,
        lower_seq("events"@) == "events"@,
{
    reveal_strlit("all");
    reveal_strlit("selected");
    reveal_strlit("births");
    reveal_strlit("deaths");
    reveal_strlit("holidays");
    reveal_strlit("events");
    assert(lower_seq("all"@) =~= "all"@);
    assert(lower_seq("selected"@) =~= "selected"@);
    assert(lower_seq("births"@) =~= "births"@);
    assert(lower_seq("deaths"@) =~= "deaths"@);
    assert(lower_seq("holidays"@) =~= "holidays"@);
    assert(lower_seq("events"@) =~= "events"@);
}

} // verus!
