use vstd::prelude::*;

use crate::config::RunConfig;
use crate::feed::EventRecord;

verus! {

/// No record of the list carries a year.
pub open spec fn all_years_missing(events: Seq<EventRecord>) -> bool {
    forall|j: int| 0 <= j < events.len() ==> events[j].year is None
}

/// Index `i` holds the stable oldest record: its year is defined, no defined
/// year in the list is smaller, and every earlier record either lacks a year
/// or has a strictly larger one (so ties go to the first occurrence).
pub open spec fn is_stable_oldest(events: Seq<EventRecord>, i: int) -> bool {
    &&& 0 <= i < events.len()
    &&& events[i].year is Some
    &&& forall|j: int|
        0 <= j < events.len() && events[j].year is Some ==> events[i].year->0 <= events[j].year->0
    &&& forall|j: int| 0 <= j < i ==> events[j].year is None || events[i].year->0 < events[j].year->0
}

/// Index `i` holds the stable newest record: the mirror image of
/// `is_stable_oldest`, with the maximum defined year.
pub open spec fn is_stable_newest(events: Seq<EventRecord>, i: int) -> bool {
    &&& 0 <= i < events.len()
    &&& events[i].year is Some
    &&& forall|j: int|
        0 <= j < events.len() && events[j].year is Some ==> events[i].year->0 >= events[j].year->0
    &&& forall|j: int| 0 <= j < i ==> events[j].year is None || events[i].year->0 > events[j].year->0
}

/// The index of the record with the minimum defined year, ties broken by
/// first occurrence; `None` exactly when no record has a year (in
/// particular on an empty list). Records without a year are never chosen.
pub fn select_oldest(events: &Vec<EventRecord>) -> (r: Option<usize>)
    ensures
        r is None <==> all_years_missing(events@),
        r matches Some(i) ==> is_stable_oldest(events@, i as int),
{
    let mut best: Option<usize> = None;
    let mut best_year: i32 = 0;
    let mut k: usize = 0;
    while k < events.len()
        invariant
            k <= events@.len(),
            best is None <==> all_years_missing(events@.take(k as int)),
            best matches Some(i) ==> i < k && events@[i as int].year == Some(best_year)
                && is_stable_oldest(events@.take(k as int), i as int),
        decreases events@.len() - k,
    {
        match events[k].year {
            Some(y) => {
                if best.is_none() || y < best_year {
                    best = Some(k);
                    best_year = y;
                }
            },
            None => {},
        }
        k += 1;
    }
    proof {
        assert(events@.take(events@.len() as int) =~= events@);
    }
    best
}

/// The index of the record with the maximum defined year, ties broken by
/// first occurrence; `None` exactly when no record has a year.
pub fn select_newest(events: &Vec<EventRecord>) -> (r: Option<usize>)
    ensures
        r is None <==> all_years_missing(events@),
        r matches Some(i) ==> is_stable_newest(events@, i as int),
{
    let mut best: Option<usize> = None;
    let mut best_year: i32 = 0;
    let mut k: usize = 0;
    while k < events.len()
        invariant
            k <= events@.len(),
            best is None <==> all_years_missing(events@.take(k as int)),
            best matches Some(i) ==> i < k && events@[i as int].year == Some(best_year)
                && is_stable_newest(events@.take(k as int), i as int),
        decreases events@.len() - k,
    {
        match events[k].year {
            Some(y) => {
                if best.is_none() || y > best_year {
                    best = Some(k);
                    best_year = y;
                }
            },
            None => {},
        }
        k += 1;
    }
    proof {
        assert(events@.take(events@.len() as int) =~= events@);
    }
    best
}

/// Relies on rand: `rng()` gives a thread-local generator, and
/// `RngExt::random_range` over `0..n` returns a value of that range,
/// panicking only when the range is empty.
#[verifier::external_body]
fn random_below(n: usize) -> (r: usize)
    requires
        1 <= n,
    ensures
        r < n,
{
    rand::RngExt::random_range(&mut rand::rng(), 0..n)
}

/// A uniformly random index into the list; `None` exactly when the list is
/// empty. Every record, with or without a year, is eligible.
pub fn select_random(events: &Vec<EventRecord>) -> (r: Option<usize>)
    ensures
        r is None <==> events@.len() == 0,
        r matches Some(i) ==> i < events@.len(),
{
    if events.len() == 0 {
        None
    } else {
        Some(random_below(events.len()))
    }
}

/// Apply the selection rule of the configuration: the stable oldest record
/// under the oldest flag, the stable newest under the newest flag, and
/// otherwise a random record of the whole list.
pub fn select_event(events: &Vec<EventRecord>, config: &RunConfig) -> (r: Option<usize>)
    ensures
        config.select_oldest ==> ((r is None <==> all_years_missing(events@)) && (r matches Some(i)
            ==> is_stable_oldest(events@, i as int))),
        !config.select_oldest && config.select_newest ==> ((r is None <==> all_years_missing(
            events@,
        )) && (r matches Some(i) ==> is_stable_newest(events@, i as int))),
        !config.select_oldest && !config.select_newest ==> ((r is None <==> events@.len() == 0) && (
        r matches Some(i) ==> i < events@.len())),
{
    if config.select_oldest {
        select_oldest(events)
    } else if config.select_newest {
        select_newest(events)
    } else {
        select_random(events)
    }
}

} // verus!
