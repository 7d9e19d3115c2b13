use on_this_day::config::parse_run_config;
use on_this_day::feed::EventRecord;
use on_this_day::select::select_event;
use on_this_day::select::select_newest;
use on_this_day::select::select_oldest;
use on_this_day::select::select_random;

fn ev(text: &str, year: Option<i32>) -> EventRecord {
    EventRecord { text: text.to_string(), year }
}

#[test]
fn oldest_returns_minimum_defined_year() {
    let events = vec![
        ev("a", Some(1900)),
        ev("b", None),
        ev("c", Some(1800)),
        ev("d", Some(1950)),
    ];
    let picked = select_oldest(&events).unwrap();
    assert_eq!(picked, 2);
    let year = events[picked].year.unwrap();
    for e in &events {
        if let Some(y) = e.year {
            assert!(year <= y);
        }
    }
}

#[test]
fn newest_returns_maximum_defined_year() {
    let events = vec![
        ev("a", Some(1900)),
        ev("b", None),
        ev("c", Some(1800)),
        ev("d", Some(1950)),
    ];
    let picked = select_newest(&events).unwrap();
    assert_eq!(picked, 3);
    let year = events[picked].year.unwrap();
    for e in &events {
        if let Some(y) = e.year {
            assert!(year >= y);
        }
    }
}

#[test]
fn oldest_breaks_ties_by_first_occurrence() {
    let events = vec![ev("a", Some(1800)), ev("b", Some(1800)), ev("c", Some(1900))];
    assert_eq!(select_oldest(&events), Some(0));
}

#[test]
fn newest_breaks_ties_by_first_occurrence() {
    let events = vec![ev("a", Some(1900)), ev("b", Some(1950)), ev("c", Some(1950))];
    assert_eq!(select_newest(&events), Some(1));
}

#[test]
fn oldest_and_newest_yield_nothing_without_years() {
    let events = vec![ev("a", None), ev("b", None)];
    assert_eq!(select_oldest(&events), None);
    assert_eq!(select_newest(&events), None);
}

#[test]
fn oldest_and_newest_yield_nothing_on_empty_list() {
    let events: Vec<EventRecord> = Vec::new();
    assert_eq!(select_oldest(&events), None);
    assert_eq!(select_newest(&events), None);
}

#[test]
fn random_stays_within_the_list_and_varies() {
    let events = vec![ev("a", Some(1900)), ev("b", None), ev("c", Some(1800))];
    let mut seen = [false; 3];
    for _ in 0..1000 {
        let picked = select_random(&events).unwrap();
        assert!(picked < events.len());
        seen[picked] = true;
    }
    let distinct = seen.iter().filter(|s| **s).count();
    assert!(distinct > 1);
}

#[test]
fn random_yields_nothing_on_empty_list() {
    let events: Vec<EventRecord> = Vec::new();
    assert_eq!(select_random(&events), None);
}

#[test]
fn select_event_follows_the_configuration() {
    let events = vec![ev("a", Some(1900)), ev("b", Some(1800)), ev("c", None)];
    let oldest = parse_run_config(true, false, "all").unwrap();
    let newest = parse_run_config(false, true, "all").unwrap();
    let random = parse_run_config(false, false, "all").unwrap();
    assert_eq!(select_event(&events, &oldest), Some(1));
    assert_eq!(select_event(&events, &newest), Some(0));
    let picked = select_event(&events, &random).unwrap();
    assert!(picked < events.len());
}

#[test]
fn select_event_with_flag_ignores_yearless_records() {
    let events = vec![ev("a", None), ev("b", None)];
    let oldest = parse_run_config(true, false, "holidays").unwrap();
    assert_eq!(select_event(&events, &oldest), None);
}
