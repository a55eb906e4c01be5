use raytracer::trace::{advance, begin, Event, Step};

#[test]
fn no_depth_is_black_without_query() {
    assert_eq!(begin(0), Step::Black);
}

#[test]
fn positive_depth_queries() {
    assert_eq!(begin(50), Step::Query(50));
}

#[test]
fn miss_ends_in_sky() {
    assert_eq!(advance(50, Event::Missed), Step::Sky);
}

#[test]
fn absorption_ends_in_black() {
    assert_eq!(advance(50, Event::Absorbed), Step::Black);
}

#[test]
fn scatter_spends_one_bounce() {
    assert_eq!(advance(50, Event::Scattered), Step::Query(49));
    assert_eq!(advance(1, Event::Scattered), Step::Black);
}

#[test]
fn endless_scattering_stops_after_depth_queries() {
    let depth: u16 = 5;
    let mut step = begin(depth);
    let mut queries = 0;
    while let Step::Query(budget) = step {
        queries += 1;
        step = advance(budget, Event::Scattered);
    }
    assert_eq!(queries, 5);
    assert_eq!(step, Step::Black);
}
