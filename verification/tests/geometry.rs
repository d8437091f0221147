use serverwitch::error::Error;
use serverwitch::geometry::{fit, Area, Fit};

#[test]
fn rows_that_fit_change_nothing() {
    let area = Area::new(0, 3, 80, 4);
    let fitted = fit(area, 10, 2, 2).unwrap();
    assert_eq!(fitted, Fit { area, reclaimed: 0, evicted: 0 });
}

#[test]
fn the_area_grows_down_before_anything_scrolls() {
    let fitted = fit(Area::new(0, 3, 80, 0), 10, 2, 0).unwrap();
    assert_eq!(fitted, Fit { area: Area::new(0, 3, 80, 2), reclaimed: 0, evicted: 0 });
}

#[test]
fn the_area_takes_the_rows_above_once_it_is_at_the_bottom() {
    let fitted = fit(Area::new(0, 3, 80, 7), 10, 9, 0).unwrap();
    assert_eq!(fitted, Fit { area: Area::new(0, 1, 80, 9), reclaimed: 2, evicted: 0 });
}

#[test]
fn rows_leave_only_an_area_that_spans_the_terminal() {
    let fitted = fit(Area::new(0, 0, 80, 5), 5, 6, 0).unwrap();
    assert_eq!(fitted, Fit { area: Area::new(0, 0, 80, 5), reclaimed: 0, evicted: 1 });
}

#[test]
fn growing_reclaiming_and_evicting_follow_one_another() {
    let fitted = fit(Area::new(4, 2, 80, 1), 5, 8, 2).unwrap();
    assert_eq!(fitted, Fit { area: Area::new(4, 0, 80, 5), reclaimed: 2, evicted: 5 });
}

#[test]
fn the_margin_counts_like_rows() {
    let fitted = fit(Area::new(0, 0, 80, 5), 5, 5, 2).unwrap();
    assert_eq!(fitted.evicted, 2);
    assert_eq!(fitted.area, Area::new(0, 0, 80, 5));
}

#[test]
fn a_terminal_shorter_than_the_margin_is_refused() {
    assert_eq!(fit(Area::new(0, 0, 80, 0), 1, 0, 2), Err(Error::TerminalTooSmall));
    assert!(fit(Area::new(0, 0, 80, 0), 2, 0, 2).is_ok());
}

#[test]
fn an_empty_terminal_holds_no_row() {
    let fitted = fit(Area::new(0, 0, 80, 0), 0, 3, 0).unwrap();
    assert_eq!(fitted, Fit { area: Area::new(0, 0, 80, 0), reclaimed: 0, evicted: 3 });
}

#[test]
fn an_area_that_reaches_below_the_terminal_is_cut_down_first() {
    let fitted = fit(Area::new(0, 8, 80, 4), 10, 1, 0).unwrap();
    assert_eq!(fitted, Fit { area: Area::new(0, 8, 80, 2), reclaimed: 0, evicted: 0 });
}

#[test]
fn clamp_keeps_an_area_within_the_terminal() {
    assert_eq!(Area::new(1, 2, 3, 4).clamp(10), Area::new(1, 2, 3, 4));
    assert_eq!(Area::new(1, 8, 3, 4).clamp(10), Area::new(1, 8, 3, 2));
    assert_eq!(Area::new(1, 12, 3, 4).clamp(10), Area::new(1, 10, 3, 0));
}

#[test]
fn bottom_is_the_row_below_the_area() {
    assert_eq!(Area::new(0, 3, 80, 4).bottom(), 7);
    assert_eq!(Area::new(0, 3, 80, 0).bottom(), 3);
    assert_eq!(Area::new(0, 65535, 1, 10).bottom(), 65535);
    assert_eq!(Area::new(5, 3, 80, 4).left(), 5);
    assert_eq!(Area::new(5, 3, 80, 4).top(), 3);
}
