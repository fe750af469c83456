use grapher::capture::{Captured, CaptureSpec};
use grapher::ingest::{next_step, Ingest, Input, Next};
use grapher::point::{CapturedPoint, Coord};
use grapher::series::Series;

fn spec(primary: &str, reset: Option<&str>, selector: &str) -> CaptureSpec {
    match CaptureSpec::new(primary, reset, selector) {
        Ok(spec) => spec,
        Err(fault) => panic!("configuration refused: {:?}", fault),
    }
}

fn number(coord: &Coord) -> f64 {
    match coord {
        Coord::Count(n) => *n as f64,
        Coord::Text(t) => t.parse::<f64>().unwrap_or(0.0),
        Coord::Absent => 0.0,
    }
}

fn plotted(series: &Series) -> Vec<(f64, f64)> {
    series.snapshot().iter().map(|p| (number(&p.x), number(&p.y))).collect()
}

fn lines(texts: &[&str]) -> Vec<String> {
    texts.iter().map(|t| t.to_string()).collect()
}

fn run(spec: &CaptureSpec, texts: &[&str]) -> Ingest {
    let mut ingest = Ingest::new();
    ingest.feed_all(spec, &lines(texts));
    ingest
}

#[test]
fn series_of_first_group_as_y() {
    let spec = spec(r"value: (\d+)", None, "1");
    let ingest = run(&spec, &["value: 10", "foo", "value: 20"]);
    assert_eq!(plotted(ingest.series()), vec![(0.0, 10.0), (1.0, 20.0)]);
    assert_eq!(ingest.captured(), 2);
}

#[test]
fn series_of_first_group_as_x() {
    let spec = spec(r"value: (\d+)", None, "-1");
    let ingest = run(&spec, &["value: 10", "foo", "value: 20"]);
    assert_eq!(plotted(ingest.series()), vec![(10.0, 0.0), (20.0, 1.0)]);
}

#[test]
fn series_of_two_groups() {
    let xy = run(&spec(r"(\d+),(\d+)", None, "12"), &["3,4"]);
    assert_eq!(plotted(xy.series()), vec![(3.0, 4.0)]);
    let yx = run(&spec(r"(\d+),(\d+)", None, "21"), &["3,4"]);
    assert_eq!(plotted(yx.series()), vec![(4.0, 3.0)]);
}

#[test]
fn series_keeps_the_order_of_arrival() {
    let ingest = run(&spec(r"(\d+),(\d+)", None, "12"), &["9,1", "2,2", "5,3", "2,4"]);
    assert_eq!(plotted(ingest.series()), vec![(9.0, 1.0), (2.0, 2.0), (5.0, 3.0), (2.0, 4.0)]);
}

#[test]
fn new_state_is_empty() {
    let ingest = Ingest::new();
    assert_eq!(ingest.captured(), 0);
    assert!(ingest.series().is_empty());
    assert_eq!(ingest.series().len(), 0);
    assert_eq!(ingest.series().snapshot(), Vec::new());
}

#[test]
fn reset_line_empties_the_series() {
    let spec = spec(r"value: (\d+)", Some("^clear$"), "1");
    let mut ingest = run(&spec, &["value: 1", "value: 2"]);
    assert_eq!(ingest.series().len(), 2);
    let report = ingest.feed(&spec, "clear");
    assert!(report.reset);
    assert_eq!(report.capture, Captured::NoMatch);
    assert!(ingest.series().is_empty());
}

#[test]
fn count_goes_on_across_resets() {
    let spec = spec(r"value: (\d+)", Some("^clear$"), "1");
    let ingest = run(
        &spec,
        &["value: 1", "value: 2", "clear", "value: 3", "noise", "clear", "clear", "value: 4", "value: 5"],
    );
    assert_eq!(ingest.captured(), 5);
    assert_eq!(plotted(ingest.series()), vec![(3.0, 4.0), (4.0, 5.0)]);
}

#[test]
fn count_is_the_same_without_the_reset_pattern() {
    let texts = ["value: 1", "clear", "value: 2", "x", "value: 3", "clear"];
    let with_reset = run(&spec(r"value: (\d+)", Some("^clear$"), "1"), &texts);
    let without = run(&spec(r"value: (\d+)", None, "1"), &texts);
    assert_eq!(with_reset.captured(), 3);
    assert_eq!(without.captured(), 3);
    assert!(with_reset.series().is_empty());
    assert_eq!(without.series().len(), 3);
}

#[test]
fn line_that_captures_and_resets_counts_and_empties() {
    let spec = spec(r"(\d+)", Some("0$"), "1");
    let mut ingest = run(&spec, &["11", "12"]);
    let report = ingest.feed(&spec, "20");
    assert!(report.reset);
    assert_eq!(
        report.capture,
        Captured::Point(CapturedPoint::new(Coord::Count(2), Coord::Text("20".to_string())))
    );
    assert!(ingest.series().is_empty());
    assert_eq!(ingest.captured(), 3);
    ingest.feed(&spec, "31");
    assert_eq!(plotted(ingest.series()), vec![(3.0, 31.0)]);
}

#[test]
fn reset_of_an_empty_series_changes_nothing() {
    let spec = spec(r"value: (\d+)", Some("^clear$"), "1");
    let cleared = run(&spec, &["clear", "clear"]);
    assert!(cleared.series().is_empty());
    assert_eq!(cleared.captured(), 0);
    let after_clear = run(&spec, &["clear", "value: 7"]);
    let untouched = run(&spec, &["value: 7"]);
    assert_eq!(after_clear.series().snapshot(), untouched.series().snapshot());
    assert_eq!(after_clear.captured(), untouched.captured());
}

#[test]
fn clearing_an_empty_store_is_no_change() {
    let mut series = Series::new();
    series.clear();
    assert!(series.is_empty());
    assert_eq!(series.snapshot(), Series::new().snapshot());
    series.append(CapturedPoint::new(Coord::Count(0), Coord::Absent));
    series.clear();
    series.clear();
    assert_eq!(series.len(), 0);
}

#[test]
fn store_appends_at_the_end() {
    let mut series = Series::new();
    series.append(CapturedPoint::new(Coord::Count(0), Coord::Text("a".to_string())));
    series.append(CapturedPoint::new(Coord::Count(1), Coord::Absent));
    assert_eq!(series.len(), 2);
    assert!(!series.is_empty());
    assert_eq!(
        series.snapshot(),
        vec![
            CapturedPoint::new(Coord::Count(0), Coord::Text("a".to_string())),
            CapturedPoint::new(Coord::Count(1), Coord::Absent),
        ]
    );
}

#[test]
fn snapshot_is_not_touched_by_later_changes() {
    let mut series = Series::new();
    series.append(CapturedPoint::new(Coord::Count(0), Coord::Absent));
    let before = series.snapshot();
    series.append(CapturedPoint::new(Coord::Count(1), Coord::Absent));
    let between = series.snapshot();
    series.clear();
    assert_eq!(before.len(), 1);
    assert_eq!(between.len(), 2);
    assert_eq!(series.snapshot().len(), 0);
}

#[test]
fn malformed_number_is_plotted_as_zero() {
    let spec = spec(r"value: (\S+)", None, "1");
    let ingest = run(&spec, &["value: 1.5", "value: abc", "value: 2e3", "value: --4"]);
    assert_eq!(plotted(ingest.series()), vec![(0.0, 1.5), (1.0, 0.0), (2.0, 2000.0), (3.0, 0.0)]);
    assert_eq!(ingest.captured(), 4);
}

#[test]
fn dropped_line_leaves_no_trace() {
    let spec = spec(r"value: (\d+)", None, "12");
    let mut ingest = Ingest::new();
    let report = ingest.feed(&spec, "value: 10");
    assert_eq!(report.capture, Captured::WrongGroupCount);
    assert!(!report.reset);
    assert!(ingest.series().is_empty());
    assert_eq!(ingest.captured(), 0);
}

#[test]
fn lines_after_a_dropped_line_are_processed_as_before() {
    let spec = spec(r"(\d+),(\d+)|only (\d+)", None, "1");
    let with_noise = run(&spec, &["1,2", "noise", "3,4"]);
    let without = run(&spec, &["1,2", "3,4"]);
    assert_eq!(with_noise.series().snapshot(), without.series().snapshot());
    assert_eq!(with_noise.captured(), without.captured());
    let strict = self::spec(r"(\d+),(\d+)", Some("^clear$"), "21");
    let ingest = run(&strict, &["1,2", "garbage", "3,4"]);
    assert_eq!(plotted(ingest.series()), vec![(2.0, 1.0), (4.0, 3.0)]);
}

#[test]
fn run_in_two_parts_is_the_run_in_one() {
    let spec = spec(r"v=(\d+)", Some("^clear$"), "-1");
    let whole = run(&spec, &["v=1", "v=2", "clear", "v=3", "x", "v=4"]);
    let mut parts = run(&spec, &["v=1", "v=2", "clear"]);
    parts.feed_all(&spec, &lines(&["v=3", "x", "v=4"]));
    assert_eq!(whole.series().snapshot(), parts.series().snapshot());
    assert_eq!(whole.captured(), parts.captured());
    assert_eq!(plotted(parts.series()), vec![(3.0, 2.0), (4.0, 3.0)]);
}

#[test]
fn accepted_line_is_processed_and_reported() {
    let spec = spec(r"(\d+)", Some("^clear$"), "1");
    let mut ingest = Ingest::new();
    let report = ingest.accept(&spec, Input::Line("5")).unwrap();
    assert_eq!(
        report.capture,
        Captured::Point(CapturedPoint::new(Coord::Count(0), Coord::Text("5".to_string())))
    );
    assert!(!report.reset);
    assert_eq!(ingest.captured(), 1);
    assert_eq!(plotted(ingest.series()), vec![(0.0, 5.0)]);
    let quiet = ingest.accept(&spec, Input::Line("nothing")).unwrap();
    assert_eq!(quiet.capture, Captured::NoMatch);
    assert!(!quiet.reset);
    let clear = ingest.accept(&spec, Input::Line("clear")).unwrap();
    assert!(clear.reset);
    assert!(ingest.series().is_empty());
    assert_eq!(ingest.captured(), 1);
}

#[test]
fn unreadable_arrival_is_skipped() {
    let spec = spec(r"(\d+)", Some("^clear$"), "1");
    let mut ingest = run(&spec, &["1", "2"]);
    let before = ingest.series().snapshot();
    assert!(ingest.accept(&spec, Input::Unreadable).is_none());
    assert_eq!(ingest.series().snapshot(), before);
    assert_eq!(ingest.captured(), 2);
}

#[test]
fn reader_goes_on_while_the_flag_is_up() {
    assert_eq!(next_step(true, true), Next::Read);
    assert_eq!(next_step(false, true), Next::Read);
}

#[test]
fn reader_stops_after_a_line_once_the_flag_is_down() {
    assert_eq!(next_step(true, false), Next::Stop);
}

#[test]
fn reader_does_not_look_at_the_flag_after_a_skipped_arrival() {
    assert_eq!(next_step(false, false), Next::Read);
}
