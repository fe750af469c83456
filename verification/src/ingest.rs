//! The state that the reader of the input keeps, and what each line does to
//! it.
//!
//! The reader blocks on its input, so the loop itself lives outside this
//! crate. It hands every arrival to `Ingest::accept`, which updates the
//! series and the count of captured lines, and then asks `next_step` whether
//! to read on.

use crate::capture::{capture_of, resets, Captured, CaptureSpec, CapturedView, SpecView};
use crate::point::PointView;
use crate::series::Series;
use vstd::prelude::*;

verus! {

/// The series and the number of lines captured so far. The count goes up by
/// one with each line that gives a point and by nothing else; a reset
/// leaves it alone. It stops at `u64::MAX`.
pub struct Ingest {
    captured: u64,
    series: Series,
}

/// The mathematical value of an `Ingest`.
pub struct IngestView {
    pub captured: u64,
    pub series: Seq<PointView>,
}

impl View for Ingest {
    type V = IngestView;

    closed spec fn view(&self) -> IngestView {
        IngestView { captured: self.captured, series: self.series@ }
    }
}

/// What arrived from the input: a line of text, or bytes that are no text.
pub enum Input<'a> {
    Line(&'a str),
    Unreadable,
}

impl<'a> Input<'a> {
    /// The text of the arrival, if it is text.
    pub open spec fn text(self) -> Option<Seq<char>> {
        match self {
            Input::Line(line) => Some(line@),
            Input::Unreadable => None,
        }
    }
}

/// What the reader does after an arrival.
#[derive(Clone, Copy, Debug, PartialEq, Eq, Structural)]
pub enum Next {
    /// Wait for the next arrival.
    Read,
    /// Leave the loop without reading again.
    Stop,
}

/// What a line did, for whoever wants to log it.
#[derive(Debug, PartialEq, Eq)]
pub struct LineReport {
    /// What the line contributed to the series.
    pub capture: Captured,
    /// Whether the line emptied the series.
    pub reset: bool,
}

/// The mathematical value of a `LineReport`.
pub struct ReportView {
    pub capture: CapturedView,
    pub reset: bool,
}

impl View for LineReport {
    type V = ReportView;

    open spec fn view(&self) -> ReportView {
        ReportView { capture: self.capture@, reset: self.reset }
    }
}

/// The state at the start: no line captured, the series empty.
pub open spec fn start() -> IngestView {
    IngestView { captured: 0, series: Seq::empty() }
}

/// What is reported of a line that arrives in the given state.
pub open spec fn report_of(spec: SpecView, state: IngestView, line: Seq<char>) -> ReportView {
    ReportView { capture: capture_of(spec, line, state.captured), reset: resets(spec, line) }
}

/// The count after a line with the given contribution.
pub open spec fn count_after(count: u64, capture: CapturedView) -> u64 {
    if capture is Point && count < u64::MAX {
        (count + 1) as u64
    } else {
        count
    }
}

/// The series after a line with the given contribution was added to it,
/// before any reset.
pub open spec fn series_with(series: Seq<PointView>, capture: CapturedView) -> Seq<PointView> {
    match capture {
        CapturedView::Point(point) => series.push(point),
        _ => series,
    }
}

/// The state after a line: its point, if it gives one, is appended and
/// counted; then, if the line is a reset, the series is emptied.
pub open spec fn after_line(spec: SpecView, state: IngestView, line: Seq<char>) -> IngestView {
    let capture = capture_of(spec, line, state.captured);
    IngestView {
        captured: count_after(state.captured, capture),
        series: if resets(spec, line) {
            Seq::empty()
        } else {
            series_with(state.series, capture)
        },
    }
}

/// The state after an arrival. One that is no text changes nothing.
pub open spec fn after_input(spec: SpecView, state: IngestView, text: Option<Seq<char>>) -> IngestView {
    match text {
        Some(line) => after_line(spec, state, line),
        None => state,
    }
}

/// The state after a run of lines, in order.
pub open spec fn after_lines(spec: SpecView, state: IngestView, lines: Seq<Seq<char>>) -> IngestView
    decreases lines.len(),
{
    if lines.len() == 0 {
        state
    } else {
        after_line(spec, after_lines(spec, state, lines.drop_last()), lines.last())
    }
}

/// What the reader does after an arrival. The flag is looked at after each
/// line that was processed; an arrival that was skipped is not one.
pub open spec fn next_of(processed: bool, keep_running: bool) -> Next {
    if processed && !keep_running {
        Next::Stop
    } else {
        Next::Read
    }
}

impl Ingest {
    /// The state at the start: no line captured, the series empty.
    pub fn new() -> (ingest: Ingest)
        ensures
            ingest@ == start(),
    {
        Ingest { captured: 0, series: Series::new() }
    }

    /// The number of lines captured so far.
    pub fn captured(&self) -> (count: u64)
        ensures
            count == self@.captured,
    {
        self.captured
    }

    /// The series as it is now.
    pub fn series(&self) -> (series: &Series)
        ensures
            series@ == self@.series,
    {
        &self.series
    }

    /// Processes one line: appends and counts its point, if it gives one,
    /// then empties the series if the line is a reset.
    pub fn feed(&mut self, spec: &CaptureSpec, line: &str) -> (report: LineReport)
        ensures
            final(self)@ == after_line(spec@, old(self)@, line@),
            report@ == report_of(spec@, old(self)@, line@),
            report.reset ==> final(self)@.series == Seq::<PointView>::empty(),
            !(report.capture@ is Point) ==> final(self)@.captured == old(self)@.captured,
            !(report.capture@ is Point) && !report.reset ==> final(self)@ == old(self)@,
    {
        let capture = spec.capture(line, self.captured);
        match &capture {
            Captured::Point(point) => {
                self.series.append(point.clone());
                if self.captured < u64::MAX {
                    self.captured = self.captured + 1;
                }
            },
            _ => {},
        }
        let reset = spec.is_reset(line);
        if reset {
            self.series.clear();
        }
        LineReport { capture, reset }
    }

    /// Takes one arrival from the input. A line is processed and reported;
    /// an arrival that is no text is skipped and changes nothing.
    pub fn accept(&mut self, spec: &CaptureSpec, input: Input<'_>) -> (report: Option<LineReport>)
        ensures
            final(self)@ == after_input(spec@, old(self)@, input.text()),
            report is Some == input.text() is Some,
            report matches Some(told) ==> told@ == report_of(
                spec@,
                old(self)@,
                input.text()->0,
            ),
    {
        match input {
            Input::Line(line) => Some(self.feed(spec, line)),
            Input::Unreadable => None,
        }
    }

    /// Processes a run of lines, in order.
    pub fn feed_all(&mut self, spec: &CaptureSpec, lines: &Vec<String>)
        ensures
            final(self)@ == after_lines(spec@, old(self)@, lines.deep_view()),
    {
        let mut i: usize = 0;
        while i < lines.len()
            invariant
                i <= lines.len(),
                self@ == after_lines(spec@, old(self)@, lines.deep_view().take(i as int)),
            decreases lines.len() - i,
        {
            let ghost before = lines.deep_view().take(i as int);
            let ghost now = lines.deep_view().take(i + 1);
            assert(now.drop_last() =~= before);
            assert(now.last() == lines[i as int]@);
            self.feed(spec, lines[i].as_str());
            i = i + 1;
        }
        assert(lines.deep_view().take(i as int) =~= lines.deep_view());
    }
}

/// Decides what the reader does after an arrival. `processed` says whether
/// the arrival was a line; `keep_running` is the flag, read once the line
/// has been dealt with.
pub fn next_step(processed: bool, keep_running: bool) -> (next: Next)
    ensures
        next == next_of(processed, keep_running),
{
    if processed && !keep_running {
        Next::Stop
    } else {
        Next::Read
    }
}

/// Whether a line gives a point under a configuration. The count of the
/// lines before it has no say in this.
pub open spec fn is_captured(spec: SpecView, line: Seq<char>) -> bool {
    capture_of(spec, line, 0) is Point
}

/// The number of lines in a run that give a point.
pub open spec fn captured_lines(spec: SpecView, lines: Seq<Seq<char>>) -> nat
    decreases lines.len(),
{
    if lines.len() == 0 {
        0
    } else {
        captured_lines(spec, lines.drop_last()) + if is_captured(spec, lines.last()) {
            1nat
        } else {
            0nat
        }
    }
}

/// A count held to the largest value that fits.
pub open spec fn capped(count: int) -> int {
    if count <= u64::MAX {
        count
    } else {
        u64::MAX as int
    }
}

/// The configuration with its reset pattern taken away.
pub open spec fn without_reset(spec: SpecView) -> SpecView {
    SpecView { primary: spec.primary, reset: None, mode: spec.mode }
}

/// Whether a line gives a point does not depend on how many lines were
/// captured before it.
pub proof fn lemma_capture_ignores_count(spec: SpecView, line: Seq<char>, count: u64)
    ensures
        capture_of(spec, line, count) is Point == is_captured(spec, line),
{
}

/// A run of lines can be processed in two parts.
pub proof fn lemma_after_lines_split(
    spec: SpecView,
    state: IngestView,
    first: Seq<Seq<char>>,
    second: Seq<Seq<char>>,
)
    ensures
        after_lines(spec, state, first + second) == after_lines(
            spec,
            after_lines(spec, state, first),
            second,
        ),
    decreases second.len(),
{
    if second.len() == 0 {
        assert(first + second =~= first);
    } else {
        lemma_after_lines_split(spec, state, first, second.drop_last());
        assert((first + second).drop_last() =~= first + second.drop_last());
        assert((first + second).last() == second.last());
    }
}

/// After any run of lines the count has grown by the number of lines that
/// gave a point, resets or not, up to the largest count that can be held.
/// From the start it is that number itself.
pub proof fn lemma_count_is_captured_lines(
    spec: SpecView,
    state: IngestView,
    lines: Seq<Seq<char>>,
)
    ensures
        after_lines(spec, state, lines).captured == capped(
            state.captured + captured_lines(spec, lines),
        ),
        captured_lines(spec, lines) <= u64::MAX ==> after_lines(spec, start(), lines).captured
            == captured_lines(spec, lines),
    decreases lines.len(),
{
    if lines.len() > 0 {
        lemma_count_is_captured_lines(spec, state, lines.drop_last());
        lemma_count_is_captured_lines(spec, start(), lines.drop_last());
        let before = after_lines(spec, state, lines.drop_last());
        lemma_capture_ignores_count(spec, lines.last(), before.captured);
    }
}

/// The count is the same with and without a reset pattern: a reset never
/// touches it.
pub proof fn lemma_count_ignores_resets(spec: SpecView, state: IngestView, lines: Seq<Seq<char>>)
    ensures
        after_lines(spec, state, lines).captured == after_lines(
            without_reset(spec),
            state,
            lines,
        ).captured,
    decreases lines.len(),
{
    if lines.len() > 0 {
        lemma_count_ignores_resets(spec, state, lines.drop_last());
    }
}

/// A line that matches the reset pattern leaves the series empty, whatever
/// came before and whether or not the line gave a point itself.
pub proof fn lemma_reset_empties(spec: SpecView, state: IngestView, lines: Seq<Seq<char>>)
    requires
        lines.len() > 0,
        resets(spec, lines.last()),
    ensures
        after_lines(spec, state, lines).series == Seq::<PointView>::empty(),
{
}

/// On an empty series a line that gives no point changes nothing, whether
/// it is a reset or not: emptying what is empty cannot be told from not
/// emptying it.
pub proof fn lemma_reset_of_empty_is_no_op(spec: SpecView, state: IngestView, line: Seq<char>)
    requires
        state.series.len() == 0,
        !is_captured(spec, line),
    ensures
        after_line(spec, state, line) == state,
{
    lemma_capture_ignores_count(spec, line, state.captured);
    assert(after_line(spec, state, line).series =~= state.series);
}

/// A line that gives no point and is no reset is dropped: the lines around
/// it are processed as if it had not been there.
pub proof fn lemma_dropped_line_is_skipped(
    spec: SpecView,
    state: IngestView,
    before: Seq<Seq<char>>,
    line: Seq<char>,
    after: Seq<Seq<char>>,
)
    requires
        !is_captured(spec, line),
        !resets(spec, line),
    ensures
        after_lines(spec, state, before.push(line) + after) == after_lines(
            spec,
            state,
            before + after,
        ),
{
    let reached = after_lines(spec, state, before);
    lemma_capture_ignores_count(spec, line, reached.captured);
    assert(before.push(line).drop_last() =~= before);
    assert(after_lines(spec, state, before.push(line)) == reached);
    lemma_after_lines_split(spec, state, before.push(line), after);
    lemma_after_lines_split(spec, state, before, after);
}

/// Whether `next` is empty, or is `series` with at most one point more at
/// its end.
pub open spec fn grown_or_emptied(series: Seq<PointView>, next: Seq<PointView>) -> bool {
    ||| next.len() == 0
    ||| next == series
    ||| next.len() == series.len() + 1 && next.drop_last() == series
}

/// A line either empties the series or leaves every point in its place,
/// with at most one new point behind them.
pub proof fn lemma_series_grows_or_empties(spec: SpecView, state: IngestView, line: Seq<char>)
    ensures
        grown_or_emptied(state.series, after_line(spec, state, line).series),
{
    let next = after_line(spec, state, line).series;
    if !resets(spec, line) && capture_of(spec, line, state.captured) is Point {
        assert(next.drop_last() =~= state.series);
    }
}

} // verus!
