//! The capture rules: from a line of text to a point, a reset, or nothing.
//!
//! A `CaptureSpec` is made once from the configuration. After that,
//! `capture` says what a line contributes to the series and `is_reset` says
//! whether the line empties it. The two are independent: one line can do both.

use crate::mode::CaptureMode;
use crate::pattern::{
    compile_regex, find_groups, has_match, pattern_captures, pattern_compiles, pattern_matches,
    Pattern,
};
use crate::point::{CapturedPoint, Coord, CoordView, PointView};
use vstd::prelude::*;

verus! {

/// Why a configuration was refused.
#[derive(Clone, Copy, Debug, PartialEq, Eq, Structural)]
pub enum ConfigError {
    /// The primary pattern does not compile.
    BadPattern,
    /// The reset pattern does not compile.
    BadResetPattern,
    /// The mode selector is not one of the four known ones.
    UnknownMode,
}

/// What a line contributes to the series.
#[derive(Debug, PartialEq, Eq)]
pub enum Captured {
    /// The primary pattern has no match in the line.
    NoMatch,
    /// The pattern matched, but the mode reads two groups and the pattern
    /// does not have exactly two. The line is dropped.
    WrongGroupCount,
    /// The line gives this point.
    Point(CapturedPoint),
}

/// The mathematical value of a `Captured`.
pub enum CapturedView {
    NoMatch,
    WrongGroupCount,
    Point(PointView),
}

impl View for Captured {
    type V = CapturedView;

    open spec fn view(&self) -> CapturedView {
        match self {
            Captured::NoMatch => CapturedView::NoMatch,
            Captured::WrongGroupCount => CapturedView::WrongGroupCount,
            Captured::Point(point) => CapturedView::Point(point@),
        }
    }
}

impl Captured {
    /// The point, where the line gave one.
    pub fn into_point(self) -> (point: Option<CapturedPoint>)
        ensures
            point matches Some(p) ==> self@ == CapturedView::Point(p@),
            point is None ==> !(self@ is Point),
    {
        match self {
            Captured::Point(point) => Some(point),
            _ => None,
        }
    }
}

/// The mathematical value of a `CaptureSpec`: the texts of its patterns and
/// its mode.
pub struct SpecView {
    pub primary: Seq<char>,
    pub reset: Option<Seq<char>>,
    pub mode: CaptureMode,
}

/// A capture configuration that was accepted. It does not change afterwards.
pub struct CaptureSpec {
    primary: Pattern,
    reset: Option<Pattern>,
    mode: CaptureMode,
}

impl View for CaptureSpec {
    type V = SpecView;

    closed spec fn view(&self) -> SpecView {
        SpecView {
            primary: self.primary@,
            reset: match self.reset {
                Some(pattern) => Some(pattern@),
                None => None,
            },
            mode: self.mode,
        }
    }
}

/// The text of an optional pattern.
pub open spec fn text_of(pattern: Option<&str>) -> Option<Seq<char>> {
    match pattern {
        Some(text) => Some(text@),
        None => None,
    }
}

/// The first fault of a configuration, if it has one. The primary pattern is
/// looked at first, then the reset pattern, then the mode selector.
pub open spec fn config_fault(
    primary: Seq<char>,
    reset: Option<Seq<char>>,
    selector: Seq<char>,
) -> Option<ConfigError> {
    if !pattern_compiles(primary) {
        Some(ConfigError::BadPattern)
    } else if reset is Some && !pattern_compiles(reset->0) {
        Some(ConfigError::BadResetPattern)
    } else if CaptureMode::of_token(selector) is None {
        Some(ConfigError::UnknownMode)
    } else {
        None
    }
}

/// What three texts give as a configuration: their first fault, or, where
/// they have none, the two patterns and the mode that the selector names.
pub open spec fn configured(
    primary: Seq<char>,
    reset: Option<Seq<char>>,
    selector: Seq<char>,
) -> Result<SpecView, ConfigError> {
    match config_fault(primary, reset, selector) {
        Some(fault) => Err(fault),
        None => Ok(SpecView { primary, reset, mode: CaptureMode::of_token(selector)->0 }),
    }
}

/// The coordinate read from group `i` of a match: the group's text, or
/// `Absent` where the match has no such group or the group took no part.
pub open spec fn coord_of_group(groups: Seq<Option<Seq<char>>>, i: int) -> CoordView {
    if 0 <= i < groups.len() {
        match groups[i] {
            Some(text) => CoordView::Text(text),
            None => CoordView::Absent,
        }
    } else {
        CoordView::Absent
    }
}

/// Whether a match comes from a pattern with exactly two groups. The whole
/// match is entry 0, so such a match has three entries.
pub open spec fn has_two_groups(groups: Seq<Option<Seq<char>>>) -> bool {
    groups.len() == 3
}

/// What a match gives under a mode, when `count` lines were captured before.
pub open spec fn capture_of_groups(
    mode: CaptureMode,
    groups: Seq<Option<Seq<char>>>,
    count: u64,
) -> CapturedView {
    match mode {
        CaptureMode::YFromFirstGroup => CapturedView::Point(
            PointView { x: CoordView::Count(count), y: coord_of_group(groups, 1) },
        ),
        CaptureMode::XFromFirstGroup => CapturedView::Point(
            PointView { x: coord_of_group(groups, 1), y: CoordView::Count(count) },
        ),
        CaptureMode::XYFromTwoGroups => if has_two_groups(groups) {
            CapturedView::Point(
                PointView { x: coord_of_group(groups, 1), y: coord_of_group(groups, 2) },
            )
        } else {
            CapturedView::WrongGroupCount
        },
        CaptureMode::YXFromTwoGroups => if has_two_groups(groups) {
            CapturedView::Point(
                PointView { x: coord_of_group(groups, 2), y: coord_of_group(groups, 1) },
            )
        } else {
            CapturedView::WrongGroupCount
        },
    }
}

/// What the outcome of a search gives under a mode.
pub open spec fn capture_of_match(
    mode: CaptureMode,
    found: Option<Seq<Option<Seq<char>>>>,
    count: u64,
) -> CapturedView {
    match found {
        Some(groups) => capture_of_groups(mode, groups, count),
        None => CapturedView::NoMatch,
    }
}

/// What a line gives under a configuration, when `count` lines were captured
/// before.
pub open spec fn capture_of(spec: SpecView, line: Seq<char>, count: u64) -> CapturedView {
    capture_of_match(spec.mode, pattern_captures(spec.primary, line), count)
}

/// Whether a line empties the series: a reset pattern is configured and has
/// a match in the line.
pub open spec fn resets(spec: SpecView, line: Seq<char>) -> bool {
    spec.reset is Some && pattern_matches(spec.reset->0, line)
}

/// Reads the coordinate of group `i` out of the groups of a match.
pub fn group_coord(groups: &Vec<Option<String>>, i: usize) -> (coord: Coord)
    ensures
        coord@ == coord_of_group(groups.deep_view(), i as int),
{
    if i < groups.len() {
        match &groups[i] {
            Some(text) => Coord::Text(text.clone()),
            None => Coord::Absent,
        }
    } else {
        Coord::Absent
    }
}

/// Turns the groups of a match into a point, as the mode says. In the modes
/// of one group the first coordinate or the second is `count`; in the modes
/// of two groups the match is dropped unless the pattern has exactly two.
/// What the groups hold is not looked at: a text that is no number still
/// gives a point.
pub fn capture_from_groups(
    mode: CaptureMode,
    groups: &Vec<Option<String>>,
    count: u64,
) -> (capture: Captured)
    ensures
        capture@ == capture_of_groups(mode, groups.deep_view(), count),
{
    match mode {
        CaptureMode::YFromFirstGroup => Captured::Point(
            CapturedPoint { x: Coord::Count(count), y: group_coord(groups, 1) },
        ),
        CaptureMode::XFromFirstGroup => Captured::Point(
            CapturedPoint { x: group_coord(groups, 1), y: Coord::Count(count) },
        ),
        CaptureMode::XYFromTwoGroups => {
            if groups.len() == 3 {
                Captured::Point(
                    CapturedPoint { x: group_coord(groups, 1), y: group_coord(groups, 2) },
                )
            } else {
                Captured::WrongGroupCount
            }
        },
        CaptureMode::YXFromTwoGroups => {
            if groups.len() == 3 {
                Captured::Point(
                    CapturedPoint { x: group_coord(groups, 2), y: group_coord(groups, 1) },
                )
            } else {
                Captured::WrongGroupCount
            }
        },
    }
}

/// Turns the outcome of a search into what the line contributes.
pub fn capture_from_match(
    mode: CaptureMode,
    found: &Option<Vec<Option<String>>>,
    count: u64,
) -> (capture: Captured)
    ensures
        capture@ == capture_of_match(mode, found.deep_view(), count),
{
    match found {
        Some(groups) => capture_from_groups(mode, groups, count),
        None => Captured::NoMatch,
    }
}

impl CaptureSpec {
    /// Builds the configuration from its three texts. It is accepted when
    /// both patterns compile and the selector names a mode; otherwise the
    /// first fault is reported.
    pub fn new(primary: &str, reset: Option<&str>, selector: &str) -> (made: Result<
        CaptureSpec,
        ConfigError,
    >)
        ensures
            made matches Ok(spec) ==> configured(primary@, text_of(reset), selector@) == Ok::<
                SpecView,
                ConfigError,
            >(spec@),
            made matches Err(fault) ==> configured(primary@, text_of(reset), selector@) == Err::<
                SpecView,
                ConfigError,
            >(fault),
    {
        let primary_pattern = match compile_regex(primary) {
            Ok(pattern) => pattern,
            Err(_) => {
                return Err(ConfigError::BadPattern);
            },
        };
        let reset_pattern = match reset {
            Some(text) => match compile_regex(text) {
                Ok(pattern) => Some(pattern),
                Err(_) => {
                    return Err(ConfigError::BadResetPattern);
                },
            },
            None => None,
        };
        match CaptureMode::from_token(selector) {
            Some(mode) => Ok(CaptureSpec { primary: primary_pattern, reset: reset_pattern, mode }),
            None => Err(ConfigError::UnknownMode),
        }
    }

    /// The mode of the configuration.
    pub fn mode(&self) -> (mode: CaptureMode)
        ensures
            mode == self@.mode,
    {
        self.mode
    }

    /// The primary pattern.
    pub fn primary(&self) -> (pattern: &Pattern)
        ensures
            pattern@ == self@.primary,
    {
        &self.primary
    }

    /// The reset pattern, if one is configured.
    pub fn reset(&self) -> (pattern: Option<&Pattern>)
        ensures
            pattern is Some == self@.reset is Some,
            pattern matches Some(p) ==> Some(p@) == self@.reset,
    {
        self.reset.as_ref()
    }

    /// What `line` contributes when `count` lines were captured before it.
    pub fn capture(&self, line: &str, count: u64) -> (capture: Captured)
        ensures
            capture@ == capture_of(self@, line@, count),
    {
        let found = find_groups(&self.primary, line);
        capture_from_match(self.mode, &found, count)
    }

    /// Whether `line` empties the series.
    pub fn is_reset(&self, line: &str) -> (reset: bool)
        ensures
            reset == resets(self@, line@),
    {
        match &self.reset {
            Some(pattern) => has_match(pattern, line),
            None => false,
        }
    }
}

/// Whether a match gives a point is decided by the mode and by the number of
/// groups alone. What the groups hold has no say: a text that is no number,
/// and a group that took no part, give a point like any other.
pub proof fn lemma_point_whatever_the_text(
    mode: CaptureMode,
    groups: Seq<Option<Seq<char>>>,
    count: u64,
)
    ensures
        capture_of_groups(mode, groups, count) is Point <==> !mode.needs_two_groups()
            || has_two_groups(groups),
        capture_of_groups(mode, groups, count) is WrongGroupCount <==> mode.needs_two_groups()
            && !has_two_groups(groups),
        !(capture_of_groups(mode, groups, count) is NoMatch),
{
}

/// Whether two contributions are the same but for `x` and `y` changing
/// places.
pub open spec fn mirrored(a: CapturedView, b: CapturedView) -> bool {
    match (a, b) {
        (CapturedView::Point(p), CapturedView::Point(q)) => p.x == q.y && p.y == q.x,
        (CapturedView::WrongGroupCount, CapturedView::WrongGroupCount) => true,
        (CapturedView::NoMatch, CapturedView::NoMatch) => true,
        _ => false,
    }
}

/// The two modes of one group give the same two coordinates in opposite
/// places, and so do the two modes of two groups.
pub proof fn lemma_modes_mirror(groups: Seq<Option<Seq<char>>>, count: u64)
    ensures
        mirrored(
            capture_of_groups(CaptureMode::YFromFirstGroup, groups, count),
            capture_of_groups(CaptureMode::XFromFirstGroup, groups, count),
        ),
        mirrored(
            capture_of_groups(CaptureMode::XYFromTwoGroups, groups, count),
            capture_of_groups(CaptureMode::YXFromTwoGroups, groups, count),
        ),
{
}

/// A pattern that does not compile is a fault whatever the rest of the
/// configuration holds, so no configuration with one is ever accepted.
pub proof fn lemma_bad_pattern_is_refused(
    primary: Seq<char>,
    reset: Option<Seq<char>>,
    selector: Seq<char>,
)
    ensures
        !pattern_compiles(primary) ==> config_fault(primary, reset, selector) == Some(
            ConfigError::BadPattern,
        ),
        reset is Some && !pattern_compiles(reset->0) ==> config_fault(primary, reset, selector)
            is Some,
        config_fault(primary, reset, selector) is None ==> pattern_compiles(primary) && (reset
            is Some ==> pattern_compiles(reset->0)) && CaptureMode::of_token(selector) is Some,
{
}

} // verus!
