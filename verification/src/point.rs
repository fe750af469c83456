//! The points of the series, and the values that their coordinates hold.
//!
//! A coordinate is kept as the thing it was read from: the running count of
//! captured lines, or the text of a group. What number a text stands for is
//! left to the code that draws; a text that is no number, and a group that is
//! absent, are drawn as zero.

use vstd::prelude::*;

verus! {

/// One coordinate of a point.
#[derive(Debug, PartialEq, Eq)]
pub enum Coord {
    /// The number of lines that had been captured before this one.
    Count(u64),
    /// The text of a group of the match, digits or not.
    Text(String),
    /// The group took no part in the match, or the pattern has no such group.
    Absent,
}

/// The mathematical value of a `Coord`.
pub enum CoordView {
    Count(u64),
    Text(Seq<char>),
    Absent,
}

impl View for Coord {
    type V = CoordView;

    open spec fn view(&self) -> CoordView {
        match self {
            Coord::Count(n) => CoordView::Count(*n),
            Coord::Text(text) => CoordView::Text(text@),
            Coord::Absent => CoordView::Absent,
        }
    }
}

impl Clone for Coord {
    fn clone(&self) -> (copy: Coord)
        ensures
            copy == *self,
    {
        match self {
            Coord::Count(n) => Coord::Count(*n),
            Coord::Text(text) => Coord::Text(text.clone()),
            Coord::Absent => Coord::Absent,
        }
    }
}

/// One sample of the series. Points have no identity beyond their value and
/// their place in the series.
#[derive(Debug, PartialEq, Eq)]
pub struct CapturedPoint {
    pub x: Coord,
    pub y: Coord,
}

/// The mathematical value of a `CapturedPoint`.
pub struct PointView {
    pub x: CoordView,
    pub y: CoordView,
}

impl View for CapturedPoint {
    type V = PointView;

    open spec fn view(&self) -> PointView {
        PointView { x: self.x@, y: self.y@ }
    }
}

impl Clone for CapturedPoint {
    fn clone(&self) -> (copy: CapturedPoint)
        ensures
            copy == *self,
    {
        CapturedPoint { x: self.x.clone(), y: self.y.clone() }
    }
}

impl CapturedPoint {
    /// A point of two coordinates.
    pub fn new(x: Coord, y: Coord) -> (point: CapturedPoint)
        ensures
            point.x == x,
            point.y == y,
    {
        CapturedPoint { x, y }
    }
}

/// The views of a sequence of points, in the same order.
pub open spec fn views(points: Seq<CapturedPoint>) -> Seq<PointView> {
    points.map_values(|p: CapturedPoint| p@)
}

} // verus!
