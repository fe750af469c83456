//! The series of captured points.
//!
//! The series keeps its points in the order in which they arrived. It is
//! filled by one writer and read by whoever draws it; a reader takes a
//! snapshot, a copy that later changes of the series do not touch.

use crate::point::{views, CapturedPoint, PointView};
use vstd::prelude::*;

verus! {

/// An ordered, growable sequence of points. It only ever grows at its end or
/// becomes empty.
pub struct Series {
    points: Vec<CapturedPoint>,
}

impl View for Series {
    type V = Seq<PointView>;

    closed spec fn view(&self) -> Seq<PointView> {
        views(self.points@)
    }
}

/// The series after `clear`, whatever it held before.
pub open spec fn cleared(series: Seq<PointView>) -> Seq<PointView> {
    Seq::empty()
}

impl Series {
    /// The empty series.
    pub fn new() -> (series: Series)
        ensures
            series@ == Seq::<PointView>::empty(),
    {
        let series = Series { points: Vec::new() };
        assert(series@ =~= Seq::<PointView>::empty());
        series
    }

    /// The number of points.
    pub fn len(&self) -> (n: usize)
        ensures
            n == self@.len(),
    {
        self.points.len()
    }

    /// Whether the series holds no point.
    pub fn is_empty(&self) -> (empty: bool)
        ensures
            empty == (self@.len() == 0),
    {
        self.points.len() == 0
    }

    /// Adds a point at the end.
    pub fn append(&mut self, point: CapturedPoint)
        ensures
            final(self)@ == old(self)@.push(point@),
    {
        self.points.push(point);
        assert(self@ =~= old(self)@.push(point@));
    }

    /// Empties the series. The container stays; on an empty series nothing
    /// changes.
    pub fn clear(&mut self)
        ensures
            final(self)@ == cleared(old(self)@),
            old(self)@.len() == 0 ==> final(self)@ == old(self)@,
    {
        self.points.clear();
        assert(self@ =~= Seq::<PointView>::empty());
        assert(old(self)@.len() == 0 ==> self@ =~= old(self)@);
    }

    /// A copy of the points as they are now, in order.
    pub fn snapshot(&self) -> (copy: Vec<CapturedPoint>)
        ensures
            views(copy@) == self@,
    {
        let mut copy: Vec<CapturedPoint> = Vec::new();
        let mut i: usize = 0;
        while i < self.points.len()
            invariant
                i <= self.points.len(),
                copy.len() == i,
                forall|k: int| 0 <= k < i ==> copy@[k]@ == (#[trigger] self.points@[k])@,
            decreases self.points.len() - i,
        {
            copy.push(self.points[i].clone());
            i = i + 1;
        }
        assert(views(copy@) =~= self@);
        copy
    }
}

/// Emptying twice is emptying once, and emptying an empty series changes
/// nothing.
pub proof fn lemma_clear_idempotent(series: Seq<PointView>)
    ensures
        cleared(cleared(series)) == cleared(series),
        series.len() == 0 ==> cleared(series) == series,
{
    assert(series.len() == 0 ==> cleared(series) =~= series);
}

} // verus!
