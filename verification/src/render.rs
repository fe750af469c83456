//! The decisions of the loop that draws.
//!
//! Each turn of the loop waits a fixed time, asks the window whether it was
//! closed, and if not draws the series as it is at that moment: a line from
//! each point to the next, in the order of arrival.

use vstd::prelude::*;

verus! {

/// The width of the canvas, in pixels.
pub const CANVAS_WIDTH: usize = 680;

/// The height of the canvas, in pixels.
pub const CANVAS_HEIGHT: usize = 320;

/// The bytes that one pixel takes.
pub const BYTES_PER_PIXEL: usize = 4;

/// The time between two frames, in milliseconds. It is not corrected for
/// the time that drawing takes.
pub const FRAME_MILLIS: u64 = 32;

/// What a turn of the loop does after its wait.
#[derive(Clone, Copy, Debug, PartialEq, Eq, Structural)]
pub enum Frame {
    /// Take a snapshot, draw it and show it.
    Draw,
    /// Draw nothing more and begin the shutdown.
    Close,
}

/// The loop draws as long as the window is open and escape is not held.
pub open spec fn frame_of(window_open: bool, escape_down: bool) -> Frame {
    if window_open && !escape_down {
        Frame::Draw
    } else {
        Frame::Close
    }
}

/// Decides what a turn of the loop does, from what the window reports.
pub fn next_frame(window_open: bool, escape_down: bool) -> (frame: Frame)
    ensures
        frame == frame_of(window_open, escape_down),
{
    if window_open && !escape_down {
        Frame::Draw
    } else {
        Frame::Close
    }
}

/// The length in bytes of the buffer that holds one frame.
pub fn buffer_len() -> (len: usize)
    ensures
        len == CANVAS_WIDTH * CANVAS_HEIGHT * BYTES_PER_PIXEL,
        len == 870400,
{
    CANVAS_WIDTH * CANVAS_HEIGHT * BYTES_PER_PIXEL
}

/// The segments of the line through a run of points: one from each point to
/// the point after it. Fewer than two points give no segment.
pub open spec fn segments_of<T>(points: Seq<T>) -> Seq<(T, T)> {
    Seq::new(
        if points.len() > 0 {
            (points.len() - 1) as nat
        } else {
            0
        },
        |i: int| (points[i], points[i + 1]),
    )
}

/// The segments to draw for a snapshot, in order.
pub fn segments<T: Copy>(points: &Vec<T>) -> (pairs: Vec<(T, T)>)
    ensures
        pairs@ == segments_of(points@),
{
    let mut pairs: Vec<(T, T)> = Vec::new();
    let mut i: usize = 1;
    while i < points.len()
        invariant
            1 <= i,
            i <= points.len() || (points.len() == 0 && i == 1),
            pairs.len() == i - 1,
            forall|k: int| 0 <= k < i - 1 ==> #[trigger] pairs@[k] == (points@[k], points@[k + 1]),
        decreases points.len() - i,
    {
        pairs.push((points[i - 1], points[i]));
        i = i + 1;
    }
    assert(pairs@ =~= segments_of(points@));
    pairs
}

} // verus!
