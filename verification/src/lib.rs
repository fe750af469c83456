//! Turns a stream of text lines into a series of chart samples.
//!
//! A line is matched against a primary pattern; the groups of the match and a
//! running count of captured lines give the two coordinates of a sample. A
//! second, optional pattern empties the series. The modules also hold the
//! decisions of the loops that run around this: when the reader stops, when a
//! frame is drawn, and how the program shuts down.

pub mod capture;
pub mod config;
pub mod ingest;
pub mod mode;
pub mod pattern;
pub mod point;
pub mod render;
pub mod series;
pub mod shutdown;
