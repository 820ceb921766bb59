//! Core value types: screen rectangles, match-window parameters, search
//! results and the library's error kinds.

use vstd::prelude::*;

verus! {

/// A rectangle in physical screen coordinates, stored as its two corners:
/// `(pos1x, pos1y)` inclusive to `(pos2x, pos2y)` exclusive.
#[derive(Clone, Copy, Debug, PartialEq, Eq, Structural)]
pub struct Point {
    pub pos1x: i32,
    pub pos1y: i32,
    pub pos2x: i32,
    pub pos2y: i32,
}

impl Point {
    /// A well-formed rectangle has positive width and height.
    pub open spec fn wf(self) -> bool {
        self.pos1x < self.pos2x && self.pos1y < self.pos2y
    }

    /// Builds a rectangle from its two corners.
    pub fn new(pos1x: i32, pos1y: i32, pos2x: i32, pos2y: i32) -> (p: Point)
        ensures
            p == (Point { pos1x, pos1y, pos2x, pos2y }),
    {
        Point { pos1x, pos1y, pos2x, pos2y }
    }

    /// The height of the rectangle.
    pub fn height(&self) -> (h: i32)
        requires
            self.wf(),
            self.pos2y - self.pos1y <= i32::MAX,
        ensures
            h == self.pos2y - self.pos1y,
    {
        self.pos2y - self.pos1y
    }

    /// The width of the rectangle.
    pub fn width(&self) -> (w: i32)
        requires
            self.wf(),
            self.pos2x - self.pos1x <= i32::MAX,
        ensures
            w == self.pos2x - self.pos1x,
    {
        self.pos2x - self.pos1x
    }

    /// The left edge.
    pub fn x(&self) -> (x: i32)
        ensures
            x == self.pos1x,
    {
        self.pos1x
    }

    /// The top edge.
    pub fn y(&self) -> (y: i32)
        ensures
            y == self.pos1y,
    {
        self.pos1y
    }
}

/// Parameters of one match run: the window size the block finder looks for,
/// and whether the operator forced the distance comparison globally.
#[derive(Clone, Copy, Debug)]
pub struct MatchOptions {
    pub force_distance: bool,
    pub limit_x: usize,
    pub limit_y: usize,
}

impl MatchOptions {
    /// Match windows are at least one pixel in each direction.
    pub open spec fn wf(self) -> bool {
        self.limit_x >= 1 && self.limit_y >= 1
    }

    /// Packs the options. The window must be at least one pixel in each
    /// direction.
    pub fn new(force_distance: bool, limit_x: usize, limit_y: usize) -> (o: MatchOptions)
        requires
            limit_x >= 1,
            limit_y >= 1,
        ensures
            o == (MatchOptions { force_distance, limit_x, limit_y }),
            o.wf(),
    {
        MatchOptions { force_distance, limit_x, limit_y }
    }

    /// Whether the distance comparison is forced for every template.
    pub fn force_distance(&self) -> (b: bool)
        ensures
            b == self.force_distance,
    {
        self.force_distance
    }

    /// The window width the block finder looks for.
    pub fn limit_x(&self) -> (x: usize)
        ensures
            x == self.limit_x,
    {
        self.limit_x
    }

    /// The window height the block finder looks for.
    pub fn limit_y(&self) -> (y: usize)
        ensures
            y == self.limit_y,
    {
        self.limit_y
    }
}

/// How the rectangle to capture is chosen for a target: a literal rectangle
/// from configuration, the fixed strip at the top-right edge of the monitor,
/// or the default rectangle computed from the monitor's centre.
#[derive(Clone, Copy, Debug)]
pub enum RegionChoice {
    Literal(Point),
    TopRightStrip,
    Auto,
}

/// The outcome of a block search: the absolute screen coordinate of the
/// centre of the first all-true window, or nothing.
#[derive(Clone, Copy, Debug, PartialEq, Eq, Structural)]
pub enum SearchResult {
    Found(usize, usize),
    NotFound,
}

/// The error kinds the core distinguishes.
#[derive(Clone, Copy, Debug, PartialEq, Eq, Structural)]
pub enum ErrorKind {
    /// The capture provider reports no primary monitor.
    NoDisplay,
    /// The OS refused the capture region.
    CaptureFailed,
    /// The input synthesizer returned an error.
    InputFailed,
    /// The configuration file was unparseable or held keys out of range.
    ConfigInvalid,
    /// A programmer error, such as a match window larger than the image.
    Internal,
}

/// What the library reads of a monitor descriptor: its origin and size.
#[derive(Clone, Copy, Debug, PartialEq, Eq, Structural)]
pub struct MonitorInfo {
    pub x: i32,
    pub y: i32,
    pub width: u32,
    pub height: u32,
}

} // verus!
