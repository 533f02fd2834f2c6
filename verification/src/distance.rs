//! Distance metrics between two cells of the grid.

use vstd::prelude::*;

verus! {

/// The distance that stands for "unreachable": larger than any distance
/// across the grid, so that every animation treats it as out of range.
pub const SENTINEL: u32 = 1024;

/// A distance, held exactly as its square.
///
/// The Euclidean distance between two cells is in general irrational; its
/// square is an integer, and since distances are never negative the square
/// determines the distance.
#[derive(Clone, Copy, Debug, PartialEq, Eq, Structural)]
pub struct Span {
    pub squared: u32,
}

impl Span {
    /// The distance `n`.
    pub fn whole(n: u16) -> (r: Span)
        ensures
            r.squared == n * n,
    {
        assert(n * n <= 65535 * 65535) by (nonlinear_arith)
            requires
                0 <= n <= 65535,
        ;
        let wide: u32 = n as u32;
        Span { squared: wide * wide }
    }

    /// The sentinel distance.
    pub fn unreachable() -> (r: Span)
        ensures
            r.squared == SENTINEL * SENTINEL,
    {
        Span { squared: SENTINEL * SENTINEL }
    }

    /// Whether this distance is strictly less than `limit`.
    pub fn within(&self, limit: u16) -> (r: bool)
        ensures
            r == (self.squared < limit * limit),
    {
        assert(limit * limit <= 65535 * 65535) by (nonlinear_arith)
            requires
                0 <= limit <= 65535,
        ;
        let wide: u32 = limit as u32;
        self.squared < wide * wide
    }
}

/// A way to measure how far one cell is from another.
#[derive(Clone, Copy, Debug, PartialEq, Eq, Structural)]
pub enum Distance {
    /// Straight-line distance.
    Euclidean,
    /// The larger of the two coordinate differences.
    Chebyshev,
    /// The sum of the two coordinate differences.
    Manhattan,
    /// Distance along a shared row or column; unreachable otherwise.
    Rook,
    /// Distance along a shared diagonal; unreachable otherwise.
    Bishop,
}

/// The absolute difference of two coordinates.
pub open spec fn gap(a: u8, b: u8) -> int {
    if a <= b {
        b - a
    } else {
        a - b
    }
}

/// The distance from `(x0, y0)` to `(x1, y1)` under `metric`, squared.
pub open spec fn squared_distance(metric: Distance, x0: u8, y0: u8, x1: u8, y1: u8) -> int {
    let dx = gap(x0, x1);
    let dy = gap(y0, y1);
    match metric {
        Distance::Euclidean => dx * dx + dy * dy,
        Distance::Chebyshev => if dx >= dy {
            dx * dx
        } else {
            dy * dy
        },
        Distance::Manhattan => (dx + dy) * (dx + dy),
        Distance::Rook => if dx == 0 {
            dy * dy
        } else if dy == 0 {
            dx * dx
        } else {
            SENTINEL * SENTINEL
        },
        Distance::Bishop => if dx == dy {
            dy * dy
        } else {
            SENTINEL * SENTINEL
        },
    }
}

/// The metric that a selector picks: the selector modulo six, where the
/// sixth value falls back to the Euclidean metric.
pub open spec fn metric_of(i: u8) -> Distance {
    match i % 6 {
        1 => Distance::Chebyshev,
        2 => Distance::Manhattan,
        3 => Distance::Rook,
        4 => Distance::Bishop,
        _ => Distance::Euclidean,
    }
}

/// The absolute difference of two coordinates.
pub fn span_between(a: u8, b: u8) -> (r: u8)
    ensures
        r == gap(a, b),
{
    if a <= b {
        b - a
    } else {
        a - b
    }
}

impl Distance {
    /// Resolves a selector to a metric.
    pub fn from_int(i: u8) -> (r: Distance)
        ensures
            r == metric_of(i),
    {
        match i % 6 {
            0 => Distance::Euclidean,
            1 => Distance::Chebyshev,
            2 => Distance::Manhattan,
            3 => Distance::Rook,
            4 => Distance::Bishop,
            _ => Distance::Euclidean,
        }
    }

    /// Measures the distance from `(x0, y0)` to `(x1, y1)`.
    pub fn eval(&self, x0: u8, y0: u8, x1: u8, y1: u8) -> (r: Span)
        ensures
            r.squared == squared_distance(*self, x0, y0, x1, y1),
    {
        let dx: u32 = span_between(x0, x1) as u32;
        let dy: u32 = span_between(y0, y1) as u32;
        assert(dx * dx <= 255 * 255 && dy * dy <= 255 * 255 && (dx + dy) * (dx + dy) <= 510 * 510)
            by (nonlinear_arith)
            requires
                0 <= dx <= 255,
                0 <= dy <= 255,
        ;
        let squared: u32 = match self {
            Distance::Euclidean => dx * dx + dy * dy,
            Distance::Chebyshev => if dx >= dy {
                dx * dx
            } else {
                dy * dy
            },
            Distance::Manhattan => (dx + dy) * (dx + dy),
            Distance::Rook => if dx == 0 {
                dy * dy
            } else if dy == 0 {
                dx * dx
            } else {
                SENTINEL * SENTINEL
            },
            Distance::Bishop => if dx == dy {
                dy * dy
            } else {
                SENTINEL * SENTINEL
            },
        };
        Span { squared }
    }
}

/// Every metric is symmetric in its two cells.
pub proof fn lemma_distance_symmetric(metric: Distance, x0: u8, y0: u8, x1: u8, y1: u8)
    ensures
        squared_distance(metric, x0, y0, x1, y1) == squared_distance(metric, x1, y1, x0, y0),
{
}

/// A cell is at distance zero from itself under every metric.
pub proof fn lemma_distance_to_self(metric: Distance, x: u8, y: u8)
    ensures
        squared_distance(metric, x, y, x, y) == 0,
{
}

/// On the grid, every distance that is not the sentinel is less than the
/// sentinel.
pub proof fn lemma_sentinel_exceeds_grid(metric: Distance, x0: u8, y0: u8, x1: u8, y1: u8)
    requires
        x0 < 8,
        y0 < 8,
        x1 < 8,
        y1 < 8,
    ensures
        squared_distance(metric, x0, y0, x1, y1) == SENTINEL * SENTINEL || squared_distance(
            metric,
            x0,
            y0,
            x1,
            y1,
        ) <= 14 * 14,
{
    let dx = gap(x0, x1);
    let dy = gap(y0, y1);
    assert(dx * dx <= 49 && dy * dy <= 49 && (dx + dy) * (dx + dy) <= 196) by (nonlinear_arith)
        requires
            0 <= dx <= 7,
            0 <= dy <= 7,
    ;
}

} // verus!
