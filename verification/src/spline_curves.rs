//! Cubic curves: the basis of each kind of curve as exact numbers, and the
//! choice of the control points a parameter falls on. Evaluating a curve at
//! a point is left to the caller.

use vstd::prelude::*;

verus! {

/// Number of control points of one cubic segment.
pub const SEGMENT_POINTS: usize = 4;

/// The kinds of cubic curve.
#[derive(Clone, Copy, Debug, PartialEq, Eq, Structural)]
pub enum CurveKind {
    /// Ends at its first and last control point; the inner two shape it.
    Bezier,
    /// Passes from its second to its third control point.
    CatmullRom,
    /// Stays near its control points without passing through them.
    BSpline,
    /// Given as point, velocity, point, velocity; passes from the first
    /// point to the second.
    Hermite,
}

impl CurveKind {
    /// Entry of the characteristic matrix: how much control point `col`
    /// contributes to the coefficient of the parameter's power `row`, in
    /// parts of [`Self::parts`].
    pub open spec fn entry(self, row: int, col: int) -> int {
        match self {
            CurveKind::Bezier => if row == 0 {
                if col == 0 { 1 } else { 0 }
            } else if row == 1 {
                if col == 0 { -3 } else if col == 1 { 3 } else { 0 }
            } else if row == 2 {
                if col == 0 { 3 } else if col == 1 { -6 } else if col == 2 { 3 } else { 0 }
            } else {
                if col == 0 { -1 } else if col == 1 { 3 } else if col == 2 { -3 } else { 1 }
            },
            CurveKind::CatmullRom => if row == 0 {
                if col == 1 { 2 } else { 0 }
            } else if row == 1 {
                if col == 0 { -1 } else if col == 2 { 1 } else { 0 }
            } else if row == 2 {
                if col == 0 { 2 } else if col == 1 { -5 } else if col == 2 { 4 } else { -1 }
            } else {
                if col == 0 { -1 } else if col == 1 { 3 } else if col == 2 { -3 } else { 1 }
            },
            CurveKind::BSpline => if row == 0 {
                if col == 0 { 1 } else if col == 1 { 4 } else if col == 2 { 1 } else { 0 }
            } else if row == 1 {
                if col == 0 { -3 } else if col == 2 { 3 } else { 0 }
            } else if row == 2 {
                if col == 0 { 3 } else if col == 1 { -6 } else if col == 2 { 3 } else { 0 }
            } else {
                if col == 0 { -1 } else if col == 1 { 3 } else if col == 2 { -3 } else { 1 }
            },
            CurveKind::Hermite => if row == 0 {
                if col == 0 { 1 } else { 0 }
            } else if row == 1 {
                if col == 1 { 1 } else { 0 }
            } else if row == 2 {
                if col == 0 { -3 } else if col == 1 { -2 } else if col == 2 { 3 } else { -1 }
            } else {
                if col == 0 { 2 } else if col == 1 { 1 } else if col == 2 { -2 } else { 1 }
            },
        }
    }

    /// The number of parts the entries of the matrix are counted in.
    pub open spec fn parts(self) -> int {
        match self {
            CurveKind::Bezier => 1,
            CurveKind::CatmullRom => 2,
            CurveKind::BSpline => 6,
            CurveKind::Hermite => 1,
        }
    }

    /// The weight of control point `col` at the parameter `t`, in parts of
    /// [`Self::parts`].
    pub open spec fn weight(self, col: int, t: int) -> int {
        self.entry(0, col) + t * self.entry(1, col) + t * t * self.entry(2, col) + t * t * t
            * self.entry(3, col)
    }

    /// Executable form of [`Self::entry`]; zero outside the matrix.
    pub fn coefficient(&self, row: usize, col: usize) -> (entry: i8)
        ensures
            row < 4 && col < 4 ==> entry == self.entry(row as int, col as int),
            !(row < 4 && col < 4) ==> entry == 0,
    {
        if row >= 4 || col >= 4 {
            return 0;
        }
        let m: [[i8; 4]; 4] = match *self {
            CurveKind::Bezier => [[1, 0, 0, 0], [-3, 3, 0, 0], [3, -6, 3, 0], [-1, 3, -3, 1]],
            CurveKind::CatmullRom => [[0, 2, 0, 0], [-1, 0, 1, 0], [2, -5, 4, -1], [-1, 3, -3, 1]],
            CurveKind::BSpline => [[1, 4, 1, 0], [-3, 0, 3, 0], [3, -6, 3, 0], [-1, 3, -3, 1]],
            CurveKind::Hermite => [[1, 0, 0, 0], [0, 1, 0, 0], [-3, -2, 3, -1], [2, 1, -2, 1]],
        };
        m[row][col]
    }

    /// Executable form of [`Self::parts`].
    pub fn divisor(&self) -> (parts: i8)
        ensures
            parts == self.parts(),
    {
        match *self {
            CurveKind::Bezier => 1,
            CurveKind::CatmullRom => 2,
            CurveKind::BSpline => 6,
            CurveKind::Hermite => 1,
        }
    }
}

/// At every parameter the weights of the points of a curve add up to one:
/// a curve moved as a whole is the curve of the moved points. For a Hermite
/// curve the points are the first and the third entry; its velocities are
/// not weighed against them.
pub proof fn lemma_weights_add_up(kind: CurveKind, t: int)
    ensures
        kind != CurveKind::Hermite ==> kind.weight(0, t) + kind.weight(1, t) + kind.weight(2, t)
            + kind.weight(3, t) == kind.parts(),
        kind == CurveKind::Hermite ==> kind.weight(0, t) + kind.weight(2, t) == kind.parts(),
{
    let r0 = kind.entry(0, 0) + kind.entry(0, 1) + kind.entry(0, 2) + kind.entry(0, 3);
    let r1 = kind.entry(1, 0) + kind.entry(1, 1) + kind.entry(1, 2) + kind.entry(1, 3);
    let r2 = kind.entry(2, 0) + kind.entry(2, 1) + kind.entry(2, 2) + kind.entry(2, 3);
    let r3 = kind.entry(3, 0) + kind.entry(3, 1) + kind.entry(3, 2) + kind.entry(3, 3);
    assert(kind.weight(0, t) + kind.weight(1, t) + kind.weight(2, t) + kind.weight(3, t) == r0 + t
        * r1 + t * t * r2 + t * t * t * r3) by (nonlinear_arith)
        requires
            r0 == kind.entry(0, 0) + kind.entry(0, 1) + kind.entry(0, 2) + kind.entry(0, 3),
            r1 == kind.entry(1, 0) + kind.entry(1, 1) + kind.entry(1, 2) + kind.entry(1, 3),
            r2 == kind.entry(2, 0) + kind.entry(2, 1) + kind.entry(2, 2) + kind.entry(2, 3),
            r3 == kind.entry(3, 0) + kind.entry(3, 1) + kind.entry(3, 2) + kind.entry(3, 3),
            kind.weight(0, t) == kind.entry(0, 0) + t * kind.entry(1, 0) + t * t * kind.entry(2, 0)
                + t * t * t * kind.entry(3, 0),
            kind.weight(1, t) == kind.entry(0, 1) + t * kind.entry(1, 1) + t * t * kind.entry(2, 1)
                + t * t * t * kind.entry(3, 1),
            kind.weight(2, t) == kind.entry(0, 2) + t * kind.entry(1, 2) + t * t * kind.entry(2, 2)
                + t * t * t * kind.entry(3, 2),
            kind.weight(3, t) == kind.entry(0, 3) + t * kind.entry(1, 3) + t * t * kind.entry(2, 3)
                + t * t * t * kind.entry(3, 3),
    ;
    let h0 = kind.entry(0, 0) + kind.entry(0, 2);
    let h1 = kind.entry(1, 0) + kind.entry(1, 2);
    let h2 = kind.entry(2, 0) + kind.entry(2, 2);
    let h3 = kind.entry(3, 0) + kind.entry(3, 2);
    assert(kind.weight(0, t) + kind.weight(2, t) == h0 + t * h1 + t * t * h2 + t * t * t * h3)
        by (nonlinear_arith)
        requires
            h0 == kind.entry(0, 0) + kind.entry(0, 2),
            h1 == kind.entry(1, 0) + kind.entry(1, 2),
            h2 == kind.entry(2, 0) + kind.entry(2, 2),
            h3 == kind.entry(3, 0) + kind.entry(3, 2),
            kind.weight(0, t) == kind.entry(0, 0) + t * kind.entry(1, 0) + t * t * kind.entry(2, 0)
                + t * t * t * kind.entry(3, 0),
            kind.weight(2, t) == kind.entry(0, 2) + t * kind.entry(1, 2) + t * t * kind.entry(2, 2)
                + t * t * t * kind.entry(3, 2),
    ;
    assert(t * 0 == 0 && t * t * 0 == 0 && t * t * t * 0 == 0) by (nonlinear_arith);
    match kind {
        CurveKind::Bezier => {
            assert(r0 == 1 && r1 == 0 && r2 == 0 && r3 == 0);
        },
        CurveKind::CatmullRom => {
            assert(r0 == 2 && r1 == 0 && r2 == 0 && r3 == 0);
        },
        CurveKind::BSpline => {
            assert(r0 == 6 && r1 == 0 && r2 == 0 && r3 == 0);
        },
        CurveKind::Hermite => {
            assert(h0 == 1 && h1 == 0 && h2 == 0 && h3 == 0);
        },
    }
}

/// Where the curves that pass through control points do so: a Bezier curve
/// starts at its first point and ends at its last, a Catmull-Rom curve runs
/// from its second to its third, a Hermite curve from its first point to
/// its second, which is the third entry.
pub proof fn lemma_curves_meet_their_points()
    ensures
        forall|col: int|
            0 <= col < 4 ==> #[trigger] CurveKind::Bezier.weight(col, 0) == if col == 0 {
                1int
            } else {
                0int
            },
        forall|col: int|
            0 <= col < 4 ==> #[trigger] CurveKind::Bezier.weight(col, 1) == if col == 3 {
                1int
            } else {
                0int
            },
        forall|col: int|
            0 <= col < 4 ==> #[trigger] CurveKind::CatmullRom.weight(col, 0) == if col == 1 {
                2int
            } else {
                0int
            },
        forall|col: int|
            0 <= col < 4 ==> #[trigger] CurveKind::CatmullRom.weight(col, 1) == if col == 2 {
                2int
            } else {
                0int
            },
        forall|col: int|
            0 <= col < 4 ==> #[trigger] CurveKind::Hermite.weight(col, 0) == if col == 0 {
                1int
            } else {
                0int
            },
        forall|col: int|
            0 <= col < 4 ==> #[trigger] CurveKind::Hermite.weight(col, 1) == if col == 2 {
                1int
            } else {
                0int
            },
{
}

/// Why a list of control points is no spline.
#[derive(Clone, Copy, Debug, PartialEq, Eq, Structural)]
pub enum SplineError {
    /// The number of control points is no multiple of four.
    NotMultipleOfFour,
}

/// The control points a parameter falls on.
#[derive(Clone, Copy, Debug, PartialEq, Eq, Structural)]
pub enum SplinePick {
    /// The four points from `start` on.
    Segment { start: usize },
    /// The parameter lies past the last segment: the curve rests on this
    /// point.
    Rest { point: usize },
}

/// Number of segments of a spline whose segments each have four control
/// points of their own. Fails exactly when the points do not divide into
/// such segments.
pub fn bezier_segments(points: usize) -> (segments: Result<usize, SplineError>)
    ensures
        match segments {
            Ok(n) => points % SEGMENT_POINTS == 0 && n == points / SEGMENT_POINTS,
            Err(e) => points % SEGMENT_POINTS != 0 && e == SplineError::NotMultipleOfFour,
        },
{
    if points % SEGMENT_POINTS != 0 {
        Err(SplineError::NotMultipleOfFour)
    } else {
        Ok(points / SEGMENT_POINTS)
    }
}

/// The control points of segment `segment` of a spline of `points` points
/// whose segments each have four points of their own: the four points from
/// `4 * segment` on, or the last point once those would reach past the end.
/// `None` exactly when there is no point at all.
pub fn bezier_pick(points: usize, segment: usize) -> (pick: Option<SplinePick>)
    ensures
        pick == if points == 0 {
            None
        } else if SEGMENT_POINTS * segment + SEGMENT_POINTS > points {
            Some(SplinePick::Rest { point: (points - 1) as usize })
        } else {
            Some(SplinePick::Segment { start: (SEGMENT_POINTS * segment) as usize })
        },
{
    if points == 0 {
        None
    } else if points < SEGMENT_POINTS || segment > (points - SEGMENT_POINTS) / SEGMENT_POINTS {
        Some(SplinePick::Rest { point: points - 1 })
    } else {
        Some(SplinePick::Segment { start: SEGMENT_POINTS * segment })
    }
}

/// Where segment `segment` starts in a spline in which each segment begins
/// on the last point of the one before: at the start for the first segment,
/// one point before `4 * segment` for the others. `None` exactly when the
/// four points from there on do not all exist.
pub fn shared_end_pick(points: usize, segment: usize) -> (start: Option<usize>)
    ensures
        start == if segment == 0 {
            if points >= SEGMENT_POINTS {
                Some(0usize)
            } else {
                None
            }
        } else if SEGMENT_POINTS * segment - 1 + SEGMENT_POINTS <= points {
            Some((SEGMENT_POINTS * segment - 1) as usize)
        } else {
            None
        },
{
    if points < SEGMENT_POINTS {
        return None;
    }
    if segment == 0 {
        return Some(0);
    }
    // 4 * segment + 3 <= points
    if segment > (points - 3) / SEGMENT_POINTS {
        None
    } else {
        Some(SEGMENT_POINTS * segment - 1)
    }
}

} // verus!
