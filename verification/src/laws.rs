//! Algebraic laws of the coordinate systems, stated over the same spec
//! functions that the executable operations are proved against.

use vstd::prelude::*;
use crate::arith::lemma_round_nearest_near_multiple;
use crate::doubled::{
    spec_doubled_q_from_cube, spec_doubled_q_to_cube, spec_doubled_r_from_cube,
    spec_doubled_r_to_cube,
};
use crate::hex::{
    hex_wf, line_point, spec_distance, spec_rotate_left, spec_rotate_right, Hex,
    LINE_COORD_MAX, NUDGE_SCALE,
};
use crate::offset::{
    spec_offset_q_from_cube, spec_offset_q_to_cube, spec_offset_r_from_cube,
    spec_offset_r_to_cube,
};

verus! {

/// Distance is symmetric: the path from `a` to `b` is as long as the
/// path from `b` to `a`.
pub proof fn lemma_distance_symmetric(a: Hex, b: Hex)
    ensures
        spec_distance(a, b) == spec_distance(b, a),
{
}

/// Rotating left six times returns the original coordinates: rotation
/// has order six.
pub proof fn lemma_rotate_left_order_six(q: int, r: int, s: int)
    ensures
        ({
            let t1 = spec_rotate_left(q, r, s);
            let t2 = spec_rotate_left(t1.0, t1.1, t1.2);
            let t3 = spec_rotate_left(t2.0, t2.1, t2.2);
            let t4 = spec_rotate_left(t3.0, t3.1, t3.2);
            let t5 = spec_rotate_left(t4.0, t4.1, t4.2);
            spec_rotate_left(t5.0, t5.1, t5.2) == (q, r, s)
        }),
{
}

/// Rotating right undoes rotating left, and the other way round.
pub proof fn lemma_rotate_right_inverts_left(q: int, r: int, s: int)
    ensures
        ({
            let l = spec_rotate_left(q, r, s);
            spec_rotate_right(l.0, l.1, l.2) == (q, r, s)
        }),
        ({
            let w = spec_rotate_right(q, r, s);
            spec_rotate_left(w.0, w.1, w.2) == (q, r, s)
        }),
{
}

/// A straight line runs from its start to its end, inclusive: the
/// first path point is the start hex, the last is the end hex, and
/// only coincident hexes are at distance zero.
pub proof fn lemma_line_endpoints(a: Hex, b: Hex)
    requires
        hex_wf(a),
        hex_wf(b),
        -LINE_COORD_MAX <= a.q <= LINE_COORD_MAX,
        -LINE_COORD_MAX <= a.r <= LINE_COORD_MAX,
        -LINE_COORD_MAX <= a.s <= LINE_COORD_MAX,
        -LINE_COORD_MAX <= b.q <= LINE_COORD_MAX,
        -LINE_COORD_MAX <= b.r <= LINE_COORD_MAX,
        -LINE_COORD_MAX <= b.s <= LINE_COORD_MAX,
    ensures
        line_point(a, b, 0) == a,
        spec_distance(a, b) == 0 ==> a == b,
        spec_distance(a, b) > 0 ==> line_point(a, b, spec_distance(a, b)) == b,
{
    let n = spec_distance(a, b);
    let m = if n > 0 {
        n
    } else {
        1
    };
    let den = m * NUDGE_SCALE;
    assert(NUDGE_SCALE * (a.q * (m - 0) + b.q * 0) + m == den * a.q + m) by (nonlinear_arith)
        requires
            den == m * NUDGE_SCALE,
    ;
    assert(NUDGE_SCALE * (a.r * (m - 0) + b.r * 0) + m == den * a.r + m) by (nonlinear_arith)
        requires
            den == m * NUDGE_SCALE,
    ;
    assert(NUDGE_SCALE * (a.s * (m - 0) + b.s * 0) - 2 * m == den * a.s + (-2) * m)
        by (nonlinear_arith)
        requires
            den == m * NUDGE_SCALE,
    ;
    lemma_round_nearest_near_multiple(a.q as int, m, den);
    lemma_round_nearest_near_multiple(a.r as int, m, den);
    lemma_round_nearest_near_multiple(a.s as int, (-2) * m, den);
    assert(line_point(a, b, 0) == a);
    if n > 0 {
        assert(NUDGE_SCALE * (a.q * (m - m) + b.q * m) + m == den * b.q + m)
            by (nonlinear_arith)
            requires
                den == m * NUDGE_SCALE,
        ;
        assert(NUDGE_SCALE * (a.r * (m - m) + b.r * m) + m == den * b.r + m)
            by (nonlinear_arith)
            requires
                den == m * NUDGE_SCALE,
        ;
        assert(NUDGE_SCALE * (a.s * (m - m) + b.s * m) - 2 * m == den * b.s + (-2) * m)
            by (nonlinear_arith)
            requires
                den == m * NUDGE_SCALE,
        ;
        lemma_round_nearest_near_multiple(b.q as int, m, den);
        lemma_round_nearest_near_multiple(b.r as int, m, den);
        lemma_round_nearest_near_multiple(b.s as int, (-2) * m, den);
        assert(line_point(a, b, n) == b);
    }
}

/// Column-based offset conversion round-trips from cube coordinates:
/// converting out and back recovers the hex, for either parity.
pub proof fn lemma_offset_q_round_trip(off: int, q: int, r: int)
    ensures
        ({
            let (col, row) = spec_offset_q_from_cube(off, q, r);
            spec_offset_q_to_cube(off, col, row) == (q, r)
        }),
{
}

/// Column-based offset conversion round-trips from offset coordinates.
pub proof fn lemma_offset_q_round_trip_rev(off: int, col: int, row: int)
    ensures
        ({
            let (q, r) = spec_offset_q_to_cube(off, col, row);
            spec_offset_q_from_cube(off, q, r) == (col, row)
        }),
{
}

/// Row-based offset conversion round-trips from cube coordinates.
pub proof fn lemma_offset_r_round_trip(off: int, q: int, r: int)
    ensures
        ({
            let (col, row) = spec_offset_r_from_cube(off, q, r);
            spec_offset_r_to_cube(off, col, row) == (q, r)
        }),
{
}

/// Row-based offset conversion round-trips from offset coordinates.
pub proof fn lemma_offset_r_round_trip_rev(off: int, col: int, row: int)
    ensures
        ({
            let (q, r) = spec_offset_r_to_cube(off, col, row);
            spec_offset_r_from_cube(off, q, r) == (col, row)
        }),
{
}

/// Doubled-width conversion round-trips from cube coordinates.
pub proof fn lemma_doubled_q_round_trip(q: int, r: int)
    ensures
        ({
            let (col, row) = spec_doubled_q_from_cube(q, r);
            spec_doubled_q_to_cube(col, row) == (q, r)
        }),
{
}

/// Doubled-width conversion round-trips from valid doubled coordinates,
/// those whose column and row have equal parity.
pub proof fn lemma_doubled_q_round_trip_rev(col: int, row: int)
    requires
        (row - col) % 2 == 0,
    ensures
        ({
            let (q, r) = spec_doubled_q_to_cube(col, row);
            spec_doubled_q_from_cube(q, r) == (col, row)
        }),
{
}

/// Doubled-height conversion round-trips from cube coordinates.
pub proof fn lemma_doubled_r_round_trip(q: int, r: int)
    ensures
        ({
            let (col, row) = spec_doubled_r_from_cube(q, r);
            spec_doubled_r_to_cube(col, row) == (q, r)
        }),
{
}

/// Doubled-height conversion round-trips from valid doubled
/// coordinates, those whose column and row have equal parity.
pub proof fn lemma_doubled_r_round_trip_rev(col: int, row: int)
    requires
        (col - row) % 2 == 0,
    ensures
        ({
            let (q, r) = spec_doubled_r_to_cube(col, row);
            spec_doubled_r_from_cube(q, r) == (col, row)
        }),
{
}

} // verus!
