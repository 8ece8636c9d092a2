//! Fixed-point scalars.
//!
//! A scalar is an `i64` holding a real value times [`SCALE`]. One unit of
//! world space (one pixel of the playfield) is `SCALE`; angles are radians
//! times `SCALE`.

use vstd::prelude::*;

verus! {

/// One whole unit, and the factor between a fixed-point scalar and the real
/// value it stands for.
pub const SCALE: i64 = 1_000_000;

/// A quarter turn: pi / 2 in fixed-point radians.
pub const HALF_PI: i64 = 1_570_796;

/// Half a turn: pi in fixed-point radians. Defined as twice [`HALF_PI`] so
/// that quadrant arithmetic on angles is exact.
pub const PI: i64 = 2 * HALF_PI;

/// A full turn: 2 * pi in fixed-point radians, exactly four quadrants.
pub const TWO_PI: i64 = 4 * HALF_PI;

/// Largest magnitude allowed for a coordinate, a rectangle side or a turret
/// reach: two million units. Keeps every product taken with a scalar of
/// magnitude at most `2 * SCALE` inside `i64`.
pub const MAX_COORD: i64 = 2_000_000_000_000;

/// Largest magnitude allowed for an accumulated rotation or a per-tick
/// rotation delta: one billion radians.
pub const MAX_ANGLE: i64 = 1_000_000_000_000_000;

/// Largest magnitude a position component can take: wide enough to hold any
/// point of a playfield whose rectangle stays within [`MAX_COORD`].
pub const MAX_POS: i64 = 8_000_000_000_000;

/// A position component within range.
pub open spec fn pos_ok(c: int) -> bool {
    -MAX_POS <= c <= MAX_POS
}

/// A coordinate-like scalar small enough for the geometry to stay in range.
pub open spec fn coord_ok(c: int) -> bool {
    -MAX_COORD <= c <= MAX_COORD
}

/// An angle small enough for reduction and accumulation to stay in range.
pub open spec fn angle_ok(a: int) -> bool {
    -MAX_ANGLE <= a <= MAX_ANGLE
}

/// A direction component: at most two whole units in magnitude.
pub open spec fn dir_ok(d: int) -> bool {
    -2 * SCALE <= d <= 2 * SCALE
}

/// Magnitude of an integer.
pub open spec fn abs(v: int) -> int {
    if v < 0 { -v } else { v }
}

/// Sign of an integer: -1, 0 or 1.
pub open spec fn sign(v: int) -> int {
    if v < 0 { -1 } else if v == 0 { 0 } else { 1 }
}

/// Division truncated towards zero, as the machine divides (meaningful for
/// `b > 0`).
pub open spec fn div_trunc(a: int, b: int) -> int {
    if a >= 0 { a / b } else { -((-a) / b) }
}

} // verus!
