//! Points, vectors and axis-aligned rectangles over fixed-point scalars.

use vstd::prelude::*;

use crate::fixed::{abs, angle_ok, coord_ok, pos_ok, sign, SCALE};
use crate::trig::{isqrt, sin_cos, spec_cos, spec_sin, sqrt_of};

verus! {

/// Magnitude bound met by every scalar that the rectangle tests accept:
/// wide enough to hold a rotated rectangle's sides and corners.
pub const MAX_SPAN: i64 = 20_000_000_000_000;

/// A scalar within the widened range of the rectangle tests.
pub open spec fn span_ok(c: int) -> bool {
    -MAX_SPAN <= c <= MAX_SPAN
}

/// A point or vector of the plane, in fixed-point units. The y axis points
/// down, as on the screen.
#[derive(Clone, Copy, PartialEq, Eq, Structural, Debug)]
pub struct Vec2 {
    pub x: i64,
    pub y: i64,
}

impl Vec2 {
    /// Both components within the coordinate range.
    pub open spec fn spec_coords_ok(self) -> bool {
        coord_ok(self.x as int) && coord_ok(self.y as int)
    }

    pub fn new(x: i64, y: i64) -> (v: Vec2)
        ensures
            v == (Vec2 { x, y }),
    {
        Vec2 { x, y }
    }

}

/// The x component of the unit vector pointing from the origin towards
/// `(dx, dy)`: `dx * SCALE` divided by the integer length of the vector,
/// carried out on magnitudes with the sign put back.
pub open spec fn spec_norm_x(dx: int, dy: int) -> int {
    sign(dx) * ((abs(dx) * (SCALE as int)) / sqrt_of(dx * dx + dy * dy))
}

/// The y component of the unit vector pointing from the origin towards
/// `(dx, dy)`.
pub open spec fn spec_norm_y(dx: int, dy: int) -> int {
    sign(dy) * ((abs(dy) * (SCALE as int)) / sqrt_of(dx * dx + dy * dy))
}

/// Largest component magnitude accepted by [`normalize`].
pub const MAX_NORM_ARG: i64 = 20_000_000_000_000;

/// The unit vector pointing from the origin towards `(dx, dy)`, exactly
/// ([`spec_norm_x`], [`spec_norm_y`]).
#[verifier::rlimit(50)]
pub fn normalize(dx: i64, dy: i64) -> (v: Vec2)
    requires
        -MAX_NORM_ARG <= dx <= MAX_NORM_ARG,
        -MAX_NORM_ARG <= dy <= MAX_NORM_ARG,
        !(dx == 0 && dy == 0),
    ensures
        v.x as int == spec_norm_x(dx as int, dy as int),
        v.y as int == spec_norm_y(dx as int, dy as int),
        -SCALE <= v.x <= SCALE,
        -SCALE <= v.y <= SCALE,
{
    let adx: i64 = if dx < 0 {
        -dx
    } else {
        dx
    };
    let ady: i64 = if dy < 0 {
        -dy
    } else {
        dy
    };
    proof {
        assert(0 <= (adx as int) * (adx as int) <= 400_000_000_000_000_000_000_000_000int
            && (adx as int) * (adx as int) == (dx as int) * (dx as int)) by (nonlinear_arith)
            requires
                0 <= adx <= 20_000_000_000_000,
                adx == abs(dx as int),
        ;
        assert(0 <= (ady as int) * (ady as int) <= 400_000_000_000_000_000_000_000_000int
            && (ady as int) * (ady as int) == (dy as int) * (dy as int)) by (nonlinear_arith)
            requires
                0 <= ady <= 20_000_000_000_000,
                ady == abs(dy as int),
        ;
        assert(1 <= (adx as int) * (adx as int) + (ady as int) * (ady as int)) by (nonlinear_arith)
            requires
                0 <= adx,
                0 <= ady,
                adx >= 1 || ady >= 1,
        ;
    }
    let n: i128 = (adx as i128) * (adx as i128) + (ady as i128) * (ady as i128);
    let len: i128 = isqrt(n);
    proof {
        if len == 0 {
            assert(n < (0 + 1) * (0 + 1));
        }
        assert(adx <= len && ady <= len) by (nonlinear_arith)
            requires
                0 <= adx,
                0 <= ady,
                0 <= len,
                (adx as int) * (adx as int) <= n as int,
                (ady as int) * (ady as int) <= n as int,
                n < (len as int + 1) * (len as int + 1),
        ;
        assert((adx as int) * (SCALE as int) <= (len as int) * (SCALE as int)
            && (ady as int) * (SCALE as int) <= (len as int) * (SCALE as int)
            && 0 <= (adx as int) * (SCALE as int) && 0 <= (ady as int) * (SCALE as int))
            by (nonlinear_arith)
            requires
                0 <= adx <= len,
                0 <= ady <= len,
        ;
        vstd::arithmetic::div_mod::lemma_div_is_ordered(
            (adx as int) * (SCALE as int),
            (len as int) * (SCALE as int),
            len as int,
        );
        vstd::arithmetic::div_mod::lemma_div_is_ordered(
            (ady as int) * (SCALE as int),
            (len as int) * (SCALE as int),
            len as int,
        );
        vstd::arithmetic::div_mod::lemma_div_by_multiple(SCALE as int, len as int);
        vstd::arithmetic::div_mod::lemma_div_pos_is_pos((adx as int) * (SCALE as int), len as int);
        vstd::arithmetic::div_mod::lemma_div_pos_is_pos((ady as int) * (SCALE as int), len as int);
    }
    let nx: i64 = ((adx as i128) * (SCALE as i128) / len) as i64;
    let ny: i64 = ((ady as i128) * (SCALE as i128) / len) as i64;
    let vx: i64 = if dx < 0 {
        -nx
    } else {
        nx
    };
    let vy: i64 = if dy < 0 {
        -ny
    } else {
        ny
    };
    proof {
        if dx == 0 {
            vstd::arithmetic::div_mod::lemma_div_by_multiple(0, len as int);
            assert(0int * (len as int) == 0);
        }
        if dy == 0 {
            vstd::arithmetic::div_mod::lemma_div_by_multiple(0, len as int);
            assert(0int * (len as int) == 0);
        }
        assert(len as int == sqrt_of((dx as int) * (dx as int) + (dy as int) * (dy as int)));
        assert(nx as int == (abs(dx as int) * (SCALE as int)) / (len as int));
        assert(ny as int == (abs(dy as int) * (SCALE as int)) / (len as int));
        assert(vx as int == spec_norm_x(dx as int, dy as int));
        assert(vy as int == spec_norm_y(dx as int, dy as int));
    }
    Vec2 { x: vx, y: vy }
}

/// An axis-aligned rectangle: origin corner `(x, y)` and nonnegative sides
/// `w` across and `h` down.
#[derive(Clone, Copy, PartialEq, Eq, Structural, Debug)]
pub struct Rect {
    pub x: i64,
    pub y: i64,
    pub w: i64,
    pub h: i64,
}

impl Rect {
    /// All four scalars within the coordinate range.
    pub open spec fn spec_coords_ok(self) -> bool {
        coord_ok(self.x as int) && coord_ok(self.y as int) && coord_ok(self.w as int) && coord_ok(
            self.h as int,
        )
    }

    /// All four scalars within the widened range of the rectangle tests.
    pub open spec fn spec_span_ok(self) -> bool {
        span_ok(self.x as int) && span_ok(self.y as int) && span_ok(self.w as int) && span_ok(
            self.h as int,
        )
    }

    /// Sides are nonnegative.
    pub open spec fn spec_sides_nonneg(self) -> bool {
        self.w >= 0 && self.h >= 0
    }

    pub fn new(x: i64, y: i64, w: i64, h: i64) -> (r: Rect)
        ensures
            r == (Rect { x, y, w, h }),
    {
        Rect { x, y, w, h }
    }

    /// The point lies inside the rectangle, boundary included.
    pub open spec fn spec_contains(self, point: Vec2) -> bool {
        self.x <= point.x && point.x <= self.x + self.w && self.y <= point.y && point.y <= self.y
            + self.h
    }

    /// Whether the point lies inside the rectangle, boundary included.
    pub fn contains(&self, point: Vec2) -> (r: bool)
        requires
            self.spec_span_ok(),
            span_ok(point.x as int),
            span_ok(point.y as int),
        ensures
            r == self.spec_contains(point),
    {
        self.x <= point.x && point.x <= self.x + self.w && self.y <= point.y && point.y <= self.y
            + self.h
    }

    /// The other rectangle lies fully inside this one, boundary included.
    pub open spec fn spec_contains_rect(self, other: Rect) -> bool {
        self.x <= other.x && other.x + other.w <= self.x + self.w && self.y <= other.y && other.y
            + other.h <= self.y + self.h
    }

    /// Whether the other rectangle lies fully inside this one.
    pub fn contains_rect(&self, other: &Rect) -> (r: bool)
        requires
            self.spec_span_ok(),
            other.spec_span_ok(),
        ensures
            r == self.spec_contains_rect(*other),
    {
        self.x <= other.x && other.x + other.w <= self.x + self.w && self.y <= other.y && other.y
            + other.h <= self.y + self.h
    }

    /// The two rectangles share at least one point, boundaries included.
    pub open spec fn spec_overlaps(self, other: Rect) -> bool {
        self.x <= other.x + other.w && self.x + self.w >= other.x && self.y <= other.y + other.h
            && self.y + self.h >= other.y
    }

    /// Whether the two rectangles share at least one point.
    pub fn overlaps(&self, other: &Rect) -> (r: bool)
        requires
            self.spec_span_ok(),
            other.spec_span_ok(),
        ensures
            r == self.spec_overlaps(*other),
    {
        self.x <= other.x + other.w && self.x + self.w >= other.x && self.y <= other.y + other.h
            && self.y + self.h >= other.y
    }

    /// The bounding rectangle of this rectangle turned about its own centre
    /// by `rotation`: the sides are recombined through the magnitudes of the
    /// angle's cosine and sine, and the origin corner moves so that the
    /// centre stays fixed. At rotation zero it is the rectangle itself.
    pub open spec fn spec_rotate(self, rotation: int) -> Rect {
        let c: int = abs(spec_cos(rotation));
        let s: int = abs(spec_sin(rotation));
        let nw: int = (self.w * c + self.h * s) / (SCALE as int);
        let nh: int = (self.w * s + self.h * c) / (SCALE as int);
        Rect {
            x: (self.x + self.w / 2 - nw / 2) as i64,
            y: (self.y + self.h / 2 - nh / 2) as i64,
            w: nw as i64,
            h: nh as i64,
        }
    }

    /// Replace the rectangle by its rotated bounding rectangle, exactly
    /// [`Rect::spec_rotate`].
    pub fn rotate(&mut self, rotation: i64)
        requires
            pos_ok(old(self).x as int),
            pos_ok(old(self).y as int),
            coord_ok(old(self).w as int),
            coord_ok(old(self).h as int),
            old(self).spec_sides_nonneg(),
            angle_ok(rotation as int),
        ensures
            *final(self) == old(self).spec_rotate(rotation as int),
            final(self).spec_span_ok(),
            final(self).spec_sides_nonneg(),
    {
        let sc: (i64, i64) = sin_cos(rotation);
        let s: i64 = if sc.0 < 0 {
            -sc.0
        } else {
            sc.0
        };
        let c: i64 = if sc.1 < 0 {
            -sc.1
        } else {
            sc.1
        };
        proof {
            assert(0 <= (self.w as int) * (c as int) <= 2_000_000_000_000int * 1_570_796int
                && 0 <= (self.h as int) * (s as int) <= 2_000_000_000_000int * 1_570_796int
                && 0 <= (self.w as int) * (s as int) <= 2_000_000_000_000int * 1_570_796int
                && 0 <= (self.h as int) * (c as int) <= 2_000_000_000_000int * 1_570_796int)
                by (nonlinear_arith)
                requires
                    0 <= self.w <= 2_000_000_000_000,
                    0 <= self.h <= 2_000_000_000_000,
                    0 <= c <= 1_570_796,
                    0 <= s <= 1_570_796,
            ;
        }
        let nw: i64 = (self.w * c + self.h * s) / SCALE;
        let nh: i64 = (self.w * s + self.h * c) / SCALE;
        proof {
            vstd::arithmetic::div_mod::lemma_div_pos_is_pos(
                (self.w as int) * (c as int) + (self.h as int) * (s as int),
                SCALE as int,
            );
            vstd::arithmetic::div_mod::lemma_div_pos_is_pos(
                (self.w as int) * (s as int) + (self.h as int) * (c as int),
                SCALE as int,
            );
        }
        self.x = self.x + self.w / 2 - nw / 2;
        self.y = self.y + self.h / 2 - nh / 2;
        self.w = nw;
        self.h = nh;
    }
}

} // verus!
