//! The library's laws: proofs that the tick transitions behave as promised,
//! stated over the same spec functions that the executable functions are
//! proved to implement.

use vstd::prelude::*;

use crate::bullet::{spec_bullet_movement, spec_remove_bullet_if_outside, Bullet};
use crate::fixed::{abs, angle_ok, pos_ok, HALF_PI, PI, SCALE};
use crate::geometry::{Rect, Vec2};
use crate::input::Key;
use crate::objects::{
    spec_candidate_position, spec_move_allowed, spec_movement, spec_rotation, spec_update,
    spec_update_position, spec_update_turret_direction, Tank,
};
use crate::state::{spec_main_update, MainState, TickInput};
use crate::trig::{lemma_sin_cos_bounds, lemma_sqrt_unique, spec_cos, spec_sin, sqrt_of};

verus! {

/// A tank at rest facing the unit vector (-1, 0): one allowed forward tick
/// moves the position by exactly that vector scaled by the one-unit step,
/// and one allowed backward tick moves it by the negated vector. A tick
/// whose step is not allowed leaves the position unchanged.
pub proof fn law_step_at_rest(t: Tank, screen_coord: Rect, tank_dim: Rect, enemy: Rect)
    requires
        t.spec_bounds_ok(),
        t.tank_direction.x == -SCALE,
        t.tank_direction.y == 0,
    ensures
        ({
            let rotated = (Rect {
                x: t.position.x,
                y: t.position.y,
                w: tank_dim.w,
                h: tank_dim.h,
            }).spec_rotate(t.tank_rotation as int);
            let fwd = spec_movement(t, true, false, screen_coord, tank_dim, enemy);
            let back = spec_movement(t, false, true, screen_coord, tank_dim, enemy);
            &&& (spec_move_allowed(t, 1, screen_coord, rotated.w, rotated.h, enemy) ==> (
            fwd.position.x as int == t.position.x - SCALE && fwd.position.y == t.position.y))
            &&& (!spec_move_allowed(t, 1, screen_coord, rotated.w, rotated.h, enemy)
                ==> fwd.position == t.position)
            &&& (spec_move_allowed(t, -1, screen_coord, rotated.w, rotated.h, enemy) ==> (
            back.position.x as int == t.position.x + SCALE && back.position.y == t.position.y))
            &&& (!spec_move_allowed(t, -1, screen_coord, rotated.w, rotated.h, enemy)
                ==> back.position == t.position)
        }),
{
}

/// Rotating left by a delta and then moving forward offsets the position by
/// exactly the facing re-derived from the new rotation: the step lands at
/// `position + (-cos, -sin)` of `rotation - delta`.
pub proof fn law_rotate_left_then_forward(
    t: Tank,
    delta: int,
    screen_coord: Rect,
    tank_dim: Rect,
    enemy: Rect,
)
    requires
        t.spec_bounds_ok(),
        angle_ok(t.tank_rotation - delta),
    ensures
        ({
            let t1 = spec_rotation(t, false, true, delta);
            let rotated = (Rect {
                x: t.position.x,
                y: t.position.y,
                w: tank_dim.w,
                h: tank_dim.h,
            }).spec_rotate(t1.tank_rotation as int);
            let t2 = spec_movement(t1, true, false, screen_coord, tank_dim, enemy);
            &&& t1.tank_rotation as int == t.tank_rotation - delta
            &&& t1.tank_direction.x as int == -spec_cos(t.tank_rotation - delta)
            &&& t1.tank_direction.y as int == -spec_sin(t.tank_rotation - delta)
            &&& t1.position == t.position
            &&& (spec_move_allowed(t1, 1, screen_coord, rotated.w, rotated.h, enemy) ==> (
            t2.position.x as int == t.position.x - spec_cos(t.tank_rotation - delta)
                && t2.position.y as int == t.position.y - spec_sin(t.tank_rotation - delta)))
            &&& (!spec_move_allowed(t1, 1, screen_coord, rotated.w, rotated.h, enemy)
                ==> t2.position == t.position)
        }),
{
    lemma_sin_cos_bounds(t.tank_rotation - delta);
}

/// The hull facing is never set apart from the hull rotation: after any
/// rotation tick that changed the rotation, the facing is exactly
/// `(-cos, -sin)` of the new rotation, and a tick that touched no rotation
/// key leaves the tank unchanged.
pub proof fn law_facing_follows_rotation(t: Tank, right: bool, left: bool, delta: int)
    requires
        angle_ok(t.tank_rotation + delta),
        angle_ok(t.tank_rotation - delta),
    ensures
        ({
            let t1 = spec_rotation(t, right, left, delta);
            &&& ((right || left) ==> (t1.tank_direction.x as int == -spec_cos(
                t1.tank_rotation as int,
            ) && t1.tank_direction.y as int == -spec_sin(t1.tank_rotation as int)))
            &&& (!(right || left) ==> t1 == t)
        }),
{
    if right {
        lemma_sin_cos_bounds(t.tank_rotation + delta);
    }
    if left {
        if right {
            lemma_sin_cos_bounds(t.tank_rotation as int);
        } else {
            lemma_sin_cos_bounds(t.tank_rotation - delta);
        }
    }
}

/// A step lands on the candidate position exactly when the candidate
/// rectangle stays fully inside the playfield and clear of the opponent's
/// rectangle, and changes nothing else; a step whose candidate rectangle
/// would leave the playfield or overlap the opponent leaves the tank
/// unchanged, and rejection is idempotent: attempting the same rejected
/// step again still changes nothing, with no partial slide.
pub proof fn law_rejected_step_keeps_position(
    t: Tank,
    dirsign: int,
    screen_coord: Rect,
    rect_w: i64,
    rect_h: i64,
    enemy: Rect,
)
    ensures
        spec_move_allowed(t, dirsign, screen_coord, rect_w, rect_h, enemy)
            ==> spec_update_position(t, dirsign, screen_coord, rect_w, rect_h, enemy) == (Tank {
            position: spec_candidate_position(t, dirsign),
            ..t
        }),
        !spec_move_allowed(t, dirsign, screen_coord, rect_w, rect_h, enemy)
            ==> spec_update_position(t, dirsign, screen_coord, rect_w, rect_h, enemy) == t,
        !spec_move_allowed(t, dirsign, screen_coord, rect_w, rect_h, enemy)
            ==> spec_update_position(
            spec_update_position(t, dirsign, screen_coord, rect_w, rect_h, enemy),
            dirsign,
            screen_coord,
            rect_w,
            rect_h,
            enemy,
        ) == t,
        spec_update_position(t, dirsign, screen_coord, rect_w, rect_h, enemy) == t
            || spec_update_position(t, dirsign, screen_coord, rect_w, rect_h, enemy).position
            == spec_candidate_position(t, dirsign),
{
}

/// Aiming with the turret pivot on the hull at a target straight to the
/// right, left, below or above turns the turret to the exact axis direction
/// and the exact axis rotation: right gives rotation `-PI` and direction
/// `(1, 0)`; left gives rotation `0` and direction `(-1, 0)`; below gives
/// rotation `-PI/2` and direction `(0, 1)`; above gives rotation `PI/2` and
/// direction `(0, -1)`.
pub proof fn law_turret_cardinal_aim(t: Tank, d: int)
    requires
        t.turret_rotation_origin.x == 0,
        t.turret_rotation_origin.y == 0,
        pos_ok(t.position.x as int),
        pos_ok(t.position.y as int),
        0 < d <= 1_000_000_000_000,
    ensures
        ({
            let right = spec_update_turret_direction(
                t,
                Vec2 { x: (t.position.x + d) as i64, y: t.position.y },
            );
            right.turret_rotation == -PI && right.turret_direction.x == SCALE
                && right.turret_direction.y == 0
        }),
        ({
            let left = spec_update_turret_direction(
                t,
                Vec2 { x: (t.position.x - d) as i64, y: t.position.y },
            );
            left.turret_rotation == 0 && left.turret_direction.x == -SCALE
                && left.turret_direction.y == 0
        }),
        ({
            let below = spec_update_turret_direction(
                t,
                Vec2 { x: t.position.x, y: (t.position.y + d) as i64 },
            );
            below.turret_rotation == -HALF_PI && below.turret_direction.x == 0
                && below.turret_direction.y == SCALE
        }),
        ({
            let above = spec_update_turret_direction(
                t,
                Vec2 { x: t.position.x, y: (t.position.y - d) as i64 },
            );
            above.turret_rotation == HALF_PI && above.turret_direction.x == 0
                && above.turret_direction.y == -SCALE
        }),
{
    assert(d * d < (d + 1) * (d + 1) && 0 <= d * d && (-d) * (-d) == d * d) by (nonlinear_arith)
        requires
            0 < d,
    ;
    lemma_sqrt_unique(d * d, d);
    assert(sqrt_of(d * d + 0 * 0) == d);
    vstd::arithmetic::div_mod::lemma_div_by_multiple(SCALE as int, d);
    assert(d * (SCALE as int) == (SCALE as int) * d) by (nonlinear_arith);
    assert((abs(d) * (SCALE as int)) / sqrt_of(d * d + 0 * 0) == SCALE as int);
    assert(0 * 0 + d * d == d * d);
    assert((abs(d) * (SCALE as int)) / sqrt_of(0 * 0 + d * d) == SCALE as int);
}

/// While a bullet is in flight, a game tick never spawns another: after the
/// tick the slot holds the same bullet moved along its direction, or
/// nothing if it left the playfield. While the slot is empty, a tick with a
/// fire input fills it with a bullet carrying the tank's turret state as of
/// that tick, and a tick without one leaves it empty.
pub proof fn law_single_bullet(s: MainState, input: TickInput)
    ensures
        (s.bullet matches Some(b) ==> ({
            let s2 = spec_main_update(s, input);
            s2.bullet == None::<Bullet> || s2.bullet == Some(spec_bullet_movement(b))
        })),
        ({
            let t1 = spec_update(
                s.tank,
                input.keys.spec_has(Key::W) || input.keys.spec_has(Key::Up),
                input.keys.spec_has(Key::S) || input.keys.spec_has(Key::Down),
                input.keys.spec_has(Key::D) || input.keys.spec_has(Key::Right),
                input.keys.spec_has(Key::A) || input.keys.spec_has(Key::Left),
                input.delta as int,
                input.mouse_position,
                s.coordinate,
                s.tank_dimensions,
                (Rect { x: 0, y: 0, w: 0, h: 0 }),
            );
            &&& (s.bullet == None::<Bullet> && (input.keys.spec_has(Key::Space)
                || input.left_mouse_button_pressed) ==> spec_main_update(s, input).bullet == Some(
                Bullet {
                    position: t1.position,
                    direction: t1.turret_direction,
                    rotation: t1.turret_rotation,
                    origin: t1.turret_rotation_origin,
                },
            ))
            &&& (s.bullet == None::<Bullet> && !(input.keys.spec_has(Key::Space)
                || input.left_mouse_button_pressed) ==> spec_main_update(s, input).bullet
                == None::<Bullet>)
        }),
{
}

/// The out-of-bounds check removes a bullet whose position lies outside the
/// playfield rectangle, in x or y, in either direction, and retains one
/// still inside.
pub proof fn law_bullet_despawn(bullet_position: Vec2, s: MainState, coordinates: Rect)
    ensures
        !coordinates.spec_contains(bullet_position) ==> spec_remove_bullet_if_outside(
            bullet_position,
            s,
            coordinates,
        ).bullet == None::<Bullet>,
        coordinates.spec_contains(bullet_position) ==> spec_remove_bullet_if_outside(
            bullet_position,
            s,
            coordinates,
        ) == s,
{
}

} // verus!
