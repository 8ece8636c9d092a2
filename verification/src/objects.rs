//! The tank: hull position and facing, hull rotation, and an independently
//! aimed turret.
//!
//! The hull faces along `(-cos r, -sin r)` for hull rotation `r`, and every
//! rotation change re-derives the facing from the rotation. A move is one
//! whole unit along the facing, and is applied only when the tank's rotated
//! bounding rectangle stays inside the playfield and clear of the opponent's
//! rectangle.

use vstd::prelude::*;

use crate::fixed::{angle_ok, coord_ok, dir_ok, div_trunc, pos_ok, MAX_COORD, SCALE};
use crate::geometry::{spec_norm_x, spec_norm_y, normalize, Rect, Vec2};
use crate::input::{Key, KeySet};
use crate::state::Player;
use crate::trig::{atan2, sin_cos, spec_atan2, spec_cos, spec_sin};

verus! {

/// How far, in fixed-point units, the aim point handed to the turret sits to
/// the right of the reported cursor position.
pub const MOUSE_OFFSET: i64 = 75 * SCALE;

/// Side of one quadrant of the turret sprite sheet, as a fraction of the
/// sheet: one half.
pub const SPRITE_HALF: i64 = 500_000;

/// A tank: hull position, facing and rotation, turret facing and rotation,
/// the turret's pivot offset from the hull, the player it belongs to, and
/// the turret's reach.
#[derive(Clone, Copy, PartialEq, Eq, Structural, Debug)]
pub struct Tank {
    pub position: Vec2,
    pub tank_direction: Vec2,
    pub tank_rotation: i64,
    pub turret_direction: Vec2,
    pub turret_rotation: i64,
    pub turret_rotation_origin: Vec2,
    pub player: Player,
    pub turret_width: i64,
}

/// The hull facing derived from a hull rotation: x component.
pub open spec fn spec_dir_x(rotation: int) -> int {
    -spec_cos(rotation)
}

/// The hull facing derived from a hull rotation: y component.
pub open spec fn spec_dir_y(rotation: int) -> int {
    -spec_sin(rotation)
}

/// The tank with its hull facing re-derived from its hull rotation.
pub open spec fn spec_update_direction(t: Tank) -> Tank {
    Tank {
        tank_direction: Vec2 {
            x: spec_dir_x(t.tank_rotation as int) as i64,
            y: spec_dir_y(t.tank_rotation as int) as i64,
        },
        ..t
    }
}

/// The position one step along the hull facing (`dirsign` 1) or against it
/// (`dirsign` -1).
pub open spec fn spec_candidate_position(t: Tank, dirsign: int) -> Vec2 {
    Vec2 {
        x: (t.position.x + dirsign * (t.tank_direction.x as int)) as i64,
        y: (t.position.y + dirsign * (t.tank_direction.y as int)) as i64,
    }
}

/// The candidate bounding rectangle at the candidate position, with the
/// sides of the tank's rotated bounding rectangle.
pub open spec fn spec_candidate_rect(t: Tank, dirsign: int, rect_w: i64, rect_h: i64) -> Rect {
    let p = spec_candidate_position(t, dirsign);
    Rect { x: p.x, y: p.y, w: rect_w, h: rect_h }
}

/// A step is allowed when the candidate rectangle lies fully inside the
/// playfield and does not overlap the opponent's rectangle.
pub open spec fn spec_move_allowed(
    t: Tank,
    dirsign: int,
    screen_coord: Rect,
    rect_w: i64,
    rect_h: i64,
    enemy: Rect,
) -> bool {
    let moved = spec_candidate_rect(t, dirsign, rect_w, rect_h);
    screen_coord.spec_contains_rect(moved) && !moved.spec_overlaps(enemy)
}

/// One attempted step: the position moves to the candidate when the step is
/// allowed and stays put otherwise.
pub open spec fn spec_update_position(
    t: Tank,
    dirsign: int,
    screen_coord: Rect,
    rect_w: i64,
    rect_h: i64,
    enemy: Rect,
) -> Tank {
    if spec_move_allowed(t, dirsign, screen_coord, rect_w, rect_h, enemy) {
        Tank { position: spec_candidate_position(t, dirsign), ..t }
    } else {
        t
    }
}

/// One movement tick: the tank's bounding rectangle is rotated once to the
/// hull rotation, then a forward step and a backward step are attempted
/// independently, each against the playfield and the opponent.
pub open spec fn spec_movement(
    t: Tank,
    forward: bool,
    backward: bool,
    screen_coord: Rect,
    tank_dim: Rect,
    enemy: Rect,
) -> Tank {
    let rotated = (Rect {
        x: t.position.x,
        y: t.position.y,
        w: tank_dim.w,
        h: tank_dim.h,
    }).spec_rotate(t.tank_rotation as int);
    let t1 = if forward {
        spec_update_position(t, 1, screen_coord, rotated.w, rotated.h, enemy)
    } else {
        t
    };
    if backward {
        spec_update_position(t1, -1, screen_coord, rotated.w, rotated.h, enemy)
    } else {
        t1
    }
}

/// One rotation tick: the right keys add the delta, the left keys subtract
/// it, and each change re-derives the hull facing.
pub open spec fn spec_rotation(t: Tank, right: bool, left: bool, delta: int) -> Tank {
    let t1 = if right {
        spec_update_direction(Tank { tank_rotation: (t.tank_rotation as int + delta) as i64, ..t })
    } else {
        t
    };
    if left {
        spec_update_direction(
            Tank { tank_rotation: (t1.tank_rotation as int - delta) as i64, ..t1 },
        )
    } else {
        t1
    }
}

/// Turret aiming at a target point: the turret faces the unit vector from
/// the pivot (hull position plus pivot offset) towards the target, and the
/// turret rotation is the negated four-quadrant angle of that line. A target
/// exactly on the pivot leaves the turret unchanged.
pub open spec fn spec_update_turret_direction(t: Tank, target: Vec2) -> Tank {
    let ox: int = t.position.x + t.turret_rotation_origin.x;
    let oy: int = t.position.y + t.turret_rotation_origin.y;
    let dx: int = target.x as int - ox;
    let dy: int = target.y as int - oy;
    if dx == 0 && dy == 0 {
        t
    } else {
        Tank {
            turret_direction: Vec2 {
                x: spec_norm_x(dx, dy) as i64,
                y: spec_norm_y(dx, dy) as i64,
            },
            turret_rotation: (-spec_atan2(dy, -dx)) as i64,
            ..t
        }
    }
}

/// The aim point for a reported cursor position: the cursor shifted right by
/// [`MOUSE_OFFSET`].
pub open spec fn spec_adjusted_mouse(mouse: Vec2) -> Vec2 {
    Vec2 { x: (mouse.x + MOUSE_OFFSET) as i64, y: mouse.y }
}

/// One full tick of the player's tank: movement, then rotation, then turret
/// aiming at the adjusted cursor. A tank of any other player is driven
/// remotely and is left unchanged.
pub open spec fn spec_update(
    t: Tank,
    forward: bool,
    backward: bool,
    right: bool,
    left: bool,
    delta: int,
    mouse: Vec2,
    screen_coord: Rect,
    tank_dim: Rect,
    enemy: Rect,
) -> Tank {
    if t.player == Player::P1 {
        spec_update_turret_direction(
            spec_rotation(
                spec_movement(t, forward, backward, screen_coord, tank_dim, enemy),
                right,
                left,
                delta,
            ),
            spec_adjusted_mouse(mouse),
        )
    } else {
        t
    }
}

/// The sprite-sheet quadrant of a player's turret.
pub open spec fn spec_player_turret(p: Player) -> Rect {
    match p {
        Player::P1 => Rect { x: 0, y: 0, w: SPRITE_HALF, h: SPRITE_HALF },
        Player::P2 => Rect { x: SPRITE_HALF, y: 0, w: SPRITE_HALF, h: SPRITE_HALF },
        Player::P3 => Rect { x: 0, y: SPRITE_HALF, w: SPRITE_HALF, h: SPRITE_HALF },
        Player::P4 => Rect { x: SPRITE_HALF, y: SPRITE_HALF, w: SPRITE_HALF, h: SPRITE_HALF },
    }
}

impl Tank {
    /// Every scalar of the tank within its working range.
    pub open spec fn spec_bounds_ok(self) -> bool {
        pos_ok(self.position.x as int) && pos_ok(self.position.y as int) && dir_ok(
            self.tank_direction.x as int,
        ) && dir_ok(self.tank_direction.y as int) && angle_ok(self.tank_rotation as int) && dir_ok(
            self.turret_direction.x as int,
        ) && dir_ok(self.turret_direction.y as int) && angle_ok(self.turret_rotation as int)
            && self.turret_rotation_origin.spec_coords_ok() && coord_ok(self.turret_width as int)
    }

    /// Re-derive the hull facing from the hull rotation.
    fn update_direction(&mut self)
        requires
            angle_ok(old(self).tank_rotation as int),
        ensures
            *final(self) == spec_update_direction(*old(self)),
            dir_ok(final(self).tank_direction.x as int),
            dir_ok(final(self).tank_direction.y as int),
    {
        let sc: (i64, i64) = sin_cos(self.tank_rotation);
        self.tank_direction = Vec2 { x: -sc.1, y: -sc.0 };
    }

    /// Attempt one step along (or against) the hull facing: the position
    /// changes exactly when the candidate rectangle stays inside the
    /// playfield and clear of the opponent, and the rectangle is left at the
    /// candidate spot for the next attempt.
    fn update_position(&mut self, dirsign: i64, screen_coord: Rect, rect: &mut Rect, enemy: &Rect)
        requires
            dirsign == 1 || dirsign == -1,
            old(self).spec_bounds_ok(),
            screen_coord.spec_coords_ok(),
            old(rect).spec_span_ok(),
            old(rect).spec_sides_nonneg(),
            enemy.spec_span_ok(),
        ensures
            *final(self) == spec_update_position(
                *old(self),
                dirsign as int,
                screen_coord,
                old(rect).w,
                old(rect).h,
                *enemy,
            ),
            final(self).spec_bounds_ok(),
            *final(rect) == (Rect {
                x: spec_candidate_position(*old(self), dirsign as int).x,
                y: spec_candidate_position(*old(self), dirsign as int).y,
                w: old(rect).w,
                h: old(rect).h,
            }),
            final(rect).spec_span_ok(),
            final(rect).spec_sides_nonneg(),
    {
        proof {
            assert(-2_000_000 <= dirsign * self.tank_direction.x <= 2_000_000 && -2_000_000
                <= dirsign * self.tank_direction.y <= 2_000_000) by (nonlinear_arith)
                requires
                    dirsign == 1 || dirsign == -1,
                    -2_000_000 <= self.tank_direction.x <= 2_000_000,
                    -2_000_000 <= self.tank_direction.y <= 2_000_000,
            ;
        }
        let new_x: i64 = self.position.x + dirsign * self.tank_direction.x;
        let new_y: i64 = self.position.y + dirsign * self.tank_direction.y;
        rect.x = new_x;
        rect.y = new_y;
        if screen_coord.contains_rect(rect) && !rect.overlaps(enemy) {
            self.position = Vec2 { x: new_x, y: new_y };
        }
    }

    /// One movement tick, exactly [`spec_movement`]: W or Up attempts a
    /// forward step, S or Down a backward step, each applied only when the
    /// rotated bounding rectangle stays inside `screen_coord` and clear of
    /// `enemy`.
    pub fn movement(&mut self, keys: &KeySet, screen_coord: Rect, tank_dim: Rect, enemy: &Rect)
        requires
            old(self).spec_bounds_ok(),
            screen_coord.spec_coords_ok(),
            tank_dim.spec_coords_ok(),
            tank_dim.spec_sides_nonneg(),
            enemy.spec_span_ok(),
        ensures
            *final(self) == spec_movement(
                *old(self),
                keys.spec_has(Key::W) || keys.spec_has(Key::Up),
                keys.spec_has(Key::S) || keys.spec_has(Key::Down),
                screen_coord,
                tank_dim,
                *enemy,
            ),
            final(self).spec_bounds_ok(),
    {
        let mut rect: Rect = Rect::new(self.position.x, self.position.y, tank_dim.w, tank_dim.h);
        rect.rotate(self.tank_rotation);
        if keys.contains(Key::W) || keys.contains(Key::Up) {
            self.update_position(1, screen_coord, &mut rect, enemy);
        }
        if keys.contains(Key::S) || keys.contains(Key::Down) {
            self.update_position(-1, screen_coord, &mut rect, enemy);
        }
    }

    /// One rotation tick, exactly [`spec_rotation`]: D or Right adds the
    /// delta to the hull rotation, A or Left subtracts it, and each change
    /// re-derives the hull facing.
    pub fn rotation(&mut self, keys: &KeySet, delta: i64)
        requires
            old(self).spec_bounds_ok(),
            angle_ok(old(self).tank_rotation + delta),
            angle_ok(old(self).tank_rotation - delta),
        ensures
            *final(self) == spec_rotation(
                *old(self),
                keys.spec_has(Key::D) || keys.spec_has(Key::Right),
                keys.spec_has(Key::A) || keys.spec_has(Key::Left),
                delta as int,
            ),
            final(self).spec_bounds_ok(),
            final(self).tank_rotation == old(self).tank_rotation || final(self).tank_rotation
                == old(self).tank_rotation + delta || final(self).tank_rotation == old(
                self,
            ).tank_rotation - delta,
    {
        if keys.contains(Key::D) || keys.contains(Key::Right) {
            self.tank_rotation = self.tank_rotation + delta;
            self.update_direction();
        }
        if keys.contains(Key::A) || keys.contains(Key::Left) {
            self.tank_rotation = self.tank_rotation - delta;
            self.update_direction();
        }
    }

    /// Aim the turret at a target point, exactly
    /// [`spec_update_turret_direction`].
    pub fn update_turret_direction(&mut self, mouse_position: Vec2)
        requires
            old(self).spec_bounds_ok(),
            pos_ok(mouse_position.x as int),
            pos_ok(mouse_position.y as int),
        ensures
            *final(self) == spec_update_turret_direction(*old(self), mouse_position),
            final(self).spec_bounds_ok(),
    {
        let ox: i64 = self.position.x + self.turret_rotation_origin.x;
        let oy: i64 = self.position.y + self.turret_rotation_origin.y;
        let dx: i64 = mouse_position.x - ox;
        let dy: i64 = mouse_position.y - oy;
        if dx == 0 && dy == 0 {
            return ;
        }
        let angle: i64 = atan2(dy, -dx);
        let dir: Vec2 = normalize(dx, dy);
        self.turret_direction = dir;
        self.turret_rotation = -angle;
    }

    /// The point at the turret's reach along the turret rotation, exactly
    /// one reach length from the hull position against the rotation's cosine
    /// and sine.
    pub fn get_turret_end(&self) -> (end: (i64, i64))
        requires
            self.spec_bounds_ok(),
        ensures
            end.0 as int == self.position.x as int - div_trunc(
                (self.turret_width as int) * spec_cos(self.turret_rotation as int),
                SCALE as int,
            ),
            end.1 as int == self.position.y as int - div_trunc(
                (self.turret_width as int) * spec_sin(self.turret_rotation as int),
                SCALE as int,
            ),
    {
        let sc: (i64, i64) = sin_cos(self.turret_rotation);
        let i: i64 = mul_div_scale(self.turret_width, sc.1);
        let j: i64 = mul_div_scale(self.turret_width, sc.0);
        (self.position.x - i, self.position.y - j)
    }

    /// The sprite-sheet quadrant of this tank's turret, exactly
    /// [`spec_player_turret`].
    pub fn get_player_turret(&self) -> (r: Rect)
        ensures
            r == spec_player_turret(self.player),
    {
        match self.player {
            Player::P1 => Rect { x: 0, y: 0, w: SPRITE_HALF, h: SPRITE_HALF },
            Player::P2 => Rect { x: SPRITE_HALF, y: 0, w: SPRITE_HALF, h: SPRITE_HALF },
            Player::P3 => Rect { x: 0, y: SPRITE_HALF, w: SPRITE_HALF, h: SPRITE_HALF },
            Player::P4 => Rect { x: SPRITE_HALF, y: SPRITE_HALF, w: SPRITE_HALF, h: SPRITE_HALF },
        }
    }

    /// One full tick against an open field, exactly [`spec_update`] with an
    /// empty opponent rectangle at the origin.
    pub fn update(
        &mut self,
        keys: &KeySet,
        delta: i64,
        mouse_position: Vec2,
        screen_coord: Rect,
        tank_dim: Rect,
    )
        requires
            old(self).spec_bounds_ok(),
            angle_ok(old(self).tank_rotation + delta),
            angle_ok(old(self).tank_rotation - delta),
            screen_coord.spec_coords_ok(),
            tank_dim.spec_coords_ok(),
            tank_dim.spec_sides_nonneg(),
            mouse_position.spec_coords_ok(),
        ensures
            *final(self) == spec_update(
                *old(self),
                keys.spec_has(Key::W) || keys.spec_has(Key::Up),
                keys.spec_has(Key::S) || keys.spec_has(Key::Down),
                keys.spec_has(Key::D) || keys.spec_has(Key::Right),
                keys.spec_has(Key::A) || keys.spec_has(Key::Left),
                delta as int,
                mouse_position,
                screen_coord,
                tank_dim,
                (Rect { x: 0, y: 0, w: 0, h: 0 }),
            ),
            final(self).spec_bounds_ok(),
    {
        if self.player == Player::P1 {
            let empty: Rect = Rect::new(0, 0, 0, 0);
            self.movement(keys, screen_coord, tank_dim, &empty);
            self.rotation(keys, delta);
            let aim: Vec2 = Vec2 { x: mouse_position.x + MOUSE_OFFSET, y: mouse_position.y };
            self.update_turret_direction(aim);
        }
    }

    /// One full tick against an opponent, exactly [`spec_update`] with the
    /// opponent's rotated bounding rectangle.
    pub fn update_(
        &mut self,
        keys: &KeySet,
        delta: i64,
        mouse_position: Vec2,
        screen_coord: Rect,
        tank_dim: Rect,
        enemy: &Tank,
        enemy_dim: Rect,
    )
        requires
            old(self).spec_bounds_ok(),
            enemy.spec_bounds_ok(),
            angle_ok(old(self).tank_rotation + delta),
            angle_ok(old(self).tank_rotation - delta),
            screen_coord.spec_coords_ok(),
            tank_dim.spec_coords_ok(),
            tank_dim.spec_sides_nonneg(),
            enemy_dim.spec_coords_ok(),
            enemy_dim.spec_sides_nonneg(),
            mouse_position.spec_coords_ok(),
        ensures
            *final(self) == spec_update(
                *old(self),
                keys.spec_has(Key::W) || keys.spec_has(Key::Up),
                keys.spec_has(Key::S) || keys.spec_has(Key::Down),
                keys.spec_has(Key::D) || keys.spec_has(Key::Right),
                keys.spec_has(Key::A) || keys.spec_has(Key::Left),
                delta as int,
                mouse_position,
                screen_coord,
                tank_dim,
                (Rect {
                    x: enemy.position.x,
                    y: enemy.position.y,
                    w: enemy_dim.w,
                    h: enemy_dim.h,
                }).spec_rotate(enemy.tank_rotation as int),
            ),
            final(self).spec_bounds_ok(),
    {
        if self.player == Player::P1 {
            let mut enemy_rect: Rect = Rect::new(
                enemy.position.x,
                enemy.position.y,
                enemy_dim.w,
                enemy_dim.h,
            );
            enemy_rect.rotate(enemy.tank_rotation);
            self.movement(keys, screen_coord, tank_dim, &enemy_rect);
            self.rotation(keys, delta);
            let aim: Vec2 = Vec2 { x: mouse_position.x + MOUSE_OFFSET, y: mouse_position.y };
            self.update_turret_direction(aim);
        }
    }
}

/// Truncating `(a * b) / SCALE`, exactly `div_trunc` of the product.
fn mul_div_scale(a: i64, b: i64) -> (r: i64)
    requires
        -MAX_COORD <= a <= MAX_COORD,
        -2 * SCALE <= b <= 2 * SCALE,
    ensures
        r as int == div_trunc((a as int) * (b as int), SCALE as int),
        -4_000_000_000_000 <= r <= 4_000_000_000_000,
{
    proof {
        assert(-(2_000_000_000_000i64 * 2_000_000i64) <= a * b <= 2_000_000_000_000i64
            * 2_000_000i64) by (nonlinear_arith)
            requires
                -2_000_000_000_000 <= a <= 2_000_000_000_000,
                -2_000_000 <= b <= 2_000_000,
        ;
    }
    let p: i64 = a * b;
    if p >= 0 {
        p / SCALE
    } else {
        -((-p) / SCALE)
    }
}

} // verus!
