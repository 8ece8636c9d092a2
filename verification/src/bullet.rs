//! The bullet: spawned from the firing tank's turret state, it advances a
//! fixed number of units along its direction each tick and is removed the
//! moment its position leaves the playfield rectangle.

use vstd::prelude::*;

use crate::fixed::{dir_ok, pos_ok};
use crate::geometry::{span_ok, Rect, Vec2};
use crate::state::MainState;

verus! {

/// Units the bullet advances along its direction each tick.
pub const SPEED: i64 = 3;

/// A bullet in flight: its position, the unit direction it travels along,
/// its rotation for drawing, and the pivot offset copied from the turret.
#[derive(Clone, Copy, PartialEq, Eq, Structural, Debug)]
pub struct Bullet {
    pub position: Vec2,
    pub direction: Vec2,
    pub rotation: i64,
    pub origin: Vec2,
}

/// One movement tick: the position advances [`SPEED`] units along the
/// direction.
pub open spec fn spec_bullet_movement(b: Bullet) -> Bullet {
    Bullet {
        position: Vec2 {
            x: (b.position.x + (SPEED as int) * (b.direction.x as int)) as i64,
            y: (b.position.y + (SPEED as int) * (b.direction.y as int)) as i64,
        },
        ..b
    }
}

impl Bullet {
    /// Position and direction within their working ranges.
    pub open spec fn spec_bounds_ok(self) -> bool {
        pos_ok(self.position.x as int) && pos_ok(self.position.y as int) && dir_ok(
            self.direction.x as int,
        ) && dir_ok(self.direction.y as int)
    }

    /// Advance the bullet, exactly [`spec_bullet_movement`].
    pub fn movement(&mut self)
        requires
            old(self).spec_bounds_ok(),
        ensures
            *final(self) == spec_bullet_movement(*old(self)),
            span_ok(final(self).position.x as int),
            span_ok(final(self).position.y as int),
            final(self).direction == old(self).direction,
    {
        self.position = Vec2 {
            x: self.position.x + SPEED * self.direction.x,
            y: self.position.y + SPEED * self.direction.y,
        };
    }
}

/// The state after the out-of-bounds check: unchanged while the bullet
/// position is inside the playfield, and with the bullet slot emptied the
/// moment it is not.
pub open spec fn spec_remove_bullet_if_outside(
    bullet_position: Vec2,
    s: MainState,
    coordinates: Rect,
) -> MainState {
    if coordinates.spec_contains(bullet_position) {
        s
    } else {
        MainState { bullet: None, ..s }
    }
}

/// Empty the bullet slot when the given bullet position lies outside the
/// playfield rectangle, exactly [`spec_remove_bullet_if_outside`].
pub fn remove_bullet_if_outside_game_scren(
    bullet_position: Vec2,
    main_state: &mut MainState,
    coordinates: Rect,
)
    requires
        span_ok(bullet_position.x as int),
        span_ok(bullet_position.y as int),
        coordinates.spec_span_ok(),
    ensures
        *final(main_state) == spec_remove_bullet_if_outside(
            bullet_position,
            *old(main_state),
            coordinates,
        ),
{
    if !coordinates.contains(bullet_position) {
        main_state.bullet = None;
    }
}

} // verus!
