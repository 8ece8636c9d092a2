//! The game state: one player-driven tank, at most one bullet in flight,
//! and the playfield rectangle; plus the window configuration.

use vstd::prelude::*;

use crate::bullet::{spec_bullet_movement, spec_remove_bullet_if_outside, Bullet};
use crate::fixed::{angle_ok, SCALE};
use crate::geometry::{Rect, Vec2};
use crate::input::{Key, KeySet};
use crate::objects::{spec_update, Tank};

verus! {

/// Which player a tank belongs to; selects the turret sprite quadrant.
#[derive(Clone, Copy, PartialEq, Eq, Structural, Debug)]
pub enum Player {
    P1,
    P2,
    P3,
    P4,
}

/// Everything the game reads from the platform during one tick: the held
/// keys, the tick's elapsed time in fixed-point seconds, the cursor
/// position, and whether the left mouse button is pressed.
#[derive(Debug)]
pub struct TickInput {
    pub keys: KeySet,
    pub delta: i64,
    pub mouse_position: Vec2,
    pub left_mouse_button_pressed: bool,
}

/// The game state: the player's tank, the single bullet slot, the playfield
/// rectangle, and the tank sprite's dimensions.
#[derive(Debug)]
pub struct MainState {
    pub tank: Tank,
    pub bullet: Option<Bullet>,
    pub coordinate: Rect,
    pub tank_dimensions: Rect,
}

/// The freshly started state for a playfield, tank dimensions and player:
/// the tank rests at the playfield's centre facing left along the x axis,
/// with the turret pivot seven tenths across and half way down the sprite,
/// and no bullet in flight.
pub open spec fn spec_new_state(screen_coord: Rect, tank_dimensions: Rect, player: Player) -> MainState {
    MainState {
        tank: Tank {
            position: Vec2 { x: (screen_coord.w / 2) as i64, y: (screen_coord.h / 2) as i64 },
            tank_direction: Vec2 { x: (-SCALE) as i64, y: 0 },
            tank_rotation: 0,
            turret_direction: Vec2 { x: (-SCALE) as i64, y: 0 },
            turret_rotation: 0,
            turret_rotation_origin: Vec2 {
                x: ((tank_dimensions.w * 7) / 10) as i64,
                y: (tank_dimensions.h / 2) as i64,
            },
            player,
            turret_width: 0,
        },
        bullet: None,
        coordinate: screen_coord,
        tank_dimensions,
    }
}

/// The state after firing: when the space bar or the left mouse button is
/// down, the bullet slot is filled from the tank's current turret state;
/// otherwise nothing changes.
pub open spec fn spec_fire_bullet(s: MainState, space: bool, left_mouse_button_pressed: bool) -> MainState {
    if space || left_mouse_button_pressed {
        MainState {
            bullet: Some(
                Bullet {
                    position: s.tank.position,
                    direction: s.tank.turret_direction,
                    rotation: s.tank.turret_rotation,
                    origin: s.tank.turret_rotation_origin,
                },
            ),
            ..s
        }
    } else {
        s
    }
}

/// One full game tick: the tank takes its tick against the open playfield;
/// then, if a bullet is in flight it advances and is dropped the moment it
/// leaves the playfield, and only if none is in flight can the fire input
/// spawn one from the turret state.
pub open spec fn spec_main_update(s: MainState, input: TickInput) -> MainState {
    let t1 = spec_update(
        s.tank,
        input.keys.spec_has(Key::W) || input.keys.spec_has(Key::Up),
        input.keys.spec_has(Key::S) || input.keys.spec_has(Key::Down),
        input.keys.spec_has(Key::D) || input.keys.spec_has(Key::Right),
        input.keys.spec_has(Key::A) || input.keys.spec_has(Key::Left),
        input.delta as int,
        input.mouse_position,
        s.coordinate,
        s.tank_dimensions,
        (Rect { x: 0, y: 0, w: 0, h: 0 }),
    );
    let s1 = MainState { tank: t1, ..s };
    match s1.bullet {
        Some(b) => {
            let b2 = spec_bullet_movement(b);
            spec_remove_bullet_if_outside(
                b2.position,
                MainState { bullet: Some(b2), ..s1 },
                s1.coordinate,
            )
        },
        None => spec_fire_bullet(
            s1,
            input.keys.spec_has(Key::Space),
            input.left_mouse_button_pressed,
        ),
    }
}

impl MainState {
    /// Every part of the state within its working range.
    pub open spec fn spec_wf(self) -> bool {
        self.tank.spec_bounds_ok() && self.coordinate.spec_coords_ok()
            && self.coordinate.spec_sides_nonneg() && self.tank_dimensions.spec_coords_ok()
            && self.tank_dimensions.spec_sides_nonneg() && match self.bullet {
            Some(b) => b.spec_bounds_ok(),
            None => true,
        }
    }

    /// Start a game, exactly [`spec_new_state`].
    pub fn new(screen_coord: Rect, tank_dimensions: Rect, player: Player) -> (s: MainState)
        requires
            screen_coord.spec_coords_ok(),
            screen_coord.spec_sides_nonneg(),
            tank_dimensions.spec_coords_ok(),
            tank_dimensions.spec_sides_nonneg(),
        ensures
            s == spec_new_state(screen_coord, tank_dimensions, player),
            s.spec_wf(),
    {
        let tank = Tank {
            position: Vec2 { x: screen_coord.w / 2, y: screen_coord.h / 2 },
            tank_direction: Vec2 { x: -SCALE, y: 0 },
            tank_rotation: 0,
            turret_direction: Vec2 { x: -SCALE, y: 0 },
            turret_rotation: 0,
            turret_rotation_origin: Vec2 {
                x: (tank_dimensions.w * 7) / 10,
                y: tank_dimensions.h / 2,
            },
            player,
            turret_width: 0,
        };
        MainState { tank, bullet: None, coordinate: screen_coord, tank_dimensions }
    }

    /// Fill the bullet slot from the turret state when a fire input is down,
    /// exactly [`spec_fire_bullet`]. Called on its own it overwrites any
    /// bullet in flight; [`MainState::update`] reaches it only while the
    /// slot is empty.
    pub fn fire_bullet(&mut self, keys: &KeySet, left_mouse_button_pressed: bool)
        ensures
            *final(self) == spec_fire_bullet(
                *old(self),
                keys.spec_has(Key::Space),
                left_mouse_button_pressed,
            ),
    {
        if keys.contains(Key::Space) || left_mouse_button_pressed {
            self.bullet = Some(
                Bullet {
                    position: self.tank.position,
                    direction: self.tank.turret_direction,
                    rotation: self.tank.turret_rotation,
                    origin: self.tank.turret_rotation_origin,
                },
            );
        }
    }

    /// One full game tick, exactly [`spec_main_update`].
    pub fn update(&mut self, input: &TickInput)
        requires
            old(self).spec_wf(),
            angle_ok(old(self).tank.tank_rotation + input.delta),
            angle_ok(old(self).tank.tank_rotation - input.delta),
            input.mouse_position.spec_coords_ok(),
        ensures
            *final(self) == spec_main_update(*old(self), *input),
            final(self).spec_wf(),
    {
        let coord = self.coordinate;
        let tdim = self.tank_dimensions;
        self.tank.update(&input.keys, input.delta, input.mouse_position, coord, tdim);
        match self.bullet {
            Some(b) => {
                let mut moved = b;
                moved.movement();
                self.bullet = Some(moved);
                crate::bullet::remove_bullet_if_outside_game_scren(moved.position, self, coord);
            },
            None => {
                self.fire_bullet(&input.keys, input.left_mouse_button_pressed);
            },
        }
    }
}

/// How the window is set up: a resizable 1200 by 900 window, allowed to
/// range between 800 by 600 and 1600 by 1200, in whole pixels.
#[derive(Clone, Copy, PartialEq, Eq, Structural, Debug)]
pub struct WindowMode {
    pub width: i64,
    pub height: i64,
    pub maximized: bool,
    pub fullscreen_type: FullscreenType,
    pub borderless: bool,
    pub min_width: i64,
    pub min_height: i64,
    pub max_width: i64,
    pub max_height: i64,
    pub resizable: bool,
}

/// Whether the window is windowed, exclusive fullscreen, or borderless
/// desktop fullscreen.
#[derive(Clone, Copy, PartialEq, Eq, Structural, Debug)]
pub enum FullscreenType {
    Windowed,
    True,
    Desktop,
}

/// The game's window configuration.
pub fn window_state_mode() -> (m: WindowMode)
    ensures
        m == (WindowMode {
            width: 1200,
            height: 900,
            maximized: false,
            fullscreen_type: FullscreenType::Windowed,
            borderless: false,
            min_width: 800,
            min_height: 600,
            max_width: 1600,
            max_height: 1200,
            resizable: true,
        }),
{
    WindowMode {
        width: 1200,
        height: 900,
        maximized: false,
        fullscreen_type: FullscreenType::Windowed,
        borderless: false,
        min_width: 800,
        min_height: 600,
        max_width: 1600,
        max_height: 1200,
        resizable: true,
    }
}

} // verus!
