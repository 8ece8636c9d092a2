use tank_battle::bullet::Bullet;
use tank_battle::fixed::SCALE;
use tank_battle::geometry::{Rect, Vec2};
use tank_battle::input::{Key, KeySet};
use tank_battle::objects::Tank;
use tank_battle::state::{window_state_mode, FullscreenType, MainState, Player, TickInput};

fn units(v: i64) -> i64 {
    v * SCALE
}

fn main_state() -> MainState {
    MainState {
        tank: Tank {
            position: Vec2 { x: units(300), y: units(300) },
            tank_direction: Vec2 { x: SCALE, y: SCALE },
            tank_rotation: units(30),
            turret_direction: Vec2 { x: SCALE, y: SCALE },
            turret_rotation: units(30),
            turret_rotation_origin: Vec2 { x: SCALE, y: SCALE },
            player: Player::P1,
            turret_width: 0,
        },
        bullet: None,
        coordinate: coord(),
        tank_dimensions: Rect { x: 0, y: 0, w: 0, h: 0 },
    }
}

fn coord() -> Rect {
    Rect { x: 0, y: 0, w: units(900), h: units(1200) }
}

#[test]
fn random_keys_dont_fire_bullet() {
    let mut state = main_state();
    let keys = KeySet::of(vec![Key::W, Key::A, Key::K, Key::V]);
    assert!(state.bullet.is_none());
    state.fire_bullet(&keys, false);
    assert!(state.bullet.is_none());
}

#[test]
fn left_mouse_button_fires_bullet() {
    let mut state = main_state();
    let keys = KeySet::of(vec![Key::Z]);
    assert!(state.bullet.is_none());
    state.fire_bullet(&keys, true);
    assert!(state.bullet.is_some());
}

#[test]
fn spacebar_fires_bullet() {
    let mut state = main_state();
    let keys = KeySet::of(vec![Key::Space]);
    assert!(state.bullet.is_none());
    state.fire_bullet(&keys, false);
    assert!(state.bullet.is_some());
}

#[test]
fn fired_bullet_copies_turret_state() {
    let mut state = main_state();
    let keys = KeySet::of(vec![Key::Space]);
    state.fire_bullet(&keys, false);
    let b = state.bullet.unwrap();
    assert_eq!(b.position, Vec2 { x: units(300), y: units(300) });
    assert_eq!(b.direction, Vec2 { x: SCALE, y: SCALE });
    assert_eq!(b.rotation, units(30));
    assert_eq!(b.origin, Vec2 { x: SCALE, y: SCALE });
}

#[test]
fn tick_with_live_bullet_does_not_spawn_another() {
    let mut state = main_state();
    state.bullet = Some(Bullet {
        position: Vec2 { x: units(100), y: units(100) },
        direction: Vec2 { x: SCALE, y: 0 },
        rotation: 0,
        origin: Vec2 { x: 0, y: 0 },
    });
    let input = TickInput {
        keys: KeySet::of(vec![Key::Space]),
        delta: 0,
        mouse_position: Vec2 { x: 0, y: 0 },
        left_mouse_button_pressed: true,
    };
    state.update(&input);
    let b = state.bullet.unwrap();
    assert_eq!(b.position, Vec2 { x: units(103), y: units(100) });
    assert_eq!(b.rotation, 0);
}

#[test]
fn tick_moves_bullet_out_of_screen_and_removes_it() {
    let mut state = main_state();
    state.bullet = Some(Bullet {
        position: Vec2 { x: units(899), y: units(100) },
        direction: Vec2 { x: SCALE, y: 0 },
        rotation: 0,
        origin: Vec2 { x: 0, y: 0 },
    });
    let input = TickInput {
        keys: KeySet::of(vec![]),
        delta: 0,
        mouse_position: Vec2 { x: 0, y: 0 },
        left_mouse_button_pressed: false,
    };
    state.update(&input);
    assert!(state.bullet.is_none());
}

#[test]
fn tick_without_fire_input_spawns_nothing() {
    let mut state = main_state();
    let input = TickInput {
        keys: KeySet::of(vec![Key::W]),
        delta: 0,
        mouse_position: Vec2 { x: 0, y: 0 },
        left_mouse_button_pressed: false,
    };
    state.update(&input);
    assert!(state.bullet.is_none());
}

#[test]
fn new_state_centres_tank_on_playfield() {
    let screen = Rect { x: 0, y: 0, w: units(800), h: units(600) };
    let dim = Rect { x: 0, y: 0, w: units(100), h: units(50) };
    let state = MainState::new(screen, dim, Player::P1);
    assert_eq!(state.tank.position, Vec2 { x: units(400), y: units(300) });
    assert_eq!(state.tank.tank_direction, Vec2 { x: -SCALE, y: 0 });
    assert_eq!(state.tank.tank_rotation, 0);
    assert_eq!(state.tank.turret_direction, Vec2 { x: -SCALE, y: 0 });
    assert_eq!(state.tank.turret_rotation, 0);
    assert_eq!(state.tank.turret_rotation_origin, Vec2 { x: units(70), y: units(25) });
    assert!(state.bullet.is_none());
    assert_eq!(state.coordinate, screen);
}

#[test]
fn window_mode_values() {
    let m = window_state_mode();
    assert_eq!(m.width, 1200);
    assert_eq!(m.height, 900);
    assert!(!m.maximized);
    assert_eq!(m.fullscreen_type, FullscreenType::Windowed);
    assert!(!m.borderless);
    assert_eq!(m.min_width, 800);
    assert_eq!(m.min_height, 600);
    assert_eq!(m.max_width, 1600);
    assert_eq!(m.max_height, 1200);
    assert!(m.resizable);
}
