use tank_battle::fixed::{HALF_PI, PI, SCALE};
use tank_battle::geometry::{Rect, Vec2};
use tank_battle::input::{Key, KeySet};
use tank_battle::objects::Tank;
use tank_battle::state::Player;

fn units(v: i64) -> i64 {
    v * SCALE
}

fn tank() -> Tank {
    Tank {
        position: Vec2 { x: units(400), y: units(300) },
        tank_direction: Vec2 { x: -SCALE, y: 0 },
        tank_rotation: 0,
        turret_direction: Vec2 { x: -SCALE, y: 0 },
        turret_rotation: 0,
        turret_rotation_origin: Vec2 { x: 0, y: 0 },
        player: Player::P1,
        turret_width: units(5),
    }
}

fn screen_coord() -> Rect {
    Rect { x: 0, y: 0, w: units(1200), h: units(900) }
}

fn tank_dim() -> Rect {
    Rect { x: 0, y: 0, w: units(10), h: units(10) }
}

fn empty_rect() -> Rect {
    Rect { x: 0, y: 0, w: 0, h: 0 }
}

fn keys(list: Vec<Key>) -> KeySet {
    KeySet::of(list)
}

fn approx(scaled: i64, expected: f64) -> bool {
    ((scaled as f64) / (SCALE as f64) - expected).abs() < 1e-3
}

#[test]
fn objects_initial_info() {
    let t = tank();
    assert_eq!(t.position, Vec2 { x: units(400), y: units(300) });
    assert_eq!(t.tank_rotation, 0);
    assert_eq!(t.tank_direction, Vec2 { x: -SCALE, y: 0 });
}

#[test]
fn objects_move_forward() {
    let mut t = tank();
    let k = keys(vec![Key::W]);
    t.movement(&k, screen_coord(), tank_dim(), &empty_rect());
    assert_eq!(t.position, Vec2 { x: units(399), y: units(300) });
    let k = keys(vec![Key::Up]);
    t.movement(&k, screen_coord(), tank_dim(), &empty_rect());
    assert_eq!(t.position, Vec2 { x: units(398), y: units(300) });
}

#[test]
fn objects_move_backwards() {
    let mut t = tank();
    let k = keys(vec![Key::S]);
    t.movement(&k, screen_coord(), tank_dim(), &empty_rect());
    assert_eq!(t.position, Vec2 { x: units(401), y: units(300) });
    let k = keys(vec![Key::Down]);
    t.movement(&k, screen_coord(), tank_dim(), &empty_rect());
    assert_eq!(t.position, Vec2 { x: units(402), y: units(300) });
}

#[test]
fn objects_turn_left() {
    let mut t = tank();
    let k = keys(vec![Key::A]);
    t.rotation(&k, 300_000);
    let k = keys(vec![Key::W]);
    t.movement(&k, screen_coord(), tank_dim(), &empty_rect());
    assert!(approx(t.position.x, 399.04468));
    assert!(approx(t.position.y, 300.29553));

    let k = keys(vec![Key::Left]);
    t.rotation(&k, 500_000);
    let k = keys(vec![Key::W]);
    t.movement(&k, screen_coord(), tank_dim(), &empty_rect());
    assert!(approx(t.position.x, 398.34796));
    assert!(approx(t.position.y, 301.01288));
}

#[test]
fn objects_turn_right() {
    let mut t = tank();
    let k = keys(vec![Key::D]);
    t.rotation(&k, 300_000);
    let k = keys(vec![Key::S]);
    t.movement(&k, screen_coord(), tank_dim(), &empty_rect());
    assert!(approx(t.position.x, 400.95532));
    assert!(approx(t.position.y, 300.29553));

    let k = keys(vec![Key::Right]);
    t.rotation(&k, 500_000);
    let k = keys(vec![Key::S]);
    t.movement(&k, screen_coord(), tank_dim(), &empty_rect());
    assert!(approx(t.position.x, 401.65204));
    assert!(approx(t.position.y, 301.01288));
}

#[test]
fn mod_initial_info() {
    let t = tank();
    assert_eq!(t.position, Vec2 { x: units(400), y: units(300) });
    assert_eq!(t.tank_rotation, 0);
    assert_eq!(t.tank_direction, Vec2 { x: -SCALE, y: 0 });
}

#[test]
fn mod_move_forward() {
    let mut t = tank();
    let k = keys(vec![Key::W]);
    t.movement(&k, screen_coord(), tank_dim(), &empty_rect());
    assert_eq!(t.position, Vec2 { x: units(399), y: units(300) });
    let k = keys(vec![Key::Up]);
    t.movement(&k, screen_coord(), tank_dim(), &empty_rect());
    assert_eq!(t.position, Vec2 { x: units(398), y: units(300) });
}

#[test]
fn mod_move_backwards() {
    let mut t = tank();
    let k = keys(vec![Key::S]);
    t.movement(&k, screen_coord(), tank_dim(), &empty_rect());
    assert_eq!(t.position, Vec2 { x: units(401), y: units(300) });
    let k = keys(vec![Key::Down]);
    t.movement(&k, screen_coord(), tank_dim(), &empty_rect());
    assert_eq!(t.position, Vec2 { x: units(402), y: units(300) });
}

#[test]
fn mod_turn_left() {
    let mut t = tank();
    let k = keys(vec![Key::A]);
    t.rotation(&k, 300_000);
    let k = keys(vec![Key::W]);
    t.movement(&k, screen_coord(), tank_dim(), &empty_rect());
    assert!(approx(t.position.x, 399.04468));
    assert!(approx(t.position.y, 300.29553));

    let k = keys(vec![Key::Left]);
    t.rotation(&k, 500_000);
    let k = keys(vec![Key::W]);
    t.movement(&k, screen_coord(), tank_dim(), &empty_rect());
    assert!(approx(t.position.x, 398.34796));
    assert!(approx(t.position.y, 301.01288));
}

#[test]
fn mod_turn_right() {
    let mut t = tank();
    let k = keys(vec![Key::D]);
    t.rotation(&k, 300_000);
    let k = keys(vec![Key::S]);
    t.movement(&k, screen_coord(), tank_dim(), &empty_rect());
    assert!(approx(t.position.x, 400.95532));
    assert!(approx(t.position.y, 300.29553));

    let k = keys(vec![Key::Right]);
    t.rotation(&k, 500_000);
    let k = keys(vec![Key::S]);
    t.movement(&k, screen_coord(), tank_dim(), &empty_rect());
    assert!(approx(t.position.x, 401.65204));
    assert!(approx(t.position.y, 301.01288));
}

#[test]
fn turret_rotation_direction() {
    let mut t = tank();
    t.update_turret_direction(Vec2 { x: units(500), y: units(300) });
    assert_eq!(t.turret_rotation, -PI);
    assert!(approx(t.turret_rotation, -3.1415925));
    assert_eq!(t.turret_direction, Vec2 { x: SCALE, y: 0 });

    t.update_turret_direction(Vec2 { x: units(100), y: units(300) });
    assert_eq!(t.turret_rotation, 0);
    assert_eq!(t.turret_direction, Vec2 { x: -SCALE, y: 0 });

    t.update_turret_direction(Vec2 { x: units(400), y: units(400) });
    assert_eq!(t.turret_rotation, -HALF_PI);
    assert!(approx(t.turret_rotation, -1.5707964));
    assert_eq!(t.turret_direction, Vec2 { x: 0, y: SCALE });

    t.update_turret_direction(Vec2 { x: units(400), y: units(200) });
    assert_eq!(t.turret_rotation, HALF_PI);
    assert!(approx(t.turret_rotation, 1.5707964));
    assert_eq!(t.turret_direction, Vec2 { x: 0, y: -SCALE });

    t.update_turret_direction(Vec2 { x: units(540), y: units(410) });
    assert!(approx(t.turret_rotation, -2.4756234));
    assert!(approx(t.turret_direction.x, 0.78631836));
    assert!(approx(t.turret_direction.y, 0.6178216));
}

#[test]
fn turrets_end() {
    let t = tank();
    let point = t.get_turret_end();
    assert_eq!(point, (units(395), units(300)));
}

#[test]
fn cant_move_backwards_outside_screen() {
    let screen = Rect { x: 0, y: 0, w: 400_500_000, h: 300_500_000 };
    let mut t = tank();
    let k = keys(vec![Key::S]);
    t.movement(&k, screen, tank_dim(), &empty_rect());
    assert_eq!(t.position, Vec2 { x: units(400), y: units(300) });
}

#[test]
fn collide_with_enemy() {
    let mut t = tank();
    let enemy = Rect { x: units(401), y: units(301), w: units(10), h: units(10) };
    let k = keys(vec![Key::W]);
    t.movement(&k, screen_coord(), tank_dim(), &enemy);
    assert_eq!(t.position, Vec2 { x: units(400), y: units(300) });
}

#[test]
fn player_turret_quadrants() {
    let mut t = tank();
    let half = 500_000;
    t.player = Player::P1;
    assert_eq!(t.get_player_turret(), Rect { x: 0, y: 0, w: half, h: half });
    t.player = Player::P2;
    assert_eq!(t.get_player_turret(), Rect { x: half, y: 0, w: half, h: half });
    t.player = Player::P3;
    assert_eq!(t.get_player_turret(), Rect { x: 0, y: half, w: half, h: half });
    t.player = Player::P4;
    assert_eq!(t.get_player_turret(), Rect { x: half, y: half, w: half, h: half });
}

#[test]
fn holding_both_movement_keys_nets_zero() {
    let mut t = tank();
    let k = keys(vec![Key::W, Key::S]);
    t.movement(&k, screen_coord(), tank_dim(), &empty_rect());
    assert_eq!(t.position, Vec2 { x: units(400), y: units(300) });
}

#[test]
fn other_player_tank_ignores_input() {
    let mut t = tank();
    t.player = Player::P2;
    let before = t;
    let k = keys(vec![Key::W, Key::A]);
    t.update(&k, 300_000, Vec2 { x: 0, y: 0 }, screen_coord(), tank_dim());
    assert_eq!(t, before);
}

#[test]
fn turret_aim_at_pivot_leaves_turret() {
    let mut t = tank();
    let before = t;
    t.update_turret_direction(Vec2 { x: units(400), y: units(300) });
    assert_eq!(t, before);
}
