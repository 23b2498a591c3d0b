use asteroids::angle::dir_from_mrad;
use asteroids::asteroid::Asteroid;
use asteroids::bullet::Bullet;
use asteroids::geom::Rect;
use asteroids::geom::Vec2;
use asteroids::ship::Ship;

const WIDTH: i64 = 640_000;
const HEIGHT: i64 = 480_000;

fn ship_at(position: Vec2, velocity: Vec2) -> Ship {
    Ship {
        position,
        velocity,
        rotation: 0,
        rect: Rect { x: position.x, y: position.y, w: 16_000, h: 16_000 },
    }
}

#[test]
fn ship_single_step_exact_arithmetic() {
    // position (100, 100), velocity (0, -5), screen 640 x 480, milli-scaled.
    let mut ship = ship_at(Vec2 { x: 100_000, y: 100_000 }, Vec2 { x: 0, y: -5_000 });
    ship.update(WIDTH, HEIGHT);
    assert_eq!(ship.position, Vec2 { x: 100_000, y: 95_000 });
    assert_eq!(ship.velocity, Vec2 { x: 0, y: -4_950 });
    assert_eq!(ship.rect.x, 100_000);
    assert_eq!(ship.rect.y, 95_000);
}

#[test]
fn ship_wraps_to_full_height_when_leaving_the_top() {
    let mut ship = ship_at(Vec2 { x: 100_000, y: 300 }, Vec2 { x: 0, y: -5_000 });
    ship.update(WIDTH, HEIGHT);
    assert_eq!(ship.position.y, HEIGHT);
}

#[test]
fn ship_coasting_from_100_100_wraps_to_full_height() {
    let mut ship = ship_at(Vec2 { x: 100_000, y: 100_000 }, Vec2 { x: 0, y: -5_000 });
    let mut wrapped = false;
    for _ in 0..200 {
        let before = ship.position.y;
        ship.update(WIDTH, HEIGHT);
        if ship.position.y > before {
            wrapped = true;
            assert_eq!(ship.position.y, HEIGHT);
            break;
        }
    }
    assert!(wrapped);
}

#[test]
fn ship_wraps_to_zero_when_leaving_the_right_edge() {
    let mut ship = ship_at(Vec2 { x: 639_000, y: 10_000 }, Vec2 { x: 2_000, y: 0 });
    ship.update(WIDTH, HEIGHT);
    assert_eq!(ship.position.x, 0);
}

#[test]
fn ship_velocity_magnitude_strictly_decreases_without_thrust() {
    let mut ship = ship_at(Vec2 { x: 320_000, y: 240_000 }, Vec2 { x: 3_000, y: -5_000 });
    let mut previous = ship.velocity.x * ship.velocity.x + ship.velocity.y * ship.velocity.y;
    for _ in 0..50 {
        ship.update(WIDTH, HEIGHT);
        let current = ship.velocity.x * ship.velocity.x + ship.velocity.y * ship.velocity.y;
        assert!(current < previous);
        previous = current;
    }
}

#[test]
fn asteroid_keeps_velocity_and_spins_away_from_zero() {
    let mut up = Asteroid {
        position: Vec2 { x: 10_000, y: 10_000 },
        velocity: Vec2 { x: 700, y: -300 },
        rotation: 0,
        rect: Rect { x: 10_000, y: 10_000, w: 24_000, h: 24_000 },
        collided: false,
        large: true,
    };
    up.update(WIDTH, HEIGHT);
    assert_eq!(up.velocity, Vec2 { x: 700, y: -300 });
    assert_eq!(up.position, Vec2 { x: 10_700, y: 9_700 });
    assert_eq!(up.rotation, 10);
    assert_eq!((up.rect.x, up.rect.y), (10_700, 9_700));

    let mut down = Asteroid { rotation: -5, ..up };
    down.update(WIDTH, HEIGHT);
    assert_eq!(down.rotation, -15);
}

#[test]
fn bullet_moves_straight_and_never_wraps() {
    let mut bullet = Bullet {
        position: Vec2 { x: 639_000, y: 10_000 },
        velocity: Vec2 { x: 5_000, y: 0 },
        rect: Rect { x: 639_000, y: 10_000, w: 4_000, h: 4_000 },
        created_at: 0,
        collided: false,
    };
    bullet.update();
    assert_eq!(bullet.position, Vec2 { x: 644_000, y: 10_000 });
    assert_eq!((bullet.rect.x, bullet.rect.y), (644_000, 10_000));
}

#[test]
fn firing_straight_right_pins_the_direction_model() {
    let ship = ship_at(Vec2 { x: 100_000, y: 100_000 }, Vec2 { x: 0, y: 0 });
    let bullet = ship.fire(5_000, Vec2 { x: 4_000, y: 4_000 });
    // cos(0) in the milli-scaled model is 999, sin(0) is 0.
    assert_eq!(bullet.position, Vec2 { x: 100_999, y: 100_000 });
    assert_eq!(bullet.velocity, Vec2 { x: 14_985, y: 0 });
    assert_eq!(bullet.created_at, 5_000);
    assert!(!bullet.collided);
    assert_eq!((bullet.rect.x, bullet.rect.y, bullet.rect.w, bullet.rect.h), (100_999, 100_000, 4_000, 4_000));
}

#[test]
fn direction_components_stay_on_the_milli_unit_circle() {
    for angle in [-10_000, -3_141, -1_571, 0, 1_571, 3_141, 6_283, 10_000] {
        let d = dir_from_mrad(angle);
        assert!(d.x.abs() <= 1_000 && d.y.abs() <= 1_000);
    }
    assert_eq!(dir_from_mrad(0), Vec2 { x: 999, y: 0 });
    assert_eq!(dir_from_mrad(1_571), Vec2 { x: -1, y: 999 });
}
