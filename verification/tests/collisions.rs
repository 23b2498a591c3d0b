use asteroids::asteroid::Asteroid;
use asteroids::bullet::Bullet;
use asteroids::geom::Rect;
use asteroids::geom::Vec2;
use asteroids::world::collision_scan;
use asteroids::world::cull_and_append;
use asteroids::world::spawn_children;
use asteroids::world::spawn_large;

const EXTENT: Vec2 = Vec2 { x: 12_000, y: 12_000 };

fn large_at(x: i64, y: i64) -> Asteroid {
    Asteroid {
        position: Vec2 { x, y },
        velocity: Vec2 { x: 500, y: 0 },
        rotation: 0,
        rect: Rect { x, y, w: 24_000, h: 24_000 },
        collided: false,
        large: true,
    }
}

fn bullet_at(x: i64, y: i64) -> Bullet {
    Bullet {
        position: Vec2 { x, y },
        velocity: Vec2 { x: 0, y: -15_000 },
        rect: Rect { x, y, w: 4_000, h: 4_000 },
        created_at: 0,
        collided: false,
    }
}

#[test]
fn one_bullet_marks_two_overlapping_large_asteroids() {
    // The bullet's box overlaps both asteroids' boxes in the same frame.
    let mut asteroids = vec![large_at(100_000, 100_000), large_at(110_000, 100_000)];
    let mut bullets = vec![bullet_at(108_000, 104_000)];
    let mut rng = rand::thread_rng();
    let children = collision_scan(&mut asteroids, &mut bullets, EXTENT, &mut rng);
    assert!(asteroids[0].collided);
    assert!(asteroids[1].collided);
    assert!(bullets[0].collided);
    assert!(children.len() >= 2);
    assert!(children.iter().any(|c| c.position == Vec2 { x: 100_000, y: 100_000 }));
    assert!(children.iter().any(|c| c.position == Vec2 { x: 110_000, y: 100_000 }));
    for c in &children {
        assert!(!c.large);
        assert!(!c.collided);
        assert!(c.rotation >= -10_000 && c.rotation <= 10_000);
        assert!(c.velocity.x.abs() <= 1_000 && c.velocity.y.abs() <= 1_000);
        assert_eq!((c.rect.w, c.rect.h), (12_000, 12_000));
    }
}

#[test]
fn single_split_produces_one_to_six_children() {
    let mut asteroids = vec![large_at(50_000, 50_000)];
    let mut bullets = vec![bullet_at(52_000, 52_000)];
    let mut rng = rand::thread_rng();
    let children = collision_scan(&mut asteroids, &mut bullets, EXTENT, &mut rng);
    assert!(children.len() >= 1 && children.len() <= 6);
}

#[test]
fn spawn_children_bounds_hold_over_many_samples() {
    let mut rng = rand::thread_rng();
    for _ in 0..100 {
        let mut out: Vec<Asteroid> = Vec::new();
        spawn_children(Vec2 { x: 7_000, y: 9_000 }, EXTENT, &mut rng, &mut out);
        assert!(out.len() >= 1 && out.len() <= 6);
        for c in &out {
            assert_eq!(c.position, Vec2 { x: 7_000, y: 9_000 });
            assert!(!c.large && !c.collided);
        }
    }
}

#[test]
fn small_asteroid_is_marked_but_spawns_nothing() {
    let mut small = large_at(50_000, 50_000);
    small.large = false;
    let mut asteroids = vec![small];
    let mut bullets = vec![bullet_at(52_000, 52_000)];
    let mut rng = rand::thread_rng();
    let children = collision_scan(&mut asteroids, &mut bullets, EXTENT, &mut rng);
    assert!(asteroids[0].collided);
    assert!(bullets[0].collided);
    assert_eq!(children.len(), 0);
}

#[test]
fn disjoint_boxes_mark_nothing() {
    let mut asteroids = vec![large_at(50_000, 50_000)];
    let mut bullets = vec![bullet_at(500_000, 400_000)];
    let mut rng = rand::thread_rng();
    let children = collision_scan(&mut asteroids, &mut bullets, EXTENT, &mut rng);
    assert!(!asteroids[0].collided);
    assert!(!bullets[0].collided);
    assert_eq!(children.len(), 0);
}

#[test]
fn eight_asteroids_one_collision_census() {
    // Eight large asteroids; one bullet overlaps exactly the first.
    let mut asteroids: Vec<Asteroid> = (0..8).map(|k| large_at(100_000 * k, 400_000)).collect();
    let mut bullets = vec![bullet_at(2_000, 404_000)];
    let mut rng = rand::thread_rng();
    let children = collision_scan(&mut asteroids, &mut bullets, EXTENT, &mut rng);
    let sampled = children.len();
    assert!(sampled >= 1 && sampled <= 6);
    assert_eq!(asteroids.iter().filter(|a| a.collided).count(), 1);
    cull_and_append(&mut asteroids, &mut bullets, children, 0);
    assert_eq!(asteroids.len(), 8 - 1 + sampled);
    assert_eq!(bullets.len(), 0);
}

#[test]
fn spawn_large_lands_on_screen_with_sampled_motion() {
    let mut rng = rand::thread_rng();
    for _ in 0..50 {
        let a = spawn_large(640_000, 480_000, EXTENT, &mut rng);
        assert!(a.large && !a.collided);
        assert!(a.position.x >= 0 && a.position.x <= 640_000);
        assert!(a.position.y >= 0 && a.position.y <= 480_000);
        assert!(a.rotation >= -10_000 && a.rotation <= 10_000);
        assert!(a.velocity.x.abs() <= 1_000 && a.velocity.y.abs() <= 1_000);
        assert_eq!((a.rect.x, a.rect.y), (a.position.x, a.position.y));
    }
}
