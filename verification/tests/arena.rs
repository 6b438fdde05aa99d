use blobs::config::Config;
use blobs::vec2::Vec2;
use blobs::walls::body_vs_walls;
use blobs::walls::point_vs_walls;
use blobs::walls::reflect;

#[test]
fn standard_config_values() {
    let cfg = Config::standard();
    assert_eq!(cfg.k, 20_000);
    assert_eq!(cfg.eq_len, 40_000);
    assert_eq!(cfg.damp, 10);
    assert_eq!(cfg.g, 10_000);
    assert_eq!(cfg.hook_speed, 150_000);
    assert_eq!(cfg.radius, 40_000);
    assert_eq!(cfg.width, 1_000_000);
    assert_eq!(cfg.height, 1_000_000);
    assert_eq!(cfg.dt, 100);
}

#[test]
fn body_inside_reports_nothing() {
    let cfg = Config::standard();
    let c = Vec2::new(500_000, 500_000);
    assert_eq!(body_vs_walls(c, cfg.radius, &cfg), None);
}

#[test]
fn body_touching_wall_exactly_reports_nothing() {
    // the test is strict: center.x == radius is still inside
    let cfg = Config::standard();
    let c = Vec2::new(40_000, 500_000);
    assert_eq!(body_vs_walls(c, cfg.radius, &cfg), None);
    let d = Vec2::new(960_000, 40_000);
    assert_eq!(body_vs_walls(d, cfg.radius, &cfg), None);
}

#[test]
fn body_hits_each_wall() {
    let cfg = Config::standard();
    let left = body_vs_walls(Vec2::new(39_999, 500_000), cfg.radius, &cfg);
    assert_eq!(
        left,
        Some((Vec2 { x: 0, y: 500_000 }, Vec2 { x: 1000, y: 0 }))
    );
    let right = body_vs_walls(Vec2::new(960_001, 500_000), cfg.radius, &cfg);
    assert_eq!(
        right,
        Some((Vec2 { x: 1_000_000, y: 500_000 }, Vec2 { x: -1000, y: 0 }))
    );
    let top = body_vs_walls(Vec2::new(500_000, 39_999), cfg.radius, &cfg);
    assert_eq!(
        top,
        Some((Vec2 { x: 500_000, y: 0 }, Vec2 { x: 0, y: 1000 }))
    );
    let bottom = body_vs_walls(Vec2::new(500_000, 960_001), cfg.radius, &cfg);
    assert_eq!(
        bottom,
        Some((Vec2 { x: 500_000, y: 1_000_000 }, Vec2 { x: 0, y: -1000 }))
    );
}

#[test]
fn body_corner_resolved_by_priority() {
    // both the left and the top wall overlap; the first match, left, wins
    let cfg = Config::standard();
    let corner = body_vs_walls(Vec2::new(10_000, 10_000), cfg.radius, &cfg);
    assert_eq!(
        corner,
        Some((Vec2 { x: 0, y: 10_000 }, Vec2 { x: 1000, y: 0 }))
    );
}

#[test]
fn blob_against_left_wall_reflects_to_the_right() {
    // blob at x = 10, less than the radius 40: normal (1, 0); a velocity
    // of (-5, 0) reflects to (5, 0)
    let cfg = Config::standard();
    let hit = body_vs_walls(Vec2::new(10_000, 500_000), cfg.radius, &cfg);
    let (contact, normal) = hit.expect("a collision must be reported");
    assert_eq!(contact, Vec2 { x: 0, y: 500_000 });
    assert_eq!(normal, Vec2 { x: 1000, y: 0 });
    let vel = Vec2::new(-5_000, 0);
    assert_eq!(reflect(vel, normal), Vec2 { x: 5_000, y: 0 });
}

#[test]
fn reflection_preserves_speed() {
    let vel = Vec2::new(-5_000, 3_000);
    let n = Vec2::new(1000, 0);
    let r = reflect(vel, n);
    assert_eq!(r, Vec2 { x: 5_000, y: 3_000 });
    assert_eq!(r.norm_fx(), vel.norm_fx());
    let m = Vec2::new(0, -1000);
    let s = reflect(vel, m);
    assert_eq!(s, Vec2 { x: -5_000, y: -3_000 });
    assert_eq!(s.norm_fx(), vel.norm_fx());
}

#[test]
fn point_inside_reports_nothing() {
    let cfg = Config::standard();
    assert_eq!(point_vs_walls(Vec2::new(500_000, 500_000), &cfg), None);
    // the boundary itself is still inside
    assert_eq!(point_vs_walls(Vec2::new(0, 1_000_000), &cfg), None);
}

#[test]
fn point_clamped_to_each_wall() {
    let cfg = Config::standard();
    assert_eq!(
        point_vs_walls(Vec2::new(-1, 500_000), &cfg),
        Some(Vec2 { x: 0, y: 500_000 })
    );
    assert_eq!(
        point_vs_walls(Vec2::new(1_000_001, 500_000), &cfg),
        Some(Vec2 { x: 1_000_000, y: 500_000 })
    );
    assert_eq!(
        point_vs_walls(Vec2::new(500_000, -1), &cfg),
        Some(Vec2 { x: 500_000, y: 0 })
    );
    assert_eq!(
        point_vs_walls(Vec2::new(500_000, 1_000_001), &cfg),
        Some(Vec2 { x: 500_000, y: 1_000_000 })
    );
}

#[test]
fn hook_tip_outside_right_wall_contacts_boundary() {
    // the tip at (1005, 500) contacts the wall at (1000, 500)
    let cfg = Config::standard();
    assert_eq!(
        point_vs_walls(Vec2::new(1_005_000, 500_000), &cfg),
        Some(Vec2 { x: 1_000_000, y: 500_000 })
    );
}
