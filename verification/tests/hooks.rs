use blobs::config::Config;
use blobs::hook::HookState;
use blobs::vec2::Vec2;

#[test]
fn detached_and_anchored_persist() {
    let cfg = Config::standard();
    assert_eq!(HookState::Detached.step(&cfg), HookState::Detached);
    let anchor = Vec2::new(400_000, 0);
    assert_eq!(
        HookState::Anchored(anchor).step(&cfg),
        HookState::Anchored(anchor)
    );
}

#[test]
fn traveling_hook_moves_straight_at_constant_speed() {
    let cfg = Config::standard();
    let vel = Vec2::new(150_000, 0);
    let h0 = HookState::Traveling(Vec2::new(500_000, 500_000), vel);
    // each tick advances the tip by vel * dt = 15 units, exactly
    let h1 = h0.step(&cfg);
    assert_eq!(h1, HookState::Traveling(Vec2 { x: 515_000, y: 500_000 }, vel));
    let h2 = h1.step(&cfg);
    assert_eq!(h2, HookState::Traveling(Vec2 { x: 530_000, y: 500_000 }, vel));
}

#[test]
fn traveling_hook_anchors_on_boundary() {
    // the projected tip (1005, 500) would exit the arena, so the hook
    // anchors at the contact point (1000, 500) on that very tick
    let cfg = Config::standard();
    let h = HookState::Traveling(Vec2::new(990_000, 500_000), Vec2::new(150_000, 0));
    assert_eq!(
        h.step(&cfg),
        HookState::Anchored(Vec2 { x: 1_000_000, y: 500_000 })
    );
}

#[test]
fn traveling_hook_anchors_against_top_wall() {
    let cfg = Config::standard();
    let h = HookState::Traveling(Vec2::new(500_000, 5_000), Vec2::new(0, -150_000));
    assert_eq!(h.step(&cfg), HookState::Anchored(Vec2 { x: 500_000, y: 0 }));
}

#[test]
fn launch_starts_one_aim_ahead_at_hook_speed() {
    let cfg = Config::standard();
    let center = Vec2::new(100_000, 100_000);
    let aim = Vec2::new(1000, 0);
    assert_eq!(
        HookState::launch(center, aim, &cfg),
        HookState::Traveling(Vec2 { x: 101_000, y: 100_000 }, Vec2 { x: 150_000, y: 0 })
    );
    let up = Vec2::new(0, -1000);
    assert_eq!(
        HookState::launch(center, up, &cfg),
        HookState::Traveling(Vec2 { x: 100_000, y: 99_000 }, Vec2 { x: 0, y: -150_000 })
    );
}
