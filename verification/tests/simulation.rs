use blobs::blob::InputEvent;
use blobs::config::Config;
use blobs::hook::HookState;
use blobs::sim::LOCAL_ID;
use blobs::sim::Simulation;
use blobs::vec2::Vec2;

#[test]
fn new_holds_two_hooked_blobs() {
    let sim = Simulation::new(Config::standard());
    assert_eq!(sim.blobs.len(), 2);
    let local = sim.blob(LOCAL_ID).expect("the local blob exists");
    assert_eq!(local.center, Vec2 { x: 100_000, y: 100_000 });
    assert_eq!(local.vel, Vec2 { x: 0, y: 0 });
    assert_eq!(local.aim_vec, Vec2 { x: 1000, y: 0 });
    assert_eq!(local.hook, HookState::Anchored(Vec2 { x: 400_000, y: 0 }));
    let drifter = sim.blob(10).expect("the second blob exists");
    assert_eq!(drifter.center, Vec2 { x: 200_000, y: 100_000 });
    assert_eq!(drifter.vel, Vec2 { x: 10_000, y: 10_000 });
    assert_eq!(drifter.hook, HookState::Anchored(Vec2 { x: 0, y: 0 }));
}

#[test]
fn unknown_id_reads_nothing() {
    let sim = Simulation::new(Config::standard());
    assert_eq!(sim.blob(7), None);
}

#[test]
fn tick_updates_every_blob() {
    let mut sim = Simulation::new(Config::standard());
    sim.tick(Vec2::new(500_000, 500_000));
    let local = sim.blob(LOCAL_ID).unwrap();
    assert_eq!(local.vel, Vec2 { x: 1_657, y: 447 });
    assert_eq!(local.center, Vec2 { x: 100_165, y: 100_044 });
    let drifter = sim.blob(10).unwrap();
    assert_eq!(drifter.center, Vec2 { x: 200_852, y: 101_025 });
    assert_eq!(drifter.vel, Vec2 { x: 8_522, y: 10_255 });
}

#[test]
fn input_routes_to_the_named_blob_only() {
    let mut sim = Simulation::new(Config::standard());
    let drifter_before = sim.blob(10).unwrap();
    sim.apply_input(LOCAL_ID, InputEvent::Release);
    assert_eq!(sim.blob(LOCAL_ID).unwrap().hook, HookState::Detached);
    assert_eq!(sim.blob(10).unwrap(), drifter_before);
}

#[test]
fn unknown_id_input_is_a_no_op() {
    let mut sim = Simulation::new(Config::standard());
    let local_before = sim.blob(LOCAL_ID).unwrap();
    let drifter_before = sim.blob(10).unwrap();
    sim.apply_input(99, InputEvent::Launch);
    assert_eq!(sim.blob(LOCAL_ID).unwrap(), local_before);
    assert_eq!(sim.blob(10).unwrap(), drifter_before);
}

#[test]
fn launch_overwrites_an_anchored_hook() {
    let mut sim = Simulation::new(Config::standard());
    sim.apply_input(LOCAL_ID, InputEvent::Launch);
    let local = sim.blob(LOCAL_ID).unwrap();
    assert_eq!(
        local.hook,
        HookState::Traveling(Vec2 { x: 101_000, y: 100_000 }, Vec2 { x: 150_000, y: 0 })
    );
}

#[test]
fn aim_event_updates_the_local_blob() {
    let mut sim = Simulation::new(Config::standard());
    sim.apply_input(LOCAL_ID, InputEvent::Aim(Vec2::new(100_000, 400_000)));
    assert_eq!(sim.blob(LOCAL_ID).unwrap().aim_vec, Vec2 { x: 0, y: 1000 });
}

#[test]
fn launched_hook_anchors_after_enough_ticks() {
    // release, aim right, launch: the tip flies right at 150 units per
    // second from x = 101 and anchors on the right wall at (1000, 100)
    let mut sim = Simulation::new(Config::standard());
    sim.apply_input(LOCAL_ID, InputEvent::Release);
    sim.apply_input(LOCAL_ID, InputEvent::Launch);
    let mut anchored = None;
    for _ in 0..70 {
        sim.tick(Vec2::new(900_000, 100_000));
        if let HookState::Anchored(p) = sim.blob(LOCAL_ID).unwrap().hook {
            anchored = Some(p);
            break;
        }
    }
    let p = anchored.expect("the hook must anchor before the tick budget runs out");
    assert_eq!(p.x, 1_000_000);
}
