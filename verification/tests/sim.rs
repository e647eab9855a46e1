use bevytos::bridge::Bridge;
use bevytos::event::TextEvent;
use bevytos::sim::{setup_scene, set_text, SceneEntity, SimPhase, Simulation};
use bevytos::sim::{CANVAS_HEIGHT, CANVAS_WIDTH};

#[test]
fn startup_spawns_scene_exactly_once() {
    let mut bridge: Bridge<TextEvent> = Bridge::new();
    let mut sim = Simulation::init_bevy_app(&mut bridge);
    assert_eq!(sim.current_phase(), SimPhase::Built);
    assert!(sim.scene().is_empty());

    sim.tick(&mut bridge);
    assert_eq!(sim.current_phase(), SimPhase::Running);
    assert_eq!(
        *sim.scene(),
        vec![SceneEntity::Cube, SceneEntity::PointLight, SceneEntity::Camera]
    );

    sim.tick(&mut bridge);
    assert_eq!(
        *sim.scene(),
        vec![SceneEntity::Cube, SceneEntity::PointLight, SceneEntity::Camera]
    );
}

#[test]
fn setup_scene_builds_the_fixed_scene() {
    let scene = setup_scene();
    assert_eq!(
        scene,
        vec![SceneEntity::Cube, SceneEntity::PointLight, SceneEntity::Camera]
    );
}

#[test]
fn tick_logs_received_texts() {
    let mut bridge: Bridge<TextEvent> = Bridge::new();
    let mut sim = Simulation::init_bevy_app(&mut bridge);
    bridge.send(TextEvent { text: String::from("hello") });
    sim.tick(&mut bridge);
    assert_eq!(*sim.log(), vec![String::from("hello")]);
}

#[test]
fn tick_without_events_performs_no_action() {
    let mut bridge: Bridge<TextEvent> = Bridge::new();
    let mut sim = Simulation::init_bevy_app(&mut bridge);
    sim.tick(&mut bridge);
    assert!(sim.log().is_empty());
    sim.tick(&mut bridge);
    assert!(sim.log().is_empty());
}

#[test]
fn ticks_keep_send_order_across_frames() {
    let mut bridge: Bridge<TextEvent> = Bridge::new();
    let mut sim = Simulation::init_bevy_app(&mut bridge);
    bridge.send(TextEvent { text: String::from("a") });
    bridge.send(TextEvent { text: String::from("b") });
    sim.tick(&mut bridge);
    bridge.send(TextEvent { text: String::from("c") });
    sim.tick(&mut bridge);
    assert_eq!(
        *sim.log(),
        vec![String::from("a"), String::from("b"), String::from("c")]
    );
}

#[test]
fn teardown_silences_the_bridge() {
    let mut bridge: Bridge<TextEvent> = Bridge::new();
    let mut sim = Simulation::init_bevy_app(&mut bridge);
    sim.tick(&mut bridge);
    bridge.send(TextEvent { text: String::from("in flight") });
    sim.tear_down(&mut bridge);
    // Fire-and-forget: sending after teardown returns normally.
    bridge.send(TextEvent { text: String::from("late") });
    let mut queue: Vec<TextEvent> = Vec::new();
    bridge.drain_into(&mut queue);
    assert!(queue.is_empty());
}

#[test]
fn set_text_consumes_the_queue_in_order() {
    let mut events = vec![
        TextEvent { text: String::from("first") },
        TextEvent { text: String::from("second") },
    ];
    let mut log = vec![String::from("earlier")];
    set_text(&mut events, &mut log);
    assert!(events.is_empty());
    assert_eq!(
        log,
        vec![String::from("earlier"), String::from("first"), String::from("second")]
    );
}

#[test]
fn canvas_configuration_is_fixed() {
    let mut bridge: Bridge<TextEvent> = Bridge::new();
    let sim = Simulation::init_bevy_app(&mut bridge);
    assert_eq!(sim.canvas_selector(), "#bevy_canvas");
    assert_eq!(sim.canvas_resolution(), (400, 300));
    assert_eq!((CANVAS_WIDTH, CANVAS_HEIGHT), (400, 300));
}
