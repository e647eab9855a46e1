use vstd::prelude::*;

use crate::bridge::Bridge;
use crate::event::TextEvent;

verus! {

/// Logical width of the rendering surface the simulation attaches to.
pub const CANVAS_WIDTH: u32 = 400;

/// Logical height of the rendering surface the simulation attaches to.
pub const CANVAS_HEIGHT: u32 = 300;

/// One of the three fixed objects the startup routine spawns.
#[derive(Clone, Copy, Debug, PartialEq, Eq, Structural)]
pub enum SceneEntity {
    Cube,
    PointLight,
    Camera,
}

/// Phase of the simulation bootstrap. The unbuilt phase of the state machine
/// is the absence of a `Simulation` value; building one enters `Built`.
#[derive(Clone, Copy, Debug, PartialEq, Eq, Structural)]
pub enum SimPhase {
    /// Allocated and configured, receiver attached, no frame run yet.
    Built,
    /// The startup routine has run; frames tick the instance.
    Running,
    /// The host page unmounted the instance; nothing runs any more.
    TornDown,
}

/// The scene the startup routine spawns: a cube, a point light and a camera,
/// created once and never mutated or destroyed for the life of the instance.
pub open spec fn spec_scene() -> Seq<SceneEntity> {
    seq![SceneEntity::Cube, SceneEntity::PointLight, SceneEntity::Camera]
}

/// The texts carried by a queue of events, in queue order.
pub open spec fn texts_of(events: Seq<TextEvent>) -> Seq<String> {
    events.map_values(|e: TextEvent| e.text)
}

/// Startup routine: spawns the three fixed scene objects, in a fixed order.
/// Runs exactly once per simulation instance, on the first scheduler tick.
pub fn setup_scene() -> (scene: Vec<SceneEntity>)
    ensures
        scene@ == spec_scene(),
{
    let mut scene: Vec<SceneEntity> = Vec::new();
    scene.push(SceneEntity::Cube);
    scene.push(SceneEntity::PointLight);
    scene.push(SceneEntity::Camera);
    proof {
        assert(scene@ =~= spec_scene());
    }
    scene
}

/// Per-frame text-consumption routine: reads every queued text event in order
/// and records its text. The queue is consumed by the read (read, not peek),
/// so it is left empty for the next frame.
pub fn set_text(events: &mut Vec<TextEvent>, log: &mut Vec<String>)
    ensures
        final(events)@ == Seq::<TextEvent>::empty(),
        final(log)@ == old(log)@ + texts_of(old(events)@),
{
    while events.len() > 0
        invariant
            old(log)@ + texts_of(old(events)@) =~= log@ + texts_of(events@),
        decreases events.len(),
    {
        let e = events.remove(0);
        log.push(e.text);
        proof {
            assert(log@ + texts_of(events@) =~= old(log)@ + texts_of(old(events)@));
        }
    }
    proof {
        assert(events@ =~= Seq::<TextEvent>::empty());
        assert(log@ + texts_of(events@) =~= log@);
    }
}

/// The simulation instance embedded in the canvas page: its bootstrap phase,
/// its scene, its per-type event queue, the log the per-frame routine writes,
/// and the rendering-surface configuration fixed at build time.
pub struct Simulation {
    phase: SimPhase,
    scene: Vec<SceneEntity>,
    events: Vec<TextEvent>,
    log: Vec<String>,
    canvas_selector: String,
    width: u32,
    height: u32,
}

impl Simulation {
    /// Bootstrap phase of the instance.
    pub closed spec fn phase(&self) -> SimPhase {
        self.phase
    }

    /// The spawned scene objects, in spawn order.
    pub closed spec fn scene_view(&self) -> Seq<SceneEntity> {
        self.scene@
    }

    /// Every text the per-frame routine has recorded, oldest first.
    pub closed spec fn log_view(&self) -> Seq<String> {
        self.log@
    }

    /// The instance's per-type event queue, drained and consumed every frame.
    pub closed spec fn events_view(&self) -> Seq<TextEvent> {
        self.events@
    }

    /// The DOM selector of the canvas the instance renders to.
    pub closed spec fn canvas_selector_view(&self) -> Seq<char> {
        self.canvas_selector@
    }

    /// The logical resolution configured for the rendering surface.
    pub closed spec fn resolution(&self) -> (u32, u32) {
        (self.width, self.height)
    }

    /// Internal invariant: the scene is empty before the startup routine runs
    /// and is exactly the fixed scene afterwards; the event queue is fully
    /// consumed between frames.
    pub open spec fn wf(&self) -> bool {
        &&& (self.phase() == SimPhase::Built ==> self.scene_view() == Seq::<SceneEntity>::empty())
        &&& (self.phase() == SimPhase::Running ==> self.scene_view() == spec_scene())
        &&& self.events_view() == Seq::<TextEvent>::empty()
    }

    /// Bootstrap: allocates the simulation instance, configures the canvas
    /// target and its fixed logical resolution, attaches the bridge receiver
    /// as the instance's event source, and registers the startup and
    /// per-frame routines. No frame has run yet; the scene and log are empty.
    pub fn init_bevy_app(bridge: &mut Bridge<TextEvent>) -> (sim: Simulation)
        ensures
            sim.wf(),
            sim.phase() == SimPhase::Built,
            sim.scene_view() == Seq::<SceneEntity>::empty(),
            sim.log_view() == Seq::<String>::empty(),
            sim.canvas_selector_view() == "#bevy_canvas"@,
            sim.resolution() == (CANVAS_WIDTH, CANVAS_HEIGHT),
            final(bridge).is_live(),
            final(bridge).pending() == old(bridge).pending(),
    {
        bridge.attach_receiver();
        Simulation {
            phase: SimPhase::Built,
            scene: Vec::new(),
            events: Vec::new(),
            log: Vec::new(),
            canvas_selector: String::from_str("#bevy_canvas"),
            width: CANVAS_WIDTH,
            height: CANVAS_HEIGHT,
        }
    }

    /// One scheduler tick. On the first tick the startup routine runs exactly
    /// once and spawns the fixed scene; on every tick the bridge is drained
    /// into the instance's event queue and the per-frame routine then records
    /// every queued text, leaving the queue empty. The scene is never touched
    /// again after the first tick.
    pub fn tick(&mut self, bridge: &mut Bridge<TextEvent>)
        requires
            old(self).wf(),
            old(self).phase() != SimPhase::TornDown,
        ensures
            final(self).wf(),
            final(self).phase() == SimPhase::Running,
            final(self).scene_view() == spec_scene(),
            final(self).log_view() == old(self).log_view() + texts_of(old(bridge).pending()),
            final(self).canvas_selector_view() == old(self).canvas_selector_view(),
            final(self).resolution() == old(self).resolution(),
            final(bridge).pending() == Seq::<TextEvent>::empty(),
            final(bridge).is_live() == old(bridge).is_live(),
    {
        match self.phase {
            SimPhase::Built => {
                self.scene = setup_scene();
                self.phase = SimPhase::Running;
            },
            _ => {},
        }
        bridge.drain_into(&mut self.events);
        set_text(&mut self.events, &mut self.log);
    }

    /// Host page unmount: the simulation instance and the bridge are both
    /// dropped, and in-flight queued events are discarded.
    pub fn tear_down(self, bridge: &mut Bridge<TextEvent>)
        ensures
            !final(bridge).is_live(),
            final(bridge).pending() == Seq::<TextEvent>::empty(),
    {
        bridge.tear_down();
    }

    /// Exec view of the bootstrap phase.
    pub fn current_phase(&self) -> (phase: SimPhase)
        ensures
            phase == self.phase(),
    {
        self.phase
    }

    /// Exec view of the spawned scene.
    pub fn scene(&self) -> (scene: &Vec<SceneEntity>)
        ensures
            scene@ == self.scene_view(),
    {
        &self.scene
    }

    /// Exec view of the recorded texts.
    pub fn log(&self) -> (log: &Vec<String>)
        ensures
            log@ == self.log_view(),
    {
        &self.log
    }

    /// Exec view of the configured canvas selector.
    pub fn canvas_selector(&self) -> (selector: &String)
        ensures
            selector@ == self.canvas_selector_view(),
    {
        &self.canvas_selector
    }

    /// Exec view of the configured logical resolution.
    pub fn canvas_resolution(&self) -> (wh: (u32, u32))
        ensures
            wh == self.resolution(),
    {
        (self.width, self.height)
    }
}

/// Empty-frame law: with nothing queued and nothing pending on the bridge,
/// the per-frame routine performs no action and the log is left unchanged.
pub proof fn lemma_empty_frame_no_action(log: Seq<String>)
    ensures
        log + texts_of(Seq::<TextEvent>::empty()) == log,
{
    assert(log + texts_of(Seq::<TextEvent>::empty()) =~= log);
}

} // verus!
