use vstd::prelude::*;
use crate::clock::{tick_delta, AnimationClock};
use crate::layout::{layout, laid_out, GlyphSpec};

verus! {

/// How far the one-time setup of the scene has come. It only moves forward:
/// `NotBootstrapped`, then `Bootstrapped` (camera, lights, sphere and an empty glyph
/// container exist), then `GlyphsPopulated` (the glyphs hang in the container).
#[derive(Clone, Copy, Debug, PartialEq, Eq, Structural)]
pub enum InitState {
    NotBootstrapped,
    Bootstrapped,
    GlyphsPopulated,
}

impl InitState {
    /// Position in the forward order of the states.
    pub open spec fn rank(self) -> nat {
        match self {
            InitState::NotBootstrapped => 0,
            InitState::Bootstrapped => 1,
            InitState::GlyphsPopulated => 2,
        }
    }

    /// Whether the scene graph exists: populated glyphs imply a bootstrapped scene.
    pub open spec fn has_scene(self) -> bool {
        self.rank() >= 1
    }

    /// Whether the scene must be built now: it is not built yet and the engine is ready.
    pub open spec fn bootstrap_due(self, engine_ready: bool) -> bool {
        self is NotBootstrapped && engine_ready
    }

    /// Whether the glyphs must be built now: the scene exists, no glyph has been
    /// attached yet, and the font is loaded.
    pub open spec fn populate_due(self, font_ready: bool) -> bool {
        self is Bootstrapped && font_ready
    }

    /// The state after one bootstrap attempt whose construction, if due, succeeded.
    pub open spec fn after_bootstrap_attempt(self, engine_ready: bool) -> InitState {
        if self.bootstrap_due(engine_ready) {
            InitState::Bootstrapped
        } else {
            self
        }
    }

    /// The state after one populate attempt whose construction, if due, succeeded.
    pub open spec fn after_populate_attempt(self, font_ready: bool) -> InitState {
        if self.populate_due(font_ready) {
            InitState::GlyphsPopulated
        } else {
            self
        }
    }
}

/// Two bootstrap attempts in a row build the scene at most once, and exactly once
/// when the first one starts before the scene exists and the engine is ready at one of
/// them. The same holds of populating the glyphs once the scene exists.
pub proof fn lemma_setup_runs_once(s: InitState, ready1: bool, ready2: bool)
    ensures
        !(s.bootstrap_due(ready1) && s.after_bootstrap_attempt(ready1).bootstrap_due(ready2)),
        (s.bootstrap_due(ready1) || s.after_bootstrap_attempt(ready1).bootstrap_due(ready2))
            == (s is NotBootstrapped && (ready1 || ready2)),
        !(s.populate_due(ready1) && s.after_populate_attempt(ready1).populate_due(ready2)),
        (s.populate_due(ready1) || s.after_populate_attempt(ready1).populate_due(ready2)) == (
        s is Bootstrapped && (ready1 || ready2)),
{
}

/// Before the scene exists, populating does nothing, whether or not the font is
/// loaded: nothing is built and the state stays `NotBootstrapped`.
pub proof fn lemma_populate_waits_for_scene(font_ready: bool)
    ensures
        !InitState::NotBootstrapped.populate_due(font_ready),
        InitState::NotBootstrapped.after_populate_attempt(font_ready)
            == InitState::NotBootstrapped,
{
}

/// Setup never goes backwards, and a populated state always has its scene.
pub proof fn lemma_setup_monotonic(s: InitState, engine_ready: bool, font_ready: bool)
    ensures
        s.after_bootstrap_attempt(engine_ready).rank() >= s.rank(),
        s.after_populate_attempt(font_ready).rank() >= s.rank(),
        s is GlyphsPopulated ==> s.has_scene(),
{
}

/// Within one tick the steps run in order: glyphs are built only once the scene
/// exists after the bootstrap step, and so is rendering; while the engine is not
/// ready and the scene does not exist, the tick builds nothing and renders nothing,
/// whatever the font says.
pub proof fn lemma_tick_order(s: InitState, engine_ready: bool, font_ready: bool)
    ensures
        s.after_bootstrap_attempt(engine_ready).populate_due(font_ready) ==> s.after_bootstrap_attempt(
            engine_ready,
        ).has_scene(),
        (s is NotBootstrapped && !engine_ready) ==> {
            &&& !s.after_bootstrap_attempt(engine_ready).populate_due(font_ready)
            &&& !s.after_bootstrap_attempt(engine_ready).has_scene()
        },
{
}

/// A viewport size in pixels. The camera's aspect ratio is `width / height`.
#[derive(Clone, Copy, Debug, PartialEq, Eq, Structural)]
pub struct Viewport {
    pub width: u32,
    pub height: u32,
}

/// The decisions of the application: when to build the scene, which glyphs to build,
/// when to render and resize, and whether the frame loop goes on. The scene itself,
/// and the engine calls, belong to the caller, which reports each finished
/// construction back. The setup state only moves forward.
pub struct App {
    state: InitState,
    clock: AnimationClock,
    cancelled: bool,
}

/// What one tick asks of the caller, in this order: build the scene (if
/// `build_scene`), then, if that succeeded, build and attach `glyphs` (if any), then
/// rotate the glyph container by `delta_micros` and render (if `render`). A failed
/// construction ends the tick; the next tick asks again.
#[derive(Debug)]
pub struct FramePlan {
    /// Microseconds to advance the rotation by.
    pub delta_micros: i128,
    pub build_scene: bool,
    pub glyphs: Option<Vec<GlyphSpec>>,
    pub render: bool,
}

impl App {
    /// How far setup has come.
    pub closed spec fn init_state(self) -> InitState {
        self.state
    }

    /// The timestamp of the last tick, if any.
    pub closed spec fn last_tick(self) -> Option<u64> {
        self.clock.last_timestamp
    }

    /// Whether the frame loop has been stopped.
    pub closed spec fn is_cancelled(self) -> bool {
        self.cancelled
    }

    /// An application whose scene is not built yet and whose clock has not ticked.
    pub fn new() -> (a: App)
        ensures
            a.init_state() is NotBootstrapped,
            a.last_tick() is None,
            !a.is_cancelled(),
    {
        App { state: InitState::NotBootstrapped, clock: AnimationClock::new(), cancelled: false }
    }

    /// How far setup has come.
    pub fn state(&self) -> (s: InitState)
        ensures
            s == self.init_state(),
    {
        self.state
    }

    /// The timestamp of the last tick, if any.
    pub fn last_timestamp(&self) -> (t: Option<u64>)
        ensures
            t == self.last_tick(),
    {
        self.clock.last_timestamp
    }

    /// Whether the frame loop has been stopped.
    pub fn cancelled(&self) -> (c: bool)
        ensures
            c == self.is_cancelled(),
    {
        self.cancelled
    }

    /// Plans the tick at `now` (microseconds), given what the engine and the font
    /// signals say. After [`App::cancel`] the tick does nothing and returns `None`:
    /// the caller stops the loop. Otherwise the clock advances, and each step is
    /// decided on the state that the steps before it leave when they succeed: the
    /// scene is built when due; the glyphs of `text` when the scene exists after that
    /// and the font is loaded; rendering happens whenever the scene exists after
    /// that. The setup state itself moves only when the caller reports success.
    pub fn tick(&mut self, now: u64, engine_ready: bool, font_ready: bool, text: &Vec<char>) -> (plan:
        Option<FramePlan>)
        ensures
            old(self).is_cancelled() ==> plan is None && final(self).last_tick() == old(
                self,
            ).last_tick(),
            !old(self).is_cancelled() ==> plan is Some && final(self).last_tick() == Some(now),
            plan matches Some(p) ==> {
                let built = old(self).init_state().after_bootstrap_attempt(engine_ready);
                &&& p.delta_micros == tick_delta(old(self).last_tick(), now)
                &&& p.build_scene == old(self).init_state().bootstrap_due(engine_ready)
                &&& (p.glyphs is Some <==> built.populate_due(font_ready))
                &&& (p.glyphs matches Some(g) ==> laid_out(text@, g@))
                &&& p.render == built.has_scene()
            },
            final(self).init_state() == old(self).init_state(),
            final(self).is_cancelled() == old(self).is_cancelled(),
    {
        if self.cancelled {
            return None;
        }
        let delta = self.clock.tick(now);
        let build_scene = match self.state {
            InitState::NotBootstrapped => engine_ready,
            _ => false,
        };
        let built = if build_scene {
            InitState::Bootstrapped
        } else {
            self.state
        };
        let glyphs = match built {
            InitState::Bootstrapped => {
                if font_ready {
                    Some(layout(text))
                } else {
                    None
                }
            },
            _ => None,
        };
        let render = match built {
            InitState::NotBootstrapped => false,
            _ => true,
        };
        Some(FramePlan { delta_micros: delta, build_scene, glyphs, render })
    }

    /// Records that the scene was built. Does nothing once it exists.
    pub fn bootstrap_finished(&mut self)
        ensures
            final(self).init_state() == old(self).init_state().after_bootstrap_attempt(true),
            final(self).last_tick() == old(self).last_tick(),
            final(self).is_cancelled() == old(self).is_cancelled(),
    {
        if let InitState::NotBootstrapped = self.state {
            self.state = InitState::Bootstrapped;
        }
    }

    /// Records that all glyphs were attached. Does nothing before the scene exists or
    /// once the glyphs are there.
    pub fn populate_finished(&mut self)
        ensures
            final(self).init_state() == old(self).init_state().after_populate_attempt(true),
            final(self).last_tick() == old(self).last_tick(),
            final(self).is_cancelled() == old(self).is_cancelled(),
    {
        if let InitState::Bootstrapped = self.state {
            self.state = InitState::GlyphsPopulated;
        }
    }

    /// The size to give the camera and the render surface when the viewport becomes
    /// `width` by `height`; `None` before the scene exists, when the resize is dropped.
    pub fn resize_target(&self, width: u32, height: u32) -> (v: Option<Viewport>)
        ensures
            v is Some <==> self.init_state().has_scene(),
            v matches Some(size) ==> size.width == width && size.height == height,
    {
        match self.state {
            InitState::NotBootstrapped => None,
            _ => Some(Viewport { width, height }),
        }
    }

    /// Stops the frame loop: every later tick does nothing.
    pub fn cancel(&mut self)
        ensures
            final(self).is_cancelled(),
            final(self).init_state() == old(self).init_state(),
            final(self).last_tick() == old(self).last_tick(),
    {
        self.cancelled = true;
    }
}

} // verus!
