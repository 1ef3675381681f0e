//! Engine orchestration.
//!
//! The engine owns the frame clock, the input aggregator and, once the
//! platform has produced one, the renderer model; a game capability plugs in
//! through the [`Game`] trait and is driven by the engine, never the reverse.
//! The platform event loop stays outside the verified core: it forwards
//! resize, input and redraw events into the engine and executes the returned
//! [`RenderPlan`]s against the graphics device.

use vstd::prelude::*;
use crate::clock::FrameClock;
use crate::input::input::{input_boundary, Input};
use crate::renderer::{ClearColor, GeometrySlot, RenderPlan, Renderer, RendererBackends, SurfaceConfig};

verus! {

/// Default red channel of the clear color, in thousandths.
pub const DEFAULT_CLEAR_R_MILLI: u32 = 471;

/// Default green channel of the clear color, in thousandths.
pub const DEFAULT_CLEAR_G_MILLI: u32 = 980;

/// Default blue channel of the clear color, in thousandths.
pub const DEFAULT_CLEAR_B_MILLI: u32 = 345;

/// The capability a pluggable game implements. For the lifetime of one run
/// the engine calls `on_init` exactly once, after the renderer exists and
/// before anything else; then, per tick, `on_update` zero or more times —
/// once per drained fixed step — followed by `on_draw` exactly once.
pub trait Game {
    /// Called once, right before the freshly acquired renderer is installed.
    fn on_init(&mut self, renderer: &mut Renderer);

    /// Called once per drained fixed step with the step length in
    /// microseconds and a read-only view of the tick's input edge state.
    fn on_update(&mut self, dt_micros: u64, input: &Input);

    /// Called exactly once per tick, after all of the tick's updates, to
    /// issue setter calls against the renderer.
    fn on_draw(&mut self, renderer: &mut Renderer);
}

/// The orchestrator: a game capability, the window configuration it was asked
/// for, the input devices, the frame clock, and the renderer model once the
/// platform handshake has produced one.
pub struct Engine<G> {
    pub game: G,
    pub title: String,
    pub width: u32,
    pub height: u32,
    pub backend: RendererBackends,
    pub input: Input,
    pub clock: FrameClock,
    pub renderer: Option<Renderer>,
    pub clear_color: ClearColor,
}

impl<G: Game> Engine<G> {
    /// An engine around `game`, not yet resumed: no renderer, a default
    /// clock, fresh input state, and the default clear color.
    pub fn new(game: G, title: &str, width: u32, height: u32, backend: RendererBackends) -> (engine:
        Engine<G>)
        ensures
            engine.title@ == title@,
            engine.width == width,
            engine.height == height,
            engine.backend == backend,
            engine.renderer is None,
            engine.clock.wf(),
            engine.clock.last_update is None,
            engine.clock.accumulator == 0,
            engine.clock.step == crate::clock::DEFAULT_STEP_MICROS,
            engine.clock.cap == crate::clock::DEFAULT_CAP_MICROS,
            engine.input.wf(),
            engine.input.keyboard matches Some(k) && k.pressed_keys@.len() == 0
                && k.last_pressed_keys@.len() == 0,
            engine.input.mouse matches Some(m) && m.pressed_buttons@.len() == 0
                && m.last_pressed_buttons@.len() == 0 && m.position == (0i32, 0i32)
                && m.last_position == (0i32, 0i32) && m.scroll_delta == 0,
            engine.clear_color == (ClearColor {
                r_milli: DEFAULT_CLEAR_R_MILLI,
                g_milli: DEFAULT_CLEAR_G_MILLI,
                b_milli: DEFAULT_CLEAR_B_MILLI,
                a_milli: crate::renderer::DEFAULT_CLEAR_ALPHA_MILLI,
            }),
            engine.clear_color.wf(),
    {
        Engine {
            game,
            title: title.to_owned(),
            width,
            height,
            backend,
            input: Input::new(),
            clock: FrameClock::new(),
            renderer: None,
            clear_color: ClearColor::rgb(
                DEFAULT_CLEAR_R_MILLI,
                DEFAULT_CLEAR_G_MILLI,
                DEFAULT_CLEAR_B_MILLI,
            ),
        }
    }

    /// Replaces the clear color used for every following tick's clear pass.
    pub fn set_clear_color(&mut self, color: ClearColor)
        requires
            color.wf(),
        ensures
            *final(self) == (Engine { clear_color: color, ..*old(self) }),
    {
        self.clear_color = color;
    }

    /// Installs the renderer the platform handshake produced, after handing
    /// it to the game's `on_init` once; the clock starts at `now_micros` so
    /// that startup time is not credited to the first tick. Requiring the
    /// renderer slot to be empty keeps `on_init` to exactly one call.
    pub fn install_renderer(&mut self, renderer: Renderer, now_micros: u64)
        requires
            old(self).renderer is None,
        ensures
            final(self).renderer is Some,
            final(self).clock == (FrameClock {
                last_update: Some(now_micros),
                ..old(self).clock
            }),
            final(self).input == old(self).input,
            final(self).title == old(self).title,
            final(self).width == old(self).width,
            final(self).height == old(self).height,
            final(self).backend == old(self).backend,
            final(self).clear_color == old(self).clear_color,
    {
        let mut r = renderer;
        self.game.on_init(&mut r);
        self.renderer = Some(r);
        self.clock.start(now_micros);
    }

    /// One tick at wall time `now_micros`: the clock drains zero or more
    /// fixed steps, the game's `on_update` runs once per drained step, its
    /// `on_draw` runs exactly once, the frame is described over whatever the
    /// renderer then holds, and the input tick boundary is advanced last. The
    /// returned plan is the tick's single frame.
    pub fn run_game_loop(&mut self, now_micros: u64) -> (plan: RenderPlan)
        requires
            old(self).renderer is Some,
            old(self).clock.wf(),
            old(self).input.wf(),
            old(self).clear_color.wf(),
        ensures
            final(self).clock == old(self).clock.spec_tick(now_micros),
            final(self).clock.wf(),
            input_boundary(old(self).input, final(self).input),
            final(self).input.wf(),
            final(self).renderer is Some,
            final(self).title == old(self).title,
            final(self).width == old(self).width,
            final(self).height == old(self).height,
            final(self).backend == old(self).backend,
            final(self).clear_color == old(self).clear_color,
            plan.clear == old(self).clear_color,
            final(self).renderer matches Some(r) ==> plan.bind_texture == (r.texture is Ready)
                && plan.bind_camera == (r.camera is Ready) && plan.indexed_draw == (match r.geometry {
                GeometrySlot::Ready { indices, .. } => Some(indices@.len() as usize),
                GeometrySlot::Unset => None::<usize>,
            }),
    {
        let updates = self.clock.tick(now_micros);
        let step = self.clock.step;

        let ghost snap = *self;
        let mut i: u64 = 0;
        while i < updates
            invariant
                i <= updates,
                self.clock == snap.clock,
                self.input == snap.input,
                self.renderer == snap.renderer,
                self.clear_color == snap.clear_color,
                self.title == snap.title,
                self.width == snap.width,
                self.height == snap.height,
                self.backend == snap.backend,
            decreases updates - i,
        {
            self.game.on_update(step, &self.input);
            i = i + 1;
        }

        let mut renderer = self.renderer.take().unwrap();
        self.game.on_draw(&mut renderer);
        let plan = renderer.render(self.clear_color);
        self.renderer = Some(renderer);
        self.input.update();
        plan
    }

    /// Forwards a size change to the renderer, if one exists yet; a zero
    /// dimension leaves the surface configuration unchanged.
    pub fn handle_resizing(&mut self, width: u32, height: u32)
        ensures
            old(self).renderer is None ==> *final(self) == *old(self),
            final(self).game == old(self).game,
            final(self).input == old(self).input,
            final(self).clock == old(self).clock,
            final(self).title == old(self).title,
            final(self).width == old(self).width,
            final(self).height == old(self).height,
            final(self).backend == old(self).backend,
            final(self).clear_color == old(self).clear_color,
            old(self).renderer matches Some(r) ==> final(self).renderer matches Some(r2) && (
            width > 0 && height > 0 ==> r2 == (Renderer {
                config: (SurfaceConfig { width, height, format_srgb: r.config.format_srgb }),
                ..r
            })) && (!(width > 0 && height > 0) ==> r2 == r),
    {
        let renderer = self.renderer.take();
        match renderer {
            Some(mut r) => {
                r.resize(width, height);
                self.renderer = Some(r);
            },
            None => {},
        }
    }
}

} // verus!
