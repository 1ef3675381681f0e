use bine::clock::DEFAULT_STEP_MICROS;
use bine::engine::{Engine, Game};
use bine::input::Input;
use bine::renderer::{ClearColor, GeometrySlot, Renderer, RendererBackends};

/// A game that only counts how the engine drives it.
struct CountingGame {
    inits: u32,
    updates: u32,
    draws: u32,
    last_dt: u64,
}

impl CountingGame {
    fn new() -> CountingGame {
        CountingGame { inits: 0, updates: 0, draws: 0, last_dt: 0 }
    }
}

impl Game for CountingGame {
    fn on_init(&mut self, _renderer: &mut Renderer) {
        self.inits += 1;
    }

    fn on_update(&mut self, dt_micros: u64, _input: &Input) {
        self.updates += 1;
        self.last_dt = dt_micros;
    }

    fn on_draw(&mut self, _renderer: &mut Renderer) {
        self.draws += 1;
    }
}

/// A game that binds a triangle during its draw callback.
struct TriangleGame;

impl Game for TriangleGame {
    fn on_init(&mut self, _renderer: &mut Renderer) {}

    fn on_update(&mut self, _dt_micros: u64, _input: &Input) {}

    fn on_draw(&mut self, renderer: &mut Renderer) {
        if matches!(renderer.geometry, GeometrySlot::Unset) {
            renderer
                .set_geometry(vec![0u8; 12], vec![0u16, 1, 2])
                .expect("non-empty geometry is accepted");
        }
    }
}

#[test]
fn on_init_runs_exactly_once_when_the_renderer_arrives() {
    let mut engine = Engine::new(CountingGame::new(), "demo", 800, 600, RendererBackends::Metal);
    assert!(engine.renderer.is_none());
    assert_eq!(engine.game.inits, 0);

    engine.install_renderer(Renderer::new(800, 600, true), 0);
    assert!(engine.renderer.is_some());
    assert_eq!(engine.game.inits, 1);
    assert_eq!(engine.game.updates, 0);
    assert_eq!(engine.game.draws, 0);
}

#[test]
fn a_fresh_engine_has_fresh_input() {
    let engine = Engine::new(CountingGame::new(), "demo", 640, 480, RendererBackends::Metal);
    assert!(!engine.input.is_key_pressed(bine::window::Key::A));
    assert!(!engine.input.is_key_released(bine::window::Key::A));
    assert!(!engine.input.is_key_held_down(bine::window::Key::A));
    let mouse = engine.input.mouse.as_ref().unwrap();
    assert_eq!(mouse.position(), (0, 0));
    assert_eq!(mouse.position_delta(), (0, 0));
    assert_eq!(mouse.scroll_delta(), 0);
}

#[test]
fn each_tick_draws_once_and_updates_per_drained_step() {
    let mut engine = Engine::new(CountingGame::new(), "demo", 800, 600, RendererBackends::Vulkan);
    engine.install_renderer(Renderer::new(800, 600, true), 1_000);

    // The same elapsed pattern as the clock scenario: 0, 16 ms, 16 ms, 300 ms.
    engine.run_game_loop(1_000);
    assert_eq!(engine.game.updates, 0);
    assert_eq!(engine.game.draws, 1); // a tick with zero updates still draws once

    engine.run_game_loop(17_000);
    assert_eq!(engine.game.updates, 0);
    assert_eq!(engine.game.draws, 2);

    engine.run_game_loop(33_000);
    assert_eq!(engine.game.updates, 1);
    assert_eq!(engine.game.draws, 3);
    assert_eq!(engine.game.last_dt, DEFAULT_STEP_MICROS);

    engine.run_game_loop(333_000);
    assert_eq!(engine.game.updates, 11); // ten more, the stalled rest discarded
    assert_eq!(engine.game.draws, 4);
    assert_eq!(engine.clock.accumulator, 0);
}

#[test]
fn the_plan_reflects_what_the_game_bound_during_draw() {
    let mut engine = Engine::new(TriangleGame, "demo", 640, 480, RendererBackends::OpenGL);
    engine.install_renderer(Renderer::new(640, 480, false), 0);

    let plan = engine.run_game_loop(5_000);
    assert_eq!(plan.indexed_draw, Some(3));
    assert!(!plan.bind_texture);
    assert!(!plan.bind_camera);
}

#[test]
fn the_clear_color_is_configurable_with_a_default() {
    let mut engine = Engine::new(CountingGame::new(), "demo", 640, 480, RendererBackends::Dx12);
    engine.install_renderer(Renderer::new(640, 480, true), 0);
    let plan = engine.run_game_loop(1_000);
    assert_eq!(plan.clear, engine.clear_color);

    engine.set_clear_color(ClearColor::new(10, 20, 30, 1_000));
    let plan = engine.run_game_loop(2_000);
    assert_eq!(plan.clear, ClearColor::new(10, 20, 30, 1_000));
}

#[test]
fn resizing_reaches_the_renderer_and_zero_is_ignored() {
    let mut engine = Engine::new(CountingGame::new(), "demo", 640, 480, RendererBackends::Metal);
    engine.handle_resizing(100, 100); // no renderer yet: nothing to do
    engine.install_renderer(Renderer::new(640, 480, true), 0);

    engine.handle_resizing(1_280, 720);
    let config = engine.renderer.as_ref().unwrap().config;
    assert_eq!((config.width, config.height), (1_280, 720));

    engine.handle_resizing(0, 9_999); // minimized: keep the old configuration
    let config = engine.renderer.as_ref().unwrap().config;
    assert_eq!((config.width, config.height), (1_280, 720));
}

#[test]
fn input_edges_advance_once_per_tick_after_the_draw() {
    let mut engine = Engine::new(CountingGame::new(), "demo", 640, 480, RendererBackends::Metal);
    engine.install_renderer(Renderer::new(640, 480, true), 0);

    engine.handle_resizing(640, 480);
    engine
        .input
        .handle_keyboard_event(bine::window::Key::Space, bine::window::ButtonState::Pressed);
    assert!(engine.input.is_key_pressed(bine::window::Key::Space));

    engine.run_game_loop(1_000);
    // The boundary ran at the end of the tick: the edge is consumed.
    assert!(!engine.input.is_key_pressed(bine::window::Key::Space));
    assert!(engine.input.is_key_released(bine::window::Key::Space));
}
