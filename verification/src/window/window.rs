//! Platform-neutral window types: the configuration record consumed at window
//! creation, the events a window yields, and the trait a windowing backend
//! implements. Mouse coordinates are whole pixels.

use vstd::prelude::*;
use super::errors::WindowError;

verus! {

/// Keys the engine distinguishes.
#[derive(Debug, Clone, Copy, PartialEq, Eq, Structural)]
pub enum Key {
    A,
    B,
    C,
    D,
    E,
    Escape,
    Return,
    Space,
}

/// Mouse buttons the engine distinguishes.
#[derive(Debug, Clone, Copy, PartialEq, Eq, Structural)]
pub enum MouseButton {
    Left,
    Right,
    Middle,
}

/// Whether a key or button went down or up.
#[derive(Debug, Clone, Copy, PartialEq, Eq, Structural)]
pub enum ButtonState {
    Pressed,
    Released,
}

/// Events a window reports to the engine. Mouse positions are in whole pixels
/// from the window's upper-left corner.
#[derive(Debug, Clone, Copy)]
pub enum WindowEvent {
    Resized(u32, u32),
    Closed,
    KeyPressed(Key),
    KeyReleased(Key),
    MouseMoved(i32, i32),
    MouseButtonPressed(MouseButton),
}

/// Options consumed once at window creation.
#[derive(Debug)]
pub struct WindowConfig {
    pub title: String,
    pub width: u32,
    pub height: u32,
    pub resizable: bool,
    pub vsync: bool,
    pub fullscreen: bool,
}

impl WindowConfig {
    /// A configuration with the given title and size; resizable with vsync,
    /// windowed rather than fullscreen.
    pub fn new(title: &str, width: u32, height: u32) -> (config: WindowConfig)
        ensures
            config.title@ == title@,
            config.width == width,
            config.height == height,
            config.resizable,
            config.vsync,
            !config.fullscreen,
    {
        WindowConfig {
            title: title.to_owned(),
            width,
            height,
            resizable: true,
            vsync: true,
            fullscreen: false,
        }
    }

    /// The same configuration with `resizable` replaced.
    pub fn resizable(self, resizable: bool) -> (config: WindowConfig)
        ensures
            config == (WindowConfig { resizable, ..self }),
    {
        WindowConfig { resizable, ..self }
    }

    /// The same configuration with `vsync` replaced.
    pub fn vsync(self, vsync: bool) -> (config: WindowConfig)
        ensures
            config == (WindowConfig { vsync, ..self }),
    {
        WindowConfig { vsync, ..self }
    }
}

/// What a windowing backend provides. The engine drives a window only through
/// this trait; a backend over a real platform lives outside the verified core.
pub trait Window where Self: Sized {
    fn create(config: WindowConfig) -> Result<Self, WindowError>;

    fn poll_events(&mut self) -> Vec<WindowEvent>;

    fn set_title(&mut self, title: &str);

    fn get_title(&self) -> &str;

    fn set_size(&mut self, width: u32, height: u32);

    fn get_size(&self) -> (u32, u32);

    fn set_position(&mut self, x: i32, y: i32);

    fn get_position(&self) -> (i32, i32);

    fn set_fullscreen(&mut self, fullscreen: bool);

    fn is_fullscreen(&self) -> bool;

    fn set_visible(&mut self, visible: bool);

    fn is_visible(&self) -> bool;

    fn is_open(&self) -> bool;

    fn close(&mut self);

    fn request_redraw(&mut self);
}

} // verus!
