mod errors;
mod window;

pub use errors::WindowError;
pub use window::{ButtonState, Key, MouseButton, Window, WindowConfig, WindowEvent};
