pub mod input;
pub use input::Input;

pub mod keyboard;
pub mod mouse;

pub use keyboard::Keyboard;
pub use mouse::Mouse;
