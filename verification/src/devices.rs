pub mod console;
pub mod mouse;
pub mod screen;
pub mod system;

pub use console::{console, ConsoleDevice};
pub use mouse::{mouse, mouse_down, mouse_pos, mouse_up, MouseDevice};
pub use screen::{screen, Rgb, Screen, ScreenDevice};
pub use system::{palette, system, SystemDevice};
