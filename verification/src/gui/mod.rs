//! The state of the terminal interface's widgets: what each key press does
//! to them, apart from how they are drawn.
pub mod app;
pub mod events;
pub mod hints;
pub mod widgets;
pub mod windows;
