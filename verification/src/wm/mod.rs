pub mod actions;
pub mod grabs;
pub mod history;
pub mod laws;
pub mod manager;
pub mod resize;

pub use actions::WindowAction;
pub use grabs::GrabState;
pub use manager::WindowManager;
