pub mod xwayland;

pub use xwayland::X11State;
